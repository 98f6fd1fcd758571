//! A field whose behaviour is written down as plain data.
//!
//! What it counts for, how many entries it takes and where it fails are
//! chosen by whoever builds it, and what it did can be read off its values,
//! its entries and the storage. It shows how the obligations of the
//! capability interface are met, and it serves to exercise a composition.

use vstd::prelude::*;
use vstd::slice::slice_to_vec;
use crate::capability::{FieldCapability, Outcome, Written};
use crate::cursor::Cursor;

verus! {

/// What a scripted field fails with.
#[derive(Debug, Clone, Copy, PartialEq, Eq, Structural)]
pub enum Fault {
    /// The account list holds fewer entries than the field takes.
    NotEnoughAccounts,
    /// The field was told to fail, with this code.
    Code(u64),
}

/// The metadata entry that a scripted field emits for one account.
#[derive(Debug, Clone, Copy, PartialEq, Eq, Structural)]
pub struct Entry {
    /// The tag of the field that emitted the entry.
    pub field: u64,
    /// The account that the entry describes.
    pub account: u64,
}

/// A field that follows a script.
///
/// Account handles, program identifiers, instruction data and dependencies
/// are plain numbers. The field materializes into the handles that it took;
/// the storage is a log, to which the field appends its tag and its value.
pub struct Scripted {
    /// Marks what the field emits and writes.
    pub tag: u64,
    /// What the field counts for.
    pub count: usize,
    /// How many entries a parse and a serialization take from the cursor.
    pub takes: usize,
    /// What the field depends on.
    pub dependencies: Vec<u64>,
    /// The code with which a parse fails, before it takes anything.
    pub fail_parse: Option<u64>,
    /// The code with which a serialization fails, before it takes anything.
    pub fail_serialize: Option<u64>,
    /// The code with which a persist fails, after it has written.
    pub fail_persist: Option<u64>,
}

impl Scripted {
    /// A field that takes as many entries as it counts for, depends on
    /// nothing and never fails.
    pub fn new(tag: u64, count: usize) -> (field: Self)
        ensures
            field.tag == tag,
            field.count == count,
            field.takes == count,
            field.dependencies@ == Seq::<u64>::empty(),
            field.fail_parse is None,
            field.fail_serialize is None,
            field.fail_persist is None,
    {
        Scripted {
            tag,
            count,
            takes: count,
            dependencies: Vec::new(),
            fail_parse: None,
            fail_serialize: None,
            fail_persist: None,
        }
    }

    /// The entries that the field emits for `accounts`: one for each, under
    /// the tag of the field.
    pub open spec fn entries(&self, accounts: Seq<u64>) -> Seq<Entry> {
        Seq::new(accounts.len(), |i: int| Entry { field: self.tag, account: accounts[i] })
    }
}

impl FieldCapability for Scripted {
    type ProgramId = u64;

    type Data = u64;

    type Account = u64;

    type Value = Vec<u64>;

    type Meta = Entry;

    type Dependency = u64;

    type Storage = Vec<u64>;

    type Error = Fault;

    open spec fn count_spec(&self) -> nat {
        self.count as nat
    }

    open spec fn dependencies_spec(&self) -> Seq<u64> {
        self.dependencies@
    }

    open spec fn parse_spec(&self, program_id: u64, data: u64, remaining: Seq<u64>) -> Outcome<
        Seq<u64>,
        Fault,
    > {
        match self.fail_parse {
            Some(code) => Outcome { result: Err(Fault::Code(code)), taken: 0 },
            None => if self.takes <= remaining.len() {
                Outcome { result: Ok(remaining.take(self.takes as int)), taken: self.takes as nat }
            } else {
                Outcome { result: Err(Fault::NotEnoughAccounts), taken: 0 }
            },
        }
    }

    open spec fn serialize_spec(&self, remaining: Seq<u64>) -> Outcome<Seq<Entry>, Fault> {
        match self.fail_serialize {
            Some(code) => Outcome { result: Err(Fault::Code(code)), taken: 0 },
            None => if self.takes <= remaining.len() {
                Outcome {
                    result: Ok(self.entries(remaining.take(self.takes as int))),
                    taken: self.takes as nat,
                }
            } else {
                Outcome { result: Err(Fault::NotEnoughAccounts), taken: 0 }
            },
        }
    }

    open spec fn persist_spec(&self, value: Seq<u64>, program_id: u64, storage: Seq<u64>) -> Written<
        Seq<u64>,
        Fault,
    > {
        Written {
            result: match self.fail_persist {
                Some(code) => Err(Fault::Code(code)),
                None => Ok(()),
            },
            storage: storage.push(self.tag) + value,
        }
    }

    fn count(&self) -> (n: usize) {
        self.count
    }

    fn dependencies(&self) -> (deps: Vec<u64>) {
        let mut deps: Vec<u64> = Vec::new();
        let mut index: usize = 0;
        while index < self.dependencies.len()
            invariant
                index <= self.dependencies@.len(),
                deps@ == self.dependencies@.take(index as int),
            decreases self.dependencies@.len() - index,
        {
            deps.push(self.dependencies[index]);
            index = index + 1;
        }
        deps
    }

    fn parse<'a>(&self, program_id: &u64, cursor: &mut Cursor<'a, u64>, data: &u64) -> (value:
        Result<Vec<u64>, Fault>) {
        if let Some(code) = self.fail_parse {
            return Err(Fault::Code(code));
        }
        match cursor.take(self.takes) {
            Some(entries) => Ok(slice_to_vec(entries)),
            None => Err(Fault::NotEnoughAccounts),
        }
    }

    fn serialize_partial<'a>(&self, cursor: &mut Cursor<'a, u64>) -> (metas: Result<
        Vec<Entry>,
        Fault,
    >) {
        if let Some(code) = self.fail_serialize {
            return Err(Fault::Code(code));
        }
        match cursor.take(self.takes) {
            Some(accounts) => {
                let mut metas: Vec<Entry> = Vec::new();
                let mut index: usize = 0;
                while index < accounts.len()
                    invariant
                        index <= accounts@.len(),
                        metas@ == self.entries(accounts@.take(index as int)),
                    decreases accounts@.len() - index,
                {
                    metas.push(Entry { field: self.tag, account: accounts[index] });
                    index = index + 1;
                }
                proof {
                }
                Ok(metas)
            },
            None => Err(Fault::NotEnoughAccounts),
        }
    }

    fn persist(&self, value: &Vec<u64>, program_id: &u64, storage: &mut Vec<u64>) -> (done: Result<
        (),
        Fault,
    >) {
        let ghost start = storage@;
        storage.push(self.tag);
        let mut index: usize = 0;
        while index < value.len()
            invariant
                index <= value@.len(),
                storage@ == start.push(self.tag) + value@.take(index as int),
            decreases value@.len() - index,
        {
            storage.push(value[index]);
            index = index + 1;
        }
        proof {
            assert(value@.take(index as int) == value@);
        }
        match self.fail_persist {
            Some(code) => Err(Fault::Code(code)),
            None => Ok(()),
        }
    }
}

} // verus!
