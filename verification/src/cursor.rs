//! The account list cursor: a forward-only position into a borrowed list of
//! account handles.

use vstd::prelude::*;

verus! {

/// What a cursor is, mathematically: the whole list it walks, and how many
/// entries have been handed out so far.
pub struct CursorView<A> {
    pub accounts: Seq<A>,
    pub position: nat,
}

impl<A> CursorView<A> {
    /// The entries that have not been handed out yet, in order.
    pub open spec fn remaining(self) -> Seq<A> {
        self.accounts.skip(self.position as int)
    }

    /// The same list, `n` entries further on.
    pub open spec fn advance(self, n: nat) -> Self {
        CursorView { accounts: self.accounts, position: self.position + n }
    }

    /// A position never lies beyond the end of the list.
    pub open spec fn wf(self) -> bool {
        self.position <= self.accounts.len()
    }
}

/// A forward-only position into an ordered list of account handles.
///
/// One cursor is shared, by exclusive reference, by all the field operations
/// of one composed call. It can only move forward, one entry at a time, and
/// never past the end of the list.
pub struct Cursor<'a, A> {
    accounts: &'a [A],
    position: usize,
}

impl<'a, A> View for Cursor<'a, A> {
    type V = CursorView<A>;

    closed spec fn view(&self) -> CursorView<A> {
        CursorView { accounts: self.accounts@, position: self.position as nat }
    }
}

impl<'a, A> Cursor<'a, A> {
    #[verifier::type_invariant]
    pub open spec fn wf(self) -> bool {
        self@.wf()
    }

    /// A cursor at the start of `accounts`.
    pub fn new(accounts: &'a [A]) -> (cursor: Self)
        ensures
            cursor@ == (CursorView { accounts: accounts@, position: 0 }),
            cursor.wf(),
    {
        Cursor { accounts, position: 0 }
    }

    /// Hands out the next entry and moves one step forward; at the end of the
    /// list, hands out nothing and stays.
    pub fn next(&mut self) -> (entry: Option<&'a A>)
        ensures
            final(self)@.accounts == old(self)@.accounts,
            old(self)@.position < old(self)@.accounts.len() ==> {
                &&& entry == Some(&old(self)@.accounts[old(self)@.position as int])
                &&& final(self)@.position == old(self)@.position + 1
            },
            old(self)@.position >= old(self)@.accounts.len() ==> {
                &&& entry is None
                &&& final(self)@ == old(self)@
            },
    {
        proof {
            use_type_invariant(&*self);
        }
        if self.position < self.accounts.len() {
            let entry = &self.accounts[self.position];
            self.position = self.position + 1;
            Some(entry)
        } else {
            None
        }
    }

    /// Hands out the next `n` entries at once and moves past them; where
    /// fewer are left, hands out nothing and stays.
    pub fn take(&mut self, n: usize) -> (entries: Option<&'a [A]>)
        ensures
            final(self)@.accounts == old(self)@.accounts,
            n <= old(self)@.remaining().len() ==> {
                &&& entries is Some
                &&& entries->Some_0@ == old(self)@.remaining().take(n as int)
                &&& final(self)@ == old(self)@.advance(n as nat)
            },
            n > old(self)@.remaining().len() ==> {
                &&& entries is None
                &&& final(self)@ == old(self)@
            },
    {
        proof {
            use_type_invariant(&*self);
        }
        if n <= self.accounts.len() - self.position {
            let end = self.position + n;
            let entries = &self.accounts[self.position..end];
            self.position = end;
            Some(entries)
        } else {
            None
        }
    }

    /// How many entries have been handed out.
    pub fn position(&self) -> (n: usize)
        ensures
            n == self@.position,
            self@.wf(),
    {
        proof {
            use_type_invariant(self);
        }
        self.position
    }

    /// How many entries are left.
    pub fn remaining(&self) -> (n: usize)
        ensures
            n == self@.remaining().len(),
            n == self@.accounts.len() - self@.position,
    {
        proof {
            use_type_invariant(self);
        }
        self.accounts.len() - self.position
    }
}

} // verus!
