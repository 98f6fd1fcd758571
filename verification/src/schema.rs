//! The schema descriptor: the ordered list of the named fields of an account
//! context.

use vstd::prelude::*;

verus! {

/// Why a schema is refused.
#[derive(Debug, Clone, Copy, PartialEq, Eq, Structural)]
pub enum SchemaError {
    /// The schema already has a field of that name.
    DuplicateName,
    /// The fields stand for more account list entries than a list can hold.
    CountOverflow,
}

struct NamedField<T> {
    name: String,
    kind: T,
}

/// An ordered list of named fields; `T` is what stands for the type of a
/// field.
///
/// The order of registration is the declaration order of the fields, and it
/// is the order in which every composed procedure visits them. A schema only
/// grows, and no two of its fields share a name.
pub struct Schema<T> {
    fields: Vec<NamedField<T>>,
}

impl<T> View for Schema<T> {
    type V = Seq<(Seq<char>, T)>;

    /// The fields in declaration order, each as its name and what stands for
    /// its type.
    closed spec fn view(&self) -> Seq<(Seq<char>, T)> {
        self.fields@.map_values(|field: NamedField<T>| (field.name@, field.kind))
    }
}

impl<T> Schema<T> {
    /// The names of the fields, in declaration order.
    pub open spec fn names(&self) -> Seq<Seq<char>> {
        self@.map_values(|field: (Seq<char>, T)| field.0)
    }

    /// What stands for the types of the fields, in declaration order.
    pub open spec fn kinds(&self) -> Seq<T> {
        self@.map_values(|field: (Seq<char>, T)| field.1)
    }

    /// No two fields share a name.
    #[verifier::type_invariant]
    pub open spec fn wf(self) -> bool {
        self.names().no_duplicates()
    }

    /// The schema without fields.
    pub fn new() -> (schema: Self)
        ensures
            schema@ == Seq::<(Seq<char>, T)>::empty(),
            schema.wf(),
    {
        Schema { fields: Vec::new() }
    }

    /// The number of fields.
    pub fn len(&self) -> (n: usize)
        ensures
            n == self@.len(),
    {
        self.fields.len()
    }

    /// The position of the field called `name`, if there is one.
    pub fn index_of(&self, name: &String) -> (found: Option<usize>)
        ensures
            match found {
                Some(index) => index < self@.len() && self.names()[index as int] == name@,
                None => !self.names().contains(name@),
            },
    {
        let mut index: usize = 0;
        while index < self.fields.len()
            invariant
                index <= self.fields.len(),
                forall|i: int| 0 <= i < index ==> self.names()[i] != name@,
            decreases self.fields.len() - index,
        {
            if self.fields[index].name == *name {
                return Some(index);
            }
            index = index + 1;
        }
        None
    }

    /// Appends a field, unless the schema has a field of that name already.
    pub fn register(&mut self, name: String, kind: T) -> (done: Result<(), SchemaError>)
        ensures
            old(self).names().contains(name@) ==> {
                &&& done == Err::<(), SchemaError>(SchemaError::DuplicateName)
                &&& final(self)@ == old(self)@
            },
            !old(self).names().contains(name@) ==> {
                &&& done is Ok
                &&& final(self)@ == old(self)@.push((name@, kind))
            },
            final(self).wf(),
    {
        proof {
            use_type_invariant(&*self);
        }
        if self.index_of(&name).is_some() {
            return Err(SchemaError::DuplicateName);
        }
        let ghost names_before = self.names();
        let mut fields: Vec<NamedField<T>> = Vec::new();
        core::mem::swap(&mut self.fields, &mut fields);
        fields.push(NamedField { name, kind });
        proof {
            let next = Schema { fields };
            assert(next.names() == names_before.push(name@));
        }
        self.fields = fields;
        Ok(())
    }

    /// What stands for the type of the field at `index`, which the schema
    /// has.
    pub(crate) fn field_at(&self, index: usize) -> (kind: &T)
        requires
            index < self@.len(),
        ensures
            *kind == self.kinds()[index as int],
            *kind == self@[index as int].1,
    {
        &self.fields[index].kind
    }

    /// The name of the field at `index`, which the schema has.
    pub(crate) fn name_at(&self, index: usize) -> (name: &String)
        requires
            index < self@.len(),
        ensures
            name@ == self.names()[index as int],
            name@ == self@[index as int].0,
    {
        &self.fields[index].name
    }

    /// The name of the field at `index`.
    pub fn name(&self, index: usize) -> (name: Option<&String>)
        ensures
            index < self@.len() ==> name is Some && name->Some_0@ == self.names()[index as int],
            index >= self@.len() ==> name is None,
    {
        if index < self.fields.len() {
            Some(&self.fields[index].name)
        } else {
            None
        }
    }

    /// What stands for the type of the field at `index`.
    pub fn kind(&self, index: usize) -> (kind: Option<&T>)
        ensures
            index < self@.len() ==> kind == Some(&self.kinds()[index as int]),
            index >= self@.len() ==> kind is None,
    {
        if index < self.fields.len() {
            Some(&self.fields[index].kind)
        } else {
            None
        }
    }
}

} // verus!
