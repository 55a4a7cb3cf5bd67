//! The schema a shuffle partition's rows conform to: an ordered sequence of
//! named, typed columns, fixed when the plan is built and identical for every
//! partition the operator yields.

use vstd::prelude::*;

verus! {

/// The type of one column. The operator never interprets column values, so
/// only the tags the enclosing plans exchange are modelled.
#[derive(Clone, Copy, Debug, PartialEq, Eq, Structural)]
pub enum DataType {
    Boolean,
    Int32,
    Int64,
    Utf8,
}

/// One column: a name and the type of its values.
#[derive(Clone, Debug)]
pub struct Field {
    pub name: String,
    pub data_type: DataType,
}

impl Field {
    /// A copy of this field, equal to it as a value.
    pub fn duplicate(&self) -> (r: Field)
        ensures
            r == *self,
    {
        Field { name: self.name.clone(), data_type: self.data_type }
    }
}

/// An ordered sequence of columns. Well-formed schemas are non-empty: a
/// shuffle partition always carries at least one column.
#[derive(Clone, Debug)]
pub struct Schema {
    pub fields: Vec<Field>,
}

impl Schema {
    /// A schema is well-formed when it declares at least one column.
    pub open spec fn well_formed(self) -> bool {
        self.fields@.len() > 0
    }

    /// Builds a schema from its columns.
    pub fn new(fields: Vec<Field>) -> (r: Schema)
        ensures
            r.fields@ == fields@,
    {
        Schema { fields }
    }

    /// The number of columns.
    pub fn len(&self) -> (r: usize)
        ensures
            r == self.fields@.len(),
    {
        self.fields.len()
    }

    /// A copy of this schema whose columns equal this one's, in order.
    pub fn duplicate(&self) -> (r: Schema)
        ensures
            r.fields@ == self.fields@,
    {
        let mut fields: Vec<Field> = Vec::new();
        let mut i: usize = 0;
        while i < self.fields.len()
            invariant
                i <= self.fields@.len(),
                fields@ == self.fields@.take(i as int),
            decreases self.fields@.len() - i,
        {
            fields.push(self.fields[i].duplicate());
            proof {
                assert(fields@ =~= self.fields@.take(i + 1 as int));
            }
            i = i + 1;
        }
        proof {
            assert(self.fields@.take(self.fields@.len() as int) =~= self.fields@);
        }
        Schema { fields }
    }
}

} // verus!
