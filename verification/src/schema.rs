use vstd::prelude::*;

use crate::types::str_eq;
use crate::types::Type;

verus! {

/// One column of a schema: its name, its symbolic type, and whether its
/// values may be absent.
#[derive(Debug)]
pub struct Attribute {
    pub name: String,
    pub dtype: Type,
    pub nullable: bool,
}

impl View for Attribute {
    type V = (Seq<char>, Type, bool);

    open spec fn view(&self) -> (Seq<char>, Type, bool) {
        (self.name@, self.dtype, self.nullable)
    }
}

impl Clone for Attribute {
    fn clone(&self) -> (r: Self)
        ensures
            r@ == self@,
    {
        Attribute { name: self.name.clone(), dtype: self.dtype, nullable: self.nullable }
    }
}

/// Ordered mapping from column name to symbolic type: the output shape of a
/// cursor or a stored table, and the compatibility contract between a parent
/// operation and its children.
#[derive(Debug)]
pub struct Schema {
    pub attrs: Vec<Attribute>,
}

impl View for Schema {
    type V = Seq<(Seq<char>, Type, bool)>;

    open spec fn view(&self) -> Seq<(Seq<char>, Type, bool)> {
        self.attrs@.map_values(|a: Attribute| a@)
    }
}

impl Schema {
    /// A schema with no columns yet.
    pub fn new() -> (s: Schema)
        ensures
            s@ == Seq::<(Seq<char>, Type, bool)>::empty(),
    {
        let s = Schema { attrs: Vec::new() };
        proof {
            assert(s@ =~= Seq::<(Seq<char>, Type, bool)>::empty());
        }
        s
    }

    /// Appends one column.
    pub fn push(&mut self, a: Attribute)
        ensures
            final(self)@ == old(self)@.push(a@),
    {
        self.attrs.push(a);
        proof {
            assert(self@ =~= old(self)@.push(a@));
        }
    }

    /// The number of columns.
    pub fn len(&self) -> (n: usize)
        ensures
            n == self@.len(),
    {
        self.attrs.len()
    }
}

impl Clone for Schema {
    fn clone(&self) -> (r: Self)
        ensures
            r@ == self@,
    {
        let mut attrs: Vec<Attribute> = Vec::new();
        let mut i: usize = 0;
        while i < self.attrs.len()
            invariant
                i <= self.attrs@.len(),
                attrs@.len() == i,
                forall|j: int| 0 <= j < i ==> attrs@[j]@ == self.attrs@[j]@,
            decreases self.attrs@.len() - i,
        {
            attrs.push(self.attrs[i].clone());
            i += 1;
        }
        let r = Schema { attrs };
        proof {
            assert(r@ =~= self@);
        }
        r
    }
}

/// Whether two schemas describe the same output shape: the same columns, in
/// the same order, with the same names, types, and nullability.
pub fn schema_eq(a: &Schema, b: &Schema) -> (r: bool)
    ensures
        r == (a@ == b@),
{
    let n = a.attrs.len();
    if n != b.attrs.len() {
        proof {
            assert(a@.len() != b@.len());
        }
        return false;
    }
    let mut i: usize = 0;
    while i < n
        invariant
            n == a.attrs@.len(),
            n == b.attrs@.len(),
            i <= n,
            forall|j: int| 0 <= j < i ==> a@[j] == b@[j],
        decreases n - i,
    {
        let x = &a.attrs[i];
        let y = &b.attrs[i];
        if !str_eq(x.name.as_str(), y.name.as_str()) {
            proof {
                assert(a@[i as int].0 != b@[i as int].0);
            }
            return false;
        }
        if x.dtype != y.dtype {
            proof {
                assert(a@[i as int].1 != b@[i as int].1);
            }
            return false;
        }
        if x.nullable != y.nullable {
            proof {
                assert(a@[i as int].2 != b@[i as int].2);
            }
            return false;
        }
        i += 1;
    }
    proof {
        assert(a@ =~= b@);
    }
    true
}

} // verus!
