//! A plain model of a stored document: the named fields the repository
//! logic reads, each holding one of the value kinds it distinguishes.

use vstd::prelude::*;
use crate::object_id::ItemId;

verus! {

/// One stored value, as far as the repository logic tells values apart.
/// Every kind it never reads is folded into `Other`.
#[derive(Clone, PartialEq, Debug)]
pub enum BsonValue {
    ObjectId(ItemId),
    Text(String),
    Int32(i32),
    Other,
}

/// One named field of a document.
#[derive(Clone, PartialEq, Debug)]
pub struct Field {
    pub name: String,
    pub value: BsonValue,
}

/// A stored document: its fields in order. A well-formed document has no
/// repeated names; lookup takes the first occurrence either way.
#[derive(Clone, PartialEq, Debug)]
pub struct Document {
    pub fields: Vec<Field>,
}

/// The value of the first field with the given name, if any.
pub open spec fn lookup(fields: Seq<Field>, name: Seq<char>) -> Option<BsonValue>
    decreases fields.len(),
{
    if fields.len() == 0 {
        None
    } else if fields[0].name@ == name {
        Some(fields[0].value)
    } else {
        lookup(fields.drop_first(), name)
    }
}

/// Looking a name up ignores any prefix of fields bearing other names.
pub proof fn lemma_lookup_skip(fields: Seq<Field>, name: Seq<char>, i: int)
    requires
        0 <= i <= fields.len(),
        forall|j: int| 0 <= j < i ==> fields[j].name@ != name,
    ensures
        lookup(fields, name) == lookup(fields.skip(i), name),
    decreases i,
{
    if i > 0 {
        assert(fields[0].name@ != name);
        assert(lookup(fields, name) == lookup(fields.drop_first(), name));
        assert(forall|j: int| 0 <= j < i - 1 ==> fields.drop_first()[j] == fields[j + 1]);
        lemma_lookup_skip(fields.drop_first(), name, i - 1);
        assert(fields.drop_first().skip(i - 1) =~= fields.skip(i));
    } else {
        assert(fields.skip(0) =~= fields);
    }
}

impl Document {
    /// A reference to the value of the first field with the given name.
    pub fn get<'a>(&'a self, name: &str) -> (r: Option<&'a BsonValue>)
        ensures
            match r {
                Some(v) => lookup(self.fields@, name@) == Some(*v),
                None => lookup(self.fields@, name@) is None,
            },
    {
        let n = self.fields.len();
        let mut i: usize = 0;
        while i < n
            invariant
                n == self.fields@.len(),
                i <= n,
                forall|j: int| 0 <= j < i ==> self.fields@[j].name@ != name@,
            decreases n - i,
        {
            if str_eq(self.fields[i].name.as_str(), name) {
                proof {
                    lemma_lookup_skip(self.fields@, name@, i as int);
                    assert(self.fields@.skip(i as int)[0] == self.fields@[i as int]);
                }
                return Some(&self.fields[i].value);
            }
            i += 1;
        }
        proof {
            lemma_lookup_skip(self.fields@, name@, n as int);
            assert(self.fields@.skip(n as int) =~= Seq::<Field>::empty());
        }
        None
    }
}

/// Relies on std's equality for string slices: true exactly when the two
/// hold the same characters.
#[verifier::external_body]
fn str_eq(a: &str, b: &str) -> (r: bool)
    ensures
        r == (a@ == b@),
{
    a == b
}

} // verus!
