//! A minimal model of a field-named structured document: the scalar values
//! an event payload may hold, and an object as an ordered list of
//! key/value entries. Lookup takes the first entry with a matching key.

use vstd::prelude::*;

verus! {

/// One value of a structured document, generic over its string
/// representation so the same shape serves executable code
/// (`JsonVal<String>`) and specifications (`JsonVal<Seq<char>>`).
///
/// Integers are split by sign: `UInt` holds any non-negative integer that
/// fits 64 bits, `NegInt` a negative one. `Float` stands for a number that
/// is not an integer and `Composite` for a nested array or object; the
/// record schema accepts neither, so neither carries a payload.
#[derive(Debug, PartialEq, Eq)]
pub enum JsonVal<S> {
    Null,
    Bool(bool),
    UInt(u64),
    NegInt(i64),
    Float,
    Str(S),
    Composite,
}

impl View for JsonVal<String> {
    type V = JsonVal<Seq<char>>;

    open spec fn view(&self) -> JsonVal<Seq<char>> {
        match self {
            JsonVal::Null => JsonVal::Null,
            JsonVal::Bool(b) => JsonVal::Bool(*b),
            JsonVal::UInt(n) => JsonVal::UInt(*n),
            JsonVal::NegInt(n) => JsonVal::NegInt(*n),
            JsonVal::Float => JsonVal::Float,
            JsonVal::Str(s) => JsonVal::Str(s@),
            JsonVal::Composite => JsonVal::Composite,
        }
    }
}

/// An object: ordered key/value entries, as a document parser hands them
/// over. Keys are not required to be unique; lookup takes the first match.
#[derive(Debug, PartialEq, Eq)]
pub struct JsonObj {
    pub entries: Vec<(String, JsonVal<String>)>,
}

impl View for JsonObj {
    type V = Seq<(Seq<char>, JsonVal<Seq<char>>)>;

    open spec fn view(&self) -> Seq<(Seq<char>, JsonVal<Seq<char>>)> {
        self.entries@.map_values(|e: (String, JsonVal<String>)| (e.0@, e.1@))
    }
}

/// The value under `key`: the first entry whose key matches, if any.
pub open spec fn find_entry(
    entries: Seq<(Seq<char>, JsonVal<Seq<char>>)>,
    key: Seq<char>,
) -> Option<JsonVal<Seq<char>>>
    decreases entries.len(),
{
    if entries.len() == 0 {
        None
    } else if entries.first().0 == key {
        Some(entries.first().1)
    } else {
        find_entry(entries.drop_first(), key)
    }
}

/// If the keys of all entries before index `j` differ from the key of
/// entry `j`, lookup of that key lands exactly on entry `j`.
pub proof fn lemma_find_entry_at(
    entries: Seq<(Seq<char>, JsonVal<Seq<char>>)>,
    j: int,
)
    requires
        0 <= j < entries.len(),
        forall|i: int| 0 <= i < j ==> entries[i].0 != entries[j].0,
    ensures
        find_entry(entries, entries[j].0) == Some(entries[j].1),
    decreases j,
{
    if j == 0 {
    } else {
        let rest = entries.drop_first();
        assert(forall|i: int| 0 <= i < j - 1 ==> (#[trigger] rest[i]).0 != rest[j - 1].0);
        lemma_find_entry_at(rest, j - 1);
    }
}

impl JsonObj {
    /// A borrowed view of the value under `key`, per `find_entry`.
    pub fn get<'a>(&'a self, key: &str) -> (r: Option<&'a JsonVal<String>>)
        ensures
            match r {
                Some(v) => find_entry(self@, key@) == Some(v@),
                None => find_entry(self@, key@) is None,
            },
    {
        let key_string = key.to_owned();
        let n = self.entries.len();
        let mut i: usize = 0;
        assert(self@.skip(0) =~= self@);
        while i < n
            invariant
                0 <= i <= n,
                n == self.entries.len(),
                key_string@ == key@,
                find_entry(self@, key@) == find_entry(self@.skip(i as int), key@),
            decreases n - i,
        {
            if self.entries[i].0 == key_string {
                assert(self@.skip(i as int).first() == self@[i as int]);
                return Some(&self.entries[i].1);
            }
            assert(self@.skip(i as int).drop_first() =~= self@.skip(i + 1));
            i = i + 1;
        }
        assert(self@.skip(n as int) =~= Seq::<(Seq<char>, JsonVal<Seq<char>>)>::empty());
        None
    }
}

} // verus!
