//! UUID-typed record fields. A field holds the 128-bit value together with
//! its canonical (lower-case hyphenated) text, the form the encoded row
//! carries. Parsing and formatting are the uuid crate's; everything the
//! record logic needs of them is pinned to the two names below.

use vstd::prelude::*;

verus! {

/// The 128-bit value that `uuid::Uuid::try_parse` reads from `s`, or
/// `None` where it rejects `s`. The result depends on the characters alone.
pub uninterp spec fn uuid_value_of(s: Seq<char>) -> Option<u128>;

/// The canonical hyphenated text of the 128-bit value `v`, as
/// `uuid::Uuid`'s hyphenated formatter writes it. The result depends on
/// the value alone.
pub uninterp spec fn uuid_text_of(v: u128) -> Seq<char>;

/// Relies on uuid::Uuid::try_parse: accepts exactly the UUID text forms
/// the crate documents (hexadecimal digits with optional hyphens, braced,
/// or URN), and the parsed value is a function of the characters alone.
#[verifier::external_body]
fn parse_uuid(s: &str) -> (r: Option<u128>)
    ensures
        r == uuid_value_of(s@),
{
    match uuid::Uuid::try_parse(s) {
        Ok(u) => Some(u.as_u128()),
        Err(_) => None,
    }
}

/// Relies on uuid::Uuid's hyphenated formatter: it writes the value in the
/// canonical lower-case hyphenated form, and the crate's parser reads that
/// form back to the same value.
#[verifier::external_body]
fn uuid_to_text(v: u128) -> (r: String)
    ensures
        r@ == uuid_text_of(v),
        uuid_value_of(r@) == Some(v),
{
    uuid::Uuid::from_u128(v).as_hyphenated().to_string()
}

/// A UUID-typed field: the parsed 128-bit value and its canonical text.
#[derive(Clone, Debug, PartialEq, Eq)]
pub struct UuidField {
    pub value: u128,
    pub text: String,
}

/// The specification-level image of a `UuidField`.
pub struct UuidFieldV {
    pub value: u128,
    pub text: Seq<char>,
}

impl View for UuidField {
    type V = UuidFieldV;

    open spec fn view(&self) -> UuidFieldV {
        UuidFieldV { value: self.value, text: self.text@ }
    }
}

impl UuidFieldV {
    /// The field carries its value's canonical text, and that text parses
    /// back to the value.
    pub open spec fn wf(self) -> bool {
        &&& uuid_value_of(self.text) == Some(self.value)
        &&& self.text == uuid_text_of(self.value)
    }
}

impl UuidField {
    /// Parses UUID text into a field holding the canonical form, or `None`
    /// exactly where the parser rejects the text.
    pub fn parse(s: &str) -> (r: Option<UuidField>)
        ensures
            match r {
                Some(f) => uuid_value_of(s@) == Some(f.value) && f@.wf(),
                None => uuid_value_of(s@) is None,
            },
    {
        match parse_uuid(s) {
            Some(value) => {
                let text = uuid_to_text(value);
                Some(UuidField { value, text })
            },
            None => None,
        }
    }
}

} // verus!
