//! The row text format: a field-named, self-describing rendering of a
//! `JsonObj`, so consumers can evolve the schema without breaking rows.
//! The grammar is stated as spec functions over character sequences and the
//! writer is proved to emit exactly that text.

use vstd::prelude::*;
use vstd::string::StrSliceExecFns;
use vstd::string::StringExecFns;

use crate::json::JsonVal;
use crate::json::JsonObj;

verus! {

/// The character sequence of one decimal digit.
pub open spec fn digit_seq(d: nat) -> Seq<char> {
    if d == 0 {
        "0"@
    } else if d == 1 {
        "1"@
    } else if d == 2 {
        "2"@
    } else if d == 3 {
        "3"@
    } else if d == 4 {
        "4"@
    } else if d == 5 {
        "5"@
    } else if d == 6 {
        "6"@
    } else if d == 7 {
        "7"@
    } else if d == 8 {
        "8"@
    } else {
        "9"@
    }
}

/// The character sequence of one lower-case hexadecimal digit.
pub open spec fn hex_digit_seq(d: nat) -> Seq<char> {
    if d < 10 {
        digit_seq(d)
    } else if d == 10 {
        "a"@
    } else if d == 11 {
        "b"@
    } else if d == 12 {
        "c"@
    } else if d == 13 {
        "d"@
    } else if d == 14 {
        "e"@
    } else {
        "f"@
    }
}

/// The decimal text of a non-negative integer, most significant digit
/// first, with no sign and no leading zeros.
pub open spec fn dec_text(n: nat) -> Seq<char>
    decreases n,
{
    if n < 10 {
        digit_seq(n)
    } else {
        dec_text(n / 10) + digit_seq(n % 10)
    }
}

/// The decimal text of a signed integer: a leading minus for a negative
/// value, the plain decimal text otherwise.
pub open spec fn int_text(i: int) -> Seq<char> {
    if i < 0 {
        "-"@ + dec_text((-i) as nat)
    } else {
        dec_text(i as nat)
    }
}

/// How one character appears inside a quoted string: quote and backslash
/// get a backslash escape, a control character becomes a `\u00XX` escape,
/// every other character stands as itself.
pub open spec fn esc_char(c: char) -> Seq<char> {
    if c == '"' {
        "\\\""@
    } else if c == '\\' {
        "\\\\"@
    } else if (c as u32) < 32 {
        "\\u00"@ + hex_digit_seq((c as u32 / 16) as nat) + hex_digit_seq((c as u32 % 16) as nat)
    } else {
        seq![c]
    }
}

/// A string's characters, each escaped.
pub open spec fn esc_text(s: Seq<char>) -> Seq<char>
    decreases s.len(),
{
    if s.len() == 0 {
        Seq::empty()
    } else {
        esc_text(s.drop_last()) + esc_char(s.last())
    }
}

/// The text of one scalar value. The record schema never emits `Float` or
/// `Composite`; the writer renders them as `null` so that it stays total.
pub open spec fn val_text(v: JsonVal<Seq<char>>) -> Seq<char> {
    match v {
        JsonVal::Null => "null"@,
        JsonVal::Bool(b) => if b {
            "true"@
        } else {
            "false"@
        },
        JsonVal::UInt(n) => dec_text(n as nat),
        JsonVal::NegInt(n) => int_text(n as int),
        JsonVal::Float => "null"@,
        JsonVal::Str(s) => "\""@ + esc_text(s) + "\""@,
        JsonVal::Composite => "null"@,
    }
}

/// The text of one `"key":value` entry.
pub open spec fn entry_text(e: (Seq<char>, JsonVal<Seq<char>>)) -> Seq<char> {
    "\""@ + esc_text(e.0) + "\":"@ + val_text(e.1)
}

/// The comma-separated entry list of an object body.
pub open spec fn items_text(entries: Seq<(Seq<char>, JsonVal<Seq<char>>)>) -> Seq<char>
    decreases entries.len(),
{
    if entries.len() == 0 {
        Seq::empty()
    } else if entries.len() == 1 {
        entry_text(entries[0])
    } else {
        items_text(entries.drop_last()) + ","@ + entry_text(entries.last())
    }
}

/// The full text of an object.
pub open spec fn object_text(entries: Seq<(Seq<char>, JsonVal<Seq<char>>)>) -> Seq<char> {
    "{"@ + items_text(entries) + "}"@
}

/// One decimal digit as a string slice.
fn digit_str(d: u64) -> (r: &'static str)
    requires
        d < 10,
    ensures
        r@ == digit_seq(d as nat),
{
    if d == 0 {
        "0"
    } else if d == 1 {
        "1"
    } else if d == 2 {
        "2"
    } else if d == 3 {
        "3"
    } else if d == 4 {
        "4"
    } else if d == 5 {
        "5"
    } else if d == 6 {
        "6"
    } else if d == 7 {
        "7"
    } else if d == 8 {
        "8"
    } else {
        "9"
    }
}

/// One hexadecimal digit as a string slice.
fn hex_digit_str(d: u32) -> (r: &'static str)
    requires
        d < 16,
    ensures
        r@ == hex_digit_seq(d as nat),
{
    if d < 10 {
        digit_str(d as u64)
    } else if d == 10 {
        "a"
    } else if d == 11 {
        "b"
    } else if d == 12 {
        "c"
    } else if d == 13 {
        "d"
    } else if d == 14 {
        "e"
    } else {
        "f"
    }
}

/// Appends the decimal text of `n`.
fn push_dec(out: &mut String, n: u64)
    ensures
        final(out)@ == old(out)@ + dec_text(n as nat),
    decreases n,
{
    if n < 10 {
        out.append(digit_str(n));
    } else {
        push_dec(out, n / 10);
        out.append(digit_str(n % 10));
    }
}

/// Appends the characters of `s`, each escaped.
fn push_escaped(out: &mut String, s: &str)
    ensures
        final(out)@ == old(out)@ + esc_text(s@),
{
    let n = s.unicode_len();
    let mut i: usize = 0;
    assert(s@.take(0) =~= Seq::<char>::empty());
    while i < n
        invariant
            0 <= i <= n,
            n == s@.len(),
            out@ == old(out)@ + esc_text(s@.take(i as int)),
        decreases n - i,
    {
        let c = s.get_char(i);
        if c == '"' {
            out.append("\\\"");
        } else if c == '\\' {
            out.append("\\\\");
        } else if (c as u32) < 32 {
            let code = c as u32;
            out.append("\\u00");
            out.append(hex_digit_str(code / 16));
            out.append(hex_digit_str(code % 16));
        } else {
            let piece = s.substring_char(i, i + 1);
            assert(piece@ =~= seq![c]);
            out.append(piece);
        }
        proof {
            assert(s@.take(i + 1).drop_last() =~= s@.take(i as int));
            assert(s@.take(i + 1).last() == c);
        }
        i = i + 1;
    }
    assert(s@.take(n as int) =~= s@);
}

/// Appends the text of one scalar value.
fn push_val(out: &mut String, v: &JsonVal<String>)
    ensures
        final(out)@ == old(out)@ + val_text(v@),
{
    match v {
        JsonVal::Null => out.append("null"),
        JsonVal::Bool(b) => {
            if *b {
                out.append("true");
            } else {
                out.append("false");
            }
        },
        JsonVal::UInt(n) => push_dec(out, *n),
        JsonVal::NegInt(n) => {
            let m = *n;
            if m >= 0 {
                push_dec(out, m as u64);
            } else {
                out.append("-");
                let mag: u64 = ((-(m as i128)) as u64);
                assert(mag == -(m as int));
                push_dec(out, mag);
            }
        },
        JsonVal::Float => out.append("null"),
        JsonVal::Str(s) => {
            out.append("\"");
            push_escaped(out, s.as_str());
            out.append("\"");
        },
        JsonVal::Composite => out.append("null"),
    }
}

/// Appends the text of one `"key":value` entry.
fn push_entry(out: &mut String, key: &String, v: &JsonVal<String>)
    ensures
        final(out)@ == old(out)@ + entry_text((key@, v@)),
{
    out.append("\"");
    push_escaped(out, key.as_str());
    out.append("\":");
    push_val(out, v);
}

/// Renders an object as row text, exactly as `object_text` states it.
pub fn encode_object(obj: &JsonObj) -> (r: String)
    ensures
        r@ == object_text(obj@),
{
    let mut out = String::new();
    out.append("{");
    let n = obj.entries.len();
    let mut i: usize = 0;
    while i < n
        invariant
            0 <= i <= n,
            n == obj.entries.len(),
            i == 0 ==> out@ == "{"@,
            i > 0 ==> out@ == "{"@ + items_text(obj@.take(i as int)),
        decreases n - i,
    {
        if i > 0 {
            out.append(",");
        }
        push_entry(&mut out, &obj.entries[i].0, &obj.entries[i].1);
        proof {
            assert(obj@.take(i + 1).drop_last() =~= obj@.take(i as int));
            assert(obj@.take(i + 1).last() == obj@[i as int]);
            assert(obj@[i as int] == (obj.entries@[i as int].0@, obj.entries@[i as int].1@));
        }
        i = i + 1;
    }
    out.append("}");
    proof {
        if n == 0 {
            assert(obj@.take(0) =~= obj@);
        } else {
            assert(obj@.take(n as int) =~= obj@);
        }
    }
    out
}

} // verus!
