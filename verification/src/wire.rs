//! The data model and its wire shapes.
//!
//! `TransactionPayload` is the outbound RPC call request the application
//! submits; `AddressRecord` is the wallet address the browser submits back.
//! Both cross the process boundary as JSON text; the encoder here frames that
//! text itself, so what goes on the wire is pinned down character by
//! character: strings are escaped as JSON demands, fields appear in a fixed
//! order, and responses are one-field `message` objects.

use vstd::prelude::*;
use vstd::string::StringExecFns;
use vstd::string::StrSliceExecFns;

verus! {

/// One outbound call request. Immutable once constructed; owned by whichever
/// mailbox slot currently holds it.
#[derive(Clone, Debug, PartialEq, Eq)]
pub struct TransactionPayload {
    pub kind: String,
    pub function: String,
    pub arguments: Vec<String>,
    pub type_arguments: Vec<String>,
}

/// One wallet address response.
#[derive(Clone, Debug, PartialEq, Eq)]
pub struct AddressRecord {
    pub hex: String,
}

impl TransactionPayload {
    /// The payload with every field empty: what a cleared slot stands for
    /// when the push channel's policy emits on empty ticks.
    pub fn empty() -> (p: Self)
        ensures
            p.kind@.len() == 0,
            p.function@.len() == 0,
            p.arguments.deep_view() =~= Seq::<Seq<char>>::empty(),
            p.type_arguments.deep_view() =~= Seq::<Seq<char>>::empty(),
    {
        TransactionPayload {
            kind: String::new(),
            function: String::new(),
            arguments: Vec::new(),
            type_arguments: Vec::new(),
        }
    }
}

/// The hexadecimal digit for one value below sixteen, lower case.
pub open spec fn spec_hex_digit(n: int) -> char {
    if n == 0 {
        '0'
    } else if n == 1 {
        '1'
    } else if n == 2 {
        '2'
    } else if n == 3 {
        '3'
    } else if n == 4 {
        '4'
    } else if n == 5 {
        '5'
    } else if n == 6 {
        '6'
    } else if n == 7 {
        '7'
    } else if n == 8 {
        '8'
    } else if n == 9 {
        '9'
    } else if n == 10 {
        'a'
    } else if n == 11 {
        'b'
    } else if n == 12 {
        'c'
    } else if n == 13 {
        'd'
    } else if n == 14 {
        'e'
    } else {
        'f'
    }
}

/// How one character appears inside a JSON string literal: quote and
/// backslash get a backslash escape, the named control characters their short
/// forms, any other control character a `\u00XX` escape, and everything else
/// stands as itself.
pub open spec fn spec_escape_char(c: char) -> Seq<char> {
    if c == '"' {
        seq!['\\', '"']
    } else if c == '\\' {
        seq!['\\', '\\']
    } else if c == '\u{8}' {
        seq!['\\', 'b']
    } else if c == '\t' {
        seq!['\\', 't']
    } else if c == '\n' {
        seq!['\\', 'n']
    } else if c == '\u{c}' {
        seq!['\\', 'f']
    } else if c == '\r' {
        seq!['\\', 'r']
    } else if (c as u32) < 32 {
        seq!['\\', 'u', '0', '0', spec_hex_digit((c as u32) as int / 16), spec_hex_digit(
            (c as u32) as int % 16,
        )]
    } else {
        seq![c]
    }
}

/// A whole string, escaped character by character.
pub open spec fn spec_escape(s: Seq<char>) -> Seq<char>
    decreases s.len(),
{
    if s.len() == 0 {
        Seq::empty()
    } else {
        spec_escape(s.drop_last()) + spec_escape_char(s.last())
    }
}

/// A JSON string literal: the escaped text between double quotes.
pub open spec fn spec_quoted(s: Seq<char>) -> Seq<char> {
    seq!['"'] + spec_escape(s) + seq!['"']
}

/// The comma-separated body of a JSON array of string literals.
pub open spec fn spec_array_body(items: Seq<Seq<char>>) -> Seq<char>
    decreases items.len(),
{
    if items.len() == 0 {
        Seq::empty()
    } else if items.len() == 1 {
        spec_quoted(items[0])
    } else {
        spec_array_body(items.drop_last()) + seq![','] + spec_quoted(items.last())
    }
}

/// A JSON array of string literals.
pub open spec fn spec_string_array(items: Seq<Seq<char>>) -> Seq<char> {
    seq!['['] + spec_array_body(items) + seq![']']
}

/// The JSON object for a payload's four fields, in declaration order, the
/// first under the wire name `type`.
pub open spec fn spec_fields_json(
    kind: Seq<char>,
    function: Seq<char>,
    arguments: Seq<Seq<char>>,
    type_arguments: Seq<Seq<char>>,
) -> Seq<char> {
    "{\"type\":"@ + spec_quoted(kind) + ",\"function\":"@ + spec_quoted(function)
        + ",\"arguments\":"@ + spec_string_array(arguments) + ",\"type_arguments\":"@
        + spec_string_array(type_arguments) + seq!['}']
}

/// The JSON object for one `TransactionPayload`.
pub open spec fn spec_payload_json(p: TransactionPayload) -> Seq<char> {
    spec_fields_json(p.kind@, p.function@, p.arguments.deep_view(), p.type_arguments.deep_view())
}

/// The JSON object for the all-empty payload: what a cleared slot looks like
/// on the wire.
pub open spec fn spec_cleared_json() -> Seq<char> {
    spec_fields_json(Seq::empty(), Seq::empty(), Seq::empty(), Seq::empty())
}

/// The JSON object `{"message": ...}` that every acknowledgement and the
/// address response carry.
pub open spec fn spec_message_json(msg: Seq<char>) -> Seq<char> {
    "{\"message\":"@ + spec_quoted(msg) + seq!['}']
}

/// Relies on `String::push`: appends exactly the given character.
#[verifier::external_body]
fn push_char(out: &mut String, c: char)
    ensures
        final(out)@ == old(out)@.push(c),
{
    out.push(c);
}

fn hex_digit(n: u32) -> (c: char)
    requires
        n < 16,
    ensures
        c == spec_hex_digit(n as int),
{
    if n == 0 {
        '0'
    } else if n == 1 {
        '1'
    } else if n == 2 {
        '2'
    } else if n == 3 {
        '3'
    } else if n == 4 {
        '4'
    } else if n == 5 {
        '5'
    } else if n == 6 {
        '6'
    } else if n == 7 {
        '7'
    } else if n == 8 {
        '8'
    } else if n == 9 {
        '9'
    } else if n == 10 {
        'a'
    } else if n == 11 {
        'b'
    } else if n == 12 {
        'c'
    } else if n == 13 {
        'd'
    } else if n == 14 {
        'e'
    } else {
        'f'
    }
}

fn append_escaped_char(out: &mut String, c: char)
    ensures
        final(out)@ == old(out)@ + spec_escape_char(c),
{
    if c == '"' {
        proof {
            reveal_strlit("\\\"");
        }
        out.append("\\\"");
        assert(out@ =~= old(out)@ + spec_escape_char(c));
    } else if c == '\\' {
        proof {
            reveal_strlit("\\\\");
        }
        out.append("\\\\");
        assert(out@ =~= old(out)@ + spec_escape_char(c));
    } else if c == '\u{8}' {
        proof {
            reveal_strlit("\\b");
        }
        out.append("\\b");
        assert(out@ =~= old(out)@ + spec_escape_char(c));
    } else if c == '\t' {
        proof {
            reveal_strlit("\\t");
        }
        out.append("\\t");
        assert(out@ =~= old(out)@ + spec_escape_char(c));
    } else if c == '\n' {
        proof {
            reveal_strlit("\\n");
        }
        out.append("\\n");
        assert(out@ =~= old(out)@ + spec_escape_char(c));
    } else if c == '\u{c}' {
        proof {
            reveal_strlit("\\f");
        }
        out.append("\\f");
        assert(out@ =~= old(out)@ + spec_escape_char(c));
    } else if c == '\r' {
        proof {
            reveal_strlit("\\r");
        }
        out.append("\\r");
        assert(out@ =~= old(out)@ + spec_escape_char(c));
    } else {
        let code: u32 = c as u32;
        if code < 32 {
            proof {
                reveal_strlit("\\u00");
            }
            out.append("\\u00");
            push_char(out, hex_digit(code / 16));
            push_char(out, hex_digit(code % 16));
            assert(out@ =~= old(out)@ + spec_escape_char(c));
        } else {
            push_char(out, c);
            assert(out@ =~= old(out)@ + spec_escape_char(c));
        }
    }
}

proof fn lemma_escape_take_step(s: Seq<char>, i: int)
    requires
        0 <= i < s.len(),
    ensures
        spec_escape(s.take(i + 1)) == spec_escape(s.take(i)) + spec_escape_char(s[i]),
{
    assert(s.take(i + 1).drop_last() =~= s.take(i));
    assert(s.take(i + 1).last() == s[i]);
}

/// Append `s`, escaped, to `out`.
fn append_escaped(out: &mut String, s: &str)
    ensures
        final(out)@ == old(out)@ + spec_escape(s@),
{
    let len: usize = s.unicode_len();
    let mut i: usize = 0;
    while i < len
        invariant
            len == s@.len(),
            i <= len,
            out@ == old(out)@ + spec_escape(s@.take(i as int)),
        decreases len - i,
    {
        let c = s.get_char(i);
        append_escaped_char(out, c);
        proof {
            lemma_escape_take_step(s@, i as int);
        }
        i = i + 1;
    }
    assert(s@.take(len as int) =~= s@);
}

/// Append the JSON string literal for `s` to `out`.
fn append_quoted(out: &mut String, s: &str)
    ensures
        final(out)@ == old(out)@ + spec_quoted(s@),
{
    push_char(out, '"');
    append_escaped(out, s);
    push_char(out, '"');
    assert(out@ =~= old(out)@ + spec_quoted(s@));
}

proof fn lemma_array_body_take_step(items: Seq<Seq<char>>, i: int)
    requires
        1 <= i < items.len(),
    ensures
        spec_array_body(items.take(i + 1)) == spec_array_body(items.take(i)) + seq![',']
            + spec_quoted(items[i]),
{
    assert(items.take(i + 1).drop_last() =~= items.take(i));
    assert(items.take(i + 1).last() == items[i]);
}

/// Append the JSON array of string literals for `items` to `out`.
fn append_string_array(out: &mut String, items: &Vec<String>)
    ensures
        final(out)@ == old(out)@ + spec_string_array(items.deep_view()),
{
    push_char(out, '[');
    let n: usize = items.len();
    let mut i: usize = 0;
    while i < n
        invariant
            n == items@.len(),
            i <= n,
            out@ == old(out)@ + seq!['['] + spec_array_body(items.deep_view().take(i as int)),
        decreases n - i,
    {
        if i > 0 {
            push_char(out, ',');
        }
        append_quoted(out, items[i].as_str());
        proof {
            assert(items.deep_view()[i as int] == items@[i as int]@);
            if i == 0 {
                assert(items.deep_view().take(1) =~= seq![items.deep_view()[0]]);
                assert(spec_array_body(items.deep_view().take(1)) == spec_quoted(
                    items.deep_view()[0],
                ));
            } else {
                lemma_array_body_take_step(items.deep_view(), i as int);
            }
            assert(out@ =~= old(out)@ + seq!['['] + spec_array_body(
                items.deep_view().take(i as int + 1),
            ));
        }
        i = i + 1;
    }
    push_char(out, ']');
    assert(items.deep_view().take(n as int) =~= items.deep_view());
    assert(out@ =~= old(out)@ + spec_string_array(items.deep_view()));
}

/// Serialize one payload to its JSON wire text.
pub fn encode_payload(p: &TransactionPayload) -> (r: String)
    ensures
        r@ == spec_payload_json(*p),
{
    let mut out = String::new();
    out.append("{\"type\":");
    append_quoted(&mut out, p.kind.as_str());
    out.append(",\"function\":");
    append_quoted(&mut out, p.function.as_str());
    out.append(",\"arguments\":");
    append_string_array(&mut out, &p.arguments);
    out.append(",\"type_arguments\":");
    append_string_array(&mut out, &p.type_arguments);
    push_char(&mut out, '}');
    assert(out@ =~= spec_payload_json(*p));
    out
}

/// Serialize one `{"message": ...}` response to its JSON wire text.
pub fn encode_message(msg: &str) -> (r: String)
    ensures
        r@ == spec_message_json(msg@),
{
    let mut out = String::new();
    out.append("{\"message\":");
    append_quoted(&mut out, msg);
    push_char(&mut out, '}');
    assert(out@ =~= spec_message_json(msg@));
    out
}

} // verus!
