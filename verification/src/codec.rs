//! Verified text building blocks: decimal rendering of integers, JSON string
//! escaping, and the header-value character discipline.

use vstd::prelude::*;

verus! {

use crate::hashing::hex_digit_char;
use vstd::string::StrSliceExecFns;
use vstd::string::StringExecFns;

/// The decimal digit for one value below ten.
pub open spec fn decimal_digit_char(d: int) -> char {
    if d == 0 {
        '0'
    } else if d == 1 {
        '1'
    } else if d == 2 {
        '2'
    } else if d == 3 {
        '3'
    } else if d == 4 {
        '4'
    } else if d == 5 {
        '5'
    } else if d == 6 {
        '6'
    } else if d == 7 {
        '7'
    } else if d == 8 {
        '8'
    } else {
        '9'
    }
}

/// Decimal rendering of a natural number, most significant digit first, with
/// no leading zeros except for zero itself.
pub open spec fn decimal_of_nat(n: nat) -> Seq<char>
    decreases n,
{
    if n < 10 {
        seq![decimal_digit_char(n as int)]
    } else {
        decimal_of_nat(n / 10) + seq![decimal_digit_char((n % 10) as int)]
    }
}

/// Decimal rendering of an integer: a minus sign before the magnitude when
/// negative.
pub open spec fn decimal_of_int(n: int) -> Seq<char> {
    if n < 0 {
        seq!['-'] + decimal_of_nat((-n) as nat)
    } else {
        decimal_of_nat(n as nat)
    }
}

fn decimal_digit_str(d: u64) -> (r: &'static str)
    requires
        d < 10,
    ensures
        r@ == seq![decimal_digit_char(d as int)],
{
    proof {
        reveal_strlit("0");
        reveal_strlit("1");
        reveal_strlit("2");
        reveal_strlit("3");
        reveal_strlit("4");
        reveal_strlit("5");
        reveal_strlit("6");
        reveal_strlit("7");
        reveal_strlit("8");
        reveal_strlit("9");
    }
    if d == 0 {
        "0"
    } else if d == 1 {
        "1"
    } else if d == 2 {
        "2"
    } else if d == 3 {
        "3"
    } else if d == 4 {
        "4"
    } else if d == 5 {
        "5"
    } else if d == 6 {
        "6"
    } else if d == 7 {
        "7"
    } else if d == 8 {
        "8"
    } else {
        "9"
    }
}

/// Renders an unsigned value in decimal.
pub fn u64_to_decimal(n: u64) -> (r: String)
    ensures
        r@ == decimal_of_nat(n as nat),
    decreases n,
{
    if n < 10 {
        decimal_digit_str(n).to_owned()
    } else {
        u64_to_decimal(n / 10).concat(decimal_digit_str(n % 10))
    }
}

/// Renders a signed value in decimal.
pub fn i64_to_decimal(n: i64) -> (r: String)
    ensures
        r@ == decimal_of_int(n as int),
{
    if n >= 0 {
        u64_to_decimal(n as u64)
    } else {
        let magnitude: u64 = ((-(n + 1)) as u64) + 1;
        proof {
            reveal_strlit("-");
            assert(magnitude as int == -(n as int));
        }
        "-".to_owned().concat(u64_to_decimal(magnitude).as_str())
    }
}

fn hex_digit_str(d: u32) -> (r: &'static str)
    requires
        d < 16,
    ensures
        r@ == seq![hex_digit_char(d as int)],
{
    proof {
        reveal_strlit("0");
        reveal_strlit("1");
        reveal_strlit("2");
        reveal_strlit("3");
        reveal_strlit("4");
        reveal_strlit("5");
        reveal_strlit("6");
        reveal_strlit("7");
        reveal_strlit("8");
        reveal_strlit("9");
        reveal_strlit("a");
        reveal_strlit("b");
        reveal_strlit("c");
        reveal_strlit("d");
        reveal_strlit("e");
        reveal_strlit("f");
    }
    if d == 0 {
        "0"
    } else if d == 1 {
        "1"
    } else if d == 2 {
        "2"
    } else if d == 3 {
        "3"
    } else if d == 4 {
        "4"
    } else if d == 5 {
        "5"
    } else if d == 6 {
        "6"
    } else if d == 7 {
        "7"
    } else if d == 8 {
        "8"
    } else if d == 9 {
        "9"
    } else if d == 10 {
        "a"
    } else if d == 11 {
        "b"
    } else if d == 12 {
        "c"
    } else if d == 13 {
        "d"
    } else if d == 14 {
        "e"
    } else {
        "f"
    }
}

/// What one character contributes to a JSON string body: quote, backslash and
/// the control characters are escaped, everything else stands as itself.
pub open spec fn escaped_char(c: char) -> Seq<char> {
    if c == '"' {
        "\\\""@
    } else if c == '\\' {
        "\\\\"@
    } else if c == '\u{8}' {
        "\\b"@
    } else if c == '\t' {
        "\\t"@
    } else if c == '\n' {
        "\\n"@
    } else if c == '\u{c}' {
        "\\f"@
    } else if c == '\r' {
        "\\r"@
    } else if (c as u32) < 32 {
        "\\u00"@ + seq![
            hex_digit_char((c as u32) as int / 16),
            hex_digit_char((c as u32) as int % 16),
        ]
    } else {
        seq![c]
    }
}

/// The body of the JSON string rendering a character sequence.
pub open spec fn json_escaped(s: Seq<char>) -> Seq<char>
    decreases s.len(),
{
    if s.len() == 0 {
        Seq::empty()
    } else {
        json_escaped(s.drop_last()) + escaped_char(s.last())
    }
}

/// A JSON string: the escaped body between double quotes.
pub open spec fn json_string_of(s: Seq<char>) -> Seq<char> {
    "\""@ + json_escaped(s) + "\""@
}

/// Relies on `String::from` for a single character.
#[verifier::external_body]
fn char_fragment(c: char) -> (r: String)
    ensures
        r@ == seq![c],
{
    String::from(c)
}

fn escape_char_fragment(c: char) -> (r: String)
    ensures
        r@ == escaped_char(c),
{
    if c == '"' {
        "\\\"".to_owned()
    } else if c == '\\' {
        "\\\\".to_owned()
    } else if c == '\u{8}' {
        "\\b".to_owned()
    } else if c == '\t' {
        "\\t".to_owned()
    } else if c == '\n' {
        "\\n".to_owned()
    } else if c == '\u{c}' {
        "\\f".to_owned()
    } else if c == '\r' {
        "\\r".to_owned()
    } else if (c as u32) < 32 {
        let v = c as u32;
        let r = "\\u00".to_owned().concat(hex_digit_str(v / 16)).concat(hex_digit_str(v % 16));
        proof {
            assert(r@ =~= escaped_char(c));
        }
        r
    } else {
        char_fragment(c)
    }
}

/// Escapes a string for use as the body of a JSON string.
pub fn json_escape(s: &str) -> (r: String)
    ensures
        r@ == json_escaped(s@),
{
    let n = s.unicode_len();
    let mut out = String::new();
    let mut i: usize = 0;
    while i < n
        invariant
            i <= n,
            n == s@.len(),
            out@ == json_escaped(s@.subrange(0, i as int)),
        decreases n - i,
    {
        let c = s.get_char(i);
        let frag = escape_char_fragment(c);
        out.append(frag.as_str());
        proof {
            assert(s@.subrange(0, i + 1 as int).drop_last() =~= s@.subrange(0, i as int));
        }
        i = i + 1;
    }
    proof {
        assert(s@.subrange(0, n as int) =~= s@);
    }
    out
}

/// Renders a string as a JSON string, quotes included.
pub fn json_quote(s: &str) -> (r: String)
    ensures
        r@ == json_string_of(s@),
{
    "\"".to_owned().concat(json_escape(s).as_str()).concat("\"")
}

/// A character a header value may hold: horizontal tab or any character from
/// the space on, the delete control excluded.
pub open spec fn valid_header_char(c: char) -> bool {
    c == '\t' || (32 <= c as u32 && c as u32 != 127)
}

/// A header value every character of which the transport's header encoding
/// accepts.
pub open spec fn valid_header_value(s: Seq<char>) -> bool {
    forall|i: int| 0 <= i < s.len() ==> valid_header_char(s[i])
}

/// A concatenation is a valid header value exactly when both halves are.
pub proof fn lemma_valid_header_value_concat(a: Seq<char>, b: Seq<char>)
    ensures
        valid_header_value(a + b) <==> valid_header_value(a) && valid_header_value(b),
{
    if valid_header_value(a) && valid_header_value(b) {
        assert forall|i: int| 0 <= i < (a + b).len() implies valid_header_char((a + b)[i]) by {
            if i < a.len() {
                assert((a + b)[i] == a[i]);
            } else {
                assert((a + b)[i] == b[i - a.len()]);
            }
        }
    }
    if valid_header_value(a + b) {
        assert forall|i: int| 0 <= i < a.len() implies valid_header_char(a[i]) by {
            assert(a[i] == (a + b)[i]);
        }
        assert forall|i: int| 0 <= i < b.len() implies valid_header_char(b[i]) by {
            assert(b[i] == (a + b)[a.len() + i]);
        }
    }
}

/// A hex digest is always a valid header value: its characters are decimal
/// digits and the letters `a` through `f`.
pub proof fn lemma_hex_is_valid_header_value(bytes: Seq<u8>)
    ensures
        valid_header_value(crate::hashing::hex_of(bytes)),
    decreases bytes.len(),
{
    if bytes.len() == 0 {
    } else {
        lemma_hex_is_valid_header_value(bytes.drop_last());
        let pair = seq![
            hex_digit_char(bytes.last() as int / 16),
            hex_digit_char(bytes.last() as int % 16),
        ];
        assert(valid_header_value(pair));
        lemma_valid_header_value_concat(crate::hashing::hex_of(bytes.drop_last()), pair);
    }
}

/// Decides whether every character of a value is acceptable in a header.
pub fn header_value_ok(s: &str) -> (r: bool)
    ensures
        r == valid_header_value(s@),
{
    let n = s.unicode_len();
    let mut i: usize = 0;
    while i < n
        invariant
            i <= n,
            n == s@.len(),
            forall|j: int| 0 <= j < i ==> valid_header_char(s@[j]),
        decreases n - i,
    {
        let c = s.get_char(i);
        if !(c == '\t' || (c as u32 >= 32 && c as u32 != 127)) {
            proof {
                assert(!valid_header_char(s@[i as int]));
            }
            return false;
        }
        i = i + 1;
    }
    true
}

} // verus!
