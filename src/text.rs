use vstd::prelude::*;
use vstd::string::StringExecFns;


verus! {

/// The decimal digit for `d`.
pub open spec fn digit_char(d: nat) -> char {
    if d == 0 {
        '0'
    } else if d == 1 {
        '1'
    } else if d == 2 {
        '2'
    } else if d == 3 {
        '3'
    } else if d == 4 {
        '4'
    } else if d == 5 {
        '5'
    } else if d == 6 {
        '6'
    } else if d == 7 {
        '7'
    } else if d == 8 {
        '8'
    } else {
        '9'
    }
}

/// The decimal digits of `n`, most significant first, with no leading zero.
pub open spec fn decimal_text(n: nat) -> Seq<char>
    decreases n,
{
    if n < 10 {
        seq![digit_char(n)]
    } else {
        decimal_text(n / 10).push(digit_char(n % 10))
    }
}

/// An integer in decimal, with a minus sign when negative.
pub open spec fn int_text(i: int) -> Seq<char> {
    if i < 0 {
        seq!['-'] + decimal_text((-i) as nat)
    } else {
        decimal_text(i as nat)
    }
}

/// The fraction digits of `f / 10^places`, without trailing zeros but at least one digit.
pub open spec fn fraction_text(f: nat, places: nat) -> Seq<char> {
    if places <= 1 {
        seq![digit_char(f)]
    } else if places == 2 {
        if f % 10 == 0 {
            seq![digit_char(f / 10)]
        } else {
            seq![digit_char(f / 10), digit_char(f % 10)]
        }
    } else {
        if f % 100 == 0 {
            seq![digit_char(f / 100)]
        } else if f % 10 == 0 {
            seq![digit_char(f / 100), digit_char((f / 10) % 10)]
        } else {
            seq![digit_char(f / 100), digit_char((f / 10) % 10), digit_char(f % 10)]
        }
    }
}

pub open spec fn pow10(places: nat) -> nat {
    if places == 0 {
        1
    } else if places == 1 {
        10
    } else if places == 2 {
        100
    } else {
        1000
    }
}

/// `raw / 10^places` in the shortest decimal form that keeps one fraction digit:
/// 8716 with no places is `8716.0`, 171 with one place is `17.1`, 250 with two is `2.5`.
pub open spec fn fixed_text(raw: int, places: nat) -> Seq<char> {
    let a: nat = if raw < 0 { (-raw) as nat } else { raw as nat };
    let f: nat = if places == 0 { 0 } else { a % pow10(places) };
    (if raw < 0 { seq!['-'] } else { Seq::empty() }) + decimal_text(a / pow10(places)) + seq!['.']
        + fraction_text(f, places)
}

fn digit(d: u64) -> (r: char)
    requires
        d < 10,
    ensures
        r == digit_char(d as nat),
{
    if d == 0 {
        '0'
    } else if d == 1 {
        '1'
    } else if d == 2 {
        '2'
    } else if d == 3 {
        '3'
    } else if d == 4 {
        '4'
    } else if d == 5 {
        '5'
    } else if d == 6 {
        '6'
    } else if d == 7 {
        '7'
    } else if d == 8 {
        '8'
    } else {
        '9'
    }
}

/// Appends the decimal digits of `n`.
pub fn push_decimal(out: &mut String, n: u64)
    ensures
        final(out)@ == old(out)@ + decimal_text(n as nat),
    decreases n,
{
    if n < 10 {
        push_char(out, digit(n));
        assert(decimal_text(n as nat) == seq![digit_char(n as nat)]);
        assert(out@ =~= old(out)@ + decimal_text(n as nat));
    } else {
        push_decimal(out, n / 10);
        push_char(out, digit(n % 10));
        assert(out@ =~= old(out)@ + decimal_text(n as nat));
    }
}

/// An unsigned integer in decimal.
pub fn nat_to_text(n: u64) -> (r: String)
    ensures
        r@ == decimal_text(n as nat),
{
    let mut s = String::new();
    push_decimal(&mut s, n);
    assert(s@ =~= decimal_text(n as nat));
    s
}

/// The magnitude of a signed integer.
fn magnitude(i: i64) -> (r: u64)
    ensures
        r as int == (if i < 0 { -i } else { i as int }),
{
    if i < 0 {
        ((-(i + 1)) as u64) + 1
    } else {
        i as u64
    }
}

/// A signed integer in decimal.
pub fn int_to_text(i: i64) -> (r: String)
    ensures
        r@ == int_text(i as int),
{
    let mut s = String::new();
    if i < 0 {
        push_char(&mut s, '-');
    }
    push_decimal(&mut s, magnitude(i));
    assert(s@ =~= int_text(i as int));
    s
}

/// `raw / 10^places` as text; see `fixed_text`.
pub fn fixed_to_text(raw: i64, places: u8) -> (r: String)
    requires
        places <= 3,
    ensures
        r@ == fixed_text(raw as int, places as nat),
{
    let a: u64 = magnitude(raw);
    let p: u64 = if places == 0 { 1 } else if places == 1 { 10 } else if places == 2 { 100 } else { 1000 };
    let f: u64 = if places == 0 { 0 } else { a % p };
    let mut s = String::new();
    if raw < 0 {
        push_char(&mut s, '-');
    }
    push_decimal(&mut s, a / p);
    push_char(&mut s, '.');
    if places <= 1 {
        push_char(&mut s, digit(f));
    } else if places == 2 {
        push_char(&mut s, digit(f / 10));
        if f % 10 != 0 {
            push_char(&mut s, digit(f % 10));
        }
    } else {
        push_char(&mut s, digit(f / 100));
        if f % 100 != 0 {
            push_char(&mut s, digit((f / 10) % 10));
            if f % 10 != 0 {
                push_char(&mut s, digit(f % 10));
            }
        }
    }
    assert(s@ =~= fixed_text(raw as int, places as nat));
    s
}

/// A lowercase hexadecimal digit.
pub open spec fn hex_char(d: nat) -> char {
    if d < 10 {
        digit_char(d)
    } else if d == 10 {
        'a'
    } else if d == 11 {
        'b'
    } else if d == 12 {
        'c'
    } else if d == 13 {
        'd'
    } else if d == 14 {
        'e'
    } else {
        'f'
    }
}

/// How one character stands inside a JSON string: a quote and a backslash are preceded
/// by a backslash; backspace, tab, line feed, form feed and carriage return take their
/// short escapes; the other characters below U+0020 are written `\u00XX` in lowercase
/// hexadecimal; every other character stands for itself.
pub open spec fn json_escape_char(c: char) -> Seq<char> {
    let n = c as u32;
    if c == '"' {
        seq!['\\', '"']
    } else if c == '\\' {
        seq!['\\', '\\']
    } else if n == 0x08 {
        seq!['\\', 'b']
    } else if n == 0x09 {
        seq!['\\', 't']
    } else if n == 0x0A {
        seq!['\\', 'n']
    } else if n == 0x0C {
        seq!['\\', 'f']
    } else if n == 0x0D {
        seq!['\\', 'r']
    } else if n < 0x20 {
        seq!['\\', 'u', '0', '0', hex_char((n / 16) as nat), hex_char((n % 16) as nat)]
    } else {
        seq![c]
    }
}

/// The characters of `s`, each escaped as inside a JSON string.
pub open spec fn json_escaped(s: Seq<char>) -> Seq<char>
    decreases s.len(),
{
    if s.len() == 0 {
        Seq::empty()
    } else {
        json_escaped(s.drop_last()) + json_escape_char(s.last())
    }
}

/// The JSON string literal for `s`: its escaped characters between double quotes.
#[verifier::opaque]
pub open spec fn json_quoted(s: Seq<char>) -> Seq<char> {
    seq!['"'] + json_escaped(s) + seq!['"']
}

/// Whether no character of `s` is a quote, a backslash or a control character.
pub open spec fn plain_text(s: Seq<char>) -> bool {
    forall|i: int|
        0 <= i < s.len() ==> (#[trigger] s[i] as u32) >= 0x20 && s[i] != '"' && s[i] != '\\'
}

proof fn lemma_json_escaped_plain(s: Seq<char>)
    requires
        plain_text(s),
    ensures
        json_escaped(s) == s,
    decreases s.len(),
{
    if s.len() > 0 {
        let t = s.drop_last();
        assert forall|i: int| 0 <= i < t.len() implies (#[trigger] t[i] as u32) >= 0x20 && t[i]
            != '"' && t[i] != '\\' by {
            assert(t[i] == s[i]);
        }
        lemma_json_escaped_plain(t);
        assert(s[s.len() - 1] == s.last());
        assert(json_escape_char(s.last()) =~= seq![s.last()]);
        assert(json_escaped(s) =~= s);
    }
}

/// Text with no quote, backslash or control character is quoted as it is.
pub proof fn lemma_json_quoted_plain(s: Seq<char>)
    requires
        plain_text(s),
    ensures
        json_quoted(s) == seq!['"'] + s + seq!['"'],
{
    reveal(json_quoted);
    lemma_json_escaped_plain(s);
}

/// Relies on `serde_json::to_string` on a `str` (`format_escaped_str` and its `ESCAPE`
/// table): the text between double quotes, escaped as `json_escape_char` says.
/// Writing a `str` into serde_json's in-memory buffer does not fail, so the error arm
/// is never taken.
#[verifier::external_body]
pub(crate) fn json_string(s: &str) -> (r: String)
    ensures
        r@ == json_quoted(s@),
{
    match serde_json::to_string(s) {
        Ok(t) => t,
        Err(_) => String::new(),
    }
}

/// One member of a JSON object, with the comma that separates it from the previous one.
pub open spec fn json_member(first: bool, key: Seq<char>, value: Seq<char>) -> Seq<char> {
    (if first { Seq::empty() } else { seq![','] }) + json_quoted(key) + seq![':'] + value
}

/// Appends one member to the text of a JSON object; `value` is already JSON.
pub fn push_member(out: &mut String, first: bool, key: &str, value: &str)
    ensures
        final(out)@ == old(out)@ + json_member(first, key@, value@),
{
    let ghost start = out@;
    if !first {
        push_char(out, ',');
    }
    let k = json_string(key);
    out.append(k.as_str());
    push_char(out, ':');
    out.append(value);
    assert(out@ =~= start + json_member(first, key@, value@));
}

/// Relies on `String::push`: the character is appended at the end.
#[verifier::external_body]
pub(crate) fn push_char(s: &mut String, c: char)
    ensures
        final(s)@ == old(s)@.push(c),
{
    s.push(c)
}

} // verus!
