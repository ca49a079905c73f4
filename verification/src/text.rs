//! Text helpers shared by the rest of the crate.

use vstd::prelude::*;
use vstd::string::{StrSliceExecFns, StringExecFns};
use vstd::utf8::{encode_utf8, encode_utf8_decode_utf8};

verus! {

/// Whether two string slices hold the same text.
pub fn str_eq(a: &str, b: &str) -> (r: bool)
    ensures
        r == (a@ == b@),
{
    let x = a.as_bytes();
    let y = b.as_bytes();
    proof {
        // UTF-8 encoding is injective: equal bytes decode to equal text.
        encode_utf8_decode_utf8(a@);
        encode_utf8_decode_utf8(b@);
    }
    if x.len() != y.len() {
        return false;
    }
    let mut i: usize = 0;
    while i < x.len()
        invariant
            x@ == encode_utf8(a@),
            y@ == encode_utf8(b@),
            x@.len() == y@.len(),
            i <= x@.len(),
            forall|j: int| 0 <= j < i ==> x@[j] == y@[j],
        decreases x@.len() - i,
    {
        if x[i] != y[i] {
            return false;
        }
        i += 1;
    }
    assert(x@ =~= y@);
    true
}

/// `unit` written `n` times over.
pub open spec fn repeated(unit: Seq<char>, n: nat) -> Seq<char>
    decreases n,
{
    if n == 0 {
        Seq::empty()
    } else {
        repeated(unit, (n - 1) as nat) + unit
    }
}

/// Writes `unit` `n` times over.
pub fn repeat(unit: &str, n: usize) -> (r: String)
    ensures
        r@ == repeated(unit@, n as nat),
{
    let mut out = String::new();
    let mut i: usize = 0;
    while i < n
        invariant
            i <= n,
            out@ == repeated(unit@, i as nat),
        decreases n - i,
    {
        out.append(unit);
        i += 1;
    }
    out
}

/// The character that writes the decimal digit `d`.
pub open spec fn digit_char(d: int) -> char
    recommends
        0 <= d < 10,
{
    if d == 0 {
        '0'
    } else if d == 1 {
        '1'
    } else if d == 2 {
        '2'
    } else if d == 3 {
        '3'
    } else if d == 4 {
        '4'
    } else if d == 5 {
        '5'
    } else if d == 6 {
        '6'
    } else if d == 7 {
        '7'
    } else if d == 8 {
        '8'
    } else {
        '9'
    }
}

/// The decimal digits of a natural number, most significant first, without
/// leading zeros.
pub open spec fn decimal_digits(n: nat) -> Seq<char>
    decreases n,
{
    if n < 10 {
        seq![digit_char(n as int)]
    } else {
        decimal_digits(n / 10).push(digit_char((n % 10) as int))
    }
}

/// The decimal text of an integer: a minus sign for a negative number, then
/// the digits of its magnitude.
pub open spec fn decimal(n: int) -> Seq<char> {
    if n < 0 {
        seq!['-'] + decimal_digits((-n) as nat)
    } else {
        decimal_digits(n as nat)
    }
}

fn digit_str(d: u64) -> (r: &'static str)
    requires
        d < 10,
    ensures
        r@ == seq![digit_char(d as int)],
{
    proof {
        reveal_strlit("0");
        reveal_strlit("1");
        reveal_strlit("2");
        reveal_strlit("3");
        reveal_strlit("4");
        reveal_strlit("5");
        reveal_strlit("6");
        reveal_strlit("7");
        reveal_strlit("8");
        reveal_strlit("9");
    }
    let r = if d == 0 {
        "0"
    } else if d == 1 {
        "1"
    } else if d == 2 {
        "2"
    } else if d == 3 {
        "3"
    } else if d == 4 {
        "4"
    } else if d == 5 {
        "5"
    } else if d == 6 {
        "6"
    } else if d == 7 {
        "7"
    } else if d == 8 {
        "8"
    } else {
        "9"
    };
    assert(r@ =~= seq![digit_char(d as int)]);
    r
}

/// Appends the decimal digits of `n` to `out`.
pub fn push_decimal_digits(out: &mut String, n: u64)
    ensures
        final(out)@ == old(out)@ + decimal_digits(n as nat),
    decreases n,
{
    if n >= 10 {
        push_decimal_digits(out, n / 10);
    }
    out.append(digit_str(n % 10));
    assert(out@ =~= old(out)@ + decimal_digits(n as nat));
}

/// The decimal text of `n`, as `decimal` spells it.
pub fn decimal_string(n: i64) -> (r: String)
    ensures
        r@ == decimal(n as int),
{
    let mut out = String::new();
    if n < 0 {
        proof {
            reveal_strlit("-");
        }
        out.append("-");
        // The magnitude of i64::MIN does not fit in i64: negate in u64.
        let magnitude: u64 = if n == i64::MIN {
            9223372036854775808u64
        } else {
            (-n) as u64
        };
        push_decimal_digits(&mut out, magnitude);
        assert(out@ =~= decimal(n as int));
    } else {
        push_decimal_digits(&mut out, n as u64);
        assert(out@ =~= decimal(n as int));
    }
    out
}

/// The characters of a text.
pub fn chars_of(text: &str) -> (r: Vec<char>)
    ensures
        r@ == text@,
{
    let mut out: Vec<char> = Vec::new();
    for c in it: text.chars()
        invariant
            out@ == it.seq().take(it.index() as int),
            it.seq() == text@,
    {
        out.push(c);
    }
    out
}

/// Whether `c` is white space: one of the 25 characters with the Unicode
/// property `White_Space`.
pub open spec fn is_whitespace(c: char) -> bool {
    let u = c as u32;
    (0x09 <= u <= 0x0d) || u == 0x20 || u == 0x85 || u == 0xa0 || u == 0x1680 || (0x2000 <= u
        <= 0x200a) || u == 0x2028 || u == 0x2029 || u == 0x202f || u == 0x205f || u == 0x3000
}

/// Whether `c` is white space.
pub fn char_is_whitespace(c: char) -> (r: bool)
    ensures
        r == is_whitespace(c),
{
    let u: u32 = c as u32;
    (0x09 <= u && u <= 0x0d) || u == 0x20 || u == 0x85 || u == 0xa0 || u == 0x1680 || (0x2000 <= u
        && u <= 0x200a) || u == 0x2028 || u == 0x2029 || u == 0x202f || u == 0x205f || u == 0x3000
}

/// Whether `c` is the letter that says yes, in either case.
pub open spec fn is_yes(c: char) -> bool {
    c == 'y' || c == 'Y'
}

/// Whether an answer agrees: it is the single letter `y` or `Y`, with
/// nothing around it but white space.
pub open spec fn is_affirmative(answer: Seq<char>) -> bool {
    exists|i: int|
        0 <= i < answer.len() && is_yes(#[trigger] answer[i]) && forall|j: int|
            0 <= j < answer.len() && j != i ==> is_whitespace(#[trigger] answer[j])
}

/// Whether the operator's answer agrees. Anything but a lone `y` or `Y`
/// declines.
pub fn confirms(answer: &str) -> (r: bool)
    ensures
        r == is_affirmative(answer@),
{
    let chars = chars_of(answer);
    let ghost s = answer@;
    // Characters seen so far that are no white space: none, one (at `at`), or more.
    let mut solid: u8 = 0;
    let mut solid_is_yes = false;
    let mut any_yes = false;
    let ghost mut at: int = 0;
    let ghost mut yes_at: int = 0;
    let mut i: usize = 0;
    while i < chars.len()
        invariant
            i <= chars.len(),
            chars@ == s,
            s == answer@,
            solid <= 1,
            solid == 0 ==> forall|j: int| 0 <= j < i ==> is_whitespace(#[trigger] s[j]),
            solid == 1 ==> 0 <= at < i && !is_whitespace(s[at]) && solid_is_yes == is_yes(s[at])
                && forall|j: int| 0 <= j < i && j != at ==> is_whitespace(#[trigger] s[j]),
            any_yes ==> 0 <= yes_at < i && is_yes(s[yes_at]),
            !any_yes ==> forall|j: int| 0 <= j < i ==> !is_yes(#[trigger] s[j]),
        decreases chars.len() - i,
    {
        let c = chars[i];
        if c == 'y' || c == 'Y' {
            any_yes = true;
            proof {
                yes_at = i as int;
            }
        }
        if !char_is_whitespace(c) {
            if solid == 1 {
                proof {
                    // Two characters that are no white space: whichever one
                    // is taken for the letter, the other stands beside it.
                    let a = at;
                    let b = i as int;
                    assert(!is_whitespace(s[a]) && !is_whitespace(s[b]) && a != b);
                    if is_affirmative(s) {
                        let w = choose|w: int|
                            0 <= w < s.len() && is_yes(#[trigger] s[w]) && forall|j: int|
                                0 <= j < s.len() && j != w ==> is_whitespace(#[trigger] s[j]);
                        if w == a {
                            assert(is_whitespace(s[b]));
                        } else {
                            assert(is_whitespace(s[a]));
                        }
                    }
                }
                return false;
            }
            solid = 1;
            solid_is_yes = c == 'y' || c == 'Y';
            proof {
                at = i as int;
            }
        }
        i += 1;
    }
    if solid == 1 {
        proof {
            if solid_is_yes {
                assert(is_yes(s[at]));
            }
            if is_affirmative(s) {
                let w = choose|w: int|
                    0 <= w < s.len() && is_yes(#[trigger] s[w]) && forall|j: int|
                        0 <= j < s.len() && j != w ==> is_whitespace(#[trigger] s[j]);
                if w != at {
                    assert(is_whitespace(s[at]));
                }
            }
        }
        solid_is_yes
    } else {
        proof {
            if any_yes {
                assert(is_yes(s[yes_at]));
            }
        }
        any_yes
    }
}

/// Whether `text` starts with `prefix`.
pub open spec fn has_prefix(text: Seq<char>, prefix: Seq<char>) -> bool {
    prefix.len() <= text.len() && text.subrange(0, prefix.len() as int) == prefix
}

/// Whether `needle` stands in `text` at index `at`.
pub open spec fn occurs_at(text: Seq<char>, needle: Seq<char>, at: int) -> bool {
    0 <= at && at + needle.len() <= text.len() && text.subrange(at, at + needle.len()) == needle
}

/// Whether `needle` stands somewhere in `text`.
pub open spec fn has_infix(text: Seq<char>, needle: Seq<char>) -> bool {
    exists|at: int| occurs_at(text, needle, at)
}

/// Whether `needle` stands in `text` at index `at`.
pub fn matches_at(text: &Vec<char>, needle: &Vec<char>, at: usize) -> (r: bool)
    ensures
        r == occurs_at(text@, needle@, at as int),
{
    if needle.len() > text.len() || at > text.len() - needle.len() {
        return false;
    }
    let mut k: usize = 0;
    while k < needle.len()
        invariant
            k <= needle.len(),
            at + needle.len() <= text.len(),
            forall|j: int| 0 <= j < k ==> text@[at + j] == needle@[j],
        decreases needle.len() - k,
    {
        if text[at + k] != needle[k] {
            assert(text@.subrange(at as int, at + needle.len())[k as int] == text@[at + k]);
            return false;
        }
        k += 1;
    }
    assert(text@.subrange(at as int, at + needle.len()) =~= needle@);
    true
}

/// Whether `text` starts with `prefix`.
pub fn starts_with(text: &str, prefix: &str) -> (r: bool)
    ensures
        r == has_prefix(text@, prefix@),
{
    let t = chars_of(text);
    let p = chars_of(prefix);
    matches_at(&t, &p, 0)
}

/// Whether `needle` stands somewhere in `text`.
pub fn contains(text: &str, needle: &str) -> (r: bool)
    ensures
        r == has_infix(text@, needle@),
{
    let t = chars_of(text);
    let n = chars_of(needle);
    if n.len() > t.len() {
        assert forall|at: int| !occurs_at(t@, n@, at) by {}
        return false;
    }
    let last = t.len() - n.len();
    let mut at: usize = 0;
    while at < last
        invariant
            at <= last,
            last == t.len() - n.len(),
            n.len() <= t.len(),
            t@ == text@,
            n@ == needle@,
            forall|j: int| 0 <= j < at ==> !occurs_at(t@, n@, j),
        decreases last - at,
    {
        if matches_at(&t, &n, at) {
            assert(occurs_at(text@, needle@, at as int));
            return true;
        }
        at += 1;
    }
    let r = matches_at(&t, &n, last);
    proof {
        if r {
            assert(occurs_at(text@, needle@, last as int));
        } else {
            assert forall|j: int| !occurs_at(t@, n@, j) by {}
        }
    }
    r
}

/// `text` followed by as many spaces as it takes to reach `width`
/// characters; `text` itself where it is that long already.
pub open spec fn padded(text: Seq<char>, width: nat) -> Seq<char> {
    if text.len() < width {
        text + repeated(" "@, (width - text.len()) as nat)
    } else {
        text
    }
}

/// Pads `text` with spaces on the right to `width` characters.
pub fn pad_right(text: &str, width: usize) -> (r: String)
    ensures
        r@ == padded(text@, width as nat),
{
    let mut out = text.to_owned();
    let len = text.unicode_len();
    if len < width {
        let fill = repeat(" ", width - len);
        out.append(fill.as_str());
    }
    out
}

/// Whether `a` comes before `b`, or is `b`, in the order of a dictionary:
/// character by character, each by its code point, a text before its
/// extensions.
pub open spec fn text_le(a: Seq<char>, b: Seq<char>) -> bool
    decreases a.len(),
{
    if a.len() == 0 {
        true
    } else if b.len() == 0 {
        false
    } else if (a[0] as u32) < (b[0] as u32) {
        true
    } else if (a[0] as u32) > (b[0] as u32) {
        false
    } else {
        text_le(a.drop_first(), b.drop_first())
    }
}

/// Of two texts, one comes before the other or they are the same.
pub proof fn lemma_text_le_total(a: Seq<char>, b: Seq<char>)
    ensures
        text_le(a, b) || text_le(b, a),
    decreases a.len(),
{
    if a.len() > 0 && b.len() > 0 && a[0] as u32 == b[0] as u32 {
        lemma_text_le_total(a.drop_first(), b.drop_first());
    }
}

/// What comes before something that comes before a third comes before the
/// third.
pub proof fn lemma_text_le_transitive(a: Seq<char>, b: Seq<char>, c: Seq<char>)
    requires
        text_le(a, b),
        text_le(b, c),
    ensures
        text_le(a, c),
    decreases a.len(),
{
    if a.len() > 0 && b.len() > 0 && c.len() > 0 {
        if a[0] as u32 == b[0] as u32 && b[0] as u32 == c[0] as u32 {
            lemma_text_le_transitive(a.drop_first(), b.drop_first(), c.drop_first());
        }
    }
}

/// Whether `a` comes before `b`, or is `b`, in the order of a dictionary.
pub fn str_le(a: &str, b: &str) -> (r: bool)
    ensures
        r == text_le(a@, b@),
{
    let x = chars_of(a);
    let y = chars_of(b);
    assert(x@.skip(0) =~= a@ && y@.skip(0) =~= b@);
    let mut i: usize = 0;
    while i < x.len() && i < y.len()
        invariant
            i <= x.len(),
            i <= y.len(),
            x@ == a@,
            y@ == b@,
            text_le(a@, b@) == text_le(x@.skip(i as int), y@.skip(i as int)),
        decreases x.len() - i,
    {
        let c = x[i] as u32;
        let d = y[i] as u32;
        proof {
            assert(x@.skip(i as int)[0] == x@[i as int]);
            assert(y@.skip(i as int)[0] == y@[i as int]);
            assert(x@.skip(i as int).drop_first() =~= x@.skip(i + 1));
            assert(y@.skip(i as int).drop_first() =~= y@.skip(i + 1));
        }
        if c < d {
            return true;
        }
        if c > d {
            return false;
        }
        i += 1;
    }
    i == x.len()
}

} // verus!
