//! Character-level helpers shared by the naming, path and report code.

use vstd::prelude::*;

verus! {

/// Whether a character outside ASCII is alphabetic or numeric in the Unicode
/// sense (`char::is_alphanumeric`).
pub uninterp spec fn spec_is_alphanumeric(c: char) -> bool;

/// An ASCII letter or digit.
pub open spec fn ascii_alphanumeric(c: char) -> bool {
    ('a' <= c && c <= 'z') || ('A' <= c && c <= 'Z') || ('0' <= c && c <= '9')
}

/// An ASCII character with the `White_Space` property: space, tab, line
/// feed, vertical tab, form feed, carriage return.
pub open spec fn ascii_whitespace(c: char) -> bool {
    c == ' ' || ('\t' <= c && c <= '\r')
}

/// Whether `c` is alphabetic or numeric (`char::is_alphanumeric`).
pub open spec fn is_alphanumeric_char(c: char) -> bool {
    if (c as u32) < 128 {
        ascii_alphanumeric(c)
    } else {
        spec_is_alphanumeric(c)
    }
}

/// Whether `c` has the Unicode `White_Space` property
/// (`char::is_whitespace`): the ASCII whitespace, next line, no-break space,
/// ogham space mark, the spaces from en quad to hair space, line and
/// paragraph separators, narrow no-break space, medium mathematical space
/// and ideographic space.
pub open spec fn is_whitespace_char(c: char) -> bool {
    ||| ascii_whitespace(c)
    ||| c == '\u{85}'
    ||| c == '\u{a0}'
    ||| c == '\u{1680}'
    ||| ('\u{2000}' <= c && c <= '\u{200a}')
    ||| c == '\u{2028}'
    ||| c == '\u{2029}'
    ||| c == '\u{202f}'
    ||| c == '\u{205f}'
    ||| c == '\u{3000}'
}

/// What `format!("{:?}", s)` prints for a string slice: the text in double
/// quotes, with double quotes, backslashes, control and other non-printable
/// characters escaped as `char::escape_debug` does; single quotes stay as
/// they are.
pub uninterp spec fn spec_debug_str(s: Seq<char>) -> Seq<char>;

/// Calls `char::is_alphanumeric`: a character that is alphabetic or numeric
/// in Unicode. Among ASCII characters these are the letters and digits;
/// beyond ASCII the answer comes from the Unicode tables, and the contract
/// only names it.
#[verifier::external_body]
pub(crate) fn char_is_alphanumeric(c: char) -> (r: bool)
    ensures
        (c as u32) < 128 ==> (r <==> ascii_alphanumeric(c)),
        (c as u32) >= 128 ==> r == spec_is_alphanumeric(c),
{
    c.is_alphanumeric()
}

/// Calls `char::is_whitespace`: a character with the Unicode `White_Space`
/// property, a fixed list of code points.
#[verifier::external_body]
pub(crate) fn char_is_whitespace(c: char) -> (r: bool)
    ensures
        r == is_whitespace_char(c),
{
    c.is_whitespace()
}

/// Calls `String::push`: the character is appended at the end.
#[verifier::external_body]
pub(crate) fn push_char(s: &mut String, c: char)
    ensures
        final(s)@ == old(s)@.push(c),
{
    s.push(c);
}

/// Renders `s` with `str`'s `Debug` implementation (quoted, escaped).
#[verifier::external_body]
pub(crate) fn debug_str(s: &str) -> (r: String)
    ensures
        r@ == spec_debug_str(s@),
{
    format!("{:?}", s)
}

/// The characters of `s`, in order.
pub fn chars_of(s: &str) -> (v: Vec<char>)
    ensures
        v@ == s@,
{
    let mut v: Vec<char> = Vec::new();
    for c in it: s.chars()
        invariant
            v@ == it.seq().take(it.index()),
            it.seq() == s@,
    {
        v.push(c);
    }
    v
}

/// The string made of the characters `cs[from..to]`.
pub fn string_from_chars(cs: &Vec<char>, from: usize, to: usize) -> (r: String)
    requires
        from <= to <= cs.len(),
    ensures
        r@ == cs@.subrange(from as int, to as int),
{
    let mut r = String::new();
    let mut i: usize = from;
    while i < to
        invariant
            from <= i <= to <= cs.len(),
            r@ == cs@.subrange(from as int, i as int),
        decreases to - i,
    {
        push_char(&mut r, cs[i]);
        assert(cs@.subrange(from as int, i + 1) == cs@.subrange(from as int, i as int).push(cs@[i as int]));
        i = i + 1;
    }
    r
}

/// Appends the characters of `t` to `s`.
pub fn push_str(s: &mut String, t: &str)
    ensures
        final(s)@ == old(s)@ + t@,
{
    let cs = chars_of(t);
    let mut i: usize = 0;
    while i < cs.len()
        invariant
            i <= cs.len(),
            cs@ == t@,
            s@ == old(s)@ + cs@.take(i as int),
        decreases cs.len() - i,
    {
        push_char(s, cs[i]);
        assert(cs@.take(i + 1) == cs@.take(i as int).push(cs@[i as int]));
        i = i + 1;
    }
    assert(cs@.take(cs.len() as int) == cs@);
}

/// The ASCII digit for `d` (`d < 10`).
pub open spec fn digit_char(d: int) -> char {
    (48 + d) as char
}

/// The decimal digits of `n`, with leading zeros up to `width` digits
/// (what `format!("{:0width$}", n)` prints).
pub open spec fn decimal_padded(n: nat, width: nat) -> Seq<char>
    decreases n + width,
{
    if n < 10 && width <= 1 {
        seq![digit_char(n as int)]
    } else {
        decimal_padded(n / 10, if width > 0 { (width - 1) as nat } else { 0 }) + seq![
            digit_char((n % 10) as int),
        ]
    }
}

/// The decimal digits of `n` (what `format!("{}", n)` prints).
pub open spec fn decimal(n: nat) -> Seq<char> {
    decimal_padded(n, 1)
}

/// Appends the decimal digits of `n`, zero-padded to `width` digits.
pub fn push_decimal(out: &mut String, n: u64, width: u64)
    ensures
        final(out)@ == old(out)@ + decimal_padded(n as nat, width as nat),
    decreases n + width,
{
    if n < 10 && width <= 1 {
        let d: u8 = n as u8;
        push_char(out, (48u8 + d) as char);
    } else {
        let w: u64 = if width > 0 { width - 1 } else { 0 };
        push_decimal(out, n / 10, w);
        let d: u8 = (n % 10) as u8;
        push_char(out, (48u8 + d) as char);
    }
}

/// Every digit string is non-empty and made of ASCII digits; it is at least `width` long.
pub proof fn lemma_decimal_padded_shape(n: nat, width: nat)
    ensures
        decimal_padded(n, width).len() >= 1,
        decimal_padded(n, width).len() >= width,
        forall|i: int|
            0 <= i < decimal_padded(n, width).len() ==> '0' <= #[trigger] decimal_padded(
                n,
                width,
            )[i] <= '9',
    decreases n + width,
{
    if n < 10 && width <= 1 {
    } else {
        lemma_decimal_padded_shape(n / 10, if width > 0 { (width - 1) as nat } else { 0 });
    }
}

/// Zero-padded decimal rendering is injective: two numbers print alike only if they are equal.
pub proof fn lemma_decimal_padded_injective(a: nat, b: nat, width: nat)
    requires
        decimal_padded(a, width) == decimal_padded(b, width),
    ensures
        a == b,
    decreases a + b + width,
{
    let w2: nat = if width > 0 { (width - 1) as nat } else { 0 };
    let da = decimal_padded(a, width);
    let db = decimal_padded(b, width);
    if a < 10 && width <= 1 {
        if b < 10 && width <= 1 {
            assert(da[0] == digit_char(a as int));
            assert(db[0] == digit_char(b as int));
            assert(da[0] == db[0]);
        } else {
            lemma_decimal_padded_shape(b / 10, w2);
            assert(db.len() >= 2);
        }
    } else {
        if b < 10 && width <= 1 {
            lemma_decimal_padded_shape(a / 10, w2);
            assert(da.len() >= 2);
        } else {
            let pa = decimal_padded(a / 10, w2);
            let pb = decimal_padded(b / 10, w2);
            assert(da.last() == digit_char((a % 10) as int));
            assert(db.last() == digit_char((b % 10) as int));
            assert(a % 10 == b % 10);
            assert(da.drop_last() == pa);
            assert(db.drop_last() == pb);
            lemma_decimal_padded_injective(a / 10, b / 10, w2);
        }
    }
}

/// Whether `pat` occurs in `s` as a contiguous run of characters.
pub open spec fn contains_seq(s: Seq<char>, pat: Seq<char>) -> bool {
    exists|i: int| 0 <= i && i + pat.len() <= s.len() && #[trigger] s.subrange(i, i + pat.len()) == pat
}

/// Whether `pat` occurs in `s` (what `str::contains` answers for a string pattern).
pub fn contains_str(s: &str, pat: &str) -> (r: bool)
    ensures
        r == contains_seq(s@, pat@),
{
    let sc = chars_of(s);
    let pc = chars_of(pat);
    if pc.len() > sc.len() {
        return false;
    }
    let mut i: usize = 0;
    while i <= sc.len() - pc.len()
        invariant
            sc@ == s@,
            pc@ == pat@,
            pc.len() <= sc.len(),
            i <= sc.len() - pc.len() + 1,
            forall|k: int| 0 <= k < i ==> #[trigger] sc@.subrange(k, k + pc@.len()) != pc@,
        decreases sc.len() - i,
    {
        let mut j: usize = 0;
        let mut same = true;
        while j < pc.len()
            invariant
                i <= sc.len() - pc.len(),
                j <= pc.len(),
                same == (forall|m: int| 0 <= m < j ==> sc@[i + m] == pc@[m]),
            decreases pc.len() - j,
        {
            if sc[i + j] != pc[j] {
                same = false;
            }
            j = j + 1;
        }
        if same {
            assert(sc@.subrange(i as int, i + pc@.len()) == pc@);
            return true;
        }
        assert(sc@.subrange(i as int, i + pc@.len()) != pc@) by {
            let m = choose|m: int| 0 <= m < pc.len() && sc@[i + m] != pc@[m];
            assert(sc@.subrange(i as int, i + pc@.len())[m] == sc@[i + m]);
        }
        i = i + 1;
    }
    false
}

} // verus!
