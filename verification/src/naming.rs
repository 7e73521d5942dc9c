//! Meeting names turned into folder-safe text.

use vstd::prelude::*;
use crate::text::{ascii_whitespace, chars_of, char_is_alphanumeric, char_is_whitespace, is_alphanumeric_char, is_whitespace_char, string_from_chars};

verus! {

/// The longest name, in characters, that `sanitize_meeting_name` returns.
pub const MAX_SANITIZED_NAME_CHARS: usize = 80;

/// Whether a character of a meeting name is kept as it is.
pub open spec fn keeps_char(c: char) -> bool {
    is_alphanumeric_char(c) || c == ' ' || c == '-' || c == '_'
}

/// A character of a meeting name after replacing what is not kept by `_`.
pub open spec fn sanitize_char(c: char) -> char {
    if keeps_char(c) {
        c
    } else {
        '_'
    }
}

/// The maximal runs of non-whitespace characters of `s`, in order
/// (what `str::split_whitespace` yields).
pub open spec fn split_whitespace(s: Seq<char>) -> Seq<Seq<char>>
    decreases s.len(),
{
    if s.len() == 0 {
        Seq::empty()
    } else {
        let words = split_whitespace(s.drop_last());
        let c = s.last();
        if is_whitespace_char(c) {
            words
        } else if s.len() >= 2 && !is_whitespace_char(s[s.len() - 2]) {
            words.update(words.len() - 1, words.last().push(c))
        } else {
            words.push(seq![c])
        }
    }
}

/// The words joined with a single `-` between neighbours.
pub open spec fn join_with_dash(words: Seq<Seq<char>>) -> Seq<char>
    decreases words.len(),
{
    if words.len() == 0 {
        Seq::empty()
    } else if words.len() == 1 {
        words[0]
    } else {
        join_with_dash(words.drop_last()) + seq!['-'] + words.last()
    }
}

/// `s` without its leading dashes.
pub open spec fn trim_start_dashes(s: Seq<char>) -> Seq<char>
    decreases s.len(),
{
    if s.len() > 0 && s[0] == '-' {
        trim_start_dashes(s.drop_first())
    } else {
        s
    }
}

/// `s` without its trailing dashes.
pub open spec fn trim_end_dashes(s: Seq<char>) -> Seq<char>
    decreases s.len(),
{
    if s.len() > 0 && s.last() == '-' {
        trim_end_dashes(s.drop_last())
    } else {
        s
    }
}

/// At most the first `n` characters of `s`.
pub open spec fn take_at_most(s: Seq<char>, n: nat) -> Seq<char> {
    if s.len() <= n {
        s
    } else {
        s.take(n as int)
    }
}

/// The folder-safe form of a meeting name: characters other than
/// alphanumerics, space, `-` and `_` become `_`; the whitespace-separated
/// words are joined with `-`; leading and trailing dashes are dropped; and the
/// result is cut to its first 80 characters.
pub open spec fn sanitized_name(name: Seq<char>) -> Seq<char> {
    take_at_most(
        trim_end_dashes(
            trim_start_dashes(join_with_dash(split_whitespace(name.map_values(|c: char| sanitize_char(c))))),
        ),
        MAX_SANITIZED_NAME_CHARS as nat,
    )
}

proof fn lemma_join_push(words: Seq<Seq<char>>, w: Seq<char>)
    ensures
        join_with_dash(words.push(w)) == (if words.len() == 0 {
            w
        } else {
            join_with_dash(words) + seq!['-'] + w
        }),
{
    assert(words.push(w).drop_last() == words);
}

proof fn lemma_join_extend_last(words: Seq<Seq<char>>, c: char)
    requires
        words.len() > 0,
    ensures
        join_with_dash(words.update(words.len() - 1, words.last().push(c))) == join_with_dash(
            words,
        ).push(c),
{
    let updated = words.update(words.len() - 1, words.last().push(c));
    if words.len() > 1 {
        assert(updated.drop_last() == words.drop_last());
        assert(updated.last() == words.last().push(c));
        assert(join_with_dash(updated) == join_with_dash(words.drop_last()) + seq!['-']
            + words.last().push(c));
    }
}

proof fn lemma_trim_start_step(s: Seq<char>, k: int)
    requires
        0 <= k < s.len(),
        s[k] == '-',
    ensures
        trim_start_dashes(s.subrange(k, s.len() as int)) == trim_start_dashes(
            s.subrange(k + 1, s.len() as int),
        ),
{
    assert(s.subrange(k, s.len() as int).drop_first() == s.subrange(k + 1, s.len() as int));
}

proof fn lemma_trim_end_step(s: Seq<char>, a: int, b: int)
    requires
        0 <= a < b <= s.len(),
        s[b - 1] == '-',
    ensures
        trim_end_dashes(s.subrange(a, b)) == trim_end_dashes(s.subrange(a, b - 1)),
{
    assert(s.subrange(a, b).drop_last() == s.subrange(a, b - 1));
}

/// Sanitize meeting name for use in folder path.
pub fn sanitize_meeting_name(name: &str) -> (r: String)
    ensures
        r@ == sanitized_name(name@),
{
    let cs = chars_of(name);
    let ghost mapped = cs@.map_values(|c: char| sanitize_char(c));
    let mut joined: Vec<char> = Vec::new();
    let mut prev_word_char = false;
    let mut have_word = false;
    let mut i: usize = 0;
    while i < cs.len()
        invariant
            i <= cs.len(),
            cs@ == name@,
            mapped == cs@.map_values(|c: char| sanitize_char(c)),
            joined@ == join_with_dash(split_whitespace(mapped.take(i as int))),
            have_word == (split_whitespace(mapped.take(i as int)).len() > 0),
            prev_word_char == (i > 0 && !is_whitespace_char(mapped[i - 1])),
            prev_word_char ==> have_word,
        decreases cs.len() - i,
    {
        let c = cs[i];
        let m = if char_is_alphanumeric(c) || c == ' ' || c == '-' || c == '_' {
            c
        } else {
            '_'
        };
        assert(m == mapped[i as int]);
        let is_ws = char_is_whitespace(m);
        let ghost before = mapped.take(i as int);
        let ghost after = mapped.take(i + 1);
        assert(after.drop_last() == before);
        assert(after.last() == m);
        let ghost words = split_whitespace(before);
        if is_ws {
            prev_word_char = false;
        } else if prev_word_char {
            assert(after[after.len() - 2] == mapped[i - 1]);
            proof {
                lemma_join_extend_last(words, m);
            }
            joined.push(m);
        } else {
            proof {
                lemma_join_push(words, seq![m]);
            }
            if have_word {
                joined.push('-');
            }
            joined.push(m);
            have_word = true;
            prev_word_char = true;
        }
        i = i + 1;
    }
    assert(mapped.take(cs.len() as int) == mapped);
    let ghost j = joined@;
    // drop leading dashes
    let mut a: usize = 0;
    assert(j.subrange(0, j.len() as int) == j);
    while a < joined.len() && joined[a] == '-'
        invariant
            a <= joined.len(),
            joined@ == j,
            trim_start_dashes(j) == trim_start_dashes(j.subrange(a as int, j.len() as int)),
        decreases joined.len() - a,
    {
        proof {
            lemma_trim_start_step(j, a as int);
        }
        a = a + 1;
    }
    assert(trim_start_dashes(j) == j.subrange(a as int, j.len() as int));
    // drop trailing dashes
    let mut b: usize = joined.len();
    assert(j.subrange(a as int, j.len() as int) == j.subrange(a as int, b as int));
    while b > a && joined[b - 1] == '-'
        invariant
            a <= b <= joined.len(),
            joined@ == j,
            trim_end_dashes(trim_start_dashes(j)) == trim_end_dashes(j.subrange(a as int, b as int)),
        decreases b,
    {
        proof {
            lemma_trim_end_step(j, a as int, b as int);
        }
        b = b - 1;
    }
    let ghost trimmed = j.subrange(a as int, b as int);
    assert(trim_end_dashes(trimmed) == trimmed);
    let end: usize = if b - a <= MAX_SANITIZED_NAME_CHARS {
        b
    } else {
        a + MAX_SANITIZED_NAME_CHARS
    };
    let r = string_from_chars(&joined, a, end);
    assert(r@ == take_at_most(trimmed, MAX_SANITIZED_NAME_CHARS as nat));
    r
}

proof fn lemma_split_nonempty(s: Seq<char>)
    requires
        s.len() > 0,
        !is_whitespace_char(s.last()),
    ensures
        split_whitespace(s).len() > 0,
    decreases s.len(),
{
    if s.len() >= 2 && !is_whitespace_char(s[s.len() - 2]) {
        lemma_split_nonempty(s.drop_last());
    }
}

proof fn lemma_words_chars(s: Seq<char>)
    requires
        forall|i: int| 0 <= i < s.len() ==> keeps_char(#[trigger] s[i]),
    ensures
        forall|k: int, m: int|
            0 <= k < split_whitespace(s).len() && 0 <= m < split_whitespace(s)[k].len() ==> {
                let c = #[trigger] split_whitespace(s)[k][m];
                keeps_char(c) && !is_whitespace_char(c)
            },
    decreases s.len(),
{
    if s.len() > 0 {
        let p = s.drop_last();
        assert forall|i: int| 0 <= i < p.len() implies keeps_char(#[trigger] p[i]) by {
            assert(p[i] == s[i]);
        }
        lemma_words_chars(p);
        let words = split_whitespace(p);
        let c = s.last();
        assert(keeps_char(s[s.len() - 1]));
        let r = split_whitespace(s);
        assert forall|k: int, m: int| 0 <= k < r.len() && 0 <= m < r[k].len() implies {
            let d = #[trigger] r[k][m];
            keeps_char(d) && !is_whitespace_char(d)
        } by {
            if is_whitespace_char(c) {
            } else if s.len() >= 2 && !is_whitespace_char(s[s.len() - 2]) {
                assert(p.last() == s[s.len() - 2]);
                lemma_split_nonempty(p);
                if k < words.len() - 1 {
                    assert(r[k] == words[k]);
                } else if m < words.last().len() {
                    assert(r[k][m] == words[k][m]);
                } else {
                    assert(r[k][m] == c);
                }
            } else {
                if k < words.len() {
                    assert(r[k] == words[k]);
                } else {
                    assert(r[k][m] == c);
                }
            }
        }
    }
}

proof fn lemma_join_chars(words: Seq<Seq<char>>)
    requires
        forall|k: int, m: int|
            0 <= k < words.len() && 0 <= m < words[k].len() ==> {
                let c = #[trigger] words[k][m];
                keeps_char(c) && !is_whitespace_char(c)
            },
    ensures
        forall|i: int|
            0 <= i < join_with_dash(words).len() ==> {
                let c = #[trigger] join_with_dash(words)[i];
                c == '-' || (keeps_char(c) && !is_whitespace_char(c))
            },
    decreases words.len(),
{
    if words.len() > 1 {
        let p = words.drop_last();
        assert forall|k: int, m: int| 0 <= k < p.len() && 0 <= m < p[k].len() implies {
            let c = #[trigger] p[k][m];
            keeps_char(c) && !is_whitespace_char(c)
        } by {
            assert(p[k] == words[k]);
        }
        lemma_join_chars(p);
        let j = join_with_dash(words);
        let jp = join_with_dash(p);
        let last = words.last();
        assert forall|i: int| 0 <= i < j.len() implies {
            let c = #[trigger] j[i];
            c == '-' || (keeps_char(c) && !is_whitespace_char(c))
        } by {
            if i < jp.len() {
                assert(j[i] == jp[i]);
            } else if i == jp.len() {
                assert(j[i] == '-');
            } else {
                assert(j[i] == last[i - jp.len() - 1]);
                assert(words[words.len() - 1][i - jp.len() - 1] == last[i - jp.len() - 1]);
            }
        }
    } else if words.len() == 1 {
        assert forall|i: int| 0 <= i < join_with_dash(words).len() implies {
            let c = #[trigger] join_with_dash(words)[i];
            c == '-' || (keeps_char(c) && !is_whitespace_char(c))
        } by {
            assert(join_with_dash(words)[i] == words[0][i]);
        }
    }
}

proof fn lemma_trim_start_is_suffix(s: Seq<char>)
    ensures
        exists|a: int| 0 <= a <= s.len() && trim_start_dashes(s) == #[trigger] s.subrange(a, s.len() as int),
        trim_start_dashes(s).len() > 0 ==> trim_start_dashes(s)[0] != '-',
    decreases s.len(),
{
    if s.len() > 0 && s[0] == '-' {
        lemma_trim_start_is_suffix(s.drop_first());
        let a = choose|a: int|
            0 <= a <= s.drop_first().len() && trim_start_dashes(s.drop_first())
                == #[trigger] s.drop_first().subrange(a, s.drop_first().len() as int);
        assert(s.drop_first().subrange(a, s.drop_first().len() as int) == s.subrange(
            a + 1,
            s.len() as int,
        ));
    } else {
        assert(s.subrange(0, s.len() as int) == s);
    }
}

proof fn lemma_trim_end_is_prefix(s: Seq<char>)
    ensures
        exists|b: int| 0 <= b <= s.len() && trim_end_dashes(s) == #[trigger] s.subrange(0, b),
        trim_end_dashes(s).len() > 0 ==> trim_end_dashes(s).last() != '-',
        s.len() > 0 && s[0] != '-' ==> trim_end_dashes(s).len() == 0 || trim_end_dashes(s)[0]
            == s[0],
    decreases s.len(),
{
    if s.len() > 0 && s.last() == '-' {
        lemma_trim_end_is_prefix(s.drop_last());
        let b = choose|b: int|
            0 <= b <= s.drop_last().len() && trim_end_dashes(s.drop_last())
                == #[trigger] s.drop_last().subrange(0, b);
        assert(s.drop_last().subrange(0, b) == s.subrange(0, b));
    } else {
        assert(s.subrange(0, s.len() as int) == s);
    }
}

/// What a sanitized name looks like: at most 80 characters; each one either a
/// dash or a kept character (alphanumeric, space, `-` or `_`) that is not
/// whitespace; never a leading dash; and no trailing dash unless the name had
/// to be cut to 80 characters.
pub proof fn lemma_sanitized_name_shape(name: Seq<char>)
    ensures
        sanitized_name(name).len() <= MAX_SANITIZED_NAME_CHARS,
        forall|i: int|
            0 <= i < sanitized_name(name).len() ==> {
                let c = #[trigger] sanitized_name(name)[i];
                c == '-' || (keeps_char(c) && !is_whitespace_char(c))
            },
        sanitized_name(name).len() > 0 ==> sanitized_name(name)[0] != '-',
        sanitized_name(name).len() > 0 && sanitized_name(name).len() < MAX_SANITIZED_NAME_CHARS
            ==> sanitized_name(name).last() != '-',
{
    let mapped = name.map_values(|c: char| sanitize_char(c));
    assert forall|i: int| 0 <= i < mapped.len() implies keeps_char(#[trigger] mapped[i]) by {
        if !keeps_char(name[i]) {
            assert(mapped[i] == '_');
        }
    }
    lemma_words_chars(mapped);
    let words = split_whitespace(mapped);
    lemma_join_chars(words);
    let j = join_with_dash(words);
    lemma_trim_start_is_suffix(j);
    let t1 = trim_start_dashes(j);
    let a = choose|a: int| 0 <= a <= j.len() && t1 == #[trigger] j.subrange(a, j.len() as int);
    lemma_trim_end_is_prefix(t1);
    let t2 = trim_end_dashes(t1);
    let b = choose|b: int| 0 <= b <= t1.len() && t2 == #[trigger] t1.subrange(0, b);
    let r = sanitized_name(name);
    assert forall|i: int| 0 <= i < r.len() implies {
        let c = #[trigger] r[i];
        c == '-' || (keeps_char(c) && !is_whitespace_char(c))
    } by {
        assert(r[i] == t2[i]);
        assert(t2[i] == t1[i]);
        assert(t1[i] == j[a + i]);
    }
    if r.len() > 0 {
        assert(r[0] == t2[0]);
        assert(t1.len() > 0 && t1[0] != '-');
    }
    if r.len() > 0 && r.len() < MAX_SANITIZED_NAME_CHARS {
        assert(r == t2);
    }
}

proof fn lemma_split_single_word(s: Seq<char>)
    requires
        s.len() > 0,
        forall|i: int| 0 <= i < s.len() ==> !is_whitespace_char(#[trigger] s[i]),
    ensures
        split_whitespace(s) == seq![s],
    decreases s.len(),
{
    if s.len() >= 2 {
        let p = s.drop_last();
        assert forall|i: int| 0 <= i < p.len() implies !is_whitespace_char(#[trigger] p[i]) by {
            assert(p[i] == s[i]);
        }
        lemma_split_single_word(p);
        assert(!is_whitespace_char(s[s.len() - 2]));
        assert(!is_whitespace_char(s[s.len() - 1]));
        assert(p.push(s.last()) == s);
        assert(seq![p].update(0, p.push(s.last())) == seq![s]);
        assert(split_whitespace(s) == split_whitespace(p).update(0, p.push(s.last())));
    } else {
        assert(!is_whitespace_char(s[0]));
        assert(s.last() == s[0]);
        assert(seq![s[0]] == s);
        assert(s.drop_last() == Seq::<char>::empty());
        assert(split_whitespace(s.drop_last()) == Seq::<Seq<char>>::empty());
        assert(Seq::<Seq<char>>::empty().push(seq![s[0]]) == seq![s]);
    }
}

/// Sanitizing is idempotent: a sanitized name that does not end in a dash
/// (always so when it is shorter than 80 characters) comes back unchanged
/// when sanitized again.
pub proof fn lemma_sanitize_idempotent(name: Seq<char>)
    requires
        sanitized_name(name).len() == 0 || sanitized_name(name).last() != '-',
    ensures
        sanitized_name(sanitized_name(name)) == sanitized_name(name),
{
    let r = sanitized_name(name);
    lemma_sanitized_name_shape(name);
    assert forall|i: int| 0 <= i < r.len() implies keeps_char(#[trigger] r[i]) && !is_whitespace_char(r[i]) by {
        let c = r[i];
        if c == '-' {
            assert(ascii_whitespace('-') == false);
        }
    }
    let mapped = r.map_values(|c: char| sanitize_char(c));
    assert(mapped == r);
    if r.len() == 0 {
        assert(split_whitespace(mapped) == Seq::<Seq<char>>::empty());
        assert(join_with_dash(Seq::<Seq<char>>::empty()) == Seq::<char>::empty());
        assert(sanitized_name(r) == r);
    } else {
        lemma_split_single_word(mapped);
        assert(join_with_dash(seq![r]) == r);
        assert(trim_start_dashes(r) == r);
        assert(trim_end_dashes(r) == r);
        assert(sanitized_name(r) == r);
    }
}

} // verus!
