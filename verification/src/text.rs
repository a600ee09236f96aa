//! Text operations on names and CSV fields.

use vstd::prelude::*;

verus! {

/// Whether `c` has the Unicode `White_Space` property, which is what
/// `char::is_whitespace` tests.
pub open spec fn is_white_space(c: char) -> bool {
    let u = c as u32;
    (0x9 <= u && u <= 0xd) || u == 0x20 || u == 0x85 || u == 0xa0 || u == 0x1680 || (0x2000 <= u
        && u <= 0x200a) || u == 0x2028 || u == 0x2029 || u == 0x202f || u == 0x205f || u == 0x3000
}

/// `t` is `s` without its leading and trailing white space.
pub open spec fn is_trim_of(s: Seq<char>, t: Seq<char>) -> bool {
    exists|i: int, j: int|
        0 <= i <= j <= s.len() && t == s.subrange(i, j) && (forall|k: int|
            0 <= k < i ==> is_white_space(#[trigger] s[k])) && (forall|k: int|
            j <= k < s.len() ==> is_white_space(#[trigger] s[k])) && (i < j ==> !is_white_space(
            s[i]) && !is_white_space(s[j - 1]))
}

/// The contents of a list of strings.
pub open spec fn texts_view(v: Seq<String>) -> Seq<Seq<char>> {
    v.map_values(|s: String| s@)
}

/// The first position at or after `from` that holds no white space (or the
/// length, if there is none).
pub open spec fn first_solid(s: Seq<char>, from: int) -> int
    decreases s.len() - from,
{
    if from < 0 || from >= s.len() {
        s.len() as int
    } else if !is_white_space(s[from]) {
        from
    } else {
        first_solid(s, from + 1)
    }
}

/// The end of the last character before `end` that is not white space (or 0).
pub open spec fn solid_end(s: Seq<char>, end: int) -> int
    decreases end,
{
    if end <= 0 || end > s.len() {
        0
    } else if !is_white_space(s[end - 1]) {
        end
    } else {
        solid_end(s, end - 1)
    }
}

/// `s` without its leading and trailing white space.
pub open spec fn trim_text(s: Seq<char>) -> Seq<char> {
    let i = first_solid(s, 0);
    let j = solid_end(s, s.len() as int);
    if i < j {
        s.subrange(i, j)
    } else {
        Seq::empty()
    }
}

proof fn lemma_first_solid(s: Seq<char>, from: int)
    requires
        0 <= from <= s.len(),
    ensures
        from <= first_solid(s, from) <= s.len(),
        forall|k: int| from <= k < first_solid(s, from) ==> is_white_space(#[trigger] s[k]),
        first_solid(s, from) < s.len() ==> !is_white_space(s[first_solid(s, from)]),
    decreases s.len() - from,
{
    if from < s.len() && is_white_space(s[from]) {
        lemma_first_solid(s, from + 1);
    }
}

proof fn lemma_solid_end(s: Seq<char>, end: int)
    requires
        0 <= end <= s.len(),
    ensures
        0 <= solid_end(s, end) <= end,
        forall|k: int| solid_end(s, end) <= k < end ==> is_white_space(#[trigger] s[k]),
        solid_end(s, end) > 0 ==> !is_white_space(s[solid_end(s, end) - 1]),
    decreases end,
{
    if end > 0 && is_white_space(s[end - 1]) {
        lemma_solid_end(s, end - 1);
    }
}

/// `trim_text` is the trimmed text, and the only one.
pub proof fn lemma_trim_text(s: Seq<char>)
    ensures
        is_trim_of(s, trim_text(s)),
        forall|t: Seq<char>| is_trim_of(s, t) ==> t == trim_text(s),
{
    let i = first_solid(s, 0);
    let j = solid_end(s, s.len() as int);
    lemma_first_solid(s, 0);
    lemma_solid_end(s, s.len() as int);
    if i < j {
        assert(is_trim_of(s, s.subrange(i, j)));
    } else {
        if i < s.len() {
            // s[i] is not white space, yet every position from j on is
            assert(is_white_space(s[i]));
        }
        assert(is_trim_of(s, s.subrange(0, 0)));
        assert(s.subrange(0, 0) =~= Seq::<char>::empty());
    }
    lemma_trim_unique(s, trim_text(s));
}

/// The trimmed text of a string is unique.
pub proof fn lemma_trim_unique(s: Seq<char>, t: Seq<char>)
    requires
        is_trim_of(s, t),
    ensures
        forall|u: Seq<char>| is_trim_of(s, u) ==> u == t,
{
    assert forall|u: Seq<char>| is_trim_of(s, u) implies u == t by {
        let (i, j) = choose|i: int, j: int|
            0 <= i <= j <= s.len() && t == s.subrange(i, j) && (forall|k: int|
                0 <= k < i ==> is_white_space(#[trigger] s[k])) && (forall|k: int|
                j <= k < s.len() ==> is_white_space(#[trigger] s[k])) && (i < j ==> !is_white_space(
                s[i]) && !is_white_space(s[j - 1]));
        let (a, b) = choose|a: int, b: int|
            0 <= a <= b <= s.len() && u == s.subrange(a, b) && (forall|k: int|
                0 <= k < a ==> is_white_space(#[trigger] s[k])) && (forall|k: int|
                b <= k < s.len() ==> is_white_space(#[trigger] s[k])) && (a < b ==> !is_white_space(
                s[a]) && !is_white_space(s[b - 1]));
        if i < j && a < b {
            if i < a {
                assert(is_white_space(s[i]));
            }
            if a < i {
                assert(is_white_space(s[a]));
            }
            if j < b {
                assert(is_white_space(s[b - 1]));
            }
            if b < j {
                assert(is_white_space(s[j - 1]));
            }
            assert(u =~= t);
        } else if i < j {
            if a < s.len() {
                assert(is_white_space(s[i]));
            }
        } else if a < b {
            if i < s.len() {
                assert(is_white_space(s[a]));
            }
        } else {
            assert(u =~= t);
        }
    }
}

/// Calls `str::trim`.
///
/// Trusted: std documents `trim` as removing leading and trailing white space,
/// white space being defined by the Unicode `White_Space` property.
#[verifier::external_body]
pub fn trim(s: &str) -> (t: &str)
    ensures
        is_trim_of(s@, t@),
{
    s.trim()
}

/// The lowercase equivalent of a string, as `str::to_lowercase` computes it
/// (by the Unicode derived property `Lowercase`, context-sensitive for final
/// sigma).
pub uninterp spec fn lowercase(s: Seq<char>) -> Seq<char>;

/// Calls `str::to_lowercase`.
///
/// Trusted: the result is the one that `lowercase` names, a function of the
/// text alone.
#[verifier::external_body]
pub fn to_lowercase(s: &str) -> (lower: String)
    ensures
        lower@ == lowercase(s@),
{
    s.to_lowercase()
}

/// Calls `String::push`.
///
/// Trusted: std documents `push` as appending the character to the end of the
/// string.
#[verifier::external_body]
pub fn push_char(s: &mut String, c: char)
    ensures
        final(s)@ == old(s)@.push(c),
{
    s.push(c)
}

/// `s` with every occurrence of `from` replaced by `to`.
pub open spec fn replace_char(s: Seq<char>, from: char, to: Seq<char>) -> Seq<char>
    decreases s.len(),
{
    if s.len() == 0 {
        Seq::empty()
    } else {
        replace_char(s.drop_last(), from, to) + (if s.last() == from {
            to
        } else {
            seq![s.last()]
        })
    }
}

/// Replacing works piece by piece: the replacement of a concatenation is the
/// concatenation of the replacements.
pub proof fn lemma_replace_concat(a: Seq<char>, b: Seq<char>, from: char, to: Seq<char>)
    ensures
        replace_char(a + b, from, to) == replace_char(a, from, to) + replace_char(b, from, to),
    decreases b.len(),
{
    if b.len() == 0 {
        assert(a + b =~= a);
        assert(replace_char(a, from, to) + Seq::<char>::empty() =~= replace_char(a, from, to));
    } else {
        assert((a + b).drop_last() =~= a + b.drop_last());
        assert((a + b).last() == b.last());
        lemma_replace_concat(a, b.drop_last(), from, to);
        assert(replace_char(a + b, from, to) =~= replace_char(a, from, to) + replace_char(b, from, to));
    }
}

/// A single character becomes `to` if it is `from`, and stays otherwise.
pub proof fn lemma_replace_single(c: char, from: char, to: Seq<char>)
    ensures
        replace_char(seq![c], from, to) == if c == from { to } else { seq![c] },
{
    assert(seq![c].drop_last() =~= Seq::<char>::empty());
    assert(seq![c].last() == c);
    assert(replace_char(seq![c].drop_last(), from, to) =~= Seq::<char>::empty());
    assert(Seq::<char>::empty() + to =~= to);
    assert(Seq::<char>::empty() + seq![c] =~= seq![c]);
}

/// Every occurrence is replaced: when `to` does not hold `from`, nothing of
/// `from` is left.
pub proof fn lemma_replace_removes_all(s: Seq<char>, from: char, to: Seq<char>)
    requires
        !to.contains(from),
    ensures
        !replace_char(s, from, to).contains(from),
    decreases s.len(),
{
    if s.len() > 0 {
        lemma_replace_removes_all(s.drop_last(), from, to);
        let head = replace_char(s.drop_last(), from, to);
        let tail = if s.last() == from { to } else { seq![s.last()] };
        assert forall|k: int| 0 <= k < (head + tail).len() implies (head + tail)[k] != from by {
            if k < head.len() {
                assert((head + tail)[k] == head[k]);
            } else {
                assert((head + tail)[k] == tail[k - head.len()]);
            }
        }
    }
}

/// Text without `from` is left as it is.
pub proof fn lemma_replace_untouched(s: Seq<char>, from: char, to: Seq<char>)
    requires
        !s.contains(from),
    ensures
        replace_char(s, from, to) == s,
    decreases s.len(),
{
    if s.len() > 0 {
        assert(s.last() == s[s.len() - 1]);
        assert forall|k: int| 0 <= k < s.drop_last().len() implies s.drop_last()[k] != from by {
            assert(s.drop_last()[k] == s[k]);
        }
        lemma_replace_untouched(s.drop_last(), from, to);
        assert(s.drop_last() + seq![s.last()] =~= s);
    }
}

/// Replace every occurrence of the character `from` in `s` by `to`.
pub fn replace_char_with(s: &str, from: char, to: &str) -> (res: String)
    ensures
        res@ == replace_char(s@, from, to@),
{
    let n = s.unicode_len();
    let mut res = String::new();
    let mut i: usize = 0;
    while i < n
        invariant
            n == s@.len(),
            i <= n,
            res@ == replace_char(s@.take(i as int), from, to@),
        decreases n - i,
    {
        let c = s.get_char(i);
        proof {
            assert(s@.take(i + 1).drop_last() == s@.take(i as int));
            assert(s@.take(i + 1).last() == c);
        }
        if c == from {
            res.append(to);
        } else {
            push_char(&mut res, c);
        }
        i = i + 1;
    }
    proof {
        assert(s@.take(n as int) == s@);
    }
    res
}

} // verus!
