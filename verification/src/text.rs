//! Character- and string-level building blocks shared by the whole crate.
use vstd::prelude::*;

verus! {

/// Unicode `White_Space` property, as used by `char::is_whitespace`.
pub open spec fn is_ws(c: char) -> bool {
    ||| ('\u{9}' <= c && c <= '\u{d}')
    ||| c == ' '
    ||| c == '\u{85}'
    ||| c == '\u{a0}'
    ||| c == '\u{1680}'
    ||| ('\u{2000}' <= c && c <= '\u{200a}')
    ||| c == '\u{2028}'
    ||| c == '\u{2029}'
    ||| c == '\u{202f}'
    ||| c == '\u{205f}'
    ||| c == '\u{3000}'
}

/// Unicode general category `Cc`, as used by `char::is_control`.
pub open spec fn is_control(c: char) -> bool {
    c <= '\u{1f}' || ('\u{7f}' <= c && c <= '\u{9f}')
}

pub fn char_is_ws(c: char) -> (r: bool)
    ensures
        r == is_ws(c),
{
    ('\u{9}' <= c && c <= '\u{d}') || c == ' ' || c == '\u{85}' || c == '\u{a0}' || c
        == '\u{1680}' || ('\u{2000}' <= c && c <= '\u{200a}') || c == '\u{2028}' || c
        == '\u{2029}' || c == '\u{202f}' || c == '\u{205f}' || c == '\u{3000}'
}

pub fn char_is_control(c: char) -> (r: bool)
    ensures
        r == is_control(c),
{
    c <= '\u{1f}' || ('\u{7f}' <= c && c <= '\u{9f}')
}

/// Appends one character to a `String` (`String::push`).
#[verifier::external_body]
pub(crate) fn push_char(s: &mut String, c: char)
    ensures
        final(s)@ == old(s)@.push(c),
{
    s.push(c);
}

/// The characters of a string slice, in order.
pub fn chars_of(s: &str) -> (r: Vec<char>)
    ensures
        r@ == s@,
{
    broadcast use vstd::string::group_string_axioms;
    let mut v: Vec<char> = Vec::new();
    for c in it: s.chars()
        invariant
            v@ == it.seq().take(it.index() as int),
    {
        v.push(c);
    }
    v
}

/// Builds a `String` holding exactly the given characters.
pub fn string_from_chars(cs: &[char]) -> (r: String)
    ensures
        r@ == cs@,
{
    let mut out = String::new();
    let mut i: usize = 0;
    while i < cs.len()
        invariant
            i <= cs@.len(),
            out@ == cs@.take(i as int),
        decreases cs@.len() - i,
    {
        push_char(&mut out, cs[i]);
        i = i + 1;
        assert(out@ =~= cs@.take(i as int));
    }
    assert(out@ =~= cs@);
    out
}


/// Drops the leading whitespace (`str::trim_start`).
pub open spec fn trim_start(s: Seq<char>) -> Seq<char>
    decreases s.len(),
{
    if s.len() > 0 && is_ws(s[0]) {
        trim_start(s.drop_first())
    } else {
        s
    }
}

/// Drops the trailing whitespace (`str::trim_end`).
pub open spec fn trim_end(s: Seq<char>) -> Seq<char>
    decreases s.len(),
{
    if s.len() > 0 && is_ws(s.last()) {
        trim_end(s.drop_last())
    } else {
        s
    }
}

/// Drops leading and trailing whitespace (`str::trim`).
pub open spec fn trim(s: Seq<char>) -> Seq<char> {
    trim_end(trim_start(s))
}

proof fn lemma_trim_start_skip(s: Seq<char>, i: int)
    requires
        0 <= i < s.len(),
        is_ws(s[i]),
    ensures
        trim_start(s.skip(i)) == trim_start(s.skip(i + 1)),
{
    assert(s.skip(i).drop_first() =~= s.skip(i + 1));
}

proof fn lemma_trim_end_take(s: Seq<char>, j: int)
    requires
        0 < j <= s.len(),
        is_ws(s[j - 1]),
    ensures
        trim_end(s.take(j)) == trim_end(s.take(j - 1)),
{
    assert(s.take(j).drop_last() =~= s.take(j - 1));
}

/// Bounds `(start, end)` of the trimmed part of a character sequence.
pub fn trim_bounds(cs: &[char]) -> (r: (usize, usize))
    ensures
        r.0 <= r.1 <= cs@.len(),
        cs@.subrange(r.0 as int, r.1 as int) == trim(cs@),
{
    let n = cs.len();
    let mut i: usize = 0;
    assert(cs@.skip(0) =~= cs@);
    while i < n && char_is_ws(cs[i])
        invariant
            n == cs@.len(),
            i <= n,
            trim_start(cs@) == trim_start(cs@.skip(i as int)),
        decreases n - i,
    {
        proof {
            lemma_trim_start_skip(cs@, i as int);
        }
        i = i + 1;
    }
    let ghost rest = cs@.skip(i as int);
    assert(trim_start(rest) == rest);
    let mut j: usize = n;
    assert(rest.take(rest.len() as int) =~= rest);
    while j > i && char_is_ws(cs[j - 1])
        invariant
            n == cs@.len(),
            i <= j <= n,
            rest == cs@.skip(i as int),
            trim_end(rest) == trim_end(rest.take(j - i)),
        decreases j,
    {
        proof {
            assert(rest[j - i - 1] == cs@[j - 1]);
            lemma_trim_end_take(rest, j - i);
        }
        j = j - 1;
    }
    proof {
        let t = rest.take(j - i);
        if j > i {
            assert(t.last() == cs@[j - 1]);
        }
        assert(trim_end(t) == t);
        assert(t =~= cs@.subrange(i as int, j as int));
    }
    (i, j)
}

/// `str::trim`, returning a sub-slice of the input.
pub fn trim_str(s: &str) -> (r: &str)
    ensures
        r@ == trim(s@),
{
    let cs = chars_of(s);
    let (a, b) = trim_bounds(cs.as_slice());
    s.substring_char(a, b)
}

/// Character equality of two string slices.
pub fn str_eq(a: &str, b: &str) -> (r: bool)
    ensures
        r == (a@ == b@),
{
    let x = chars_of(a);
    let y = chars_of(b);
    chars_eq(x.as_slice(), y.as_slice())
}

/// Equality of two character sequences.
pub fn chars_eq(x: &[char], y: &[char]) -> (r: bool)
    ensures
        r == (x@ == y@),
{
    if x.len() != y.len() {
        return false;
    }
    let mut i: usize = 0;
    while i < x.len()
        invariant
            x@.len() == y@.len(),
            i <= x@.len(),
            forall|k: int| 0 <= k < i ==> x@[k] == y@[k],
        decreases x@.len() - i,
    {
        if x[i] != y[i] {
            return false;
        }
        i = i + 1;
    }
    assert(x@ =~= y@);
    true
}


/// `char::to_ascii_uppercase`.
pub open spec fn ascii_upper(c: char) -> char {
    if 'a' <= c && c <= 'z' {
        ((c as int) - 32) as char
    } else {
        c
    }
}

/// `char::to_ascii_lowercase`.
pub open spec fn ascii_lower(c: char) -> char {
    if 'A' <= c && c <= 'Z' {
        ((c as int) + 32) as char
    } else {
        c
    }
}

/// `str::to_ascii_uppercase`.
pub open spec fn upper_seq(s: Seq<char>) -> Seq<char> {
    Seq::new(s.len(), |i: int| ascii_upper(s[i]))
}

/// `str::to_ascii_lowercase`.
pub open spec fn lower_seq(s: Seq<char>) -> Seq<char> {
    Seq::new(s.len(), |i: int| ascii_lower(s[i]))
}

pub fn char_to_ascii_upper(c: char) -> (r: char)
    ensures
        r == ascii_upper(c),
{
    if 'a' <= c && c <= 'z' {
        ((c as u32) - 32) as u8 as char
    } else {
        c
    }
}

pub fn char_to_ascii_lower(c: char) -> (r: char)
    ensures
        r == ascii_lower(c),
{
    if 'A' <= c && c <= 'Z' {
        ((c as u32) + 32) as u8 as char
    } else {
        c
    }
}

/// `str::to_ascii_uppercase` on a character sequence.
pub fn chars_to_upper(cs: &[char]) -> (r: Vec<char>)
    ensures
        r@ == upper_seq(cs@),
{
    let mut out: Vec<char> = Vec::new();
    let mut i: usize = 0;
    while i < cs.len()
        invariant
            i <= cs@.len(),
            out@ =~= upper_seq(cs@.take(i as int)),
        decreases cs@.len() - i,
    {
        out.push(char_to_ascii_upper(cs[i]));
        i = i + 1;
    }
    assert(cs@.take(i as int) =~= cs@);
    out
}

/// `str::to_ascii_lowercase` on a character sequence.
pub fn chars_to_lower(cs: &[char]) -> (r: Vec<char>)
    ensures
        r@ == lower_seq(cs@),
{
    let mut out: Vec<char> = Vec::new();
    let mut i: usize = 0;
    while i < cs.len()
        invariant
            i <= cs@.len(),
            out@ =~= lower_seq(cs@.take(i as int)),
        decreases cs@.len() - i,
    {
        out.push(char_to_ascii_lower(cs[i]));
        i = i + 1;
    }
    assert(cs@.take(i as int) =~= cs@);
    out
}

/// `p` is a prefix of `s`.
pub open spec fn has_prefix(s: Seq<char>, p: Seq<char>) -> bool {
    p.len() <= s.len() && s.take(p.len() as int) == p
}

/// `p` is a suffix of `s`.
pub open spec fn has_suffix(s: Seq<char>, p: Seq<char>) -> bool {
    p.len() <= s.len() && s.skip(s.len() - p.len()) == p
}

/// `p` occurs in `s` starting at index `i`.
pub open spec fn occurs_at(s: Seq<char>, p: Seq<char>, i: int) -> bool {
    0 <= i && i + p.len() <= s.len() && s.subrange(i, i + p.len()) == p
}

/// `p` occurs somewhere in `s` (`str::contains`).
pub open spec fn contains_seq(s: Seq<char>, p: Seq<char>) -> bool {
    exists|i: int| occurs_at(s, p, i)
}

/// `p` occurs in `s` at index `i`.
pub fn matches_at(s: &[char], p: &[char], i: usize) -> (r: bool)
    ensures
        r == occurs_at(s@, p@, i as int),
{
    if i > s.len() || p.len() > s.len() - i {
        return false;
    }
    let mut k: usize = 0;
    while k < p.len()
        invariant
            i + p@.len() <= s@.len(),
            s@.len() == s.len(),
            k <= p@.len(),
            forall|j: int| 0 <= j < k ==> s@[i + j] == p@[j],
        decreases p@.len() - k,
    {
        if s[i + k] != p[k] {
            assert(s@.subrange(i as int, i + p@.len())[k as int] != p@[k as int]);
            return false;
        }
        k = k + 1;
    }
    assert(s@.subrange(i as int, i + p@.len()) =~= p@);
    true
}

/// `str::starts_with`.
pub fn starts_with(s: &[char], p: &[char]) -> (r: bool)
    ensures
        r == has_prefix(s@, p@),
{
    let r = matches_at(s, p, 0);
    proof {
        if p@.len() <= s@.len() {
            assert(s@.subrange(0, p@.len() as int) =~= s@.take(p@.len() as int));
        }
    }
    r
}

/// `str::ends_with`.
pub fn ends_with(s: &[char], p: &[char]) -> (r: bool)
    ensures
        r == has_suffix(s@, p@),
{
    if p.len() > s.len() {
        return false;
    }
    let r = matches_at(s, p, s.len() - p.len());
    assert(s@.subrange(s@.len() - p@.len(), s@.len() as int) =~= s@.skip(s@.len() - p@.len()));
    r
}

/// `str::contains` with a string pattern.
pub fn contains(s: &[char], p: &[char]) -> (r: bool)
    ensures
        r == contains_seq(s@, p@),
{
    if p.len() > s.len() {
        return false;
    }
    if p.len() == 0 {
        assert(s@.subrange(0, 0) =~= p@);
        assert(occurs_at(s@, p@, 0));
        return true;
    }
    let mut i: usize = 0;
    while i <= s.len() - p.len()
        invariant
            0 < p@.len() <= s@.len(),
            s@.len() == s.len(),
            i <= s@.len() - p@.len() + 1,
            forall|j: int| 0 <= j < i ==> !occurs_at(s@, p@, j),
        decreases s@.len() - p@.len() + 1 - i,
    {
        if matches_at(s, p, i) {
            return true;
        }
        i = i + 1;
    }
    true && {
        assert forall|j: int| !occurs_at(s@, p@, j) by {
            if 0 <= j && j + p@.len() <= s@.len() {
                assert(j < i);
            }
        }
        false
    }
}

/// `str::contains` with a single character.
pub open spec fn has_char(s: Seq<char>, c: char) -> bool {
    exists|i: int| 0 <= i < s.len() && s[i] == c
}

/// Index of the first occurrence of `c` in `s`, if any.
pub open spec fn first_index_of(s: Seq<char>, c: char) -> Option<nat>
    decreases s.len(),
{
    if s.len() == 0 {
        None
    } else if s[0] == c {
        Some(0)
    } else {
        match first_index_of(s.drop_first(), c) {
            Some(i) => Some(i + 1),
            None => None,
        }
    }
}

/// The first index of `c`, when there is one, lies within `s`.
pub proof fn lemma_first_index_in_bounds(s: Seq<char>, c: char)
    ensures
        first_index_of(s, c) matches Some(i) ==> i < s.len(),
    decreases s.len(),
{
    if s.len() > 0 && s[0] != c {
        lemma_first_index_in_bounds(s.drop_first(), c);
    }
}

proof fn lemma_first_index_step(s: Seq<char>, c: char, i: int)
    requires
        0 <= i < s.len(),
        forall|k: int| 0 <= k < i ==> s[k] != c,
    ensures
        first_index_of(s, c) == (match first_index_of(s.skip(i), c) {
            Some(j) => Some((j + i) as nat),
            None => None,
        }),
    decreases i,
{
    if i > 0 {
        lemma_first_index_step(s.drop_first(), c, i - 1);
        assert(s.drop_first().skip(i - 1) =~= s.skip(i));
    } else {
        assert(s.skip(0) =~= s);
    }
}

/// Index of the first occurrence of a character (`str::find` with a `char`).
pub fn find_char(s: &[char], c: char) -> (r: Option<usize>)
    ensures
        r == (match first_index_of(s@, c) {
            Some(i) => Some(i as usize),
            None => None,
        }),
        r matches Some(i) ==> i < s@.len() && s@[i as int] == c && first_index_of(s@, c) == Some(
            i as nat,
        ),
        r is None <==> !has_char(s@, c),
{
    let mut i: usize = 0;
    while i < s.len()
        invariant
            i <= s@.len(),
            forall|k: int| 0 <= k < i ==> s@[k] != c,
        decreases s@.len() - i,
    {
        if s[i] == c {
            proof {
                lemma_first_index_step(s@, c, i as int);
                assert(first_index_of(s@.skip(i as int), c) == Some(0nat));
            }
            return Some(i);
        }
        i = i + 1;
    }
    proof {
        lemma_first_index_none(s@, c);
    }
    None
}

proof fn lemma_first_index_none(s: Seq<char>, c: char)
    requires
        forall|k: int| 0 <= k < s.len() ==> s[k] != c,
    ensures
        first_index_of(s, c) is None,
    decreases s.len(),
{
    if s.len() > 0 {
        assert forall|k: int| 0 <= k < s.drop_first().len() implies s.drop_first()[k] != c by {
            assert(s.drop_first()[k] == s[k + 1]);
        }
        lemma_first_index_none(s.drop_first(), c);
    }
}

/// `str::split_once` with a `char` separator: the text before and after its first occurrence.
pub open spec fn split_once_spec(s: Seq<char>, c: char) -> Option<(Seq<char>, Seq<char>)> {
    match first_index_of(s, c) {
        Some(i) => Some((s.take(i as int), s.skip(i as int + 1))),
        None => None,
    }
}

/// Every occurrence of `pat` replaced by `rep`, scanning left to right (`str::replace`).
pub open spec fn replace_all(s: Seq<char>, pat: Seq<char>, rep: Seq<char>) -> Seq<char>
    recommends
        pat.len() > 0,
    decreases s.len(),
{
    if pat.len() > 0 && has_prefix(s, pat) {
        rep + replace_all(s.skip(pat.len() as int), pat, rep)
    } else if s.len() == 0 {
        s
    } else {
        seq![s[0]] + replace_all(s.drop_first(), pat, rep)
    }
}

/// `str::replace` on character sequences.
pub fn replace_chars(s: &[char], pat: &[char], rep: &[char]) -> (r: Vec<char>)
    requires
        pat@.len() > 0,
    ensures
        r@ == replace_all(s@, pat@, rep@),
{
    let mut out: Vec<char> = Vec::new();
    let mut i: usize = 0;
    assert(s@.skip(0) =~= s@);
    while i < s.len()
        invariant
            pat@.len() > 0,
            i <= s@.len(),
            replace_all(s@, pat@, rep@) == out@ + replace_all(s@.skip(i as int), pat@, rep@),
        decreases s@.len() - i,
    {
        let ghost rest = s@.skip(i as int);
        if matches_at(s, pat, i) {
            assert(rest.take(pat@.len() as int) =~= s@.subrange(i as int, i + pat@.len()));
            assert(rest.skip(pat@.len() as int) =~= s@.skip(i + pat@.len()));
            let mut k: usize = 0;
            let ghost before = out@;
            while k < rep.len()
                invariant
                    k <= rep@.len(),
                    out@ == before + rep@.take(k as int),
                decreases rep@.len() - k,
            {
                out.push(rep[k]);
                k = k + 1;
                assert(out@ =~= before + rep@.take(k as int));
            }
            assert(rep@.take(k as int) =~= rep@);
            i = i + pat.len();
            assert(out@ + replace_all(s@.skip(i as int), pat@, rep@) =~= before + (rep@
                + replace_all(s@.skip(i as int), pat@, rep@)));
        } else {
            proof {
                if has_prefix(rest, pat@) {
                    assert(rest.take(pat@.len() as int) =~= s@.subrange(i as int, i + pat@.len()));
                }
                assert(rest.drop_first() =~= s@.skip(i + 1));
            }
            let ghost before = out@;
            out.push(s[i]);
            i = i + 1;
            assert(out@ + replace_all(s@.skip(i as int), pat@, rep@) =~= before + (seq![rest[0]]
                + replace_all(rest.drop_first(), pat@, rep@)));
        }
    }
    assert(s@.skip(i as int) =~= Seq::<char>::empty());
    assert(out@ + Seq::<char>::empty() =~= out@);
    out
}

/// `s` with its control characters removed.
pub open spec fn drop_controls(s: Seq<char>) -> Seq<char>
    decreases s.len(),
{
    if s.len() == 0 {
        s
    } else if is_control(s.last()) {
        drop_controls(s.drop_last())
    } else {
        drop_controls(s.drop_last()).push(s.last())
    }
}

/// Removes the control characters.
pub fn remove_controls(s: &[char]) -> (r: Vec<char>)
    ensures
        r@ == drop_controls(s@),
{
    let mut out: Vec<char> = Vec::new();
    let mut i: usize = 0;
    while i < s.len()
        invariant
            i <= s@.len(),
            out@ == drop_controls(s@.take(i as int)),
        decreases s@.len() - i,
    {
        assert(s@.take(i + 1).drop_last() =~= s@.take(i as int));
        if !char_is_control(s[i]) {
            out.push(s[i]);
        }
        i = i + 1;
    }
    assert(s@.take(i as int) =~= s@);
    out
}

/// The maximal runs of non-whitespace characters of `s`, in order (`str::split_whitespace`).
pub open spec fn words(s: Seq<char>) -> Seq<Seq<char>>
    decreases s.len(),
{
    if s.len() == 0 {
        Seq::empty()
    } else if is_ws(s.last()) {
        words(s.drop_last())
    } else if s.len() == 1 || is_ws(s[s.len() - 2]) {
        words(s.drop_last()).push(seq![s.last()])
    } else {
        let w = words(s.drop_last());
        w.update(w.len() - 1, w.last().push(s.last()))
    }
}

/// The words joined with single spaces (`join(" ")`).
pub open spec fn join_space(ws: Seq<Seq<char>>) -> Seq<char>
    decreases ws.len(),
{
    if ws.len() == 0 {
        Seq::empty()
    } else if ws.len() == 1 {
        ws[0]
    } else {
        join_space(ws.drop_last()) + seq![' '] + ws.last()
    }
}

/// Whitespace runs collapsed to single spaces, with none at either end.
pub open spec fn collapse_ws(s: Seq<char>) -> Seq<char> {
    join_space(words(s))
}

proof fn lemma_words_nonempty(s: Seq<char>)
    requires
        s.len() > 0,
        !is_ws(s.last()),
    ensures
        words(s).len() > 0,
    decreases s.len(),
{
    if !(s.len() == 1 || is_ws(s[s.len() - 2])) {
        lemma_words_nonempty(s.drop_last());
    }
}

proof fn lemma_join_extend_last(w: Seq<Seq<char>>, c: char)
    requires
        w.len() > 0,
    ensures
        join_space(w.update(w.len() - 1, w.last().push(c))) == join_space(w).push(c),
{
    let w2 = w.update(w.len() - 1, w.last().push(c));
    if w.len() > 1 {
        assert(w2.drop_last() =~= w.drop_last());
        assert(join_space(w2) =~= join_space(w).push(c));
    }
}

proof fn lemma_join_push(w: Seq<Seq<char>>, x: Seq<char>)
    ensures
        join_space(w.push(x)) == (if w.len() == 0 { x } else { join_space(w) + seq![' '] + x }),
{
    assert(w.push(x).drop_last() =~= w);
}

/// `split_whitespace().collect::<Vec<_>>().join(" ")`.
pub fn collapse_whitespace(s: &[char]) -> (r: Vec<char>)
    ensures
        r@ == collapse_ws(s@),
{
    let mut out: Vec<char> = Vec::new();
    let mut any_word = false;
    let mut i: usize = 0;
    while i < s.len()
        invariant
            i <= s@.len(),
            out@ == join_space(words(s@.take(i as int))),
            any_word == (words(s@.take(i as int)).len() > 0),
        decreases s@.len() - i,
    {
        let c = s[i];
        let ghost t = s@.take(i + 1);
        assert(t.drop_last() =~= s@.take(i as int));
        assert(t.last() == c);
        if char_is_ws(c) {
        } else if i == 0 || char_is_ws(s[i - 1]) {
            proof {
                if i > 0 {
                    assert(t[t.len() - 2] == s@[i - 1]);
                }
                lemma_join_push(words(s@.take(i as int)), seq![c]);
            }
            if any_word {
                out.push(' ');
            }
            out.push(c);
            any_word = true;
            assert(out@ =~= join_space(words(t)));
        } else {
            proof {
                assert(t[t.len() - 2] == s@[i - 1]);
                assert(s@.take(i as int).last() == s@[i - 1]);
                lemma_words_nonempty(s@.take(i as int));
                lemma_join_extend_last(words(s@.take(i as int)), c);
            }
            out.push(c);
        }
        i = i + 1;
    }
    assert(s@.take(i as int) =~= s@);
    out
}


/// `str::replace` with literal pattern and replacement.
pub fn replace_lit(s: &[char], pat: &str, rep: &str) -> (r: Vec<char>)
    requires
        pat@.len() > 0,
    ensures
        r@ == replace_all(s@, pat@, rep@),
{
    let p = chars_of(pat);
    let q = chars_of(rep);
    replace_chars(s, p.as_slice(), q.as_slice())
}

/// A `String` holding the given literal (`str::to_string`).
pub fn owned(s: &str) -> (r: String)
    ensures
        r@ == s@,
{
    String::from_str(s)
}


/// `str::contains` with a literal pattern.
pub fn contains_lit(s: &[char], pat: &str) -> (r: bool)
    ensures
        r == contains_seq(s@, pat@),
{
    let p = chars_of(pat);
    contains(s, p.as_slice())
}

/// The characters of an optional string slice.
pub open spec fn opt_view(o: Option<&str>) -> Option<Seq<char>> {
    match o {
        Some(s) => Some(s@),
        None => None,
    }
}

/// The characters of an optional owned string.
pub open spec fn opt_string_view(o: Option<String>) -> Option<Seq<char>> {
    match o {
        Some(s) => Some(s@),
        None => None,
    }
}

/// A result whose strings are seen as their characters.
pub open spec fn str_result(r: Result<String, String>) -> Result<Seq<char>, Seq<char>> {
    match r {
        Ok(s) => Ok(s@),
        Err(e) => Err(e@),
    }
}

/// A result whose error string is seen as its characters.
pub open spec fn err_view<T>(r: Result<T, String>) -> Result<T, Seq<char>> {
    match r {
        Ok(t) => Ok(t),
        Err(e) => Err(e@),
    }
}


/// The number of bytes UTF-8 uses for a character.
pub open spec fn utf8_width(c: char) -> nat {
    if (c as u32) < 0x80 {
        1
    } else if (c as u32) < 0x800 {
        2
    } else if (c as u32) < 0x10000 {
        3
    } else {
        4
    }
}

/// The number of bytes of the UTF-8 encoding of a text (`str::len`).
pub open spec fn utf8_len(s: Seq<char>) -> nat
    decreases s.len(),
{
    if s.len() == 0 {
        0
    } else {
        utf8_len(s.drop_last()) + utf8_width(s.last())
    }
}

/// `str::len`: the byte length of the UTF-8 encoding.
pub fn byte_len(cs: &[char]) -> (r: u128)
    ensures
        r == utf8_len(cs@),
{
    let mut acc: u128 = 0;
    let mut i: usize = 0;
    while i < cs.len()
        invariant
            i <= cs@.len(),
            acc == utf8_len(cs@.take(i as int)),
            acc <= 4 * i,
        decreases cs@.len() - i,
    {
        let c = cs[i];
        let w: u128 = if (c as u32) < 0x80 {
            1
        } else if (c as u32) < 0x800 {
            2
        } else if (c as u32) < 0x10000 {
            3
        } else {
            4
        };
        assert(cs@.take(i + 1).drop_last() =~= cs@.take(i as int));
        acc = acc + w;
        i = i + 1;
    }
    assert(cs@.take(i as int) =~= cs@);
    acc
}


/// The pieces of `s` between occurrences of `c` (`str::split` with a `char`).
pub open spec fn split_on(s: Seq<char>, c: char) -> Seq<Seq<char>>
    decreases s.len(),
{
    match first_index_of(s, c) {
        Some(i) => if i < s.len() {
            seq![s.take(i as int)] + split_on(s.skip(i as int + 1), c)
        } else {
            seq![s]
        },
        None => seq![s],
    }
}

/// The first occurrence of `c` in `a + [c] + b` is right after `a` when `a` has none.
pub proof fn lemma_first_index_after(a: Seq<char>, c: char, b: Seq<char>)
    requires
        !has_char(a, c),
    ensures
        first_index_of(a + seq![c] + b, c) == Some(a.len()),
        (a + seq![c] + b).take(a.len() as int) == a,
        (a + seq![c] + b).skip(a.len() as int + 1) == b,
    decreases a.len(),
{
    let s = a + seq![c] + b;
    if a.len() > 0 {
        assert(!has_char(a.drop_first(), c)) by {
            if has_char(a.drop_first(), c) {
                let i = choose|i: int| 0 <= i < a.drop_first().len() && a.drop_first()[i] == c;
                assert(a[i + 1] == c);
            }
        }
        lemma_first_index_after(a.drop_first(), c, b);
        assert(s.drop_first() =~= a.drop_first() + seq![c] + b);
        assert(s[0] == a[0]);
    }
    assert(s.take(a.len() as int) =~= a);
    assert(s.skip(a.len() as int + 1) =~= b);
}

/// A text without `c` is a single piece.
pub proof fn lemma_first_index_absent(s: Seq<char>, c: char)
    requires
        !has_char(s, c),
    ensures
        first_index_of(s, c) is None,
    decreases s.len(),
{
    if s.len() > 0 {
        assert(!has_char(s.drop_first(), c)) by {
            if has_char(s.drop_first(), c) {
                let i = choose|i: int| 0 <= i < s.drop_first().len() && s.drop_first()[i] == c;
                assert(s[i + 1] == c);
            }
        }
        lemma_first_index_absent(s.drop_first(), c);
        assert(s[0] != c);
    }
}

/// No character of `s` is a control character.
pub open spec fn free_of_controls(s: Seq<char>) -> bool {
    forall|i: int| 0 <= i < s.len() ==> !is_control(#[trigger] s[i])
}

proof fn lemma_concat_clean(a: Seq<char>, b: Seq<char>)
    requires
        free_of_controls(a),
        free_of_controls(b),
    ensures
        free_of_controls(a + b),
{
    assert forall|i: int| 0 <= i < (a + b).len() implies !is_control(#[trigger] (a + b)[i]) by {
        if i < a.len() {
            assert((a + b)[i] == a[i]);
        } else {
            assert((a + b)[i] == b[i - a.len()]);
        }
    }
}

/// Removing the control characters leaves none.
pub proof fn lemma_drop_controls_clean(s: Seq<char>)
    ensures
        free_of_controls(drop_controls(s)),
    decreases s.len(),
{
    if s.len() > 0 {
        lemma_drop_controls_clean(s.drop_last());
        if !is_control(s.last()) {
            lemma_concat_clean(drop_controls(s.drop_last()), seq![s.last()]);
            assert(drop_controls(s.drop_last()).push(s.last()) =~= drop_controls(s.drop_last())
                + seq![s.last()]);
        }
    }
}

/// Replacing a pattern by a text without control characters adds none.
pub proof fn lemma_replace_all_clean(s: Seq<char>, pat: Seq<char>, rep: Seq<char>)
    requires
        free_of_controls(s),
        free_of_controls(rep),
    ensures
        free_of_controls(replace_all(s, pat, rep)),
    decreases s.len(),
{
    if pat.len() > 0 && has_prefix(s, pat) {
        let rest = s.skip(pat.len() as int);
        assert(free_of_controls(rest)) by {
            assert forall|i: int| 0 <= i < rest.len() implies !is_control(#[trigger] rest[i]) by {
                assert(rest[i] == s[i + pat.len()]);
            }
        }
        lemma_replace_all_clean(rest, pat, rep);
        lemma_concat_clean(rep, replace_all(rest, pat, rep));
    } else if s.len() > 0 {
        let rest = s.drop_first();
        assert(free_of_controls(rest)) by {
            assert forall|i: int| 0 <= i < rest.len() implies !is_control(#[trigger] rest[i]) by {
                assert(rest[i] == s[i + 1]);
            }
        }
        lemma_replace_all_clean(rest, pat, rep);
        assert(free_of_controls(seq![s[0]])) by {
            assert(seq![s[0]][0] == s[0]);
        }
        lemma_concat_clean(seq![s[0]], replace_all(rest, pat, rep));
    }
}

proof fn lemma_words_clean(s: Seq<char>)
    requires
        free_of_controls(s),
    ensures
        forall|k: int| 0 <= k < words(s).len() ==> free_of_controls(#[trigger] words(s)[k]),
    decreases s.len(),
{
    if s.len() > 0 {
        let front = s.drop_last();
        assert(free_of_controls(front)) by {
            assert forall|i: int| 0 <= i < front.len() implies !is_control(#[trigger] front[i]) by {
                assert(front[i] == s[i]);
            }
        }
        lemma_words_clean(front);
        let c = s.last();
        assert(!is_control(c)) by {
            assert(s[s.len() - 1] == c);
        }
        assert(free_of_controls(seq![c])) by {
            assert(seq![c][0] == c);
        }
        if is_ws(c) {
            assert(words(s) == words(front));
        } else if s.len() == 1 || is_ws(s[s.len() - 2]) {
            let w = words(front);
            assert(words(s) == w.push(seq![c]));
            assert forall|k: int| 0 <= k < w.push(seq![c]).len() implies free_of_controls(
                #[trigger] w.push(seq![c])[k],
            ) by {
                if k < w.len() {
                    assert(w.push(seq![c])[k] == w[k]);
                }
            }
        } else {
            let w = words(front);
            assert(front.last() == s[s.len() - 2]);
            lemma_words_nonempty(front);
            assert(words(s) == w.update(w.len() - 1, w.last().push(c)));
            if w.len() > 0 {
                let last = w.last();
                assert(free_of_controls(w[w.len() - 1]));
                lemma_concat_clean(last, seq![c]);
                assert(last.push(c) =~= last + seq![c]);
                let w2 = w.update(w.len() - 1, last.push(c));
                assert forall|k: int| 0 <= k < w2.len() implies free_of_controls(
                    #[trigger] w2[k],
                ) by {
                    if k < w.len() - 1 {
                        assert(w2[k] == w[k]);
                    }
                }
            }
        }
    }
}

proof fn lemma_join_clean(ws: Seq<Seq<char>>)
    requires
        forall|k: int| 0 <= k < ws.len() ==> free_of_controls(#[trigger] ws[k]),
    ensures
        free_of_controls(join_space(ws)),
    decreases ws.len(),
{
    if ws.len() == 1 {
        assert(free_of_controls(ws[0]));
    } else if ws.len() > 1 {
        let front = ws.drop_last();
        assert forall|k: int| 0 <= k < front.len() implies free_of_controls(#[trigger] front[k]) by {
            assert(front[k] == ws[k]);
        }
        lemma_join_clean(front);
        assert(free_of_controls(seq![' '])) by {
            assert(seq![' '][0] == ' ');
        }
        assert(free_of_controls(ws[ws.len() - 1]));
        lemma_concat_clean(join_space(front), seq![' ']);
        lemma_concat_clean(join_space(front) + seq![' '], ws.last());
    }
}

/// Collapsing whitespace adds no control character.
pub proof fn lemma_collapse_clean(s: Seq<char>)
    requires
        free_of_controls(s),
    ensures
        free_of_controls(collapse_ws(s)),
{
    lemma_words_clean(s);
    lemma_join_clean(words(s));
}

/// Every whitespace character of `s` is a single space between two other characters:
/// no whitespace at either end, none doubled, no other kind of whitespace.
pub open spec fn single_spaced(s: Seq<char>) -> bool {
    forall|i: int|
        0 <= i < s.len() && #[trigger] is_ws(s[i]) ==> s[i] == ' ' && 0 < i && i + 1 < s.len()
            && !is_ws(s[i - 1]) && !is_ws(s[i + 1])
}

/// A word: not empty, and without whitespace.
pub open spec fn is_word(w: Seq<char>) -> bool {
    w.len() > 0 && forall|j: int| 0 <= j < w.len() ==> !is_ws(#[trigger] w[j])
}

proof fn lemma_words_are_words(s: Seq<char>)
    ensures
        forall|k: int| 0 <= k < words(s).len() ==> is_word(#[trigger] words(s)[k]),
    decreases s.len(),
{
    if s.len() > 0 {
        let front = s.drop_last();
        lemma_words_are_words(front);
        let c = s.last();
        let w = words(front);
        if is_ws(c) {
            assert(words(s) == w);
        } else if s.len() == 1 || is_ws(s[s.len() - 2]) {
            assert(words(s) == w.push(seq![c]));
            assert(is_word(seq![c])) by {
                assert(seq![c][0] == c);
            }
            assert forall|k: int| 0 <= k < w.push(seq![c]).len() implies is_word(
                #[trigger] w.push(seq![c])[k],
            ) by {
                if k < w.len() {
                    assert(w.push(seq![c])[k] == w[k]);
                }
            }
        } else {
            assert(front.last() == s[s.len() - 2]);
            lemma_words_nonempty(front);
            let last = w.last();
            let w2 = w.update(w.len() - 1, last.push(c));
            assert(words(s) == w2);
            assert(is_word(w[w.len() - 1]));
            assert(is_word(last.push(c))) by {
                assert forall|j: int| 0 <= j < last.push(c).len() implies !is_ws(
                    #[trigger] last.push(c)[j],
                ) by {
                    if j < last.len() {
                        assert(last.push(c)[j] == last[j]);
                    }
                }
            }
            assert forall|k: int| 0 <= k < w2.len() implies is_word(#[trigger] w2[k]) by {
                if k < w.len() - 1 {
                    assert(w2[k] == w[k]);
                }
            }
        }
    }
}

proof fn lemma_join_single_spaced(ws: Seq<Seq<char>>)
    requires
        forall|k: int| 0 <= k < ws.len() ==> is_word(#[trigger] ws[k]),
    ensures
        single_spaced(join_space(ws)),
        ws.len() > 0 ==> join_space(ws).len() > 0 && !is_ws(join_space(ws)[0]) && !is_ws(
            join_space(ws).last(),
        ),
    decreases ws.len(),
{
    if ws.len() == 1 {
        let w = ws[0];
        assert(is_word(w));
        assert(w.last() == w[w.len() - 1]);
    } else if ws.len() > 1 {
        let front = ws.drop_last();
        assert forall|k: int| 0 <= k < front.len() implies is_word(#[trigger] front[k]) by {
            assert(front[k] == ws[k]);
        }
        lemma_join_single_spaced(front);
        let a = join_space(front);
        let w = ws.last();
        assert(is_word(ws[ws.len() - 1]));
        let j = a + seq![' '] + w;
        assert(join_space(ws) == j);
        assert(a.last() == a[a.len() - 1]);
        assert forall|i: int| 0 <= i < j.len() && #[trigger] is_ws(j[i]) implies j[i] == ' ' && 0
            < i && i + 1 < j.len() && !is_ws(j[i - 1]) && !is_ws(j[i + 1]) by {
            if i < a.len() {
                assert(j[i] == a[i]);
                if i + 1 < a.len() {
                    assert(j[i + 1] == a[i + 1]);
                } else {
                    assert(i == a.len() - 1);
                }
                if i > 0 {
                    assert(j[i - 1] == a[i - 1]);
                }
            } else if i == a.len() {
                assert(j[i - 1] == a[a.len() - 1]);
                assert(j[i + 1] == w[0]);
            } else {
                assert(j[i] == w[i - a.len() - 1]);
            }
        }
        assert(j[0] == a[0]);
        assert(j.last() == w[w.len() - 1]);
    }
}

/// Collapsed text is single-spaced.
pub proof fn lemma_collapse_single_spaced(s: Seq<char>)
    ensures
        single_spaced(collapse_ws(s)),
{
    lemma_words_are_words(s);
    lemma_join_single_spaced(words(s));
}

/// A prefix without the pattern's first character, read in a replaced text, was
/// already a prefix of the text before the replacement.
proof fn lemma_replace_keeps_prefix(x: Seq<char>, pat: Seq<char>, rep: Seq<char>, q: Seq<char>)
    requires
        pat.len() > 0,
        rep.len() > 0,
        rep[0] == pat[0],
        forall|j: int| 0 <= j < q.len() ==> q[j] != pat[0],
        has_prefix(replace_all(x, pat, rep), q),
    ensures
        has_prefix(x, q),
    decreases x.len(),
{
    let out = replace_all(x, pat, rep);
    if q.len() > 0 {
        assert(out.take(q.len() as int)[0] == q[0]);
        if has_prefix(x, pat) {
            assert(out[0] == rep[0]);
            assert(false);
        } else if x.len() == 0 {
            assert(false);
        } else {
            let rest = x.drop_first();
            let r2 = replace_all(rest, pat, rep);
            assert(out == seq![x[0]] + r2);
            let q2 = q.drop_first();
            assert(has_prefix(r2, q2)) by {
                assert forall|j: int| 0 <= j < q2.len() implies #[trigger] r2.take(q2.len() as int)[j]
                    == q2[j] by {
                    assert(out.take(q.len() as int)[j + 1] == q[j + 1]);
                    assert(out[j + 1] == r2[j]);
                }
                assert(r2.take(q2.len() as int) =~= q2);
            }
            lemma_replace_keeps_prefix(rest, pat, rep, q2);
            assert forall|j: int| 0 <= j < q.len() implies #[trigger] x.take(q.len() as int)[j]
                == q[j] by {
                if j == 0 {
                    assert(out[0] == x[0]);
                    assert(out.take(q.len() as int)[0] == out[0]);
                } else {
                    assert(rest.take(q2.len() as int)[j - 1] == q2[j - 1]);
                    assert(x[j] == rest[j - 1]);
                }
            }
            assert(x.take(q.len() as int) =~= q);
        }
    } else {
        assert(x.take(0) =~= q);
    }
}

/// Replacing `pat` by a text that starts like it but breaks `other` right after its
/// first character leaves no `other` behind (when `other` is the pattern itself, or
/// was absent before). Neither text repeats that first character.
pub proof fn lemma_replace_avoids(s: Seq<char>, pat: Seq<char>, rep: Seq<char>, other: Seq<char>)
    requires
        pat.len() > 0,
        rep.len() >= 2,
        other.len() >= 2,
        rep[0] == pat[0],
        other[0] == pat[0],
        rep[1] != other[1],
        forall|j: int| 1 <= j < rep.len() ==> rep[j] != pat[0],
        forall|j: int| 1 <= j < other.len() ==> other[j] != pat[0],
        other == pat || !contains_seq(s, other),
    ensures
        !contains_seq(replace_all(s, pat, rep), other),
    decreases s.len(),
{
    let out = replace_all(s, pat, rep);
    if has_prefix(s, pat) {
        let rest = s.skip(pat.len() as int);
        if other != pat && contains_seq(rest, other) {
            let k = choose|k: int| occurs_at(rest, other, k);
            assert(s.subrange(k + pat.len(), k + pat.len() + other.len()) =~= rest.subrange(
                k,
                k + other.len(),
            ));
            assert(occurs_at(s, other, k + pat.len()));
        }
        lemma_replace_avoids(rest, pat, rep, other);
        let r2 = replace_all(rest, pat, rep);
        assert(out == rep + r2);
        if contains_seq(out, other) {
            let i = choose|i: int| occurs_at(out, other, i);
            assert(out.subrange(i, i + other.len())[0] == other[0]);
            assert(out.subrange(i, i + other.len())[1] == other[1]);
            if i == 0 {
                assert(out[1] == rep[1]);
            } else if i < rep.len() {
                assert(out[i] == rep[i]);
            } else {
                assert(r2.subrange(i - rep.len(), i - rep.len() + other.len()) =~= out.subrange(
                    i,
                    i + other.len(),
                ));
                assert(occurs_at(r2, other, i - rep.len()));
            }
        }
    } else if s.len() > 0 {
        let rest = s.drop_first();
        if other != pat && contains_seq(rest, other) {
            let k = choose|k: int| occurs_at(rest, other, k);
            assert(s.subrange(k + 1, k + 1 + other.len()) =~= rest.subrange(k, k + other.len()));
            assert(occurs_at(s, other, k + 1));
        }
        lemma_replace_avoids(rest, pat, rep, other);
        let r2 = replace_all(rest, pat, rep);
        assert(out == seq![s[0]] + r2);
        if contains_seq(out, other) {
            let i = choose|i: int| occurs_at(out, other, i);
            if i == 0 {
                let q = other.drop_first();
                assert(out.subrange(0, other.len() as int)[0] == other[0]);
                assert(out[0] == s[0]);
                assert(has_prefix(r2, q)) by {
                    assert forall|j: int| 0 <= j < q.len() implies #[trigger] r2.take(
                        q.len() as int,
                    )[j] == q[j] by {
                        assert(out.subrange(0, other.len() as int)[j + 1] == other[j + 1]);
                        assert(out[j + 1] == r2[j]);
                    }
                    assert(r2.take(q.len() as int) =~= q);
                }
                lemma_replace_keeps_prefix(rest, pat, rep, q);
                assert forall|j: int| 0 <= j < other.len() implies #[trigger] s.subrange(
                    0,
                    other.len() as int,
                )[j] == other[j] by {
                    if j > 0 {
                        assert(rest.take(q.len() as int)[j - 1] == q[j - 1]);
                        assert(s[j] == rest[j - 1]);
                    }
                }
                assert(s.subrange(0, other.len() as int) =~= other);
                assert(occurs_at(s, other, 0));
                if other == pat {
                    assert(s.take(pat.len() as int) =~= s.subrange(0, other.len() as int));
                }
            } else {
                assert(r2.subrange(i - 1, i - 1 + other.len()) =~= out.subrange(
                    i,
                    i + other.len(),
                ));
                assert(occurs_at(r2, other, i - 1));
            }
        }
    }
}

proof fn lemma_occurs_extend(t: Seq<char>, p: Seq<char>, c: char)
    requires
        contains_seq(t, p),
    ensures
        contains_seq(t.push(c), p),
{
    let i = choose|i: int| occurs_at(t, p, i);
    assert(t.push(c).subrange(i, i + p.len()) =~= t.subrange(i, i + p.len()));
    assert(occurs_at(t.push(c), p, i));
}

proof fn lemma_words_in_text(t: Seq<char>)
    ensures
        forall|k: int| 0 <= k < words(t).len() ==> contains_seq(t, #[trigger] words(t)[k]),
        t.len() > 0 && !is_ws(t.last()) ==> words(t).len() > 0 && has_suffix(t, words(t).last()),
    decreases t.len(),
{
    if t.len() > 0 {
        let front = t.drop_last();
        let c = t.last();
        lemma_words_in_text(front);
        let w = words(front);
        assert(t == front.push(c));
        assert forall|k: int| 0 <= k < w.len() implies contains_seq(t, #[trigger] w[k]) by {
            lemma_occurs_extend(front, w[k], c);
        }
        if is_ws(c) {
            assert(words(t) == w);
        } else if t.len() == 1 || is_ws(t[t.len() - 2]) {
            let w2 = w.push(seq![c]);
            assert(words(t) == w2);
            assert(t.skip(t.len() - 1) =~= seq![c]);
            assert(t.subrange(t.len() - 1, t.len() as int) =~= seq![c]);
            assert(occurs_at(t, seq![c], t.len() - 1));
            assert forall|k: int| 0 <= k < w2.len() implies contains_seq(t, #[trigger] w2[k]) by {
                if k < w.len() {
                    assert(w2[k] == w[k]);
                }
            }
        } else {
            assert(front.last() == t[t.len() - 2]);
            let lw = w.last();
            let nw = lw.push(c);
            let w2 = w.update(w.len() - 1, nw);
            assert(words(t) == w2);
            assert(has_suffix(t, nw)) by {
                assert(front.skip(front.len() - lw.len()) == lw);
                assert(t.skip(t.len() - nw.len()) =~= front.skip(front.len() - lw.len()).push(c));
            }
            assert(t.subrange(t.len() - nw.len(), t.len() as int) =~= nw);
            assert(occurs_at(t, nw, t.len() - nw.len()));
            assert forall|k: int| 0 <= k < w2.len() implies contains_seq(t, #[trigger] w2[k]) by {
                if k < w.len() - 1 {
                    assert(w2[k] == w[k]);
                }
            }
        }
    }
}

proof fn lemma_join_occurrence(ws: Seq<Seq<char>>, p: Seq<char>)
    requires
        p.len() > 0,
        forall|j: int| 0 <= j < p.len() ==> !is_ws(#[trigger] p[j]),
        contains_seq(join_space(ws), p),
    ensures
        exists|k: int| 0 <= k < ws.len() && contains_seq(#[trigger] ws[k], p),
    decreases ws.len(),
{
    if ws.len() == 0 {
        let i = choose|i: int| occurs_at(join_space(ws), p, i);
    } else if ws.len() == 1 {
        assert(contains_seq(ws[0], p));
    } else {
        let front = ws.drop_last();
        let a = join_space(front);
        let w = ws.last();
        let j = a + seq![' '] + w;
        assert(join_space(ws) == j);
        let i = choose|i: int| occurs_at(j, p, i);
        if i + p.len() <= a.len() {
            assert(a.subrange(i, i + p.len()) =~= j.subrange(i, i + p.len()));
            assert(occurs_at(a, p, i));
            lemma_join_occurrence(front, p);
            let k = choose|k: int| 0 <= k < front.len() && contains_seq(#[trigger] front[k], p);
            assert(ws[k] == front[k]);
        } else if i <= a.len() {
            let m = a.len() - i;
            assert(j.subrange(i, i + p.len())[m] == p[m]);
            assert(j[a.len() as int] == ' ');
            assert(!is_ws(p[m]));
        } else {
            assert(w.subrange(i - a.len() - 1, i - a.len() - 1 + p.len()) =~= j.subrange(
                i,
                i + p.len(),
            ));
            assert(occurs_at(w, p, i - a.len() - 1));
            assert(ws[ws.len() - 1] == w);
        }
    }
}

/// Collapsing whitespace creates no occurrence of a text without whitespace.
pub proof fn lemma_collapse_keeps_absent(t: Seq<char>, p: Seq<char>)
    requires
        p.len() > 0,
        forall|j: int| 0 <= j < p.len() ==> !is_ws(#[trigger] p[j]),
        !contains_seq(t, p),
    ensures
        !contains_seq(collapse_ws(t), p),
{
    if contains_seq(collapse_ws(t), p) {
        lemma_join_occurrence(words(t), p);
        let k = choose|k: int| 0 <= k < words(t).len() && contains_seq(#[trigger] words(t)[k], p);
        let w = words(t)[k];
        lemma_words_in_text(t);
        assert(contains_seq(t, w));
        let i = choose|i: int| occurs_at(w, p, i);
        let m = choose|m: int| occurs_at(t, w, m);
        assert(t.subrange(m + i, m + i + p.len()) =~= w.subrange(i, i + p.len()));
        assert(occurs_at(t, p, m + i));
    }
}

/// A text without control characters loses nothing when they are removed.
pub proof fn lemma_drop_controls_keeps_clean(s: Seq<char>)
    requires
        free_of_controls(s),
    ensures
        drop_controls(s) == s,
    decreases s.len(),
{
    if s.len() > 0 {
        let front = s.drop_last();
        assert(free_of_controls(front)) by {
            assert forall|i: int| 0 <= i < front.len() implies !is_control(#[trigger] front[i]) by {
                assert(front[i] == s[i]);
            }
        }
        lemma_drop_controls_keeps_clean(front);
        assert(!is_control(s[s.len() - 1]));
        assert(front.push(s.last()) =~= s);
    }
}

/// Replacing a pattern that does not occur changes nothing.
pub proof fn lemma_replace_absent(s: Seq<char>, pat: Seq<char>, rep: Seq<char>)
    requires
        pat.len() > 0,
        !contains_seq(s, pat),
    ensures
        replace_all(s, pat, rep) == s,
    decreases s.len(),
{
    if has_prefix(s, pat) {
        assert(s.subrange(0, pat.len() as int) =~= s.take(pat.len() as int));
        assert(occurs_at(s, pat, 0));
    } else if s.len() > 0 {
        let rest = s.drop_first();
        if contains_seq(rest, pat) {
            let k = choose|k: int| occurs_at(rest, pat, k);
            assert(s.subrange(k + 1, k + 1 + pat.len()) =~= rest.subrange(k, k + pat.len()));
            assert(occurs_at(s, pat, k + 1));
        }
        lemma_replace_absent(rest, pat, rep);
        assert(seq![s[0]] + rest =~= s);
    }
}

/// Every whitespace character of `t` is a space after a non-whitespace character and,
/// unless it ends `t`, before one.
pub open spec fn spaced_prefix(t: Seq<char>) -> bool {
    forall|i: int|
        0 <= i < t.len() && #[trigger] is_ws(t[i]) ==> t[i] == ' ' && 0 < i && !is_ws(t[i - 1])
            && (i + 1 < t.len() ==> !is_ws(t[i + 1]))
}

proof fn lemma_collapse_spaced_prefix(t: Seq<char>)
    requires
        spaced_prefix(t),
    ensures
        join_space(words(t)) == (if t.len() > 0 && is_ws(t.last()) {
            t.drop_last()
        } else {
            t
        }),
    decreases t.len(),
{
    if t.len() > 0 {
        let f = t.drop_last();
        let c = t.last();
        assert(spaced_prefix(f)) by {
            assert forall|i: int| 0 <= i < f.len() && #[trigger] is_ws(f[i]) implies f[i] == ' '
                && 0 < i && !is_ws(f[i - 1]) && (i + 1 < f.len() ==> !is_ws(f[i + 1])) by {
                assert(f[i] == t[i]);
                assert(f[i - 1] == t[i - 1]);
                if i + 1 < f.len() {
                    assert(f[i + 1] == t[i + 1]);
                }
            }
        }
        lemma_collapse_spaced_prefix(f);
        let w = words(f);
        assert(t == f.push(c));
        if is_ws(c) {
            assert(is_ws(t[t.len() - 1]));
            assert(!is_ws(t[t.len() - 2]));
            assert(f.last() == t[t.len() - 2]);
            assert(words(t) == w);
        } else if t.len() == 1 || is_ws(t[t.len() - 2]) {
            assert(words(t) == w.push(seq![c]));
            lemma_join_push(w, seq![c]);
            if t.len() == 1 {
                assert(f.len() == 0);
                assert(w.len() == 0);
                assert(seq![c] =~= t);
            } else {
                assert(f.last() == t[t.len() - 2]);
                assert(f.last() == ' ');
                let g = f.drop_last();
                assert(is_ws(t[t.len() - 2]));
                assert(!is_ws(t[t.len() - 3]));
                assert(g.last() == t[t.len() - 3]);
                assert(words(f) == words(g));
                lemma_words_nonempty(g);
                assert(join_space(w) + seq![' '] + seq![c] =~= t);
            }
        } else {
            assert(f.last() == t[t.len() - 2]);
            lemma_words_nonempty(f);
            assert(words(t) == w.update(w.len() - 1, w.last().push(c)));
            lemma_join_extend_last(w, c);
        }
    }
}

/// Single-spaced text is left as it is by collapsing whitespace.
pub proof fn lemma_collapse_single_spaced_unchanged(s: Seq<char>)
    requires
        single_spaced(s),
    ensures
        collapse_ws(s) == s,
{
    assert(spaced_prefix(s)) by {
        assert forall|i: int| 0 <= i < s.len() && #[trigger] is_ws(s[i]) implies s[i] == ' ' && 0
            < i && !is_ws(s[i - 1]) && (i + 1 < s.len() ==> !is_ws(s[i + 1])) by {
        }
    }
    lemma_collapse_spaced_prefix(s);
    if s.len() > 0 {
        assert(s.last() == s[s.len() - 1]);
    }
}

} // verus!
