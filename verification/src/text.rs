//! Character-level text utilities: Unicode whitespace, trimming,
//! substring search, ASCII case folding and decimal numbers.

use vstd::prelude::*;

verus! {

/// The Unicode `White_Space` property, which is what `char::is_whitespace` tests.
pub open spec fn is_white_space(c: char) -> bool {
    ||| ('\u{9}' <= c && c <= '\u{d}')
    ||| c == ' '
    ||| c == '\u{85}'
    ||| c == '\u{a0}'
    ||| c == '\u{1680}'
    ||| ('\u{2000}' <= c && c <= '\u{200a}')
    ||| c == '\u{2028}'
    ||| c == '\u{2029}'
    ||| c == '\u{202f}'
    ||| c == '\u{205f}'
    ||| c == '\u{3000}'
}

/// `s` without its leading whitespace.
pub open spec fn trim_start(s: Seq<char>) -> Seq<char>
    decreases s.len(),
{
    if s.len() > 0 && is_white_space(s[0]) {
        trim_start(s.drop_first())
    } else {
        s
    }
}

/// `s` without its trailing whitespace.
pub open spec fn trim_end(s: Seq<char>) -> Seq<char>
    decreases s.len(),
{
    if s.len() > 0 && is_white_space(s.last()) {
        trim_end(s.drop_last())
    } else {
        s
    }
}

/// `s` without leading and trailing whitespace, as `str::trim` gives it.
pub open spec fn trim(s: Seq<char>) -> Seq<char> {
    trim_end(trim_start(s))
}

/// Tests a character for the Unicode `White_Space` property.
pub fn is_whitespace(c: char) -> (r: bool)
    ensures
        r == is_white_space(c),
{
    ('\u{9}' <= c && c <= '\u{d}') || c == ' ' || c == '\u{85}' || c == '\u{a0}' || c == '\u{1680}'
        || ('\u{2000}' <= c && c <= '\u{200a}') || c == '\u{2028}' || c == '\u{2029}' || c
        == '\u{202f}' || c == '\u{205f}' || c == '\u{3000}'
}

proof fn lemma_trim_start_skip(s: Seq<char>, i: int)
    requires
        0 <= i <= s.len(),
        forall|j: int| 0 <= j < i ==> is_white_space(#[trigger] s[j]),
    ensures
        trim_start(s) == trim_start(s.subrange(i, s.len() as int)),
    decreases i,
{
    if i > 0 {
        assert(s.drop_first() =~= s.subrange(1, s.len() as int));
        lemma_trim_start_skip(s.drop_first(), i - 1);
        assert(s.drop_first().subrange(i - 1, s.drop_first().len() as int) =~= s.subrange(
            i,
            s.len() as int,
        ));
    } else {
        assert(s.subrange(0, s.len() as int) =~= s);
    }
}

proof fn lemma_trim_end_cut(s: Seq<char>, k: int)
    requires
        0 <= k <= s.len(),
        forall|j: int| k <= j < s.len() ==> is_white_space(#[trigger] s[j]),
    ensures
        trim_end(s) == trim_end(s.subrange(0, k)),
    decreases s.len() - k,
{
    if k < s.len() {
        assert(s.drop_last() =~= s.subrange(0, s.len() - 1));
        lemma_trim_end_cut(s.drop_last(), k);
        assert(s.drop_last().subrange(0, k) =~= s.subrange(0, k));
    } else {
        assert(s.subrange(0, s.len() as int) =~= s);
    }
}

/// Copies the characters of `s` into a vector.
pub fn chars_of(s: &str) -> (v: Vec<char>)
    ensures
        v@ == s@,
{
    let mut v: Vec<char> = Vec::new();
    for c in it: s.chars()
        invariant
            v@ == it.seq().take(it.index() as int),
            it.seq() == s@,
    {
        v.push(c);
    }
    v
}


/// The bounds `(i, k)` such that `s[i..k]` is `s` trimmed of whitespace on both sides.
pub fn trim_bounds(s: &Vec<char>) -> (r: (usize, usize))
    ensures
        r.0 <= r.1 <= s.len(),
        s@.subrange(r.0 as int, r.1 as int) == trim(s@),
{
    let n = s.len();
    let mut i: usize = 0;
    while i < n && is_whitespace(s[i])
        invariant
            i <= n,
            n == s.len(),
            forall|j: int| 0 <= j < i ==> is_white_space(#[trigger] s@[j]),
        decreases n - i,
    {
        i += 1;
    }
    proof {
        lemma_trim_start_skip(s@, i as int);
        let rest = s@.subrange(i as int, n as int);
        if rest.len() > 0 {
            assert(rest[0] == s@[i as int]);
        }
        assert(trim_start(rest) == rest);
    }
    let mut k: usize = n;
    while k > i && is_whitespace(s[k - 1])
        invariant
            i <= k <= n,
            n == s.len(),
            forall|j: int| k <= j < n ==> is_white_space(#[trigger] s@[j]),
        decreases k - i,
    {
        k -= 1;
    }
    proof {
        let rest = s@.subrange(i as int, n as int);
        assert forall|j: int| k - i <= j < rest.len() implies is_white_space(#[trigger] rest[j]) by {
            assert(rest[j] == s@[j + i]);
        }
        lemma_trim_end_cut(rest, k - i);
        let cut = rest.subrange(0, k - i);
        assert(cut =~= s@.subrange(i as int, k as int));
        if cut.len() > 0 {
            assert(cut.last() == s@[k - 1]);
        }
        assert(trim_end(cut) == cut);
    }
    (i, k)
}

/// Appends one character to a `String` (`String::push`).
#[verifier::external_body]
pub(crate) fn push_char(s: &mut String, c: char)
    ensures
        final(s)@ == old(s)@.push(c),
{
    s.push(c);
}

/// The characters `v[from..to]` as a new `String`.
pub fn string_of(v: &Vec<char>, from: usize, to: usize) -> (r: String)
    requires
        from <= to <= v.len(),
    ensures
        r@ == v@.subrange(from as int, to as int),
{
    let mut r = String::new();
    let mut i = from;
    while i < to
        invariant
            from <= i <= to <= v.len(),
            r@ == v@.subrange(from as int, i as int),
        decreases to - i,
    {
        push_char(&mut r, v[i]);
        i += 1;
        assert(r@ =~= v@.subrange(from as int, i as int));
    }
    r
}

/// `pat` occurs in `s` at position `i`.
pub open spec fn occurs_at(s: Seq<char>, pat: Seq<char>, i: int) -> bool {
    0 <= i && i + pat.len() <= s.len() && s.subrange(i, i + pat.len()) == pat
}

/// The first position at or after `from` where `pat` occurs in `s`.
pub open spec fn find_from(s: Seq<char>, pat: Seq<char>, from: int) -> Option<int>
    decreases s.len() + 1 - from,
{
    if from < 0 || from + pat.len() > s.len() {
        None
    } else if occurs_at(s, pat, from) {
        Some(from)
    } else {
        find_from(s, pat, from + 1)
    }
}

/// `find_from` gives the earliest occurrence at or after `from`, or tells that there is none.
pub proof fn lemma_find_from(s: Seq<char>, pat: Seq<char>, from: int)
    requires
        0 <= from,
    ensures
        match find_from(s, pat, from) {
            Some(i) => from <= i && occurs_at(s, pat, i) && forall|j: int|
                from <= j < i ==> !occurs_at(s, pat, j),
            None => forall|j: int| from <= j ==> !occurs_at(s, pat, j),
        },
    decreases s.len() + 1 - from,
{
    if from + pat.len() > s.len() {
    } else if occurs_at(s, pat, from) {
    } else {
        lemma_find_from(s, pat, from + 1);
    }
}

proof fn lemma_trim_start_push(t: Seq<char>, c: char)
    ensures
        trim_start(t.push(c)) == (if trim_start(t).len() == 0 {
            trim_start(seq![c])
        } else {
            trim_start(t).push(c)
        }),
    decreases t.len(),
{
    if t.len() == 0 {
        assert(t.push(c) =~= seq![c]);
    } else if is_white_space(t[0]) {
        assert(t.push(c).drop_first() =~= t.drop_first().push(c));
        lemma_trim_start_push(t.drop_first(), c);
    }
}

/// Whitespace added after a text does not change the trimmed text.
pub proof fn lemma_trim_push_white_space(t: Seq<char>, c: char)
    requires
        is_white_space(c),
    ensures
        trim(t.push(c)) == trim(t),
{
    lemma_trim_start_push(t, c);
    assert(seq![c].drop_first() =~= Seq::<char>::empty());
    if trim_start(t).len() > 0 {
        assert(trim_start(t).push(c).drop_last() =~= trim_start(t));
    } else {
        assert(trim_start(seq![c]) == trim_start(Seq::<char>::empty()));
        assert(trim_start(t) =~= Seq::<char>::empty());
    }
}

/// Whitespace put before a text does not change the trimmed text.
pub proof fn lemma_trim_prepend_white_space(c: char, t: Seq<char>)
    requires
        is_white_space(c),
    ensures
        trim(seq![c] + t) == trim(t),
{
    assert((seq![c] + t).drop_first() =~= t);
}

/// A text without whitespace is its own trimmed text.
pub proof fn lemma_trim_no_white_space(t: Seq<char>)
    requires
        forall|i: int| 0 <= i < t.len() ==> !is_white_space(#[trigger] t[i]),
    ensures
        trim(t) == t,
{
    if t.len() > 0 {
        assert(!is_white_space(t[0]));
        assert(!is_white_space(t[t.len() - 1]));
    }
}

/// The only occurrence of `pat` at or after `from` up to `i`, at `i`, is the one
/// `find_from` finds.
pub proof fn lemma_find_first(s: Seq<char>, pat: Seq<char>, from: int, i: int)
    requires
        0 <= from <= i,
        occurs_at(s, pat, i),
        forall|j: int| from <= j < i ==> !occurs_at(s, pat, j),
    ensures
        find_from(s, pat, from) == Some(i),
{
    lemma_find_from(s, pat, from);
}

/// Finds the first occurrence of `pat` in `s` at or after `from`.
pub fn find_in(s: &Vec<char>, pat: &Vec<char>, from: usize) -> (r: Option<usize>)
    ensures
        match r {
            Some(i) => find_from(s@, pat@, from as int) == Some(i as int),
            None => find_from(s@, pat@, from as int) is None,
        },
{
    let n = s.len();
    let m = pat.len();
    let mut i = from;
    while i <= n && m <= n - i
        invariant
            n == s.len(),
            m == pat.len(),
            from <= i,
            find_from(s@, pat@, from as int) == find_from(s@, pat@, i as int),
        decreases n - i,
    {
        let mut j: usize = 0;
        while j < m && s[i + j] == pat[j]
            invariant
                j <= m,
                i + m <= n,
                n == s.len(),
                m == pat.len(),
                forall|t: int| 0 <= t < j ==> s@[i + t] == pat@[t],
            decreases m - j,
        {
            j += 1;
        }
        if j == m {
            assert(s@.subrange(i as int, i + m) =~= pat@);
            return Some(i);
        }
        assert(!occurs_at(s@, pat@, i as int)) by {
            if s@.subrange(i as int, i + m) == pat@ {
                assert(s@.subrange(i as int, i + m)[j as int] == s@[i + j]);
            }
        }
        i += 1;
    }
    None
}


/// A copy of `v[from..to]`.
pub fn copy_range(v: &Vec<char>, from: usize, to: usize) -> (r: Vec<char>)
    requires
        from <= to <= v.len(),
    ensures
        r@ == v@.subrange(from as int, to as int),
{
    let mut r: Vec<char> = Vec::new();
    let mut i = from;
    while i < to
        invariant
            from <= i <= to <= v.len(),
            r@ == v@.subrange(from as int, i as int),
        decreases to - i,
    {
        r.push(v[i]);
        i += 1;
        assert(r@ =~= v@.subrange(from as int, i as int));
    }
    r
}

/// Appends `v[from..to]` to `out`.
pub fn extend_range(out: &mut Vec<char>, v: &Vec<char>, from: usize, to: usize)
    requires
        from <= to <= v.len(),
    ensures
        final(out)@ == old(out)@ + v@.subrange(from as int, to as int),
{
    let ghost start = out@;
    let mut i = from;
    while i < to
        invariant
            from <= i <= to <= v.len(),
            out@ == start + v@.subrange(from as int, i as int),
        decreases to - i,
    {
        out.push(v[i]);
        i += 1;
        assert(out@ =~= start + v@.subrange(from as int, i as int));
    }
}

/// `s` trimmed of surrounding whitespace, as a new `String`.
pub fn trimmed_string(v: &Vec<char>) -> (r: String)
    ensures
        r@ == trim(v@),
{
    let (i, k) = trim_bounds(v);
    string_of(v, i, k)
}


/// `c` with an ASCII capital letter turned into its small letter.
pub open spec fn ascii_lower_char(c: char) -> char {
    match c {
        'A' => 'a',
        'B' => 'b',
        'C' => 'c',
        'D' => 'd',
        'E' => 'e',
        'F' => 'f',
        'G' => 'g',
        'H' => 'h',
        'I' => 'i',
        'J' => 'j',
        'K' => 'k',
        'L' => 'l',
        'M' => 'm',
        'N' => 'n',
        'O' => 'o',
        'P' => 'p',
        'Q' => 'q',
        'R' => 'r',
        'S' => 's',
        'T' => 't',
        'U' => 'u',
        'V' => 'v',
        'W' => 'w',
        'X' => 'x',
        'Y' => 'y',
        'Z' => 'z',
        _ => c,
    }
}

/// `c` with an ASCII capital letter turned into its small letter.
pub fn to_ascii_lower(c: char) -> (r: char)
    ensures
        r == ascii_lower_char(c),
{
    match c {
        'A' => 'a',
        'B' => 'b',
        'C' => 'c',
        'D' => 'd',
        'E' => 'e',
        'F' => 'f',
        'G' => 'g',
        'H' => 'h',
        'I' => 'i',
        'J' => 'j',
        'K' => 'k',
        'L' => 'l',
        'M' => 'm',
        'N' => 'n',
        'O' => 'o',
        'P' => 'p',
        'Q' => 'q',
        'R' => 'r',
        'S' => 's',
        'T' => 't',
        'U' => 'u',
        'V' => 'v',
        'W' => 'w',
        'X' => 'x',
        'Y' => 'y',
        'Z' => 'z',
        _ => c,
    }
}

/// `s` with its ASCII capital letters turned into small letters.
pub open spec fn ascii_lower(s: Seq<char>) -> Seq<char> {
    s.map_values(|c: char| ascii_lower_char(c))
}

/// Tests whether `v` turns into `target` when its ASCII capitals are made small.
pub fn lowers_to(v: &Vec<char>, target: &str) -> (r: bool)
    ensures
        r == (ascii_lower(v@) == target@),
{
    let t = chars_of(target);
    if v.len() != t.len() {
        assert(ascii_lower(v@).len() != target@.len());
        return false;
    }
    let mut i: usize = 0;
    while i < v.len()
        invariant
            i <= v.len(),
            v.len() == t.len(),
            t@ == target@,
            forall|j: int| 0 <= j < i ==> ascii_lower_char(#[trigger] v@[j]) == t@[j],
        decreases v.len() - i,
    {
        let c = v[i];
        let d = t[i];
        let same = to_ascii_lower(c) == d;
        if !same {
            assert(ascii_lower(v@)[i as int] == ascii_lower_char(c));
            assert(ascii_lower(v@)[i as int] != target@[i as int]);
            return false;
        }
        i += 1;
    }
    assert(ascii_lower(v@) =~= target@);
    true
}


/// Tests two texts for equality, character by character.
pub fn same_text(a: &str, b: &str) -> (r: bool)
    ensures
        r == (a@ == b@),
{
    let x = chars_of(a);
    let y = chars_of(b);
    if x.len() != y.len() {
        return false;
    }
    let mut i: usize = 0;
    while i < x.len()
        invariant
            i <= x.len(),
            x.len() == y.len(),
            x@ == a@,
            y@ == b@,
            forall|j: int| 0 <= j < i ==> x@[j] == y@[j],
        decreases x.len() - i,
    {
        if x[i] != y[i] {
            return false;
        }
        i += 1;
    }
    assert(x@ =~= y@);
    true
}

/// `s` ends with `suffix`.
pub open spec fn ends_with(s: Seq<char>, suffix: Seq<char>) -> bool {
    suffix.len() <= s.len() && s.subrange(s.len() - suffix.len(), s.len() as int) == suffix
}

/// `s` starts with `prefix`.
pub open spec fn starts_with(s: Seq<char>, prefix: Seq<char>) -> bool {
    prefix.len() <= s.len() && s.subrange(0, prefix.len() as int) == prefix
}

/// Tests whether `s` ends with `suffix`.
pub fn has_suffix(s: &str, suffix: &str) -> (r: bool)
    ensures
        r == ends_with(s@, suffix@),
{
    let v = chars_of(s);
    let w = chars_of(suffix);
    if w.len() > v.len() {
        return false;
    }
    let start = v.len() - w.len();
    let mut i: usize = 0;
    while i < w.len()
        invariant
            i <= w.len(),
            start + w.len() == v.len(),
            v@ == s@,
            w@ == suffix@,
            forall|j: int| 0 <= j < i ==> v@[start + j] == w@[j],
        decreases w.len() - i,
    {
        if v[start + i] != w[i] {
            assert(s@.subrange(start as int, s@.len() as int)[i as int] == v@[start + i]);
            return false;
        }
        i += 1;
    }
    assert(s@.subrange(start as int, s@.len() as int) =~= suffix@);
    true
}

/// Tests whether `s` starts with `prefix`.
pub fn has_prefix(s: &str, prefix: &str) -> (r: bool)
    ensures
        r == starts_with(s@, prefix@),
{
    let v = chars_of(s);
    let w = chars_of(prefix);
    if w.len() > v.len() {
        return false;
    }
    let mut i: usize = 0;
    while i < w.len()
        invariant
            i <= w.len() <= v.len(),
            v@ == s@,
            w@ == prefix@,
            forall|j: int| 0 <= j < i ==> v@[j] == w@[j],
        decreases w.len() - i,
    {
        if v[i] != w[i] {
            assert(s@.subrange(0, prefix@.len() as int)[i as int] == v@[i as int]);
            return false;
        }
        i += 1;
    }
    assert(s@.subrange(0, prefix@.len() as int) =~= prefix@);
    true
}

} // verus!
