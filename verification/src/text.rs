//! Small verified helpers on strings, seen as sequences of characters.
use vstd::prelude::*;

verus! {

/// The views of a list of strings.
pub open spec fn strs_view(v: Seq<String>) -> Seq<Seq<char>> {
    Seq::new(v.len(), |i: int| v[i]@)
}

/// The view of an optional string.
pub open spec fn opt_view(o: Option<String>) -> Option<Seq<char>> {
    match o {
        Some(s) => Some(s@),
        None => None,
    }
}

/// Appends one character to a string (std `String::push`).
/// Trusted: the new view is the old view followed by `c`, as the std
/// documentation of `String::push` states.
#[verifier::external_body]
pub(crate) fn push_char(s: &mut String, c: char)
    ensures
        final(s)@ == old(s)@.push(c),
{
    s.push(c);
}

/// The characters of `s`, in order.
pub fn chars_of(s: &str) -> (v: Vec<char>)
    ensures
        v@ == s@,
{
    let n = s.unicode_len();
    let mut v: Vec<char> = Vec::new();
    let mut i: usize = 0;
    while i < n
        invariant
            n == s@.len(),
            i <= n,
            v@ == s@.subrange(0, i as int),
        decreases n - i,
    {
        let c = s.get_char(i);
        v.push(c);
        i = i + 1;
        assert(v@ =~= s@.subrange(0, i as int));
    }
    assert(v@ =~= s@);
    v
}

/// Appends all characters of `cs` to `s`.
pub fn push_chars(s: &mut String, cs: &[char])
    ensures
        final(s)@ == old(s)@ + cs@,
{
    let mut i: usize = 0;
    while i < cs.len()
        invariant
            i <= cs@.len(),
            s@ == old(s)@ + cs@.subrange(0, i as int),
        decreases cs@.len() - i,
    {
        push_char(s, cs[i]);
        i = i + 1;
        assert(s@ =~= old(s)@ + cs@.subrange(0, i as int));
    }
    assert(cs@.subrange(0, cs@.len() as int) =~= cs@);
}

/// A new string holding exactly the characters `cs`.
pub fn string_of_chars(cs: &[char]) -> (s: String)
    ensures
        s@ == cs@,
{
    let mut s = String::new();
    push_chars(&mut s, cs);
    assert(s@ =~= cs@);
    s
}

/// A new string holding the characters `cs[from..to]`.
pub fn string_of_range(cs: &[char], from: usize, to: usize) -> (s: String)
    requires
        from <= to <= cs@.len(),
    ensures
        s@ == cs@.subrange(from as int, to as int),
{
    let mut s = String::new();
    let mut i: usize = from;
    while i < to
        invariant
            from <= i <= to <= cs@.len(),
            s@ == cs@.subrange(from as int, i as int),
        decreases to - i,
    {
        push_char(&mut s, cs[i]);
        i = i + 1;
        assert(s@ =~= cs@.subrange(from as int, i as int));
    }
    s
}

/// Concatenation of two strings.
pub fn concat_str(a: &str, b: &str) -> (s: String)
    ensures
        s@ == a@ + b@,
{
    let mut s = a.to_owned();
    s.append(b);
    s
}

/// Whether two strings hold the same characters.
pub fn str_eq(a: &str, b: &str) -> (r: bool)
    ensures
        r == (a@ == b@),
{
    let x = a.to_owned();
    let y = b.to_owned();
    x == y
}

/// Whether the last character of `s` is `c`.
pub open spec fn spec_ends_with(s: Seq<char>, c: char) -> bool {
    s.len() > 0 && s.last() == c
}

/// Whether the last character of `s` is `c` (std `str::ends_with` on a char).
pub fn ends_with_char(s: &str, c: char) -> (r: bool)
    ensures
        r == spec_ends_with(s@, c),
{
    let n = s.unicode_len();
    if n == 0 {
        false
    } else {
        s.get_char(n - 1) == c
    }
}

/// `s` with `c` appended unless it already ends with `c`.
pub open spec fn spec_with_trailing(s: Seq<char>, c: char) -> Seq<char> {
    if spec_ends_with(s, c) {
        s
    } else {
        s.push(c)
    }
}

/// Appends `c` to `s` unless `s` already ends with it.
pub fn ensure_trailing(s: &mut String, c: char)
    ensures
        final(s)@ == spec_with_trailing(old(s)@, c),
{
    if !ends_with_char(s.as_str(), c) {
        push_char(s, c);
    }
}

/// `s` without one trailing `c`.
pub open spec fn spec_without_trailing(s: Seq<char>, c: char) -> Seq<char> {
    if spec_ends_with(s, c) {
        s.drop_last()
    } else {
        s
    }
}

/// `s` without one trailing `c`, when it ends with one.
pub fn without_trailing(s: &str, c: char) -> (r: String)
    ensures
        r@ == spec_without_trailing(s@, c),
{
    if ends_with_char(s, c) {
        let cs = chars_of(s);
        let r = string_of_range(cs.as_slice(), 0, cs.len() - 1);
        assert(cs@.subrange(0, cs@.len() - 1) =~= s@.drop_last());
        r
    } else {
        s.to_owned()
    }
}

/// Appending a trailing character twice is the same as appending it once.
pub proof fn law_trailing_idempotent(s: Seq<char>, c: char)
    ensures
        spec_with_trailing(spec_with_trailing(s, c), c) == spec_with_trailing(s, c),
        spec_ends_with(spec_with_trailing(s, c), c),
{
}

/// Index of the last occurrence of `c` in `s`, if any.
pub open spec fn spec_last_index_of(s: Seq<char>, c: char) -> Option<int>
    decreases s.len(),
{
    if s.len() == 0 {
        None
    } else if s.last() == c {
        Some(s.len() - 1)
    } else {
        spec_last_index_of(s.drop_last(), c)
    }
}

pub proof fn lemma_last_index_of_bounds(s: Seq<char>, c: char)
    ensures
        spec_last_index_of(s, c) matches Some(i) ==> 0 <= i < s.len() && s[i] == c && (forall|
            j: int,
        |
            i < j < s.len() ==> s[j] != c),
        spec_last_index_of(s, c) is None ==> forall|j: int| 0 <= j < s.len() ==> s[j] != c,
    decreases s.len(),
{
    if s.len() > 0 {
        lemma_last_index_of_bounds(s.drop_last(), c);
        assert(forall|j: int| 0 <= j < s.len() - 1 ==> s.drop_last()[j] == s[j]);
    }
}

/// The part of `s` after the last `c` (std `rsplit_once(c).map(|(_, name)| name)`),
/// or the whole of `s` where `c` does not occur.
pub open spec fn spec_after_last(s: Seq<char>, c: char) -> Seq<char> {
    match spec_last_index_of(s, c) {
        Some(i) => s.subrange(i + 1, s.len() as int),
        None => s,
    }
}

/// The part of `s` after its last `c`, or all of `s`.
pub fn after_last(s: &str, c: char) -> (r: String)
    ensures
        r@ == spec_after_last(s@, c),
{
    let cs = chars_of(s);
    let mut i: usize = cs.len();
    assert(s@.subrange(0, i as int) =~= s@);
    while i > 0
        invariant
            i <= cs@.len(),
            cs@ == s@,
            spec_last_index_of(s@, c) == spec_last_index_of(s@.subrange(0, i as int), c),
        decreases i,
    {
        if cs[i - 1] == c {
            let tail = string_of_range(cs.as_slice(), i, cs.len());
            proof {
                let p = s@.subrange(0, i as int);
                assert(p.last() == c);
            }
            return tail;
        }
        proof {
            let p = s@.subrange(0, i as int);
            assert(p.drop_last() =~= s@.subrange(0, i - 1));
        }
        i = i - 1;
    }
    s.to_owned()
}

/// Index of the first occurrence of `c` in `s`, if any.
pub open spec fn spec_first_index_of(s: Seq<char>, c: char) -> Option<int>
    decreases s.len(),
{
    if s.len() == 0 {
        None
    } else if s[0] == c {
        Some(0)
    } else {
        match spec_first_index_of(s.drop_first(), c) {
            Some(i) => Some(i + 1),
            None => None,
        }
    }
}

pub proof fn lemma_first_index_of_bounds(s: Seq<char>, c: char)
    ensures
        spec_first_index_of(s, c) matches Some(i) ==> 0 <= i < s.len() && s[i] == c && (forall|
            j: int,
        |
            0 <= j < i ==> s[j] != c),
        spec_first_index_of(s, c) is None ==> forall|j: int| 0 <= j < s.len() ==> s[j] != c,
    decreases s.len(),
{
    if s.len() > 0 {
        lemma_first_index_of_bounds(s.drop_first(), c);
        assert(forall|j: int| 1 <= j < s.len() ==> s.drop_first()[j - 1] == s[j]);
    }
}

/// Index of the first `c` in `cs`.
pub fn first_index_of(cs: &[char], c: char) -> (r: Option<usize>)
    ensures
        r matches Some(i) ==> spec_first_index_of(cs@, c) == Some(i as int),
        r is None ==> spec_first_index_of(cs@, c) is None,
{
    let mut i: usize = 0;
    while i < cs.len()
        invariant
            i <= cs@.len(),
            forall|j: int| 0 <= j < i ==> cs@[j] != c,
        decreases cs@.len() - i,
    {
        if cs[i] == c {
            proof {
                lemma_first_index_unique(cs@, c, i as int);
            }
            return Some(i);
        }
        i = i + 1;
    }
    proof {
        lemma_first_index_of_bounds(cs@, c);
    }
    None
}

proof fn lemma_first_index_unique(s: Seq<char>, c: char, i: int)
    requires
        0 <= i < s.len(),
        s[i] == c,
        forall|j: int| 0 <= j < i ==> s[j] != c,
    ensures
        spec_first_index_of(s, c) == Some(i),
    decreases s.len(),
{
    if i > 0 {
        assert(forall|j: int| 0 <= j < i - 1 ==> s.drop_first()[j] == s[j + 1]);
        lemma_first_index_unique(s.drop_first(), c, i - 1);
    }
}

} // verus!
