//! Character-level helpers for the string rules of the library.
//!
//! Strings are modelled by their sequence of characters. Searching and
//! trimming are stated over `Seq<char>` and computed over `Vec<char>`.

use vstd::prelude::*;
use vstd::string::*;

verus! {

broadcast use vstd::string::group_string_axioms;

/// White space as Unicode defines it (the `White_Space` property).
pub open spec fn is_whitespace(c: char) -> bool {
    let u = c as u32;
    ||| 0x09 <= u <= 0x0D
    ||| u == 0x20
    ||| u == 0x85
    ||| u == 0xA0
    ||| u == 0x1680
    ||| 0x2000 <= u <= 0x200A
    ||| u == 0x2028
    ||| u == 0x2029
    ||| u == 0x202F
    ||| u == 0x205F
    ||| u == 0x3000
}

/// Which characters a trim removes from both ends.
#[derive(Clone, Copy, Debug, PartialEq, Eq, Structural)]
pub enum TrimSet {
    /// White space only.
    Whitespace,
    /// White space and the double quote.
    QuoteOrWhitespace,
}

impl TrimSet {
    /// Whether `c` belongs to the set.
    pub open spec fn holds(self, c: char) -> bool {
        match self {
            TrimSet::Whitespace => is_whitespace(c),
            TrimSet::QuoteOrWhitespace => c == '"' || is_whitespace(c),
        }
    }

    /// Whether `c` belongs to the set.
    pub fn contains(self, c: char) -> (b: bool)
        ensures
            b == self.holds(c),
    {
        match self {
            TrimSet::Whitespace => char_is_whitespace(c),
            TrimSet::QuoteOrWhitespace => c == '"' || char_is_whitespace(c),
        }
    }
}

/// `s` without its leading characters of `set`.
pub open spec fn skip_leading(s: Seq<char>, set: TrimSet) -> Seq<char>
    decreases s.len(),
{
    if s.len() > 0 && set.holds(s[0]) {
        skip_leading(s.drop_first(), set)
    } else {
        s
    }
}

/// `s` without its trailing characters of `set`.
pub open spec fn skip_trailing(s: Seq<char>, set: TrimSet) -> Seq<char>
    decreases s.len(),
{
    if s.len() > 0 && set.holds(s.last()) {
        skip_trailing(s.drop_last(), set)
    } else {
        s
    }
}

/// `s` with the characters of `set` removed from both ends.
pub open spec fn trim_matches(s: Seq<char>, set: TrimSet) -> Seq<char> {
    skip_trailing(skip_leading(s, set), set)
}

/// `s` with white space removed from both ends.
pub open spec fn trim(s: Seq<char>) -> Seq<char> {
    trim_matches(s, TrimSet::Whitespace)
}

/// `needle` stands in `hay` at index `i`.
pub open spec fn occurs_at(hay: Seq<char>, needle: Seq<char>, i: int) -> bool {
    0 <= i && i + needle.len() <= hay.len() && hay.subrange(i, i + needle.len()) == needle
}

/// `needle` stands somewhere in `hay`.
pub open spec fn contains(hay: Seq<char>, needle: Seq<char>) -> bool {
    exists|i: int| occurs_at(hay, needle, i)
}

/// `i` is the rightmost place where `needle` stands in `hay`.
pub open spec fn is_last_occurrence(hay: Seq<char>, needle: Seq<char>, i: int) -> bool {
    occurs_at(hay, needle, i) && forall|j: int| i < j ==> !occurs_at(hay, needle, j)
}

/// The rightmost place where `needle` stands in `hay`, if any.
pub open spec fn last_occurrence(hay: Seq<char>, needle: Seq<char>) -> Option<int> {
    if contains(hay, needle) {
        Some(choose|i: int| is_last_occurrence(hay, needle, i))
    } else {
        None
    }
}

/// `hay` begins with `prefix`.
pub open spec fn starts_with(hay: Seq<char>, prefix: Seq<char>) -> bool {
    occurs_at(hay, prefix, 0)
}

/// The index of the first `c` in `s`, or the length of `s` where there is none.
pub open spec fn first_char_index(s: Seq<char>, c: char) -> int
    decreases s.len(),
{
    if s.len() == 0 || s[0] == c {
        0
    } else {
        1 + first_char_index(s.drop_first(), c)
    }
}

/// What follows the last `c` in `s`; all of `s` where there is none.
pub open spec fn after_last_char(s: Seq<char>, c: char) -> Seq<char>
    decreases s.len(),
{
    if s.len() == 0 {
        s
    } else if s.last() == c {
        Seq::empty()
    } else {
        after_last_char(s.drop_last(), c).push(s.last())
    }
}

/// A rightmost occurrence is the only one.
pub proof fn lemma_last_occurrence_unique(hay: Seq<char>, needle: Seq<char>, i: int)
    requires
        is_last_occurrence(hay, needle, i),
    ensures
        last_occurrence(hay, needle) == Some(i),
{
    assert(occurs_at(hay, needle, i));
    let k = choose|k: int| is_last_occurrence(hay, needle, k);
    assert(is_last_occurrence(hay, needle, k));
    if k < i {
        assert(!occurs_at(hay, needle, i));
    }
    if i < k {
        assert(!occurs_at(hay, needle, k));
    }
}

/// With no occurrence to the right of `k`, an occurrence somewhere gives a rightmost one.
proof fn lemma_rightmost_below(hay: Seq<char>, needle: Seq<char>, k: int)
    requires
        contains(hay, needle),
        k >= -1,
        forall|j: int| k < j ==> !occurs_at(hay, needle, j),
    ensures
        exists|i: int| is_last_occurrence(hay, needle, i),
    decreases k + 1,
{
    if k < 0 {
        let w = choose|w: int| occurs_at(hay, needle, w);
        assert(occurs_at(hay, needle, w));
        assert(false);
    } else if occurs_at(hay, needle, k) {
        assert(is_last_occurrence(hay, needle, k));
    } else {
        lemma_rightmost_below(hay, needle, k - 1);
    }
}

/// `last_occurrence` names a rightmost occurrence exactly where there is an occurrence.
pub proof fn lemma_last_occurrence(hay: Seq<char>, needle: Seq<char>)
    ensures
        match last_occurrence(hay, needle) {
            Some(i) => is_last_occurrence(hay, needle, i),
            None => !contains(hay, needle),
        },
{
    if contains(hay, needle) {
        lemma_rightmost_below(hay, needle, hay.len() as int);
    }
}

/// Where the leading run of `set` ends, the rest is `skip_leading`.
pub proof fn lemma_skip_leading(s: Seq<char>, set: TrimSet, a: int)
    requires
        0 <= a <= s.len(),
        forall|i: int| 0 <= i < a ==> set.holds(#[trigger] s[i]),
        a == s.len() || !set.holds(s[a]),
    ensures
        skip_leading(s, set) == s.subrange(a, s.len() as int),
    decreases a,
{
    if a == 0 {
        assert(s.subrange(0, s.len() as int) == s);
    } else {
        let t = s.drop_first();
        assert forall|i: int| 0 <= i < a - 1 implies set.holds(#[trigger] t[i]) by {
            assert(t[i] == s[i + 1]);
        }
        lemma_skip_leading(t, set, a - 1);
        assert(t.subrange(a - 1, t.len() as int) == s.subrange(a, s.len() as int));
    }
}

/// Where the trailing run of `set` begins, what stands before it is `skip_trailing`.
pub proof fn lemma_skip_trailing(s: Seq<char>, set: TrimSet, b: int)
    requires
        0 <= b <= s.len(),
        forall|i: int| b <= i < s.len() ==> set.holds(#[trigger] s[i]),
        b == 0 || !set.holds(s[b - 1]),
    ensures
        skip_trailing(s, set) == s.subrange(0, b),
    decreases s.len() - b,
{
    if b == s.len() {
        assert(s.subrange(0, s.len() as int) == s);
    } else {
        let t = s.drop_last();
        assert forall|i: int| b <= i < t.len() implies set.holds(#[trigger] t[i]) by {
            assert(t[i] == s[i]);
        }
        lemma_skip_trailing(t, set, b);
        assert(t.subrange(0, b) == s.subrange(0, b));
    }
}

/// The characters of `s`, in order.
pub fn chars_of(s: &str) -> (v: Vec<char>)
    ensures
        v@ == s@,
{
    let mut v: Vec<char> = Vec::new();
    for c in it: s.chars()
        invariant
            it.seq() == s@,
            v@ == it.seq().take(it.index()),
    {
        v.push(c);
    }
    v
}

/// Whether `c` is white space.
pub fn char_is_whitespace(c: char) -> (b: bool)
    ensures
        b == is_whitespace(c),
{
    let u: u32 = c as u32;
    (0x09 <= u && u <= 0x0D) || u == 0x20 || u == 0x85 || u == 0xA0 || u == 0x1680 || (0x2000 <= u
        && u <= 0x200A) || u == 0x2028 || u == 0x2029 || u == 0x202F || u == 0x205F || u == 0x3000
}

/// Whether `needle` stands in `hay` at index `i`.
pub fn matches_at(hay: &Vec<char>, needle: &Vec<char>, i: usize) -> (b: bool)
    ensures
        b == occurs_at(hay@, needle@, i as int),
{
    let n = needle.len();
    if n > hay.len() || i > hay.len() - n {
        return false;
    }
    let mut k: usize = 0;
    while k < n
        invariant
            n == needle.len(),
            i + n <= hay.len(),
            k <= n,
            forall|j: int| 0 <= j < k ==> hay@[i + j] == needle@[j],
        decreases n - k,
    {
        if hay[i + k] != needle[k] {
            proof {
                let sub = hay@.subrange(i as int, i + n);
                assert(sub[k as int] == hay@[i + k]);
            }
            return false;
        }
        k += 1;
    }
    assert(hay@.subrange(i as int, i + n) =~= needle@);
    true
}

/// Whether two character sequences are the same.
pub fn same_chars(a: &Vec<char>, b: &Vec<char>) -> (r: bool)
    ensures
        r == (a@ == b@),
{
    if a.len() != b.len() {
        return false;
    }
    let r = matches_at(a, b, 0);
    proof {
        assert(a@.subrange(0, a@.len() as int) == a@);
    }
    r
}

/// Whether `s` is exactly the text `lit`.
pub fn str_is(s: &str, lit: &str) -> (r: bool)
    ensures
        r == (s@ == lit@),
{
    let a = chars_of(s);
    let b = chars_of(lit);
    same_chars(&a, &b)
}

/// Whether `hay` begins with `prefix`.
pub fn has_prefix(hay: &Vec<char>, prefix: &Vec<char>) -> (b: bool)
    ensures
        b == starts_with(hay@, prefix@),
{
    matches_at(hay, prefix, 0)
}

/// The rightmost place where `needle` stands in `hay`.
pub fn rfind(hay: &Vec<char>, needle: &Vec<char>) -> (r: Option<usize>)
    ensures
        match r {
            Some(i) => last_occurrence(hay@, needle@) == Some(i as int) && is_last_occurrence(
                hay@,
                needle@,
                i as int,
            ),
            None => last_occurrence(hay@, needle@).is_none(),
        },
{
    if needle.len() > hay.len() {
        return None;
    }
    let mut i: usize = hay.len() - needle.len();
    loop
        invariant
            needle.len() <= hay.len(),
            i <= hay.len() - needle.len(),
            forall|j: int| i < j ==> !occurs_at(hay@, needle@, j),
        decreases i,
    {
        if matches_at(hay, needle, i) {
            proof {
                lemma_last_occurrence_unique(hay@, needle@, i as int);
            }
            return Some(i);
        }
        if i == 0 {
            return None;
        }
        i -= 1;
    }
}

/// Whether `needle` stands somewhere in `hay`.
pub fn has_occurrence(hay: &Vec<char>, needle: &Vec<char>) -> (b: bool)
    ensures
        b == contains(hay@, needle@),
{
    rfind(hay, needle).is_some()
}

/// The bounds of `v[from..to]` once the characters of `set` are removed from both ends.
pub fn trim_bounds(v: &Vec<char>, from: usize, to: usize, set: TrimSet) -> (r: (usize, usize))
    requires
        from <= to <= v.len(),
    ensures
        from <= r.0 <= r.1 <= to,
        v@.subrange(r.0 as int, r.1 as int) == trim_matches(v@.subrange(from as int, to as int), set),
{
    let ghost s = v@.subrange(from as int, to as int);
    let mut a: usize = from;
    while a < to && set.contains(v[a])
        invariant
            from <= a <= to <= v.len(),
            forall|i: int| from <= i < a ==> set.holds(#[trigger] v@[i]),
        decreases to - a,
    {
        a += 1;
    }
    let mut b: usize = to;
    while b > a && set.contains(v[b - 1])
        invariant
            a <= b <= to <= v.len(),
            forall|i: int| b <= i < to ==> set.holds(#[trigger] v@[i]),
        decreases b,
    {
        b -= 1;
    }
    proof {
        assert forall|i: int| 0 <= i < a - from implies set.holds(#[trigger] s[i]) by {
            assert(s[i] == v@[from + i]);
        }
        lemma_skip_leading(s, set, a - from);
        let t = s.subrange(a - from, s.len() as int);
        assert(t == v@.subrange(a as int, to as int));
        assert forall|i: int| b - a <= i < t.len() implies set.holds(#[trigger] t[i]) by {
            assert(t[i] == v@[a + i]);
        }
        lemma_skip_trailing(t, set, b - a);
        assert(t.subrange(0, b - a) == v@.subrange(a as int, b as int));
    }
    (a, b)
}

/// The index in `v[from..to]` of the first `c`, counted from `from`; `to - from` where there is none.
pub fn find_char(v: &Vec<char>, from: usize, to: usize, c: char) -> (r: usize)
    requires
        from <= to <= v.len(),
    ensures
        from <= r <= to,
        r - from == first_char_index(v@.subrange(from as int, to as int), c),
        r < to ==> v@[r as int] == c,
        forall|i: int| from <= i < r ==> v@[i] != c,
{
    let mut i: usize = from;
    while i < to && v[i] != c
        invariant
            from <= i <= to <= v.len(),
            forall|j: int| from <= j < i ==> v@[j] != c,
        decreases to - i,
    {
        i += 1;
    }
    proof {
        lemma_first_char_index(v@.subrange(from as int, to as int), c, i - from);
    }
    i
}

/// The first `c` of `s` stands where nothing before it is `c`.
pub proof fn lemma_first_char_index(s: Seq<char>, c: char, k: int)
    requires
        0 <= k <= s.len(),
        forall|i: int| 0 <= i < k ==> s[i] != c,
        k == s.len() || s[k] == c,
    ensures
        first_char_index(s, c) == k,
    decreases k,
{
    if k > 0 {
        let t = s.drop_first();
        assert forall|i: int| 0 <= i < k - 1 implies t[i] != c by {
            assert(t[i] == s[i + 1]);
        }
        lemma_first_char_index(t, c, k - 1);
    }
}

/// Where `v[from..to]` begins again after its last `c`; `from` where there is none.
pub fn rfind_char_end(v: &Vec<char>, from: usize, to: usize, c: char) -> (r: usize)
    requires
        from <= to <= v.len(),
    ensures
        from <= r <= to,
        v@.subrange(r as int, to as int) == after_last_char(v@.subrange(from as int, to as int), c),
{
    let mut i: usize = to;
    while i > from && v[i - 1] != c
        invariant
            from <= i <= to <= v.len(),
            forall|j: int| i <= j < to ==> v@[j] != c,
        decreases i,
    {
        i -= 1;
    }
    proof {
        lemma_after_last_char(v@.subrange(from as int, to as int), c, i - from);
        assert(v@.subrange(from as int, to as int).subrange(i - from, to - from) == v@.subrange(
            i as int,
            to as int,
        ));
    }
    i
}

/// What follows the last `c` begins where no later character is `c`.
pub proof fn lemma_after_last_char(s: Seq<char>, c: char, k: int)
    requires
        0 <= k <= s.len(),
        forall|i: int| k <= i < s.len() ==> s[i] != c,
        k == 0 || s[k - 1] == c,
    ensures
        after_last_char(s, c) == s.subrange(k, s.len() as int),
    decreases s.len() - k,
{
    if s.len() == 0 {
        assert(s.subrange(0, 0) == s);
    } else if k == s.len() {
        assert(s.subrange(k, s.len() as int) == Seq::<char>::empty());
    } else {
        let t = s.drop_last();
        assert forall|i: int| k <= i < t.len() implies t[i] != c by {
            assert(t[i] == s[i]);
        }
        lemma_after_last_char(t, c, k);
        assert(t.subrange(k, t.len() as int).push(s.last()) == s.subrange(k, s.len() as int));
    }
}

/// The characters `v[from..to]`.
pub fn slice_of(v: &Vec<char>, from: usize, to: usize) -> (r: Vec<char>)
    requires
        from <= to <= v.len(),
    ensures
        r@ == v@.subrange(from as int, to as int),
{
    let mut out: Vec<char> = Vec::new();
    let mut i: usize = from;
    while i < to
        invariant
            from <= i <= to <= v.len(),
            out@ == v@.subrange(from as int, i as int),
        decreases to - i,
    {
        out.push(v[i]);
        assert(out@ =~= v@.subrange(from as int, i + 1));
        i += 1;
    }
    out
}

/// `s` with the characters of `set` removed from both ends.
pub fn trim_str(s: &str, set: TrimSet) -> (r: String)
    ensures
        r@ == trim_matches(s@, set),
{
    let v = chars_of(s);
    let (a, b) = trim_bounds(&v, 0, v.len(), set);
    assert(v@.subrange(0, v@.len() as int) == v@);
    s.substring_char(a, b).to_owned()
}

} // verus!
