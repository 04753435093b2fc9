//! Character-level helpers on strings, stated over `Seq<char>`.

use vstd::prelude::*;

verus! {

/// The views of a sequence of strings.
pub open spec fn views(v: Seq<String>) -> Seq<Seq<char>> {
    Seq::new(v.len(), |i: int| v[i]@)
}

/// Whether `s` begins with `prefix`.
pub fn starts_with(s: &str, prefix: &str) -> (r: bool)
    ensures
        r == prefix@.is_prefix_of(s@),
{
    let n: usize = prefix.unicode_len();
    if s.unicode_len() < n {
        return false;
    }
    let mut i: usize = 0;
    while i < n
        invariant
            i <= n,
            n == prefix@.len(),
            n <= s@.len(),
            forall|k: int| 0 <= k < i ==> s@[k] == prefix@[k],
        decreases n - i,
    {
        if s.get_char(i) != prefix.get_char(i) {
            assert(s@.subrange(0, n as int)[i as int] != prefix@[i as int]);
            return false;
        }
        i += 1;
    }
    assert(prefix@ =~= s@.subrange(0, n as int));
    true
}

/// Whether two strings hold the same characters.
pub fn str_eq(a: &str, b: &str) -> (r: bool)
    ensures
        r == (a@ == b@),
{
    if a.unicode_len() != b.unicode_len() {
        return false;
    }
    let r = starts_with(a, b);
    assert(r ==> a@ =~= b@);
    r
}

/// The pieces of `s` between occurrences of `sep`, in order. There is always
/// at least one piece; a piece is empty where two separators touch or where
/// `s` begins or ends with one.
pub open spec fn split_on(s: Seq<char>, sep: char) -> Seq<Seq<char>>
    decreases s.len(),
{
    if s.len() == 0 {
        seq![Seq::<char>::empty()]
    } else {
        let head = split_on(s.drop_last(), sep);
        if s.last() == sep {
            head.push(Seq::<char>::empty())
        } else {
            head.drop_last().push(head.last().push(s.last()))
        }
    }
}

/// `split_on`, computed.
pub fn split(s: &str, sep: char) -> (parts: Vec<String>)
    ensures
        views(parts@) == split_on(s@, sep),
{
    let n: usize = s.unicode_len();
    let mut parts: Vec<String> = Vec::new();
    let mut start: usize = 0;
    let mut i: usize = 0;
    assert(s@.subrange(0, 0) =~= Seq::<char>::empty());
    assert(views(parts@).push(Seq::<char>::empty()) =~= seq![Seq::<char>::empty()]);
    while i < n
        invariant
            n == s@.len(),
            start <= i <= n,
            views(parts@).push(s@.subrange(start as int, i as int)) == split_on(
                s@.subrange(0, i as int),
                sep,
            ),
        decreases n - i,
    {
        let c = s.get_char(i);
        let ghost before = s@.subrange(0, i as int);
        let ghost upto = s@.subrange(0, i + 1);
        let ghost piece = s@.subrange(start as int, i as int);
        let ghost done = views(parts@);
        assert(upto.drop_last() =~= before);
        assert(upto.last() == c);
        if c == sep {
            parts.push(String::from_str(s.substring_char(start, i)));
            start = i + 1;
            assert(views(parts@) =~= done.push(piece));
            assert(s@.subrange(start as int, i + 1) =~= Seq::<char>::empty());
        } else {
            assert(done.push(piece).drop_last() =~= done);
            assert(piece.push(c) =~= s@.subrange(start as int, i + 1));
        }
        i += 1;
    }
    assert(s@.subrange(0, n as int) =~= s@);
    let ghost done = views(parts@);
    parts.push(String::from_str(s.substring_char(start, n)));
    assert(views(parts@) =~= done.push(s@.subrange(start as int, n as int)));
    parts
}

/// Splitting always yields at least one piece.
pub proof fn lemma_split_on_nonempty(s: Seq<char>, sep: char)
    ensures
        split_on(s, sep).len() >= 1,
    decreases s.len(),
{
    if s.len() > 0 {
        lemma_split_on_nonempty(s.drop_last(), sep);
    }
}

/// The position of the last `c` in `s`, or -1 where `s` holds none.
pub open spec fn last_index_of(s: Seq<char>, c: char) -> int
    decreases s.len(),
{
    if s.len() == 0 {
        -1
    } else if s.last() == c {
        s.len() - 1
    } else {
        last_index_of(s.drop_last(), c)
    }
}

/// `last_index_of` is the one position that holds `c` with no `c` after it.
pub proof fn lemma_last_index_of(s: Seq<char>, c: char, i: int)
    requires
        -1 <= i < s.len(),
        i >= 0 ==> s[i] == c,
        forall|k: int| i < k < s.len() ==> s[k] != c,
    ensures
        last_index_of(s, c) == i,
    decreases s.len(),
{
    if s.len() > 0 && s.last() != c {
        lemma_last_index_of(s.drop_last(), c, i);
    }
}

/// Where `last_index_of` points there is a `c`, and none after it.
pub proof fn lemma_last_index_of_is_last(s: Seq<char>, c: char)
    ensures
        -1 <= last_index_of(s, c) < s.len(),
        last_index_of(s, c) >= 0 ==> s[last_index_of(s, c)] == c,
        forall|k: int| last_index_of(s, c) < k < s.len() ==> s[k] != c,
    decreases s.len(),
{
    if s.len() > 0 && s.last() != c {
        let t = s.drop_last();
        lemma_last_index_of_is_last(t, c);
        assert forall|k: int| last_index_of(s, c) < k < s.len() implies s[k] != c by {
            if k < t.len() {
                assert(t[k] == s[k]);
            }
        }
    }
}

/// The last piece of a split is what follows the last separator.
pub proof fn lemma_split_on_last(s: Seq<char>, sep: char)
    ensures
        split_on(s, sep).len() >= 1,
        split_on(s, sep).last() == s.subrange(last_index_of(s, sep) + 1, s.len() as int),
    decreases s.len(),
{
    let i = last_index_of(s, sep);
    if s.len() == 0 {
        assert(s.subrange(0, 0) =~= Seq::<char>::empty());
    } else if s.last() == sep {
        lemma_split_on_last(s.drop_last(), sep);
        assert(s.subrange(i + 1, s.len() as int) =~= Seq::<char>::empty());
    } else {
        let t = s.drop_last();
        lemma_split_on_last(t, sep);
        lemma_last_index_of_is_last(t, sep);
        assert(t.subrange(i + 1, t.len() as int).push(s.last()) =~= s.subrange(
            i + 1,
            s.len() as int,
        ));
    }
}

/// The position of the last `c` among the first `end` characters of `s`.
pub fn rfind(s: &str, c: char, end: usize) -> (r: Option<usize>)
    requires
        end <= s@.len(),
    ensures
        match r {
            Some(i) => i < end && s@[i as int] == c && i == last_index_of(
                s@.subrange(0, end as int),
                c,
            ),
            None => last_index_of(s@.subrange(0, end as int), c) == -1,
        },
{
    let ghost t = s@.subrange(0, end as int);
    let mut i: usize = end;
    while i > 0
        invariant
            i <= end <= s@.len(),
            t == s@.subrange(0, end as int),
            forall|k: int| i <= k < end ==> t[k] != c,
        decreases i,
    {
        i -= 1;
        if s.get_char(i) == c {
            proof {
                lemma_last_index_of(t, c, i as int);
            }
            return Some(i);
        }
    }
    proof {
        lemma_last_index_of(t, c, -1);
    }
    None
}

} // verus!
