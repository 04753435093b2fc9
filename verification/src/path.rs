//! File paths as strings whose components are separated by `/`.

use crate::text::{last_index_of, rfind};
use vstd::prelude::*;

verus! {

/// `base` followed by `part` as a further component: a separator goes between
/// the two unless `base` is empty or already ends with one.
pub open spec fn joined(base: Seq<char>, part: Seq<char>) -> Seq<char> {
    if base.len() == 0 || base.last() == '/' {
        base + part
    } else {
        base + seq!['/'] + part
    }
}

/// A file name without its extension: what stands before its last `.`,
/// unless that is its first character; the whole name where it has none.
pub open spec fn stem_of(name: Seq<char>) -> Seq<char> {
    if last_index_of(name, '.') > 0 {
        name.subrange(0, last_index_of(name, '.'))
    } else {
        name
    }
}

/// `path` followed by a `.` and `ext`.
pub open spec fn with_suffix(path: Seq<char>, ext: Seq<char>) -> Seq<char> {
    path + seq!['.'] + ext
}

/// Whether `path` is `root` or lies below it: it begins with `root`, and
/// what follows `root` is a further component, not more of `root`'s own
/// last one.
pub open spec fn is_below(root: Seq<char>, path: Seq<char>) -> bool {
    &&& root.is_prefix_of(path)
    &&& (path.len() == root.len() || root.len() == 0 || root.last() == '/' || path[root.len() as int]
        == '/')
}

/// What is joined on to a path below `root` lies below `root`.
pub proof fn lemma_joined_is_below(root: Seq<char>, base: Seq<char>, part: Seq<char>)
    requires
        is_below(root, base),
    ensures
        is_below(root, joined(base, part)),
{
    let path = joined(base, part);
    assert(root =~= base.subrange(0, root.len() as int));
    assert(root =~= path.subrange(0, root.len() as int));
    if path.len() > root.len() && root.len() > 0 && root.last() != '/' {
        if base.len() > root.len() {
            assert(path[root.len() as int] == base[root.len() as int]);
        } else {
            assert(base =~= root);
        }
    }
}

/// A path that was joined from a path below `root` stays below `root` when
/// a suffix is added to its last component.
pub proof fn lemma_suffixed_is_below(
    root: Seq<char>,
    base: Seq<char>,
    part: Seq<char>,
    ext: Seq<char>,
)
    requires
        is_below(root, base),
    ensures
        is_below(root, with_suffix(joined(base, part), ext)),
{
    let file = joined(base, part);
    let path = with_suffix(file, ext);
    lemma_joined_is_below(root, base, part);
    assert(root =~= file.subrange(0, root.len() as int));
    assert(root =~= path.subrange(0, root.len() as int));
    if root.len() > 0 && root.last() != '/' {
        if file.len() > root.len() {
            assert(path[root.len() as int] == file[root.len() as int]);
        } else {
            assert(base =~= root);
            assert(file.len() > base.len());
        }
    }
}

/// `joined`, computed.
pub fn join_path(base: &str, part: &str) -> (r: String)
    ensures
        r@ == joined(base@, part@),
{
    let n: usize = base.unicode_len();
    let head = String::from_str(base);
    if n == 0 || base.get_char(n - 1) == '/' {
        head.concat(part)
    } else {
        proof {
            reveal_strlit("/");
            assert("/"@ =~= seq!['/']);
        }
        head.concat("/").concat(part)
    }
}

/// `stem_of`, computed.
pub fn file_stem(name: &str) -> (r: String)
    ensures
        r@ == stem_of(name@),
{
    let n: usize = name.unicode_len();
    proof {
        assert(name@.subrange(0, n as int) =~= name@);
    }
    match rfind(name, '.', n) {
        Some(dot) => if dot > 0 {
            String::from_str(name.substring_char(0, dot))
        } else {
            String::from_str(name)
        },
        None => String::from_str(name),
    }
}

/// `with_suffix`, computed.
pub fn add_suffix(path: String, ext: &str) -> (r: String)
    ensures
        r@ == with_suffix(path@, ext@),
{
    proof {
        reveal_strlit(".");
        assert("."@ =~= seq!['.']);
    }
    path.concat(".").concat(ext)
}

} // verus!
