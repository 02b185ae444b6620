use vstd::prelude::*;
use vstd::string::StrSliceExecFns;
use vstd::string::StringExecFns;

verus! {

/// The last path segment: the suffix after the final '/', empty when the path
/// is empty or ends with '/'.
pub open spec fn base_name_spec(path: Seq<char>) -> Seq<char>
    decreases path.len(),
{
    if path.len() == 0 {
        Seq::empty()
    } else if path.last() == '/' {
        Seq::empty()
    } else {
        base_name_spec(path.drop_last()).push(path.last())
    }
}

proof fn lemma_base_name_after_cut(path: Seq<char>, cut: int)
    requires
        0 <= cut <= path.len(),
        forall|i: int| cut <= i < path.len() ==> path[i] != '/',
        cut == 0 || path[cut - 1] == '/',
    ensures
        base_name_spec(path) == path.subrange(cut, path.len() as int),
    decreases path.len(),
{
    if path.len() == 0 {
        assert(base_name_spec(path) =~= path.subrange(cut, path.len() as int));
    } else if cut == path.len() {
        assert(path.last() == '/');
        assert(base_name_spec(path) =~= path.subrange(cut, path.len() as int));
    } else {
        assert(path.last() != '/');
        lemma_base_name_after_cut(path.drop_last(), cut);
        assert(path.drop_last().subrange(cut, path.len() - 1) =~= path.subrange(
            cut,
            path.len() - 1,
        ));
        assert(base_name_spec(path) =~= path.subrange(cut, path.len() as int));
    }
}

/// Derive the file's base name (last path segment) from a configured path.
pub fn base_name(path: &str) -> (name: String)
    ensures
        name@ == base_name_spec(path@),
{
    let n: usize = path.unicode_len();
    let mut cut: usize = n;
    while cut > 0 && path.get_char(cut - 1) != '/'
        invariant
            cut <= n,
            n == path@.len(),
            forall|i: int| cut <= i < n ==> path@[i] != '/',
        decreases cut,
    {
        cut = cut - 1;
    }
    proof {
        lemma_base_name_after_cut(path@, cut as int);
    }
    let tail: &str = path.substring_char(cut, n);
    String::from_str(tail)
}

} // verus!
