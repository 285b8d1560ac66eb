//! What the local mirror of a repository is called.

use vstd::prelude::*;
use crate::text::{matches_at, split, split_on, to_chars, to_string, views};

verus! {

broadcast use vstd::string::group_string_axioms;

/// `s` without the occurrences of the non-empty `pat`, found from the left
/// and not overlapping.
pub open spec fn remove_all(s: Seq<char>, pat: Seq<char>) -> Seq<char>
    decreases s.len(),
{
    if pat.len() == 0 || s.len() < pat.len() {
        s
    } else if s.take(pat.len() as int) == pat {
        remove_all(s.skip(pat.len() as int), pat)
    } else {
        seq![s[0]] + remove_all(s.drop_first(), pat)
    }
}

/// The directory name of the mirror of the repository at `repo_url`: what
/// follows the last `/`, without any `.git`.
pub open spec fn mirror_name(repo_url: Seq<char>) -> Seq<char> {
    remove_all(split(repo_url, '/').last(), ".git"@)
}

/// `v` without the occurrences of `pat`.
fn remove_all_chars(v: &Vec<char>, pat: &Vec<char>) -> (r: Vec<char>)
    requires
        pat.len() > 0,
    ensures
        r@ == remove_all(v@, pat@),
{
    let mut r: Vec<char> = Vec::new();
    let mut i: usize = 0;
    assert(v@.skip(0) =~= v@);
    assert(r@ + remove_all(v@, pat@) =~= remove_all(v@, pat@));
    while i < v.len()
        invariant
            i <= v.len(),
            pat.len() > 0,
            remove_all(v@, pat@) == r@ + remove_all(v@.skip(i as int), pat@),
        decreases v.len() - i,
    {
        let ghost rest = v@.skip(i as int);
        if v.len() - i >= pat.len() && matches_at(v, i, pat) {
            proof {
                assert(rest.take(pat.len() as int) =~= v@.subrange(i as int, i + pat.len()));
                assert(rest.skip(pat.len() as int) =~= v@.skip(i + pat.len()));
            }
            i = i + pat.len();
        } else {
            proof {
                if rest.len() >= pat.len() {
                    assert(rest.take(pat.len() as int) =~= v@.subrange(i as int, i + pat.len()));
                    assert(rest.drop_first() =~= v@.skip(i + 1));
                    assert(r@ + (seq![rest[0]] + remove_all(v@.skip(i + 1), pat@)) =~= r@.push(
                        v@[i as int],
                    ) + remove_all(v@.skip(i + 1), pat@));
                } else {
                    assert(rest.drop_first() =~= v@.skip(i + 1));
                    assert(v@.skip(i + 1).len() < pat.len());
                    assert(rest =~= seq![rest[0]] + v@.skip(i + 1));
                    assert(r@ + rest =~= r@.push(v@[i as int]) + v@.skip(i + 1));
                }
            }
            r.push(v[i]);
            i = i + 1;
        }
    }
    assert(v@.skip(i as int) =~= Seq::<char>::empty());
    assert(r@ + Seq::<char>::empty() =~= r@);
    r
}

/// The directory name of the mirror of the repository at `repo_url`.
pub fn local_repo_name(repo_url: &str) -> (name: String)
    ensures
        name@ == mirror_name(repo_url@),
{
    let chars = to_chars(repo_url);
    let parts = split_on(&chars, '/');
    let suffix = to_chars(".git");
    proof {
        reveal_strlit(".git");
        crate::text::lemma_split_nonempty(chars@, '/');
        assert(views(parts@).len() == parts@.len());
        assert(views(parts@).last() == parts@[parts@.len() - 1]@);
    }
    let last = &parts[parts.len() - 1];
    let cleaned = remove_all_chars(last, &suffix);
    to_string(&cleaned)
}

} // verus!
