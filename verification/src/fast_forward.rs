//! Whether a pull request can be fast-forward merged, and the reference update that merges it.

use vstd::prelude::*;

verus! {

/// How the head branch of a pull request compares with its base branch,
/// as GitHub's compare endpoint reports it.
#[derive(PartialEq, Eq, Structural, Clone, Copy, Debug)]
pub enum CompareStatus {
    /// The head has commits that the base lacks, and none the other way.
    Ahead,
    /// The base has commits that the head lacks, and none the other way.
    Behind,
    /// Each side has commits that the other lacks.
    Diverged,
    /// Both point at the same commit.
    Identical,
}

/// Whether the base branch of a pull request can be moved forward to its head.
#[derive(PartialEq, Eq, Structural, Clone, Copy, Debug)]
pub enum FastForwardStatus {
    /// The base is an ancestor of the head: a fast-forward merge is possible.
    Mergeable,
    /// The head is already contained in the base.
    Merged,
    /// The branches have diverged: the head must be rebased first.
    NotMergeable,
}

/// The fast-forward status that a comparison of head against base implies.
pub open spec fn spec_fast_forward_status(status: CompareStatus) -> FastForwardStatus {
    match status {
        CompareStatus::Ahead => FastForwardStatus::Mergeable,
        CompareStatus::Behind | CompareStatus::Identical => FastForwardStatus::Merged,
        CompareStatus::Diverged => FastForwardStatus::NotMergeable,
    }
}

/// Maps the result of comparing a pull request's head with its base to its fast-forward status.
pub fn fast_forward_status(status: CompareStatus) -> (r: FastForwardStatus)
    ensures
        r == spec_fast_forward_status(status),
{
    match status {
        CompareStatus::Ahead => FastForwardStatus::Mergeable,
        CompareStatus::Behind => FastForwardStatus::Merged,
        CompareStatus::Identical => FastForwardStatus::Merged,
        CompareStatus::Diverged => FastForwardStatus::NotMergeable,
    }
}

/// A request to move a branch reference: `PATCH endpoint` with the body
/// `{"sha": sha, "force": force}`.
pub struct RefUpdate {
    pub endpoint: String,
    pub sha: String,
    pub force: bool,
}

/// The path of the git reference of branch `branch` in repository `owner/repo`.
pub open spec fn spec_branch_ref_endpoint(owner: Seq<char>, repo: Seq<char>, branch: Seq<char>) -> Seq<char> {
    "/repos/"@ + owner + "/"@ + repo + "/git/refs/heads/"@ + branch
}

/// The reference update that fast-forwards the base branch `base_branch` of a pull request
/// in `owner/repo` to the commit `head_sha` at its head, without forcing.
pub fn fast_forward_merge_request(owner: &str, repo: &str, base_branch: &str, head_sha: &str) -> (r: RefUpdate)
    ensures
        r.endpoint@ == spec_branch_ref_endpoint(owner@, repo@, base_branch@),
        r.sha@ == head_sha@,
        !r.force,
{
    let mut endpoint = String::from_str("/repos/");
    endpoint.append(owner);
    endpoint.append("/");
    endpoint.append(repo);
    endpoint.append("/git/refs/heads/");
    endpoint.append(base_branch);
    RefUpdate { endpoint, sha: String::from_str(head_sha), force: false }
}


/// A fast-forward merge is possible exactly when the head is ahead of the base; the pull
/// request counts as merged when its head is behind or level with the base, and as not
/// mergeable exactly when the branches have diverged.
pub proof fn law_fast_forward_status(status: CompareStatus)
    ensures
        spec_fast_forward_status(status) == FastForwardStatus::Mergeable <==> status == CompareStatus::Ahead,
        spec_fast_forward_status(status) == FastForwardStatus::NotMergeable <==> status == CompareStatus::Diverged,
        spec_fast_forward_status(status) == FastForwardStatus::Merged <==> (status == CompareStatus::Behind
            || status == CompareStatus::Identical),
{
}

/// The reference endpoint starts with `/repos/` and the owner, holds the repository after a
/// `/`, and ends with `/git/refs/heads/` and the branch; different branches give different
/// endpoints.
pub proof fn law_branch_ref_endpoint(owner: Seq<char>, repo: Seq<char>, branch: Seq<char>, other: Seq<char>)
    ensures
        ({
            let e = spec_branch_ref_endpoint(owner, repo, branch);
            &&& e.len() == 7 + owner.len() + 1 + repo.len() + 16 + branch.len()
            &&& e.subrange(0, 7) == "/repos/"@
            &&& e.subrange(7, 7 + owner.len() as int) == owner
            &&& e.subrange(8 + owner.len() as int, 8 + owner.len() + repo.len() as int) == repo
            &&& e.skip(e.len() - branch.len()) == branch
        }),
        spec_branch_ref_endpoint(owner, repo, branch) == spec_branch_ref_endpoint(owner, repo, other) ==> branch == other,
{
    reveal_strlit("/repos/");
    reveal_strlit("/");
    reveal_strlit("/git/refs/heads/");
    let e = spec_branch_ref_endpoint(owner, repo, branch);
    let f = spec_branch_ref_endpoint(owner, repo, other);
    let p = "/repos/"@ + owner + "/"@ + repo + "/git/refs/heads/"@;
    assert(e == p + branch);
    assert(f == p + other);
    assert(e.subrange(0, 7) =~= "/repos/"@);
    assert(e.subrange(7, 7 + owner.len() as int) =~= owner);
    assert(e.subrange(8 + owner.len() as int, 8 + owner.len() + repo.len() as int) =~= repo);
    assert(e.skip(e.len() - branch.len()) =~= branch);
    if e == f {
        assert(e.skip(p.len() as int) =~= branch);
        assert(f.skip(p.len() as int) =~= other);
    }
}

} // verus!
