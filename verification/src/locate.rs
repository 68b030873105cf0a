//! The two artifact-location strategies. The mods strategy turns a pull
//! request's head branch into a source-archive URL. The launcher strategy
//! cross-references the pull request's head commit with the CI workflow
//! runs and their artifacts; the scans over runs and artifacts live here,
//! while the fetches between the stages are driven by the pipeline.

use vstd::prelude::*;

use crate::errors::ApplyError;
use crate::model::{Artifact, PullRequest, WorkflowRun};
use crate::urls::{mods_archive_url, mods_archive_url_spec};

verus! {

/// The first pull request in `pulls` whose number is `n`, if any.
/// First match wins: a duplicate number is a data-integrity error of the
/// caller and the earlier entry is the one selected.
pub open spec fn find_pull(pulls: Seq<PullRequest>, n: int) -> Option<PullRequest>
    decreases pulls.len(),
{
    if pulls.len() == 0 {
        None
    } else if pulls[0].number == n {
        Some(pulls[0])
    } else {
        find_pull(pulls.drop_first(), n)
    }
}

/// No pull request is found exactly when no entry carries the number.
pub proof fn lemma_find_pull_none(pulls: Seq<PullRequest>, n: int)
    ensures
        find_pull(pulls, n) is None <==> (forall|i: int|
            0 <= i < pulls.len() ==> pulls[i].number != n),
    decreases pulls.len(),
{
    if pulls.len() > 0 {
        lemma_find_pull_none(pulls.drop_first(), n);
        if find_pull(pulls, n) is None {
            assert forall|i: int| 0 <= i < pulls.len() implies pulls[i].number != n by {
                if i >= 1 {
                    assert(pulls.drop_first()[i - 1] == pulls[i]);
                }
            }
        } else if pulls[0].number != n {
            let j = choose|j: int|
                0 <= j < pulls.drop_first().len() && pulls.drop_first()[j].number == n;
            assert(pulls[j + 1] == pulls.drop_first()[j]);
        }
    }
}

/// Where exactly one entry carries the number, that entry is selected,
/// wherever it stands in the list.
pub proof fn lemma_find_pull_unique(pulls: Seq<PullRequest>, n: int, i: int)
    requires
        0 <= i < pulls.len(),
        pulls[i].number == n,
        forall|j: int| 0 <= j < pulls.len() && j != i ==> pulls[j].number != n,
    ensures
        find_pull(pulls, n) == Some(pulls[i]),
    decreases pulls.len(),
{
    if i > 0 {
        assert(forall|j: int|
            0 <= j < pulls.drop_first().len() && j != i - 1
                ==> #[trigger] pulls.drop_first()[j].number != n);
        lemma_find_pull_unique(pulls.drop_first(), n, i - 1);
    }
}

/// The index of the first pull request with the given number.
pub fn find_pull_index(pr_number: i64, pulls: &Vec<PullRequest>) -> (r: Option<usize>)
    ensures
        match r {
            Some(i) => i < pulls@.len() && find_pull(pulls@, pr_number as int) == Some(
                pulls@[i as int],
            ),
            None => find_pull(pulls@, pr_number as int) is None,
        },
{
    let n = pulls.len();
    let mut i: usize = 0;
    proof {
        assert(pulls@.skip(0) =~= pulls@);
    }
    while i < n
        invariant
            i <= n,
            n == pulls@.len(),
            find_pull(pulls@, pr_number as int) == find_pull(
                pulls@.skip(i as int),
                pr_number as int,
            ),
        decreases n - i,
    {
        if pulls[i].number == pr_number {
            proof {
                assert(pulls@.skip(i as int)[0] == pulls@[i as int]);
            }
            return Some(i);
        }
        proof {
            assert(pulls@.skip(i as int).drop_first() =~= pulls@.skip(i + 1));
        }
        i = i + 1;
    }
    proof {
        assert(pulls@.skip(n as int) =~= Seq::<PullRequest>::empty());
    }
    None
}

/// The mods strategy: the source-archive URL of the head branch of the
/// first pull request carrying the number. `NotFound` exactly when no
/// entry carries it; the operation aborts with that value and nothing
/// else happens.
pub fn resolve_mods(pr_number: i64, pulls: &Vec<PullRequest>) -> (r: Result<String, ApplyError>)
    ensures
        match r {
            Ok(url) => find_pull(pulls@, pr_number as int) matches Some(p) && url@
                == mods_archive_url_spec(p.head_repo_full_name@, p.head_ref@),
            Err(e) => find_pull(pulls@, pr_number as int) is None && e is NotFound,
        },
{
    match find_pull_index(pr_number, pulls) {
        Some(i) => Ok(mods_archive_url(&pulls[i].head_repo_full_name, &pulls[i].head_ref)),
        None => Err(ApplyError::NotFound),
    }
}

/// The head commit SHA that the launcher strategy cross-references, taken
/// from the first pull request carrying the number.
pub fn pull_head_sha(pr_number: i64, pulls: &Vec<PullRequest>) -> (r: Result<String, ApplyError>)
    ensures
        match r {
            Ok(sha) => find_pull(pulls@, pr_number as int) matches Some(p) && sha@ == p.head_sha@,
            Err(e) => find_pull(pulls@, pr_number as int) is None && e is NotFound,
        },
{
    match find_pull_index(pr_number, pulls) {
        Some(i) => Ok(pulls[i].head_sha.clone()),
        None => Err(ApplyError::NotFound),
    }
}

/// The index of the first workflow run at or after `from` whose head
/// commit SHA equals `sha`, if any. First match wins; with several runs
/// for one commit the earliest listed is taken.
pub open spec fn find_run_from_spec(runs: Seq<WorkflowRun>, sha: Seq<char>, from: int) -> Option<
    int,
>
    decreases runs.len() - from,
{
    if from < 0 || from >= runs.len() {
        None
    } else if runs[from].head_sha@ == sha {
        Some(from)
    } else {
        find_run_from_spec(runs, sha, from + 1)
    }
}

/// No run is found from `from` on exactly when no run there carries the
/// SHA.
pub proof fn lemma_find_run_none(runs: Seq<WorkflowRun>, sha: Seq<char>, from: int)
    requires
        from >= 0,
    ensures
        find_run_from_spec(runs, sha, from) is None <==> (forall|j: int|
            from <= j < runs.len() ==> (#[trigger] runs[j].head_sha)@ != sha),
    decreases runs.len() - from,
{
    if from < runs.len() {
        lemma_find_run_none(runs, sha, from + 1);
    }
}

/// The index of the first workflow run at or after `start` whose head
/// commit SHA equals `sha`.
pub fn find_run_index_from(runs: &Vec<WorkflowRun>, sha: &String, start: usize) -> (r: Option<
    usize,
>)
    ensures
        match r {
            Some(i) => find_run_from_spec(runs@, sha@, start as int) == Some(i as int) && start <= i
                < runs@.len(),
            None => find_run_from_spec(runs@, sha@, start as int) is None,
        },
{
    let n = runs.len();
    let mut i: usize = start;
    while i < n
        invariant
            start <= i <= n || (start >= n && i == start),
            n == runs@.len(),
            find_run_from_spec(runs@, sha@, start as int) == find_run_from_spec(
                runs@,
                sha@,
                i as int,
            ),
        decreases n - i,
    {
        if runs[i].head_sha == *sha {
            return Some(i);
        }
        i = i + 1;
    }
    None
}

/// The index of the first artifact whose producing run's head commit
/// SHA equals `sha`, if any. First match wins.
pub open spec fn find_artifact_from_spec(
    artifacts: Seq<Artifact>,
    sha: Seq<char>,
    from: int,
) -> Option<int>
    decreases artifacts.len() - from,
{
    if from < 0 || from >= artifacts.len() {
        None
    } else if artifacts[from].run_head_sha@ == sha {
        Some(from)
    } else {
        find_artifact_from_spec(artifacts, sha, from + 1)
    }
}

/// No artifact is found exactly when none carries the SHA.
pub proof fn lemma_find_artifact_none(artifacts: Seq<Artifact>, sha: Seq<char>, from: int)
    requires
        from >= 0,
    ensures
        find_artifact_from_spec(artifacts, sha, from) is None <==> (forall|j: int|
            from <= j < artifacts.len() ==> (#[trigger] artifacts[j].run_head_sha)@ != sha),
    decreases artifacts.len() - from,
{
    if from < artifacts.len() {
        lemma_find_artifact_none(artifacts, sha, from + 1);
    }
}

/// The index of the first artifact whose producing run's head commit SHA
/// equals `sha`.
pub fn find_artifact_index(artifacts: &Vec<Artifact>, sha: &String) -> (r: Option<usize>)
    ensures
        match r {
            Some(i) => find_artifact_from_spec(artifacts@, sha@, 0) == Some(i as int) && i
                < artifacts@.len(),
            None => find_artifact_from_spec(artifacts@, sha@, 0) is None,
        },
{
    let n = artifacts.len();
    let mut i: usize = 0;
    while i < n
        invariant
            i <= n,
            n == artifacts@.len(),
            find_artifact_from_spec(artifacts@, sha@, 0) == find_artifact_from_spec(
                artifacts@,
                sha@,
                i as int,
            ),
        decreases n - i,
    {
        if artifacts[i].run_head_sha == *sha {
            return Some(i);
        }
        i = i + 1;
    }
    None
}

} // verus!
