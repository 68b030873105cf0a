use northstar_dev_testing_helper_tool::errors::ApplyError;
use northstar_dev_testing_helper_tool::locate::{
    find_artifact_index, find_pull_index, find_run_index_from, pull_head_sha, resolve_mods,
};
use northstar_dev_testing_helper_tool::model::{Artifact, PullRequest, WorkflowRun};

fn pull(number: i64, head_ref: &str, full_name: &str, sha: &str) -> PullRequest {
    PullRequest {
        number,
        head_ref: head_ref.to_string(),
        head_repo_full_name: full_name.to_string(),
        head_sha: sha.to_string(),
        merge_commit_sha: None,
    }
}

#[test]
fn resolve_mods_builds_url_from_single_entry() {
    let pulls = vec![pull(42, "fix", "foo/bar", "abc123")];
    let url = resolve_mods(42, &pulls).unwrap();
    assert_eq!(url, "https://github.com/foo/bar/archive/refs/heads/fix.zip");
}

#[test]
fn resolve_mods_unique_entry_among_others() {
    let pulls = vec![
        pull(7, "seven", "a/b", "s7"),
        pull(42, "fix", "foo/bar", "s42"),
        pull(9, "nine", "c/d", "s9"),
    ];
    let url = resolve_mods(42, &pulls).unwrap();
    assert_eq!(url, "https://github.com/foo/bar/archive/refs/heads/fix.zip");
}

#[test]
fn resolve_mods_absent_number_is_not_found() {
    let pulls = vec![pull(7, "seven", "a/b", "s7"), pull(9, "nine", "c/d", "s9")];
    match resolve_mods(42, &pulls) {
        Err(ApplyError::NotFound) => {}
        other => panic!("expected NotFound, got {:?}", other.map(|_| ())),
    }
}

#[test]
fn resolve_mods_empty_list_is_not_found() {
    let pulls: Vec<PullRequest> = Vec::new();
    assert!(matches!(resolve_mods(42, &pulls), Err(ApplyError::NotFound)));
}

#[test]
fn resolve_mods_first_match_wins_on_duplicate_numbers() {
    let pulls = vec![pull(5, "first", "one/won", "s1"), pull(5, "second", "two/too", "s2")];
    let url = resolve_mods(5, &pulls).unwrap();
    assert_eq!(url, "https://github.com/one/won/archive/refs/heads/first.zip");
}

#[test]
fn find_pull_index_reports_first_match() {
    let pulls = vec![pull(1, "a", "x/y", "s1"), pull(2, "b", "x/y", "s2")];
    assert_eq!(find_pull_index(2, &pulls), Some(1));
    assert_eq!(find_pull_index(3, &pulls), None);
}

#[test]
fn pull_head_sha_returns_head_commit() {
    let pulls = vec![pull(42, "fix", "foo/bar", "deadbeef")];
    assert_eq!(pull_head_sha(42, &pulls).unwrap(), "deadbeef");
    assert!(matches!(pull_head_sha(1, &pulls), Err(ApplyError::NotFound)));
}

fn run(id: u64, sha: &str) -> WorkflowRun {
    WorkflowRun { id, head_sha: sha.to_string() }
}

#[test]
fn find_run_takes_earliest_match() {
    let runs = vec![run(10, "x"), run(11, "match"), run(12, "match")];
    let sha = "match".to_string();
    assert_eq!(find_run_index_from(&runs, &sha, 0), Some(1));
    assert_eq!(find_run_index_from(&runs, &sha, 2), Some(2));
    assert_eq!(find_run_index_from(&runs, &sha, 3), None);
}

#[test]
fn find_run_absent_sha_is_none() {
    let runs = vec![run(10, "x"), run(11, "y")];
    let sha = "missing".to_string();
    assert_eq!(find_run_index_from(&runs, &sha, 0), None);
}

#[test]
fn find_artifact_takes_earliest_match() {
    let artifacts = vec![
        Artifact { id: 100, run_head_sha: "other".to_string() },
        Artifact { id: 200, run_head_sha: "wanted".to_string() },
        Artifact { id: 300, run_head_sha: "wanted".to_string() },
    ];
    let sha = "wanted".to_string();
    assert_eq!(find_artifact_index(&artifacts, &sha), Some(1));
    let missing = "none".to_string();
    assert_eq!(find_artifact_index(&artifacts, &missing), None);
}
