use spdx_guide::ranking::{rank_authors, Commit, CommitTime};
use spdx_guide::vcs::{strip_tag_prefix, User, VcsInfo};

fn user(name: &str, email: Option<&str>) -> User {
    User { name: name.to_string(), email: email.map(|e| e.to_string()) }
}

fn commit(name: &str, email: &str, seconds: i64) -> Commit {
    Commit { author: user(name, Some(email)), time: CommitTime { seconds, offset_minutes: 0 } }
}

fn names(v: &[User]) -> Vec<String> {
    v.iter().map(|u| u.to_string()).collect()
}

#[test]
fn user_renders_with_and_without_email() {
    assert_eq!(user("Ann", Some("ann@x.org")).to_string(), "Ann (ann@x.org)");
    assert_eq!(user("Ann", None).to_string(), "Ann");
}

#[test]
fn no_commits_gives_empty_rankings_and_a_snapshot() {
    let (active, oldest) = rank_authors(&vec![]);
    assert!(active.is_empty());
    assert!(oldest.is_empty());
    let info = VcsInfo::from_parts("git", None, None, vec![], None, None, None, &vec![]);
    assert_eq!(info.vcs_name, "git");
    assert!(info.user.is_none());
    assert!(info.active_project_authors.is_empty());
    assert!(info.oldest_project_authors.is_empty());
    assert!(info.remote_urls.is_empty());
    assert!(info.head_refs.is_empty());
    assert!(info.latest_version.is_none());
}

#[test]
fn single_identity_is_in_both_rankings() {
    let cs = vec![commit("Ann", "a@x", 30), commit("Ann", "a@x", 20)];
    let (active, oldest) = rank_authors(&cs);
    assert_eq!(names(&active), vec!["Ann (a@x)"]);
    assert_eq!(names(&oldest), vec!["Ann (a@x)"]);
}

#[test]
fn same_name_with_other_email_is_another_identity() {
    let cs = vec![commit("Ann", "a@x", 30), commit("Ann", "a@y", 20)];
    let (active, _) = rank_authors(&cs);
    assert_eq!(names(&active), vec!["Ann (a@x)", "Ann (a@y)"]);
}

#[test]
fn active_ranking_by_count_with_ties_in_first_seen_order() {
    // newest first
    let cs = vec![
        commit("C", "c", 60),
        commit("B", "b", 50),
        commit("A", "a", 40),
        commit("B", "b", 30),
        commit("A", "a", 20),
        commit("A", "a", 10),
    ];
    let (active, oldest) = rank_authors(&cs);
    assert_eq!(names(&active), vec!["A (a)", "B (b)", "C (c)"]);
    // the time kept for each author is that of the first commit met
    assert_eq!(names(&oldest), vec!["A (a)", "B (b)", "C (c)"]);
}

#[test]
fn oldest_ranking_by_recorded_time() {
    let cs = vec![commit("X", "x", 10), commit("Y", "y", 30), commit("Z", "z", 20)];
    let (active, oldest) = rank_authors(&cs);
    assert_eq!(names(&active), vec!["X (x)", "Y (y)", "Z (z)"]);
    assert_eq!(names(&oldest), vec!["X (x)", "Z (z)", "Y (y)"]);
}

#[test]
fn rankings_keep_at_most_five_distinct_authors() {
    let mut cs = Vec::new();
    for (i, n) in ["a", "b", "c", "d", "e", "f", "g"].iter().enumerate() {
        for _ in 0..=i {
            cs.push(commit(n, n, 100 - i as i64));
        }
    }
    let (active, oldest) = rank_authors(&cs);
    assert_eq!(names(&active), vec!["g (g)", "f (f)", "e (e)", "d (d)", "c (c)"]);
    assert_eq!(names(&oldest), vec!["g (g)", "f (f)", "e (e)", "d (d)", "c (c)"]);
    let mut seen = names(&active);
    seen.sort();
    seen.dedup();
    assert_eq!(seen.len(), 5);
}

#[test]
fn equal_times_break_ties_by_offset() {
    let a = Commit { author: user("A", None), time: CommitTime { seconds: 5, offset_minutes: 60 } };
    let b = Commit { author: user("B", None), time: CommitTime { seconds: 5, offset_minutes: -60 } };
    let (_, oldest) = rank_authors(&vec![a, b]);
    assert_eq!(names(&oldest), vec!["B", "A"]);
}

#[test]
fn snapshot_fields_from_parts() {
    let info = VcsInfo::from_parts(
        "git",
        Some("Ann".to_string()),
        Some("a@x".to_string()),
        vec!["https://example.com/repo.git".to_string()],
        Some("refs/heads/main".to_string()),
        Some("refs/tags/v1.2".to_string()),
        Some("abc123".to_string()),
        &vec![commit("Ann", "a@x", 1)],
    );
    assert_eq!(info.user.as_ref().map(|u| u.to_string()), Some("Ann (a@x)".to_string()));
    assert_eq!(info.head_refs, vec!["refs/heads/main", "refs/tags/v1.2", "abc123"]);
    assert_eq!(info.latest_version, Some("v1.2".to_string()));
    assert_eq!(names(&info.active_project_authors), vec!["Ann (a@x)"]);
}

#[test]
fn head_refs_skip_absent_values() {
    let info = VcsInfo::from_parts("git", None, Some("a@x".to_string()), vec![], None, None, Some("abc".to_string()), &vec![]);
    assert!(info.user.is_none());
    assert_eq!(info.head_refs, vec!["abc"]);
    assert!(info.latest_version.is_none());
}

#[test]
fn tag_prefix_is_stripped() {
    assert_eq!(strip_tag_prefix("refs/tags/v1.0"), Some("v1.0".to_string()));
    assert_eq!(strip_tag_prefix("refs/tags/"), Some(String::new()));
    assert_eq!(strip_tag_prefix("v1.0"), None);
    assert_eq!(strip_tag_prefix("refs/heads/main"), None);
}

#[test]
fn download_locations_of_a_remote() {
    let info = VcsInfo::from_parts("git", None, None, vec![], Some("main".to_string()), None, Some("abc".to_string()), &vec![]);
    assert_eq!(
        info.download_locations("https://example.com/repo.git"),
        vec![
            "git+https://example.com/repo.git",
            "git+https://example.com/repo.git@main",
            "git+https://example.com/repo.git@abc",
        ]
    );
}
