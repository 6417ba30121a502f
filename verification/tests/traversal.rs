use gitclean::navigator::{classify, find_git_repos, record, scan, Progress, Traversal};
use gitclean::store::DiscoveryState;
use gitclean::walk::{WalkEntry, WalkEvent};
use std::path::Path;

fn text(path: &Path) -> String {
    path.to_string_lossy().into_owned()
}

fn sorted(mut paths: Vec<String>) -> Vec<String> {
    paths.sort();
    paths
}

fn dir(path: &Path) {
    fs_err::create_dir_all(path).unwrap();
}

fn file(path: &Path) {
    fs_err::write(path, b"x").unwrap();
}

fn entry(name: &str, parent: Option<&str>, is_dir: bool, is_symlink: bool) -> WalkEvent {
    WalkEvent::Entry(WalkEntry {
        name: name.to_string(),
        parent: parent.map(|p| p.to_string()),
        is_dir,
        is_symlink,
    })
}

#[test]
fn finds_the_roots_of_the_example_tree() {
    let tmp = tempfile::tempdir().unwrap();
    let root = tmp.path().join("root");
    dir(&root.join("a").join(".git"));
    dir(&root.join("b").join("c").join(".git"));
    file(&root.join("d.txt"));

    let found = find_git_repos(&text(&root));

    assert_eq!(
        sorted(found.clone()),
        sorted(vec![text(&root.join("a")), text(&root.join("b").join("c"))])
    );
    assert!(!found.contains(&text(&root.join("d.txt"))));
}

#[test]
fn scan_of_the_example_tree_sets_the_completion_flag() {
    let tmp = tempfile::tempdir().unwrap();
    let root = tmp.path().join("root");
    dir(&root.join("a").join(".git"));
    dir(&root.join("b").join("c").join(".git"));
    file(&root.join("d.txt"));

    let mut traversal = Traversal::open(&text(&root));
    let mut store = DiscoveryState::new();
    assert!(!store.is_done());
    scan(&mut traversal, &mut store);

    assert!(store.is_done());
    assert!(traversal.is_finished());
    assert_eq!(
        sorted(store.snapshot()),
        sorted(vec![text(&root.join("a")), text(&root.join("b").join("c"))])
    );
}

#[test]
fn tree_without_markers_gives_nothing_and_completes() {
    let tmp = tempfile::tempdir().unwrap();
    let root = tmp.path().join("root");
    dir(&root.join("plain").join("deeper"));
    file(&root.join("plain").join("notes.txt"));

    assert_eq!(find_git_repos(&text(&root)), Vec::<String>::new());

    let mut traversal = Traversal::open(&text(&root));
    let mut store = DiscoveryState::new();
    scan(&mut traversal, &mut store);
    assert!(store.is_done());
    assert_eq!(store.len(), 0);
}

#[test]
fn empty_directory_gives_nothing_and_completes() {
    let tmp = tempfile::tempdir().unwrap();
    assert_eq!(find_git_repos(&text(tmp.path())), Vec::<String>::new());

    let mut traversal = Traversal::open(&text(tmp.path()));
    let mut store = DiscoveryState::new();
    scan(&mut traversal, &mut store);
    assert!(store.is_done());
    assert_eq!(store.snapshot(), Vec::<String>::new());
}

#[test]
fn contents_of_a_marker_are_never_reported() {
    let tmp = tempfile::tempdir().unwrap();
    let root = tmp.path().join("root");
    let marker = root.join("repo").join(".git");
    dir(&marker.join("objects").join("ab"));
    dir(&marker.join("refs").join("heads"));
    dir(&marker.join("modules").join("inner").join(".git"));
    dir(&marker.join(".git"));
    for i in 0..40 {
        file(&marker.join("objects").join(format!("pack{}", i)));
    }
    file(&marker.join("HEAD"));

    let found = find_git_repos(&text(&root));

    assert_eq!(found, vec![text(&root.join("repo"))]);
}

#[test]
fn marker_is_pruned_but_its_siblings_are_visited() {
    let tmp = tempfile::tempdir().unwrap();
    let root = tmp.path().join("root");
    dir(&root.join("outer").join(".git").join("hooks"));
    dir(&root.join("outer").join("aaa").join(".git"));
    dir(&root.join("outer").join("zzz").join("nested").join(".git"));
    file(&root.join("outer").join("readme"));

    let found = find_git_repos(&text(&root));

    assert_eq!(
        sorted(found),
        sorted(vec![
            text(&root.join("outer")),
            text(&root.join("outer").join("aaa")),
            text(&root.join("outer").join("zzz").join("nested")),
        ])
    );
}

#[test]
fn traversal_steps_through_marker_without_entering_it() {
    let tmp = tempfile::tempdir().unwrap();
    let root = tmp.path().join("root");
    dir(&root.join(".git").join("objects").join("deep"));
    file(&root.join(".git").join("config"));

    let mut traversal = Traversal::open(&text(&root));
    let mut outcomes = Vec::new();
    loop {
        let progress = traversal.advance();
        let over = progress == Progress::Exhausted;
        outcomes.push(progress);
        if over {
            break;
        }
    }

    assert_eq!(
        outcomes,
        vec![Progress::Passed, Progress::Found(text(&root)), Progress::Exhausted]
    );
}

#[test]
fn marker_file_is_no_marker() {
    let tmp = tempfile::tempdir().unwrap();
    let root = tmp.path().join("root");
    dir(&root.join("worktree"));
    file(&root.join("worktree").join(".git"));
    dir(&root.join("real").join(".git"));

    assert_eq!(find_git_repos(&text(&root)), vec![text(&root.join("real"))]);
}

#[test]
fn other_names_are_no_markers() {
    let tmp = tempfile::tempdir().unwrap();
    let root = tmp.path().join("root");
    dir(&root.join("a").join(".gitx"));
    dir(&root.join("b").join("git"));
    dir(&root.join("c").join(".GIT"));
    dir(&root.join("d").join("x.git"));
    dir(&root.join("e").join(".github"));

    assert_eq!(find_git_repos(&text(&root)), Vec::<String>::new());
}

#[test]
fn start_path_that_is_a_marker_reports_its_parent() {
    let tmp = tempfile::tempdir().unwrap();
    let marker = tmp.path().join("repo").join(".git");
    dir(&marker.join("objects"));

    assert_eq!(find_git_repos(&text(&marker)), vec![text(&tmp.path().join("repo"))]);
}

#[test]
fn link_to_a_repository_outside_the_tree_is_not_followed() {
    let tmp = tempfile::tempdir().unwrap();
    let outside = tmp.path().join("outside");
    dir(&outside.join("repo").join(".git"));
    let root = tmp.path().join("root");
    dir(&root.join("sub"));
    fs_err::os::unix::fs::symlink(&outside, root.join("sub").join("link")).unwrap();
    fs_err::os::unix::fs::symlink(outside.join("repo"), root.join("direct")).unwrap();

    assert_eq!(find_git_repos(&text(&root)), Vec::<String>::new());
}

#[test]
fn linked_repository_is_found_by_its_real_path_only() {
    let tmp = tempfile::tempdir().unwrap();
    let root = tmp.path().join("root");
    dir(&root.join("real").join(".git"));
    fs_err::os::unix::fs::symlink(root.join("real"), root.join("alias")).unwrap();

    assert_eq!(find_git_repos(&text(&root)), vec![text(&root.join("real"))]);
}

#[test]
fn link_cycle_ends() {
    let tmp = tempfile::tempdir().unwrap();
    let root = tmp.path().join("root");
    dir(&root.join("a").join("b"));
    dir(&root.join("a").join(".git"));
    fs_err::os::unix::fs::symlink(&root, root.join("a").join("b").join("up")).unwrap();
    fs_err::os::unix::fs::symlink(root.join("a"), root.join("a").join("self")).unwrap();

    assert_eq!(find_git_repos(&text(&root)), vec![text(&root.join("a"))]);
}

#[test]
fn linked_marker_is_no_marker_and_prunes_nothing() {
    let tmp = tempfile::tempdir().unwrap();
    let root = tmp.path().join("root");
    let elsewhere = tmp.path().join("elsewhere");
    dir(&elsewhere);
    dir(&root.join("x"));
    fs_err::os::unix::fs::symlink(&elsewhere, root.join("x").join(".git")).unwrap();
    for name in ["a", "b", "c", "y", "z"] {
        dir(&root.join("x").join(name).join(".git"));
    }

    let found = find_git_repos(&text(&root));

    let mut expected = Vec::new();
    for name in ["a", "b", "c", "y", "z"] {
        expected.push(text(&root.join("x").join(name)));
    }
    assert_eq!(sorted(found), sorted(expected));
}

#[test]
fn broken_link_is_passed_over() {
    let tmp = tempfile::tempdir().unwrap();
    let root = tmp.path().join("root");
    dir(&root.join("repo").join(".git"));
    fs_err::os::unix::fs::symlink(tmp.path().join("missing"), root.join("dangling")).unwrap();

    assert_eq!(find_git_repos(&text(&root)), vec![text(&root.join("repo"))]);
}

#[test]
fn start_path_that_does_not_exist_gives_nothing_and_completes() {
    let tmp = tempfile::tempdir().unwrap();
    let missing = tmp.path().join("missing");

    assert_eq!(find_git_repos(&text(&missing)), Vec::<String>::new());

    let mut traversal = Traversal::open(&text(&missing));
    let mut store = DiscoveryState::new();
    scan(&mut traversal, &mut store);
    assert!(store.is_done());
    assert_eq!(store.len(), 0);
}

#[test]
fn start_path_that_is_a_file_gives_nothing() {
    let tmp = tempfile::tempdir().unwrap();
    let path = tmp.path().join("d.txt");
    file(&path);

    assert_eq!(find_git_repos(&text(&path)), Vec::<String>::new());
}

#[test]
fn finished_traversal_stays_finished() {
    let tmp = tempfile::tempdir().unwrap();
    let mut traversal = Traversal::open(&text(tmp.path()));
    assert!(!traversal.is_finished());
    assert_eq!(traversal.advance(), Progress::Passed);
    assert_eq!(traversal.advance(), Progress::Exhausted);
    assert!(traversal.is_finished());
    assert_eq!(traversal.advance(), Progress::Exhausted);
    assert_eq!(traversal.advance(), Progress::Exhausted);
    assert!(traversal.is_finished());
}

#[test]
fn scan_leaves_a_completed_store_alone() {
    let tmp = tempfile::tempdir().unwrap();
    let root = tmp.path().join("root");
    dir(&root.join("repo").join(".git"));
    let mut store = DiscoveryState::new();
    store.append("/earlier".to_string());
    store.mark_done();

    let mut traversal = Traversal::open(&text(&root));
    scan(&mut traversal, &mut store);

    assert!(traversal.is_finished());
    assert!(store.is_done());
    assert_eq!(store.snapshot(), vec!["/earlier".to_string()]);
}

#[test]
fn scan_appends_behind_what_the_store_holds() {
    let tmp = tempfile::tempdir().unwrap();
    let root = tmp.path().join("root");
    dir(&root.join("repo").join(".git"));
    let mut store = DiscoveryState::new();
    store.append("/earlier".to_string());

    let mut traversal = Traversal::open(&text(&root));
    scan(&mut traversal, &mut store);

    assert_eq!(store.snapshot(), vec!["/earlier".to_string(), text(&root.join("repo"))]);
    assert!(store.is_done());
}

#[test]
fn classify_reports_the_parent_of_a_marker() {
    assert_eq!(
        classify(entry(".git", Some("/root/a"), true, false)),
        Progress::Found("/root/a".to_string())
    );
}

#[test]
fn classify_passes_what_is_no_marker() {
    assert_eq!(classify(entry(".git", Some("/root/a"), false, false)), Progress::Passed);
    assert_eq!(classify(entry(".git", Some("/root/a"), false, true)), Progress::Passed);
    assert_eq!(classify(entry(".git", Some("/root/a"), true, true)), Progress::Passed);
    assert_eq!(classify(entry(".git", None, true, false)), Progress::Passed);
    assert_eq!(classify(entry("src", Some("/root/a"), true, false)), Progress::Passed);
    assert_eq!(classify(entry(".gi", Some("/root/a"), true, false)), Progress::Passed);
    assert_eq!(classify(entry(".gitignore", Some("/root/a"), true, false)), Progress::Passed);
    assert_eq!(classify(entry("", Some("/root/a"), true, false)), Progress::Passed);
    assert_eq!(classify(entry("d.txt", Some("/root"), false, false)), Progress::Passed);
}

#[test]
fn classify_passes_unreadable_entries_and_ends_at_the_end() {
    assert_eq!(classify(WalkEvent::Unreadable), Progress::Passed);
    assert_eq!(classify(WalkEvent::End), Progress::Exhausted);
}

#[test]
fn record_feeds_the_store() {
    let mut store = DiscoveryState::new();
    record(&mut store, Progress::Passed);
    assert_eq!(store.len(), 0);
    assert!(!store.is_done());
    record(&mut store, Progress::Found("/root/a".to_string()));
    record(&mut store, Progress::Passed);
    record(&mut store, Progress::Found("/root/b".to_string()));
    assert_eq!(store.snapshot(), vec!["/root/a".to_string(), "/root/b".to_string()]);
    assert!(!store.is_done());
    record(&mut store, Progress::Exhausted);
    assert!(store.is_done());
    record(&mut store, Progress::Found("/root/late".to_string()));
    assert_eq!(store.snapshot(), vec!["/root/a".to_string(), "/root/b".to_string()]);
}

#[test]
fn next_marker_gives_the_roots_one_by_one() {
    let tmp = tempfile::tempdir().unwrap();
    let root = tmp.path().join("root");
    dir(&root.join("a").join(".git").join("objects"));
    dir(&root.join("b").join("c").join(".git"));
    file(&root.join("d.txt"));

    let mut traversal = Traversal::open(&text(&root));
    let mut found = Vec::new();
    while let Some(path) = traversal.next_marker() {
        assert!(!traversal.is_finished());
        found.push(path);
    }

    assert!(traversal.is_finished());
    assert_eq!(traversal.next_marker(), None);
    assert_eq!(
        sorted(found),
        sorted(vec![text(&root.join("a")), text(&root.join("b").join("c"))])
    );
}

#[test]
fn next_marker_of_a_tree_without_markers_is_nothing() {
    let tmp = tempfile::tempdir().unwrap();
    dir(&tmp.path().join("plain").join("deeper"));

    let mut traversal = Traversal::open(&text(tmp.path()));
    assert_eq!(traversal.next_marker(), None);
    assert!(traversal.is_finished());
    assert_eq!(traversal.advance(), Progress::Exhausted);
}

#[test]
fn each_marker_among_the_events_is_recorded_once_and_in_order() {
    let events = vec![
        entry("root", Some("/"), true, false),
        entry("a", Some("/root"), true, false),
        entry(".git", Some("/root/a"), true, false),
        WalkEvent::Unreadable,
        entry("d.txt", Some("/root"), false, false),
        entry(".git", Some("/root/link"), false, true),
        entry(".git", Some("/root/b/c"), true, false),
        entry(".git", Some("/root/a"), true, false),
        WalkEvent::End,
    ];
    let mut store = DiscoveryState::new();
    for event in events {
        record(&mut store, classify(event));
    }
    assert_eq!(
        store.snapshot(),
        vec!["/root/a".to_string(), "/root/b/c".to_string(), "/root/a".to_string()]
    );
    assert!(store.is_done());
}

#[test]
fn scan_of_a_finished_traversal_adds_nothing() {
    let tmp = tempfile::tempdir().unwrap();
    let root = tmp.path().join("root");
    dir(&root.join("repo").join(".git"));

    let mut traversal = Traversal::open(&text(&root));
    let mut first = DiscoveryState::new();
    scan(&mut traversal, &mut first);
    assert_eq!(first.snapshot(), vec![text(&root.join("repo"))]);

    let mut second = DiscoveryState::new();
    scan(&mut traversal, &mut second);
    assert!(second.is_done());
    assert_eq!(second.snapshot(), Vec::<String>::new());
}

#[test]
fn traversal_is_set_to_enter_no_links() {
    assert!(!gitclean::navigator::FOLLOW_LINKS);
}
