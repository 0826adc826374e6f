use randl::cli::RepositoryAction;
use randl::repository::{run, sync_filename, RepoPlan};

fn owned(xs: &[&str]) -> Vec<String> {
    xs.iter().map(|x| x.to_string()).collect()
}

#[test]
fn add_known_url_changes_nothing() {
    let lines = owned(&["https://a/r1", "https://b/r2"]);
    let action = RepositoryAction::Add {
        url: "https://a/r1".to_string(),
    };
    assert_eq!(run(action, &lines), RepoPlan::AlreadyPresent);
}

#[test]
fn add_new_url_appends_it() {
    let lines = owned(&["https://a/r1"]);
    let action = RepositoryAction::Add {
        url: "https://b/r2".to_string(),
    };
    assert_eq!(
        run(action, &lines),
        RepoPlan::Append {
            url: "https://b/r2".to_string()
        }
    );
}

#[test]
fn remove_unknown_url_is_not_found() {
    let lines = owned(&["https://a/r1"]);
    let action = RepositoryAction::Remove {
        url: "https://b/r2".to_string(),
    };
    assert_eq!(run(action, &lines), RepoPlan::NotFound);
}

#[test]
fn remove_drops_every_occurrence() {
    let lines = owned(&["https://a/r1", "https://b/r2", "https://a/r1"]);
    let action = RepositoryAction::Remove {
        url: "https://a/r1".to_string(),
    };
    assert_eq!(
        run(action, &lines),
        RepoPlan::Rewrite {
            lines: owned(&["https://b/r2"])
        }
    );
}

#[test]
fn list_shows_the_recorded_urls() {
    assert_eq!(run(RepositoryAction::List, &owned(&[])), RepoPlan::ShowAll);
}

#[test]
fn sync_skips_empty_lines_and_names_files() {
    let lines = owned(&["https://example.com/repo", "", "http://plain/x"]);
    match run(RepositoryAction::Sync, &lines) {
        RepoPlan::SyncAll { targets } => {
            assert_eq!(targets.len(), 2);
            assert_eq!(targets[0].url, "https://example.com/repo");
            assert_eq!(targets[0].filename, "example.com_repo");
            assert_eq!(targets[1].url, "http://plain/x");
            assert_eq!(targets[1].filename, "http:__plain_x");
        }
        p => panic!("unexpected plan: {:?}", p),
    }
}

#[test]
fn sync_filename_drops_scheme_and_slashes() {
    assert_eq!(sync_filename("https://a/b"), "a_b");
    assert_eq!(sync_filename("a/b/c"), "a_b_c");
    assert_eq!(sync_filename("xhttps://a"), "xa");
    assert_eq!(sync_filename(""), "");
}
