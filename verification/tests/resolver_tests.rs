use randl::cli::{initial_context, PullArgs};
use randl::resolver::{
    Action, DownloadOutcome, FatalReason, FetchOutcome, PromptAnswer, ResolutionContext,
    ResolutionOutcome, Resolver, ResolverState,
};

fn ctx(max_depth: u32) -> ResolutionContext {
    ResolutionContext {
        max_depth,
        current_depth: 1,
    }
}

fn entries(xs: &[&str]) -> Vec<String> {
    xs.iter().map(|x| x.to_string()).collect()
}

#[test]
fn direct_target_resolves_when_confirmed() {
    let mut r = Resolver::new(entries(&["a.bin"]), ctx(0));
    match r.step_sample() {
        Action::Download { url } => assert_eq!(url, "a.bin"),
        a => panic!("unexpected action: {:?}", a),
    }
    r.on_download(DownloadOutcome::Completed);
    assert_eq!(r.outcome(), Some(ResolutionOutcome::Resolved));
}

#[test]
fn nested_chain_resolves_within_budget() {
    let mut r = Resolver::new(entries(&["Nested http://x/repo2"]), ctx(2));
    match r.step_sample() {
        Action::FetchRepository { url } => assert_eq!(url, "http://x/repo2"),
        a => panic!("unexpected action: {:?}", a),
    }
    r.on_fetch(FetchOutcome::Success {
        body: "b.bin".to_string(),
    });
    assert!(matches!(
        r.current_state(),
        ResolverState::Sampling { depth: 2 }
    ));
    match r.step_sample() {
        Action::Download { url } => assert_eq!(url, "b.bin"),
        a => panic!("unexpected action: {:?}", a),
    }
    r.on_download(DownloadOutcome::Completed);
    assert_eq!(r.outcome(), Some(ResolutionOutcome::Resolved));
}

#[test]
fn nested_chain_resolves_unbounded() {
    let mut r = Resolver::new(entries(&["Nested http://x/repo2"]), ctx(0));
    assert!(matches!(r.step_sample(), Action::FetchRepository { .. }));
    r.on_fetch(FetchOutcome::Success {
        body: "b.bin".to_string(),
    });
    match r.step_sample() {
        Action::Download { url } => assert_eq!(url, "b.bin"),
        a => panic!("unexpected action: {:?}", a),
    }
    r.on_download(DownloadOutcome::Completed);
    assert_eq!(r.outcome(), Some(ResolutionOutcome::Resolved));
}

#[test]
fn depth_guard_fires_past_budget() {
    let mut r = Resolver::new(entries(&["Nested http://x/repo2"]), ctx(1));
    assert!(matches!(r.step_sample(), Action::FetchRepository { .. }));
    r.on_fetch(FetchOutcome::Success {
        body: "b.bin".to_string(),
    });
    assert!(matches!(
        r.current_state(),
        ResolverState::Sampling { depth: 2 }
    ));
    assert!(matches!(r.step_sample(), Action::AskRetry));
    r.on_depth_answer(PromptAnswer::Declined);
    assert_eq!(r.outcome(), Some(ResolutionOutcome::Abandoned));
}

#[test]
fn failed_nested_fetch_is_fatal() {
    let mut r = Resolver::new(entries(&["Nested http://x/repo2"]), ctx(0));
    assert!(matches!(r.step_sample(), Action::FetchRepository { .. }));
    r.on_fetch(FetchOutcome::Failure);
    assert_eq!(
        r.outcome(),
        Some(ResolutionOutcome::Fatal(FatalReason::FetchFailed))
    );
}

#[test]
fn declines_resample_at_same_depth_until_confirmed() {
    let mut r = Resolver::new(entries(&["a.bin", "b.bin"]), ctx(0));
    for _ in 0..3 {
        match r.step_sample() {
            Action::Download { url } => assert!(url == "a.bin" || url == "b.bin"),
            a => panic!("unexpected action: {:?}", a),
        }
        r.on_download(DownloadOutcome::Cancelled);
        assert!(matches!(
            r.current_state(),
            ResolverState::Sampling { depth: 1 }
        ));
        assert_eq!(r.outcome(), None);
    }
    assert!(matches!(r.step_sample(), Action::Download { .. }));
    r.on_download(DownloadOutcome::Completed);
    assert_eq!(r.outcome(), Some(ResolutionOutcome::Resolved));
}

#[test]
fn failed_download_resamples_at_same_depth() {
    let mut r = Resolver::new(entries(&["a.bin"]), ctx(0));
    assert!(matches!(r.step_sample(), Action::Download { .. }));
    r.on_download(DownloadOutcome::Failed);
    assert!(matches!(
        r.current_state(),
        ResolverState::Sampling { depth: 1 }
    ));
    assert!(matches!(r.step_sample(), Action::Download { .. }));
}

#[test]
fn malformed_single_entry_livelocks() {
    let mut r = Resolver::new(entries(&["garbage line with spaces"]), ctx(0));
    for _ in 0..5 {
        match r.step_sample() {
            Action::ReportMalformed { line } => assert_eq!(line, "garbage line with spaces"),
            a => panic!("unexpected action: {:?}", a),
        }
        assert!(matches!(
            r.current_state(),
            ResolverState::Sampling { depth: 1 }
        ));
        assert_eq!(r.outcome(), None);
    }
}

#[test]
fn empty_repository_is_fatal() {
    let mut r = Resolver::new(Vec::new(), ctx(0));
    assert!(matches!(
        r.step_sample(),
        Action::Finished {
            outcome: ResolutionOutcome::Fatal(FatalReason::EmptyRepository)
        }
    ));
    assert_eq!(
        r.outcome(),
        Some(ResolutionOutcome::Fatal(FatalReason::EmptyRepository))
    );
}

#[test]
fn empty_nested_repository_is_fatal() {
    let mut r = Resolver::new(entries(&["Nested http://x/empty"]), ctx(0));
    assert!(matches!(r.step_sample(), Action::FetchRepository { .. }));
    r.on_fetch(FetchOutcome::Success {
        body: "# only a comment\n".to_string(),
    });
    assert!(matches!(
        r.current_state(),
        ResolverState::Sampling { depth: 2 }
    ));
    assert!(matches!(r.step_sample(), Action::Finished { .. }));
    assert_eq!(
        r.outcome(),
        Some(ResolutionOutcome::Fatal(FatalReason::EmptyRepository))
    );
}

#[test]
fn fetched_comments_are_never_sampled() {
    let mut r = Resolver::new(entries(&["Nested http://x/repo2"]), ctx(0));
    assert!(matches!(r.step_sample(), Action::FetchRepository { .. }));
    r.on_fetch(FetchOutcome::Success {
        body: "# comment\nb.bin\n# other\n".to_string(),
    });
    match r.step_sample() {
        Action::Download { url } => assert_eq!(url, "b.bin"),
        a => panic!("unexpected action: {:?}", a),
    }
}

#[test]
fn local_comments_are_never_sampled() {
    let mut r = Resolver::from_content("# synced\na.bin\n# other\n", ctx(0));
    match r.step_sample() {
        Action::Download { url } => assert_eq!(url, "a.bin"),
        a => panic!("unexpected action: {:?}", a),
    }
}

#[test]
fn retry_restarts_from_top_at_depth_one() {
    let mut r = Resolver::new(entries(&["Nested http://x/repo2"]), ctx(1));
    assert!(matches!(r.step_sample(), Action::FetchRepository { .. }));
    r.on_fetch(FetchOutcome::Success {
        body: "Nested http://x/deeper".to_string(),
    });
    assert!(matches!(r.step_sample(), Action::AskRetry));
    r.on_depth_answer(PromptAnswer::Confirmed);
    assert!(matches!(
        r.current_state(),
        ResolverState::Sampling { depth: 1 }
    ));
    match r.step_sample() {
        Action::FetchRepository { url } => assert_eq!(url, "http://x/repo2"),
        a => panic!("unexpected action: {:?}", a),
    }
}

#[test]
fn unanswerable_prompt_is_fatal() {
    let mut r = Resolver::new(entries(&["Nested http://x/repo2"]), ctx(1));
    assert!(matches!(r.step_sample(), Action::FetchRepository { .. }));
    r.on_fetch(FetchOutcome::Success {
        body: "anything".to_string(),
    });
    assert!(matches!(r.step_sample(), Action::AskRetry));
    r.on_depth_answer(PromptAnswer::Unavailable);
    assert_eq!(
        r.outcome(),
        Some(ResolutionOutcome::Fatal(FatalReason::PromptUnavailable))
    );
}

#[test]
fn guard_is_quiet_at_the_budget_boundary() {
    let mut r = Resolver::new(entries(&["a.bin"]), ctx(1));
    assert!(matches!(r.step_sample(), Action::Download { .. }));
    r.on_download(DownloadOutcome::Completed);
    assert_eq!(r.outcome(), Some(ResolutionOutcome::Resolved));
}

#[test]
fn pull_args_seed_the_context() {
    let ctx = initial_context(&PullArgs { max_depth: 3 });
    assert_eq!(ctx.max_depth, 3);
    assert_eq!(ctx.current_depth, 1);
}
