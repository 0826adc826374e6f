//! The resolver: turns a repository's entry list into one concrete
//! download target. It samples a line uniformly at random, dispatches on
//! its classification, follows nested pointers under a depth budget, and
//! reconciles user cancellation with retry.
//!
//! The resolver makes every decision; its caller performs the outside
//! work — downloads, fetches, prompts — and reports what came of it.
//! Same-depth retries are unbounded; only nesting depth is bounded.

use vstd::prelude::*;

use crate::classify::{classify, spec_classify, Entry, EntryModel};
use crate::lines::{lines_view, repository_lines, spec_repository_lines};

verus! {

/// The only terminal failure conditions of a resolution attempt.
#[derive(Clone, Copy, Debug, PartialEq, Eq, Structural)]
pub enum FatalReason {
    /// A repository — local or fetched — offered no candidate lines.
    EmptyRepository,
    /// A nested repository could not be fetched.
    FetchFailed,
    /// The user could not be asked whether to retry or abandon.
    PromptUnavailable,
}

/// How a resolution attempt ended.
#[derive(Clone, Copy, Debug, PartialEq, Eq, Structural)]
pub enum ResolutionOutcome {
    /// A download completed.
    Resolved,
    /// After the depth guard fired, the user chose to stop; a deliberate,
    /// graceful end, not an error.
    Abandoned,
    /// The attempt failed for good.
    Fatal(FatalReason),
}

/// The depth budget of an attempt and where it stands; `max_depth == 0`
/// means unbounded nesting, and `current_depth` starts at 1.
#[derive(Clone, Copy, Debug, PartialEq, Eq, Structural)]
pub struct ResolutionContext {
    pub max_depth: u32,
    pub current_depth: u32,
}

/// Where a resolution attempt stands.
#[derive(Clone, Debug, PartialEq)]
pub enum ResolverState {
    /// About to draw a random line from the current entry list.
    Sampling { depth: u32 },
    /// A direct target was drawn; its download is under way.
    Downloading { depth: u32, url: String },
    /// A nested pointer was drawn; its repository is being fetched.
    Fetching { depth: u32, url: String },
    /// The depth guard fired; the user decides between retry and abandon.
    DepthExceeded,
    /// Terminal: a download completed.
    Resolved,
    /// Terminal: the user stopped after the depth guard fired.
    Abandoned,
    /// Terminal: the attempt failed.
    Fatal { reason: FatalReason },
}

/// What the caller must do next on the resolver's behalf.
#[derive(Clone, Debug, PartialEq)]
pub enum Action {
    /// Probe, confirm and download this target, then report the outcome.
    Download { url: String },
    /// Fetch this nested repository, then report the outcome.
    FetchRepository { url: String },
    /// Ask whether to retry from the top or abandon, then report the
    /// answer.
    AskRetry,
    /// Report the malformed line, then sample again.
    ReportMalformed { line: String },
    /// The attempt is over.
    Finished { outcome: ResolutionOutcome },
}

/// What a download attempt came to. A declined confirmation is its own
/// variant, told apart from real failures structurally, never by text.
#[derive(Clone, Copy, Debug, PartialEq, Eq, Structural)]
pub enum DownloadOutcome {
    /// The payload was written out.
    Completed,
    /// The user declined the confirmation prompt.
    Cancelled,
    /// An HTTP status, transport or filesystem failure.
    Failed,
}

/// What fetching a nested repository came to.
#[derive(Debug)]
pub enum FetchOutcome {
    /// The decoded response body.
    Success { body: String },
    /// The GET failed or answered with a non-success status.
    Failure,
}

/// The user's answer to the retry-or-abandon question.
#[derive(Clone, Copy, Debug, PartialEq, Eq, Structural)]
pub enum PromptAnswer {
    Confirmed,
    Declined,
    Unavailable,
}

/// The depth guard: with a positive budget, sampling past the budget
/// stops; a budget of zero never stops.
pub open spec fn depth_guard_fires(max_depth: u32, depth: u32) -> bool {
    max_depth > 0 && depth > max_depth
}

/// What sampling one particular line does: a direct target starts a
/// download, a nested pointer starts a fetch, a malformed line is
/// reported and sampled over — each at the sampling depth.
pub open spec fn sample_dispatch(line: Seq<char>, depth: u32, post: ResolverState, a: Action) -> bool {
    match spec_classify(line) {
        EntryModel::Direct(url) => {
            &&& post matches ResolverState::Downloading { depth: d, url: pu } && d == depth && pu@
                == url
            &&& a matches Action::Download { url: au } && au@ == url
        },
        EntryModel::Nested(url) => {
            &&& post matches ResolverState::Fetching { depth: d, url: pu } && d == depth && pu@
                == url
            &&& a matches Action::FetchRepository { url: au } && au@ == url
        },
        EntryModel::Malformed => {
            &&& post matches ResolverState::Sampling { depth: d } && d == depth
            &&& a matches Action::ReportMalformed { line: al } && al@ == line
        },
    }
}

/// Everything a sampling step may do, whichever line the sample draws:
/// the depth guard is applied first, an empty entry list is fatal, and
/// otherwise some line of the list is dispatched on.
pub open spec fn sample_transition(pre: Resolver, post: Resolver, a: Action) -> bool {
    let depth = pre.state_model()->Sampling_depth;
    if depth_guard_fires(pre.max_depth_model(), depth) {
        &&& post.state_model() is DepthExceeded
        &&& a is AskRetry
        &&& post.entries_model() == pre.entries_model()
    } else if pre.entries_model().len() == 0 {
        &&& post.state_model() matches ResolverState::Fatal { reason: FatalReason::EmptyRepository }
        &&& a matches Action::Finished { outcome: ResolutionOutcome::Fatal(
            FatalReason::EmptyRepository,
        ) }
        &&& post.entries_model() == pre.entries_model()
    } else {
        exists|i: int|
            0 <= i < pre.entries_model().len() && sample_dispatch(
                #[trigger] pre.entries_model()[i],
                depth,
                post.state_model(),
                a,
            ) && post.entries_model() == pre.entries_model()
    }
}

/// Relies on rand::random_range: a value drawn uniformly from `0..len`
/// by the thread-local generator; it panics only on an empty range.
#[verifier::external_body]
fn random_index(len: usize) -> (i: usize)
    requires
        len > 0,
    ensures
        i < len,
{
    rand::random_range(0..len)
}

/// Copy an entry list, so the top-level list survives for a retry.
fn clone_lines(v: &Vec<String>) -> (r: Vec<String>)
    ensures
        lines_view(r) == lines_view(*v),
{
    let mut r: Vec<String> = Vec::new();
    let mut i: usize = 0;
    while i < v.len()
        invariant
            i <= v@.len(),
            r@.len() == i,
            forall|j: int| 0 <= j < i ==> r@[j]@ == v@[j]@,
        decreases v@.len() - i,
    {
        r.push(v[i].clone());
        i += 1;
    }
    proof {
        assert(lines_view(r) =~= lines_view(*v));
    }
    r
}

/// Resolves a repository's entry list to one concrete download target.
pub struct Resolver {
    top: Vec<String>,
    entries: Vec<String>,
    max_depth: u32,
    state: ResolverState,
}

impl Resolver {
    /// The entry list sampled at the current depth.
    pub closed spec fn entries_model(&self) -> Seq<Seq<char>> {
        lines_view(self.entries)
    }

    /// The original top-level entry list, restored by a retry.
    pub closed spec fn top_model(&self) -> Seq<Seq<char>> {
        lines_view(self.top)
    }

    /// The depth budget; zero means unbounded.
    pub closed spec fn max_depth_model(&self) -> u32 {
        self.max_depth
    }

    /// Where the attempt stands.
    pub closed spec fn state_model(&self) -> ResolverState {
        self.state
    }

    /// Depth bookkeeping: the depth starts at 1 and rises by exactly one
    /// per nested hop, so with a positive budget `N` nothing is ever
    /// downloaded or fetched deeper than `N`, and sampling never happens
    /// deeper than `N + 1` — where the guard fires before anything else.
    pub closed spec fn wf(&self) -> bool {
        match self.state {
            ResolverState::Sampling { depth } => 1 <= depth && (self.max_depth > 0 ==> depth as int
                <= self.max_depth as int + 1),
            ResolverState::Downloading { depth, .. } => 1 <= depth && (self.max_depth > 0
                ==> depth <= self.max_depth),
            ResolverState::Fetching { depth, .. } => 1 <= depth && (self.max_depth > 0 ==> depth
                <= self.max_depth),
            _ => true,
        }
    }

    /// Start an attempt on `entries`, which is also kept as the top-level
    /// list a retry returns to. An attempt begins at depth 1.
    pub fn new(entries: Vec<String>, ctx: ResolutionContext) -> (r: Resolver)
        requires
            ctx.current_depth == 1,
        ensures
            r.wf(),
            r.max_depth_model() == ctx.max_depth,
            r.state_model() matches ResolverState::Sampling { depth } && depth
                == ctx.current_depth,
            r.entries_model() == lines_view(entries),
            r.top_model() == lines_view(entries),
    {
        let top = clone_lines(&entries);
        Resolver {
            top,
            entries,
            max_depth: ctx.max_depth,
            state: ResolverState::Sampling { depth: ctx.current_depth },
        }
    }

    /// Start an attempt on a repository's raw content: its comment-filtered
    /// lines become both the entry list and the top-level list, so at the
    /// top level — as after every fetch — no comment line can ever be
    /// sampled.
    pub fn from_content(content: &str, ctx: ResolutionContext) -> (r: Resolver)
        requires
            ctx.current_depth == 1,
        ensures
            r.wf(),
            r.max_depth_model() == ctx.max_depth,
            r.state_model() matches ResolverState::Sampling { depth } && depth
                == ctx.current_depth,
            r.entries_model() == spec_repository_lines(content@),
            r.top_model() == spec_repository_lines(content@),
    {
        Resolver::new(repository_lines(content), ctx)
    }

    /// Where the attempt stands, for the caller driving it.
    pub fn current_state(&self) -> (s: &ResolverState)
        ensures
            *s == self.state_model(),
    {
        &self.state
    }

    /// The terminal outcome, once one is reached.
    pub fn outcome(&self) -> (o: Option<ResolutionOutcome>)
        ensures
            match self.state_model() {
                ResolverState::Resolved => o == Some(ResolutionOutcome::Resolved),
                ResolverState::Abandoned => o == Some(ResolutionOutcome::Abandoned),
                ResolverState::Fatal { reason } => o == Some(ResolutionOutcome::Fatal(reason)),
                _ => o is None,
            },
    {
        match &self.state {
            ResolverState::Resolved => Some(ResolutionOutcome::Resolved),
            ResolverState::Abandoned => Some(ResolutionOutcome::Abandoned),
            ResolverState::Fatal { reason } => Some(ResolutionOutcome::Fatal(*reason)),
            _ => None,
        }
    }

    /// One sampling step: apply the depth guard, reject an empty entry
    /// list as fatal, otherwise draw one line uniformly at random and
    /// dispatch on its classification.
    pub fn step_sample(&mut self) -> (a: Action)
        requires
            old(self).wf(),
            old(self).state_model() is Sampling,
        ensures
            final(self).wf(),
            final(self).max_depth_model() == old(self).max_depth_model(),
            final(self).top_model() == old(self).top_model(),
            sample_transition(*old(self), *final(self), a),
    {
        let depth = match &self.state {
            ResolverState::Sampling { depth } => *depth,
            _ => 1,
        };
        if self.max_depth > 0 && depth > self.max_depth {
            self.state = ResolverState::DepthExceeded;
            return Action::AskRetry;
        }
        if self.entries.len() == 0 {
            self.state = ResolverState::Fatal { reason: FatalReason::EmptyRepository };
            return Action::Finished {
                outcome: ResolutionOutcome::Fatal(FatalReason::EmptyRepository),
            };
        }
        let i = random_index(self.entries.len());
        let line = self.entries[i].clone();
        let a = match classify(line.as_str()) {
            Entry::Direct(url) => {
                self.state = ResolverState::Downloading { depth, url: url.clone() };
                Action::Download { url }
            },
            Entry::Nested(url) => {
                self.state = ResolverState::Fetching { depth, url: url.clone() };
                Action::FetchRepository { url }
            },
            Entry::Malformed => {
                self.state = ResolverState::Sampling { depth };
                Action::ReportMalformed { line }
            },
        };
        proof {
            assert(old(self).entries_model()[i as int] == line@);
            assert(sample_dispatch(
                old(self).entries_model()[i as int],
                depth,
                self.state_model(),
                a,
            ));
            assert(self.entries_model() =~= old(self).entries_model());
        }
        a
    }

    /// A download's outcome: success resolves the attempt; cancellation
    /// and failure alike lead back to sampling — at the same depth, with
    /// the same entry list, nothing refetched.
    pub fn on_download(&mut self, outcome: DownloadOutcome)
        requires
            old(self).wf(),
            old(self).state_model() is Downloading,
        ensures
            final(self).wf(),
            final(self).max_depth_model() == old(self).max_depth_model(),
            final(self).top_model() == old(self).top_model(),
            final(self).entries_model() == old(self).entries_model(),
            match outcome {
                DownloadOutcome::Completed => final(self).state_model() is Resolved,
                DownloadOutcome::Cancelled | DownloadOutcome::Failed => final(self).state_model() matches ResolverState::Sampling { depth } && depth == old(self).state_model()->Downloading_depth,
            },
    {
        let depth = match &self.state {
            ResolverState::Downloading { depth, .. } => *depth,
            _ => 1,
        };
        match outcome {
            DownloadOutcome::Completed => {
                self.state = ResolverState::Resolved;
            },
            DownloadOutcome::Cancelled | DownloadOutcome::Failed => {
                self.state = ResolverState::Sampling { depth };
            },
        }
    }

    /// A fetch's outcome: on success the fetched body's comment-filtered
    /// lines become the entry list one level deeper; on failure the whole
    /// attempt is fatal — a broken nested pointer is never retried, unlike
    /// a failed direct download. The asymmetry is deliberate: a nested
    /// failure breaks the chain itself, a direct failure only one
    /// candidate.
    pub fn on_fetch(&mut self, outcome: FetchOutcome)
        requires
            old(self).wf(),
            old(self).state_model() is Fetching,
            old(self).state_model()->Fetching_depth < u32::MAX,
        ensures
            final(self).wf(),
            final(self).max_depth_model() == old(self).max_depth_model(),
            final(self).top_model() == old(self).top_model(),
            match outcome {
                FetchOutcome::Success { body } => final(self).state_model() matches ResolverState::Sampling { depth } && depth == old(self).state_model()->Fetching_depth + 1 && final(self).entries_model()
                    == spec_repository_lines(body@),
                FetchOutcome::Failure => {
                    &&& final(self).state_model() matches ResolverState::Fatal {
                        reason: FatalReason::FetchFailed,
                    }
                    &&& final(self).entries_model() == old(self).entries_model()
                },
            },
    {
        let depth = match &self.state {
            ResolverState::Fetching { depth, .. } => *depth,
            _ => 1,
        };
        match outcome {
            FetchOutcome::Success { body } => {
                self.entries = repository_lines(body.as_str());
                self.state = ResolverState::Sampling { depth: depth + 1 };
            },
            FetchOutcome::Failure => {
                self.state = ResolverState::Fatal { reason: FatalReason::FetchFailed };
            },
        }
    }

    /// The user's answer after the depth guard fired: retry restarts from
    /// the original top-level repository at depth 1; declining abandons
    /// the attempt gracefully; an unanswerable prompt is fatal.
    pub fn on_depth_answer(&mut self, answer: PromptAnswer)
        requires
            old(self).wf(),
            old(self).state_model() is DepthExceeded,
        ensures
            final(self).wf(),
            final(self).max_depth_model() == old(self).max_depth_model(),
            final(self).top_model() == old(self).top_model(),
            match answer {
                PromptAnswer::Confirmed => final(self).state_model() matches ResolverState::Sampling { depth } && depth == 1 && final(self).entries_model() == old(self).top_model(),
                PromptAnswer::Declined => {
                    &&& final(self).state_model() is Abandoned
                    &&& final(self).entries_model() == old(self).entries_model()
                },
                PromptAnswer::Unavailable => {
                    &&& final(self).state_model() matches ResolverState::Fatal {
                        reason: FatalReason::PromptUnavailable,
                    }
                    &&& final(self).entries_model() == old(self).entries_model()
                },
            },
    {
        match answer {
            PromptAnswer::Confirmed => {
                self.entries = clone_lines(&self.top);
                self.state = ResolverState::Sampling { depth: 1 };
            },
            PromptAnswer::Declined => {
                self.state = ResolverState::Abandoned;
            },
            PromptAnswer::Unavailable => {
                self.state = ResolverState::Fatal { reason: FatalReason::PromptUnavailable };
            },
        }
    }
}

/// The depth guard in one statement: it never fires when the budget is
/// zero — resolution is then unbounded in nesting — and with a positive
/// budget `N` it fires exactly when the sampling depth has passed `N`.
pub proof fn lemma_depth_guard_characterisation(max_depth: u32, depth: u32)
    ensures
        max_depth == 0 ==> !depth_guard_fires(max_depth, depth),
        max_depth > 0 ==> (depth_guard_fires(max_depth, depth) <==> depth > max_depth),
{
}

/// Depth accounting: with a positive budget `N`, a well-formed resolver
/// samples at depth `N + 1` at the most — reached by the hop from depth
/// `N`, where the guard fires — and neither downloads nor fetches deeper
/// than `N`.
pub proof fn lemma_depth_bounded(r: &Resolver)
    requires
        r.wf(),
        r.max_depth_model() > 0,
    ensures
        r.state_model() matches ResolverState::Sampling { depth } ==> depth as int
            <= r.max_depth_model() as int + 1,
        r.state_model() matches ResolverState::Downloading { depth, .. } ==> depth
            <= r.max_depth_model(),
        r.state_model() matches ResolverState::Fetching { depth, .. } ==> depth
            <= r.max_depth_model(),
{
}

/// A malformed line never advances the depth: whenever a sampling step
/// reports one, the resolver is sampling again at the same depth, with
/// the same entry list.
pub proof fn lemma_malformed_keeps_depth(pre: Resolver, post: Resolver, a: Action)
    requires
        pre.state_model() is Sampling,
        sample_transition(pre, post, a),
        a is ReportMalformed,
    ensures
        post.state_model() matches ResolverState::Sampling { depth } && depth
            == pre.state_model()->Sampling_depth,
        post.entries_model() == pre.entries_model(),
{
    let depth = pre.state_model()->Sampling_depth;
    if depth_guard_fires(pre.max_depth_model(), depth) {
        assert(false);
    } else if pre.entries_model().len() == 0 {
        assert(false);
    } else {
        let i = choose|i: int|
            0 <= i < pre.entries_model().len() && sample_dispatch(
                #[trigger] pre.entries_model()[i],
                depth,
                post.state_model(),
                a,
            ) && post.entries_model() == pre.entries_model();
        match spec_classify(pre.entries_model()[i]) {
            EntryModel::Direct(url) => {
                assert(false);
            },
            EntryModel::Nested(url) => {
                assert(false);
            },
            EntryModel::Malformed => {},
        }
    }
}

/// Fatal on empty: a sampling step over an empty entry list — at any
/// depth the guard lets through — ends the attempt as fatal at once,
/// never silently and never looping.
pub proof fn lemma_fatal_on_empty(pre: Resolver, post: Resolver, a: Action)
    requires
        pre.state_model() is Sampling,
        !depth_guard_fires(pre.max_depth_model(), pre.state_model()->Sampling_depth),
        pre.entries_model().len() == 0,
        sample_transition(pre, post, a),
    ensures
        post.state_model() matches ResolverState::Fatal { reason: FatalReason::EmptyRepository },
        a matches Action::Finished { outcome: ResolutionOutcome::Fatal(
            FatalReason::EmptyRepository,
        ) },
{
}

} // verus!
