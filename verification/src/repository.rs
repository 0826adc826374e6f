//! Decisions of the repository-management commands, computed over the
//! current lines of the repository list; the binary performs the file
//! and network work the chosen plan calls for.

use vstd::prelude::*;

use crate::cli::RepositoryAction;
use crate::lines::lines_view;

verus! {

/// Does some line read exactly as `url`?
pub open spec fn contains_line(lines: Seq<Seq<char>>, url: Seq<char>) -> bool {
    exists|i: int| 0 <= i < lines.len() && lines[i] == url
}

/// The lines with every one equal to `url` dropped.
pub open spec fn spec_remove_matching(lines: Seq<Seq<char>>, url: Seq<char>) -> Seq<Seq<char>> {
    lines.filter(|l: Seq<char>| l != url)
}

/// The scheme prefix dropped from a synced repository's file name.
pub open spec fn https_marker() -> Seq<char> {
    "https://"@
}

pub open spec fn slash_to_underscore(c: char) -> char {
    if c == '/' {
        '_'
    } else {
        c
    }
}

/// The file a synced repository URL is stored under: every occurrence of
/// the scheme prefix dropped, every remaining `/` turned into `_`.
pub open spec fn spec_sync_filename(url: Seq<char>) -> Seq<char>
    decreases url.len(),
{
    if url.len() == 0 {
        Seq::empty()
    } else if url.len() >= 8 && url.subrange(0, 8) == https_marker() {
        spec_sync_filename(url.subrange(8, url.len() as int))
    } else {
        seq![slash_to_underscore(url[0])] + spec_sync_filename(url.subrange(1, url.len() as int))
    }
}

/// One repository to fetch and the file its content lands in.
#[derive(Clone, Debug, PartialEq)]
pub struct SyncTarget {
    pub url: String,
    pub filename: String,
}

/// The view of a sync plan: each target as URL and file name.
pub open spec fn targets_model(v: Vec<SyncTarget>) -> Seq<(Seq<char>, Seq<char>)> {
    Seq::new(v@.len() as nat, |i: int| (v@[i].url@, v@[i].filename@))
}

/// Every non-empty line, paired with the file it is synced into.
pub open spec fn spec_sync_targets(lines: Seq<Seq<char>>) -> Seq<(Seq<char>, Seq<char>)> {
    lines.filter(|l: Seq<char>| l.len() > 0).map_values(
        |l: Seq<char>| (l, spec_sync_filename(l)),
    )
}

/// What a management command asks of its caller.
#[derive(Clone, Debug, PartialEq)]
pub enum RepoPlan {
    /// The URL to add is already recorded; leave the list as it is.
    AlreadyPresent,
    /// Append this URL to the list.
    Append { url: String },
    /// The URL to remove is not recorded; leave the list as it is.
    NotFound,
    /// Write the list anew with exactly these lines.
    Rewrite { lines: Vec<String> },
    /// Show the recorded list.
    ShowAll,
    /// Fetch each target's URL and store the content in its file.
    SyncAll { targets: Vec<SyncTarget> },
}

/// Is `url` one of `lines`?
fn contains(lines: &Vec<String>, url: &String) -> (b: bool)
    ensures
        b == contains_line(lines_view(*lines), url@),
{
    let mut i: usize = 0;
    while i < lines.len()
        invariant
            i <= lines@.len(),
            forall|j: int| 0 <= j < i ==> lines_view(*lines)[j] != url@,
        decreases lines@.len() - i,
    {
        if lines[i].eq(url) {
            proof {
                assert(lines_view(*lines)[i as int] == url@);
            }
            return true;
        }
        proof {
            assert(lines_view(*lines)[i as int] != url@);
        }
        i += 1;
    }
    false
}

/// Keep every line that is not `url`.
fn remove_matching(lines: &Vec<String>, url: &String) -> (kept: Vec<String>)
    ensures
        lines_view(kept) == spec_remove_matching(lines_view(*lines), url@),
{
    let mut kept: Vec<String> = Vec::new();
    let mut i: usize = 0;
    proof {
        reveal(Seq::filter);
        assert(lines_view(*lines).subrange(0, 0) =~= Seq::<Seq<char>>::empty());
        assert(lines_view(kept) =~= Seq::<Seq<char>>::empty());
    }
    while i < lines.len()
        invariant
            i <= lines@.len(),
            lines_view(kept) == spec_remove_matching(
                lines_view(*lines).subrange(0, i as int),
                url@,
            ),
        decreases lines@.len() - i,
    {
        let keep = !lines[i].eq(url);
        let ghost old_kept = kept;
        if keep {
            kept.push(lines[i].clone());
        }
        proof {
            reveal(Seq::filter);
            let lv = lines_view(*lines);
            let cur = lv.subrange(0, i + 1);
            assert(cur.drop_last() =~= lv.subrange(0, i as int));
            assert(cur.last() == lv[i as int]);
            assert(keep == (lv[i as int] != url@));
            if keep {
                assert(lines_view(kept) =~= lines_view(old_kept).push(lv[i as int]));
            }
        }
        i += 1;
    }
    proof {
        assert(lines_view(*lines).subrange(0, lines@.len() as int) =~= lines_view(*lines));
    }
    kept
}

/// Turn one URL into its sync file name, scanning left to right: a
/// scheme prefix is skipped where it occurs, any other character is kept
/// with `/` turned into `_`.
#[verifier::rlimit(50)]
pub fn sync_filename(url: &str) -> (name: String)
    ensures
        name@ == spec_sync_filename(url@),
{
    let len = url.unicode_len();
    let mut out = String::new();
    let mut i: usize = 0;
    proof {
        assert(url@.subrange(0, len as int) =~= url@);
        assert(out@ =~= Seq::<char>::empty());
    }
    while i < len
        invariant
            i <= len,
            len == url@.len(),
            spec_sync_filename(url@) == out@ + spec_sync_filename(
                url@.subrange(i as int, len as int),
            ),
        decreases len - i,
    {
        let is_scheme = len - i >= 8 && url.get_char(i) == 'h' && url.get_char(i + 1) == 't'
            && url.get_char(i + 2) == 't' && url.get_char(i + 3) == 'p' && url.get_char(i + 4)
            == 's' && url.get_char(i + 5) == ':' && url.get_char(i + 6) == '/' && url.get_char(
            i + 7,
        ) == '/';
        if is_scheme {
            proof {
                reveal_strlit("https://");
                let rem = url@.subrange(i as int, len as int);
                assert(rem.subrange(0, 8) =~= https_marker());
                assert(rem.subrange(8, rem.len() as int) =~= url@.subrange(
                    i as int + 8,
                    len as int,
                ));
            }
            i += 8;
        } else {
            let c = url.get_char(i);
            let ghost old_out = out@;
            if c == '/' {
                out.append("_");
            } else {
                let piece = url.substring_char(i, i + 1);
                out.append(piece);
            }
            proof {
                reveal_strlit("https://");
                reveal_strlit("_");
                let rem = url@.subrange(i as int, len as int);
                assert(rem[0] == c);
                if rem.len() >= 8 && rem.subrange(0, 8) == https_marker() {
                    let pre8 = rem.subrange(0, 8);
                    assert(pre8[0] == 'h' && pre8[1] == 't' && pre8[2] == 't' && pre8[3] == 'p'
                        && pre8[4] == 's' && pre8[5] == ':' && pre8[6] == '/' && pre8[7] == '/');
                    assert(rem[0] == pre8[0] && rem[1] == pre8[1] && rem[2] == pre8[2] && rem[3]
                        == pre8[3] && rem[4] == pre8[4] && rem[5] == pre8[5] && rem[6] == pre8[6]
                        && rem[7] == pre8[7]);
                    assert(false);
                }
                assert(out@ =~= old_out + seq![slash_to_underscore(c)]);
                assert(rem.subrange(1, rem.len() as int) =~= url@.subrange(
                    i as int + 1,
                    len as int,
                ));
                assert((old_out + seq![slash_to_underscore(c)]) + spec_sync_filename(
                    url@.subrange(i as int + 1, len as int),
                ) =~= old_out + (seq![slash_to_underscore(c)] + spec_sync_filename(
                    url@.subrange(i as int + 1, len as int),
                )));
            }
            i += 1;
        }
    }
    proof {
        let rem = url@.subrange(len as int, len as int);
        assert(rem.len() == 0);
        assert(out@ + spec_sync_filename(rem) =~= out@);
    }
    out
}

/// Build the sync plan: each non-empty line becomes a target.
fn sync_targets(lines: &Vec<String>) -> (targets: Vec<SyncTarget>)
    ensures
        targets_model(targets) == spec_sync_targets(lines_view(*lines)),
{
    let mut targets: Vec<SyncTarget> = Vec::new();
    let mut i: usize = 0;
    proof {
        reveal(Seq::filter);
        assert(lines_view(*lines).subrange(0, 0) =~= Seq::<Seq<char>>::empty());
        assert(targets_model(targets) =~= spec_sync_targets(Seq::<Seq<char>>::empty()));
    }
    while i < lines.len()
        invariant
            i <= lines@.len(),
            targets_model(targets) == spec_sync_targets(lines_view(*lines).subrange(0, i as int)),
        decreases lines@.len() - i,
    {
        let nonempty = lines[i].as_str().unicode_len() > 0;
        let ghost old_targets = targets;
        if nonempty {
            let filename = sync_filename(lines[i].as_str());
            targets.push(SyncTarget { url: lines[i].clone(), filename });
        }
        proof {
            reveal(Seq::filter);
            let lv = lines_view(*lines);
            let cur = lv.subrange(0, i + 1);
            let kept = |l: Seq<char>| l.len() > 0;
            let pair = |l: Seq<char>| (l, spec_sync_filename(l));
            assert(cur.drop_last() =~= lv.subrange(0, i as int));
            assert(cur.last() == lv[i as int]);
            assert(nonempty == (lv[i as int].len() > 0));
            if nonempty {
                assert(cur.filter(kept) =~= lv.subrange(0, i as int).filter(kept).push(
                    lv[i as int],
                ));
                assert(targets_model(targets) =~= targets_model(old_targets).push(
                    (lv[i as int], spec_sync_filename(lv[i as int])),
                ));
                assert(spec_sync_targets(cur) =~= spec_sync_targets(
                    lv.subrange(0, i as int),
                ).push((lv[i as int], spec_sync_filename(lv[i as int]))));
            } else {
                assert(cur.filter(kept) =~= lv.subrange(0, i as int).filter(kept));
                assert(spec_sync_targets(cur) =~= spec_sync_targets(lv.subrange(0, i as int)));
            }
        }
        i += 1;
    }
    proof {
        assert(lines_view(*lines).subrange(0, lines@.len() as int) =~= lines_view(*lines));
    }
    targets
}

/// Decide what a management command does to the current list `lines`:
/// `Add` appends a URL exactly when it is not yet recorded, `Remove`
/// rewrites the list without the URL exactly when it is recorded, `List`
/// shows the list, `Sync` fetches every non-empty line into its file.
pub fn run(action: RepositoryAction, lines: &Vec<String>) -> (p: RepoPlan)
    ensures
        match action {
            RepositoryAction::Add { url } => {
                if contains_line(lines_view(*lines), url@) {
                    p is AlreadyPresent
                } else {
                    p matches RepoPlan::Append { url: u } && u@ == url@
                }
            },
            RepositoryAction::Remove { url } => {
                if !contains_line(lines_view(*lines), url@) {
                    p is NotFound
                } else {
                    p matches RepoPlan::Rewrite { lines: kept } && lines_view(kept)
                        == spec_remove_matching(lines_view(*lines), url@)
                }
            },
            RepositoryAction::List => p is ShowAll,
            RepositoryAction::Sync => p matches RepoPlan::SyncAll { targets } && targets_model(
                targets,
            ) == spec_sync_targets(lines_view(*lines)),
        },
{
    match action {
        RepositoryAction::Add { url } => {
            if contains(lines, &url) {
                RepoPlan::AlreadyPresent
            } else {
                RepoPlan::Append { url }
            }
        },
        RepositoryAction::Remove { url } => {
            if !contains(lines, &url) {
                RepoPlan::NotFound
            } else {
                RepoPlan::Rewrite { lines: remove_matching(lines, &url) }
            }
        },
        RepositoryAction::List => RepoPlan::ShowAll,
        RepositoryAction::Sync => RepoPlan::SyncAll { targets: sync_targets(lines) },
    }
}

} // verus!
