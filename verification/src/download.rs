//! Pure decisions of the download step: the local file name a URL maps to,
//! and the progress-report cadence of the streaming copy.

use vstd::prelude::*;

use crate::text::{find_first, find_last, first_index_of, has_char, last_index_of};

verus! {

/// The name used when a URL yields no non-empty final path segment.
pub open spec fn default_filename() -> Seq<char> {
    "randl-reward"@
}

/// The URL with its query string cut off at the first `?`.
pub open spec fn spec_strip_query(url: Seq<char>) -> Seq<char> {
    if has_char(url, '?') {
        url.subrange(0, first_index_of(url, '?'))
    } else {
        url
    }
}

/// Does the scheme separator `://` stand at position `j` of `s`?
pub open spec fn scheme_at(s: Seq<char>, j: int) -> bool {
    s[j] == ':' && s[j + 1] == '/' && s[j + 2] == '/'
}

/// The position of the first scheme separator of `s`; `s.len()` when
/// there is none (so a separator was found exactly when the position
/// leaves room for its three characters).
pub open spec fn first_scheme_index(s: Seq<char>) -> int
    decreases s.len(),
{
    if s.len() < 3 {
        s.len() as int
    } else if scheme_at(s, 0) {
        0
    } else {
        1 + first_scheme_index(s.subrange(1, s.len() as int))
    }
}

pub proof fn lemma_first_scheme_index(s: Seq<char>)
    ensures
        0 <= first_scheme_index(s) <= s.len(),
        first_scheme_index(s) + 3 <= s.len() ==> scheme_at(s, first_scheme_index(s)),
        forall|j: int| 0 <= j < first_scheme_index(s) && j + 3 <= s.len() ==> !scheme_at(s, j),
    decreases s.len(),
{
    if s.len() < 3 {
    } else if scheme_at(s, 0) {
    } else {
        let t = s.subrange(1, s.len() as int);
        lemma_first_scheme_index(t);
        assert(forall|j: int| 0 <= j < t.len() ==> t[j] == s[j + 1]);
        assert forall|j: int|
            0 <= j < first_scheme_index(s) && j + 3 <= s.len() implies !scheme_at(s, j) by {
            if j > 0 {
                assert(t[j - 1] == s[j] && t[j] == s[j + 1] && t[j + 1] == s[j + 2]);
                assert(!scheme_at(t, j - 1));
            }
        }
        if first_scheme_index(s) + 3 <= s.len() {
            let ft = first_scheme_index(t);
            assert(scheme_at(t, ft));
            assert(t[ft] == s[ft + 1] && t[ft + 1] == s[ft + 2] && t[ft + 2] == s[ft + 3]);
        }
    }
}

/// The path of a URL: what follows the first `/` after the first scheme
/// separator `://` — empty when no `/` follows the separator; the whole
/// string when there is no separator at all (a bare name is all path).
pub open spec fn spec_path_part(url: Seq<char>) -> Seq<char> {
    let i = first_scheme_index(url);
    if i + 3 <= url.len() {
        let rest = url.subrange(i + 3, url.len() as int);
        if has_char(rest, '/') {
            rest.subrange(first_index_of(rest, '/') + 1, rest.len() as int)
        } else {
            Seq::empty()
        }
    } else {
        url
    }
}

/// The last non-empty `/`-separated segment of `path`: trailing slashes
/// are dropped, then everything after the last remaining slash is taken;
/// empty when `path` holds no non-empty segment at all.
pub open spec fn spec_last_nonempty_segment(path: Seq<char>) -> Seq<char>
    decreases path.len(),
{
    if path.len() == 0 {
        Seq::empty()
    } else if path[path.len() - 1] == '/' {
        spec_last_nonempty_segment(path.drop_last())
    } else if has_char(path, '/') {
        path.subrange(last_index_of(path, '/') + 1, path.len() as int)
    } else {
        path
    }
}

/// The local file a resolved URL is saved as: the last non-empty segment
/// of the URL's path, with any query string ignored, or a fixed default
/// when the path has no non-empty segment — the search never leaves the
/// path, so a URL whose path is empty or all slashes gets the default,
/// whatever stands before it.
pub open spec fn spec_filename_from_url(url: Seq<char>) -> Seq<char> {
    let tail = spec_last_nonempty_segment(spec_path_part(spec_strip_query(url)));
    if tail.len() > 0 {
        tail
    } else {
        default_filename()
    }
}

/// Cut a URL down to its path, as the spec draws the boundary.
fn path_part<'a>(s: &'a str) -> (p: &'a str)
    ensures
        p@ == spec_path_part(s@),
{
    let len = s.unicode_len();
    proof {
        lemma_first_scheme_index(s@);
    }
    if len < 3 {
        return s;
    }
    let mut i: usize = 0;
    while i <= len - 3
        invariant
            3 <= len,
            len == s@.len(),
            i <= len - 2,
            forall|j: int| 0 <= j < i ==> !scheme_at(s@, j),
        decreases len - i,
    {
        if s.get_char(i) == ':' && s.get_char(i + 1) == '/' && s.get_char(i + 2) == '/' {
            proof {
                lemma_first_scheme_index(s@);
                assert(scheme_at(s@, i as int));
                assert(first_scheme_index(s@) == i as int);
            }
            let rest = s.substring_char(i + 3, len);
            match find_first(rest, '/') {
                Some(k) => {
                    let rlen = rest.unicode_len();
                    return rest.substring_char(k + 1, rlen);
                },
                None => {
                    let empty = s.substring_char(0, 0);
                    proof {
                        assert(empty@ =~= Seq::<char>::empty());
                    }
                    return empty;
                },
            }
        }
        i += 1;
    }
    proof {
        lemma_first_scheme_index(s@);
        if first_scheme_index(s@) + 3 <= s@.len() {
            assert(scheme_at(s@, first_scheme_index(s@)));
            assert(false);
        }
    }
    s
}

/// Name the file a URL downloads into.
pub fn filename_from_url(url: &str) -> (name: String)
    ensures
        name@ == spec_filename_from_url(url@),
{
    let len = url.unicode_len();
    let qpos = match find_first(url, '?') {
        Some(i) => i,
        None => len,
    };
    let stripped = url.substring_char(0, qpos);
    proof {
        assert(stripped@ =~= spec_strip_query(url@));
    }
    let path = path_part(stripped);
    let plen = path.unicode_len();
    let mut end: usize = plen;
    proof {
        assert(path@.subrange(0, plen as int) =~= path@);
    }
    while end > 0 && path.get_char(end - 1) == '/'
        invariant
            end <= plen,
            plen == path@.len(),
            spec_last_nonempty_segment(path@) == spec_last_nonempty_segment(
                path@.subrange(0, end as int),
            ),
        decreases end,
    {
        proof {
            let cur = path@.subrange(0, end as int);
            assert(cur[end as int - 1] == '/');
            assert(cur.drop_last() =~= path@.subrange(0, end as int - 1));
        }
        end -= 1;
    }
    if end == 0 {
        proof {
            assert(path@.subrange(0, 0) =~= Seq::<char>::empty());
        }
        return "randl-reward".to_owned();
    }
    let trimmed = path.substring_char(0, end);
    match find_last(trimmed, '/') {
        Some(i) => {
            let seg = trimmed.substring_char(i + 1, end);
            proof {
                assert(trimmed@[end as int - 1] != '/');
                assert(seg@.len() > 0);
            }
            seg.to_owned()
        },
        None => trimmed.to_owned(),
    }
}

/// Minimum number of new bytes between two progress reports.
pub const PROGRESS_STRIDE: u64 = 524288;

/// Progress is reported at a fixed byte granularity, not on every chunk:
/// only once at least `PROGRESS_STRIDE` bytes arrived since the last report.
pub fn should_report(bytes_written: u64, last_reported: u64) -> (r: bool)
    requires
        last_reported <= bytes_written,
    ensures
        r == (bytes_written - last_reported >= PROGRESS_STRIDE),
{
    bytes_written - last_reported >= PROGRESS_STRIDE
}

} // verus!
