//! Repository content as lines: splitting a text into lines and dropping
//! comment lines. The same rule applies to a local repository file and to
//! a fetched nested-repository body.

use vstd::prelude::*;

use crate::text::{first_index_of, has_char, lemma_first_index_of};

verus! {

/// The view of an entry list: each line as its character sequence.
pub open spec fn lines_view(v: Vec<String>) -> Seq<Seq<char>> {
    Seq::new(v@.len() as nat, |i: int| v@[i]@)
}

/// A comment line: its first character is `#`.
pub open spec fn is_comment(line: Seq<char>) -> bool {
    line.len() > 0 && line[0] == '#'
}

/// A trailing carriage return removed, as a line ending `\r\n` leaves one.
pub open spec fn strip_cr(line: Seq<char>) -> Seq<char> {
    if line.len() > 0 && line[line.len() - 1] == '\r' {
        line.drop_last()
    } else {
        line
    }
}

/// The pieces of `content` split at every newline, a carriage return
/// directly before a newline removed, and no final empty piece.
pub open spec fn spec_split_lines(content: Seq<char>) -> Seq<Seq<char>>
    decreases content.len(),
    via spec_split_lines_decreases
{
    if content.len() == 0 {
        Seq::empty()
    } else if !has_char(content, '\n') {
        seq![content]
    } else {
        let i = first_index_of(content, '\n');
        seq![strip_cr(content.subrange(0, i))] + spec_split_lines(
            content.subrange(i + 1, content.len() as int),
        )
    }
}

#[via_fn]
proof fn spec_split_lines_decreases(content: Seq<char>) {
    lemma_first_index_of(content, '\n');
}

/// The lines with every comment line dropped.
pub open spec fn spec_filter_comments(lines: Seq<Seq<char>>) -> Seq<Seq<char>> {
    lines.filter(|l: Seq<char>| !is_comment(l))
}

/// The entry list a repository's content yields: its lines, comments
/// dropped.
pub open spec fn spec_repository_lines(content: Seq<char>) -> Seq<Seq<char>> {
    spec_filter_comments(spec_split_lines(content))
}

/// Comment filtering: a line beginning with `#` never appears in the
/// entry sequence a repository's content yields, whatever the source of
/// the content; and every other line — blank ones among them — is kept.
/// That the kept lines stand in their original order is the equality,
/// with the filtered line sequence, that `repository_lines` (and so the
/// resolver, at the top level and after every fetch) ensures.
pub proof fn lemma_no_comment_survives(content: Seq<char>)
    ensures
        forall|i: int|
            0 <= i < spec_repository_lines(content).len() ==> !is_comment(
                #[trigger] spec_repository_lines(content)[i],
            ),
        forall|i: int|
            0 <= i < spec_split_lines(content).len() && !is_comment(
                #[trigger] spec_split_lines(content)[i],
            ) ==> spec_repository_lines(content).contains(spec_split_lines(content)[i]),
{
    assert forall|i: int| 0 <= i < spec_repository_lines(content).len() implies !is_comment(
        spec_repository_lines(content)[i],
    ) by {
        spec_split_lines(content).lemma_filter_pred(|l: Seq<char>| !is_comment(l), i);
    }
    assert forall|i: int|
        0 <= i < spec_split_lines(content).len() && !is_comment(
            spec_split_lines(content)[i],
        ) implies spec_repository_lines(content).contains(spec_split_lines(content)[i]) by {
        spec_split_lines(content).lemma_filter_contains(|l: Seq<char>| !is_comment(l), i);
    }
}

/// Split `content` into its lines, as the spec draws them.
#[verifier::rlimit(50)]
pub fn split_lines(content: &str) -> (lines: Vec<String>)
    ensures
        lines_view(lines) == spec_split_lines(content@),
{
    let len = content.unicode_len();
    let mut acc: Vec<String> = Vec::new();
    let mut start: usize = 0;
    let mut i: usize = 0;
    proof {
        assert(content@.subrange(0, len as int) =~= content@);
        assert(lines_view(acc) =~= Seq::<Seq<char>>::empty());
    }
    while i < len
        invariant
            start <= i <= len,
            len == content@.len(),
            forall|j: int| start <= j < i ==> content@[j] != '\n',
            spec_split_lines(content@) == lines_view(acc) + spec_split_lines(
                content@.subrange(start as int, len as int),
            ),
        decreases len - i,
    {
        if content.get_char(i) == '\n' {
            let mut end = i;
            if end > start && content.get_char(end - 1) == '\r' {
                end = end - 1;
            }
            let piece = content.substring_char(start, end);
            let ghost old_acc = acc;
            acc.push(piece.to_owned());
            proof {
                let rem = content@.subrange(start as int, len as int);
                assert(rem[i as int - start as int] == '\n');
                assert forall|j: int| 0 <= j < i as int - start as int implies rem[j] != '\n' by {
                    assert(rem[j] == content@[start + j]);
                }
                lemma_first_index_of(rem, '\n');
                let fi = first_index_of(rem, '\n');
                assert(fi == i as int - start as int);
                assert(spec_split_lines(rem) == seq![strip_cr(rem.subrange(0, fi))]
                    + spec_split_lines(rem.subrange(fi + 1, rem.len() as int)));
                assert(rem.subrange(0, fi) =~= content@.subrange(start as int, i as int));
                assert(rem.subrange(fi + 1, rem.len() as int) =~= content@.subrange(
                    i + 1,
                    len as int,
                ));
                assert(piece@ =~= strip_cr(content@.subrange(start as int, i as int)));
                assert(lines_view(acc) =~= lines_view(old_acc).push(piece@));
                assert(lines_view(old_acc).push(piece@) + spec_split_lines(
                    content@.subrange(i + 1, len as int),
                ) =~= lines_view(old_acc) + (seq![piece@] + spec_split_lines(
                    content@.subrange(i + 1, len as int),
                )));
            }
            start = i + 1;
        }
        i += 1;
    }
    if start < len {
        let piece = content.substring_char(start, len);
        let ghost old_acc = acc;
        acc.push(piece.to_owned());
        proof {
            let rem = content@.subrange(start as int, len as int);
            assert forall|j: int| 0 <= j < rem.len() implies rem[j] != '\n' by {
                assert(rem[j] == content@[start + j]);
            }
            assert(!has_char(rem, '\n'));
            assert(piece@ =~= rem);
            assert(lines_view(acc) =~= lines_view(old_acc).push(piece@));
            assert(lines_view(old_acc).push(piece@) =~= lines_view(old_acc) + seq![piece@]);
        }
    } else {
        proof {
            let rem = content@.subrange(start as int, len as int);
            assert(rem.len() == 0);
            assert(lines_view(acc) + spec_split_lines(rem) =~= lines_view(acc));
        }
    }
    acc
}

/// Keep every line that is not a comment.
pub fn filter_comments(lines: &Vec<String>) -> (kept: Vec<String>)
    ensures
        lines_view(kept) == spec_filter_comments(lines_view(*lines)),
{
    let mut kept: Vec<String> = Vec::new();
    let mut i: usize = 0;
    proof {
        reveal(Seq::filter);
        assert(lines_view(*lines).subrange(0, 0) =~= Seq::<Seq<char>>::empty());
        assert(lines_view(kept) =~= Seq::<Seq<char>>::empty());
    }
    while i < lines.len()
        invariant
            i <= lines@.len(),
            lines_view(kept) == spec_filter_comments(lines_view(*lines).subrange(0, i as int)),
        decreases lines@.len() - i,
    {
        let line = &lines[i];
        let keep = !(line.as_str().unicode_len() > 0 && line.as_str().get_char(0) == '#');
        let ghost old_kept = kept;
        if keep {
            kept.push(line.clone());
        }
        proof {
            reveal(Seq::filter);
            let lv = lines_view(*lines);
            let cur = lv.subrange(0, i + 1);
            assert(cur.drop_last() =~= lv.subrange(0, i as int));
            assert(cur.last() == lv[i as int]);
            assert(keep == !is_comment(lv[i as int]));
            if keep {
                assert(lines_view(kept) =~= lines_view(old_kept).push(lv[i as int]));
            }
        }
        i += 1;
    }
    proof {
        assert(lines_view(*lines).subrange(0, lines@.len() as int) =~= lines_view(*lines));
    }
    kept
}

/// The entry list of one repository's content: its lines, comments
/// dropped, ready for the resolver.
pub fn repository_lines(content: &str) -> (lines: Vec<String>)
    ensures
        lines_view(lines) == spec_repository_lines(content@),
{
    let raw = split_lines(content);
    filter_comments(&raw)
}

} // verus!
