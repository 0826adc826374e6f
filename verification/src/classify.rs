//! The line classifier: one comment-filtered repository line is a direct
//! download target, a pointer to a nested repository, or malformed.
//!
//! The grammar is line-local: a line's meaning never depends on other
//! lines or on resolution history.

use vstd::prelude::*;

use crate::text::{find_first, first_index_of, has_char};

verus! {

/// The classified form of one repository line.
#[derive(Debug, Clone, PartialEq)]
pub enum Entry {
    /// A terminal download target.
    Direct(String),
    /// A pointer whose fetched content is itself a repository.
    Nested(String),
    /// A line matching neither grammar; never promoted to a URL.
    Malformed,
}

/// The mathematical form of a classified line.
pub enum EntryModel {
    Direct(Seq<char>),
    Nested(Seq<char>),
    Malformed,
}

impl View for Entry {
    type V = EntryModel;

    open spec fn view(&self) -> EntryModel {
        match self {
            Entry::Direct(url) => EntryModel::Direct(url@),
            Entry::Nested(url) => EntryModel::Nested(url@),
            Entry::Malformed => EntryModel::Malformed,
        }
    }
}

/// The marker that tags a nested-repository pointer.
pub open spec fn nested_marker() -> Seq<char> {
    "Nested"@
}

/// Classification of one line, split at its first space: a line without
/// one is a single token, a direct target; a first token equal to the
/// nested marker makes the rest a nested pointer; an empty line (zero
/// tokens) and every other two-token shape are malformed.
pub open spec fn spec_classify(line: Seq<char>) -> EntryModel {
    if line.len() == 0 {
        EntryModel::Malformed
    } else if !has_char(line, ' ') {
        EntryModel::Direct(line)
    } else {
        let i = first_index_of(line, ' ');
        if line.subrange(0, i) == nested_marker() {
            EntryModel::Nested(line.subrange(i + 1, line.len() as int))
        } else {
            EntryModel::Malformed
        }
    }
}

/// Classification is total: every line takes exactly one of the three
/// forms, and, being a function of the line alone, it is deterministic
/// and has no side effects.
pub proof fn lemma_classification_total(line: Seq<char>)
    ensures
        spec_classify(line) is Direct || spec_classify(line) is Nested || spec_classify(
            line,
        ) is Malformed,
        !(spec_classify(line) is Direct && spec_classify(line) is Nested),
        !(spec_classify(line) is Direct && spec_classify(line) is Malformed),
        !(spec_classify(line) is Nested && spec_classify(line) is Malformed),
{
}

/// Classification is line-local and history-free: it reads nothing but
/// the line, so two equal lines classify alike wherever they were
/// sampled — at any depth, under any budget, after any history.
pub proof fn lemma_classification_line_local(a: Seq<char>, b: Seq<char>)
    requires
        a == b,
    ensures
        spec_classify(a) == spec_classify(b),
{
}

/// Does `s` read exactly as the nested marker?
fn is_nested_marker(s: &str) -> (b: bool)
    ensures
        b == (s@ == nested_marker()),
{
    proof {
        reveal_strlit("Nested");
    }
    let len = s.unicode_len();
    if len != 6 {
        return false;
    }
    let b = s.get_char(0) == 'N' && s.get_char(1) == 'e' && s.get_char(2) == 's' && s.get_char(3)
        == 't' && s.get_char(4) == 'e' && s.get_char(5) == 'd';
    proof {
        if b {
            assert(s@ =~= nested_marker());
        }
    }
    b
}

/// Classify one repository line.
pub fn classify(line: &str) -> (e: Entry)
    ensures
        e@ == spec_classify(line@),
{
    let len = line.unicode_len();
    if len == 0 {
        return Entry::Malformed;
    }
    match find_first(line, ' ') {
        None => Entry::Direct(line.to_owned()),
        Some(i) => {
            let token = line.substring_char(0, i);
            if is_nested_marker(token) {
                let url = line.substring_char(i + 1, len);
                Entry::Nested(url.to_owned())
            } else {
                Entry::Malformed
            }
        },
    }
}

} // verus!
