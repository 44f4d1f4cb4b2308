//! The inventory of a batch: which of the files found under the input root
//! are converted, and in what order.

use crate::paths::{
    file_stem, is_candidate, lemma_candidate_has_stem, output_path, spec_file_stem,
    spec_is_candidate, spec_output_path,
};
use vstd::prelude::*;
use vstd::string::*;

verus! {

/// A source file of a batch: a path whose extension is that of the source
/// format.
pub struct FileCandidate {
    path: String,
}

impl View for FileCandidate {
    type V = Seq<char>;

    /// The path of the candidate.
    closed spec fn view(&self) -> Seq<char> {
        self.path@
    }
}

impl DeepView for FileCandidate {
    type V = Seq<char>;

    /// The path of the candidate.
    open spec fn deep_view(&self) -> Seq<char> {
        self@
    }
}

impl FileCandidate {
    /// Only candidates are held.
    #[verifier::type_invariant]
    spec fn holds_candidate(&self) -> bool {
        spec_is_candidate(self.path@)
    }

    /// The candidate for `path`, or `None` where `path` is no candidate.
    pub fn new(path: String) -> (candidate: Option<FileCandidate>)
        ensures
            candidate is Some <==> spec_is_candidate(path@),
            candidate matches Some(c) ==> c@ == path@,
    {
        if is_candidate(path.as_str()) {
            Some(FileCandidate { path })
        } else {
            None
        }
    }

    /// The path of the source file.
    pub fn path(&self) -> (path: &str)
        ensures
            path@ == self@,
            spec_is_candidate(self@),
    {
        proof {
            use_type_invariant(self);
        }
        self.path.as_str()
    }

    /// The stem of the source file. It is never empty.
    pub fn stem(&self) -> (stem: String)
        ensures
            stem@ == spec_file_stem(self@),
            stem@.len() > 0,
    {
        proof {
            use_type_invariant(self);
            lemma_candidate_has_stem(self@);
        }
        file_stem(self.path.as_str())
    }

    /// Where the output for this source goes in `output_root`.
    pub fn destination(&self, output_root: &str) -> (destination: String)
        ensures
            destination@ == spec_output_path(output_root@, self@),
    {
        output_path(output_root, self.path.as_str())
    }
}

/// How an input root is walked.
#[derive(Debug, Clone, Copy, PartialEq, Eq)]
pub struct WalkRules {
    /// The walk goes through symbolic links.
    pub follow_links: bool,
    /// The walk stays on the file system of the input root.
    pub same_file_system: bool,
    /// The entries of each directory come in the order of their file names,
    /// so that two walks of one tree give the same order.
    pub sorted_by_file_name: bool,
}

/// The rules of every walk: through symbolic links, across file systems,
/// and in an order that the tree alone decides.
pub fn walk_rules() -> (rules: WalkRules)
    ensures
        rules.follow_links,
        !rules.same_file_system,
        rules.sorted_by_file_name,
{
    WalkRules { follow_links: true, same_file_system: false, sorted_by_file_name: true }
}

/// One entry of the walk of an input root.
#[derive(Debug, Clone, PartialEq, Eq)]
pub enum ScanEntry {
    /// The path of a file.
    File(String),
    /// The path of something that is no file: a directory, or a link that
    /// leads nowhere.
    Other(String),
    /// An entry that could not be read.
    Unreadable,
}

/// An entry of the walk as plain text.
pub enum ScanEntryView {
    File(Seq<char>),
    Other(Seq<char>),
    Unreadable,
}

impl View for ScanEntry {
    type V = ScanEntryView;

    open spec fn view(&self) -> ScanEntryView {
        match self {
            ScanEntry::File(path) => ScanEntryView::File(path@),
            ScanEntry::Other(path) => ScanEntryView::Other(path@),
            ScanEntry::Unreadable => ScanEntryView::Unreadable,
        }
    }
}

impl DeepView for ScanEntry {
    type V = ScanEntryView;

    open spec fn deep_view(&self) -> ScanEntryView {
        self@
    }
}

impl ScanEntryView {
    /// The entry is a file whose path is a candidate.
    pub open spec fn is_candidate(self) -> bool {
        self matches ScanEntryView::File(path) && spec_is_candidate(path)
    }
}

/// The candidates among `entries`, in the order of `entries`: the paths of
/// the files with the source extension. An entry that is no file, or that
/// could not be read, is passed over.
pub open spec fn candidates_among(entries: Seq<ScanEntryView>) -> Seq<Seq<char>> {
    entries.filter(|entry: ScanEntryView| entry.is_candidate()).map_values(
        |entry: ScanEntryView| entry->File_0,
    )
}

/// Picks the candidates from the entries that a walk of the input root
/// gave. What is picked keeps the order of the walk, and a path that occurs
/// twice is picked twice.
pub fn select_candidates(entries: &Vec<ScanEntry>) -> (found: Vec<FileCandidate>)
    ensures
        found.deep_view() == candidates_among(entries.deep_view()),
{
    let mut found: Vec<FileCandidate> = Vec::new();
    let ghost is_wanted = |entry: ScanEntryView| entry.is_candidate();
    let ghost path_of = |entry: ScanEntryView| entry->File_0;
    for i in 0..entries.len()
        invariant
            is_wanted == (|entry: ScanEntryView| entry.is_candidate()),
            path_of == (|entry: ScanEntryView| entry->File_0),
            found.deep_view() == entries.deep_view().take(i as int).filter(is_wanted).map_values(
                path_of,
            ),
    {
        let ghost before = entries.deep_view().take(i as int);
        let ghost seen = found.deep_view();
        let ghost entry = entries[i as int]@;
        proof {
            assert(entries.deep_view().take(i + 1) =~= before.push(entry));
            before.lemma_filter_push(entry, is_wanted);
            if is_wanted(entry) {
                assert(before.filter(is_wanted).push(entry).map_values(path_of) =~= seen.push(
                    entry->File_0,
                ));
            }
        }
        match &entries[i] {
            ScanEntry::File(path) => {
                match FileCandidate::new(path.clone()) {
                    Some(candidate) => {
                        found.push(candidate);
                        assert(found.deep_view() =~= seen.push(entry->File_0));
                    },
                    None => {
                        assert(found.deep_view() =~= seen);
                    },
                }
            },
            _ => {
                assert(found.deep_view() =~= seen);
            },
        }
    }
    proof {
        assert(entries.deep_view().take(entries.len() as int) =~= entries.deep_view());
    }
    found
}

/// What was picked is what the walk gave as candidate files: no more than
/// the walk gave, each a candidate path of a file entry, and every such
/// entry among them.
pub proof fn lemma_candidates_among(entries: Seq<ScanEntryView>)
    ensures
        candidates_among(entries).len() <= entries.len(),
        forall|i: int|
            0 <= i < candidates_among(entries).len() ==> spec_is_candidate(
                #[trigger] candidates_among(entries)[i],
            ) && entries.contains(ScanEntryView::File(candidates_among(entries)[i])),
        forall|i: int|
            0 <= i < entries.len() && (#[trigger] entries[i]).is_candidate()
                ==> candidates_among(entries).contains(entries[i]->File_0),
{
    let is_wanted = |entry: ScanEntryView| entry.is_candidate();
    let path_of = |entry: ScanEntryView| entry->File_0;
    let kept = entries.filter(is_wanted);
    let found = candidates_among(entries);
    entries.lemma_filter_len(is_wanted);
    assert forall|i: int| 0 <= i < found.len() implies spec_is_candidate(#[trigger] found[i])
        && entries.contains(ScanEntryView::File(found[i])) by {
        entries.lemma_filter_pred(is_wanted, i);
        assert(kept.contains(kept[i]));
        entries.lemma_filter_contains_rev(is_wanted, kept[i]);
    }
    assert forall|i: int| 0 <= i < entries.len() && (#[trigger] entries[i]).is_candidate() implies
        found.contains(entries[i]->File_0) by {
        entries.lemma_filter_contains(is_wanted, i);
        let j = choose|j: int| 0 <= j < kept.len() && kept[j] == entries[i];
        assert(found[j] == entries[i]->File_0);
    }
}

} // verus!
