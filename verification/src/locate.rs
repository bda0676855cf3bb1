//! Finding the project that a directory belongs to: the nearest directory,
//! going upwards from the start, that holds the manifest file.
//!
//! The search reads no directory itself. It is told what listing a directory
//! gave and says what follows: the root is found, the search goes on one
//! level up, or it has failed.

use vstd::prelude::*;
use crate::error::ErrorKind;
use crate::error::Failure;
use crate::error::FailureView;
use crate::listing::holds_file;
use crate::listing::lists_file;
use crate::listing::listing_view;
use crate::listing::DirEntry;
use crate::listing::Disk;
use crate::listing::EntryView;
use crate::manifest::MANIFEST_FILE_NAME;
use crate::path::PathView;
use crate::path::ProjectPath;

verus! {

/// The mathematical value of a [`Search`].
pub enum SearchView {
    Found(PathView),
    Ascend(PathView),
    Failed(FailureView),
}

/// What follows from the listing of one directory.
#[derive(Debug, PartialEq, Eq)]
pub enum Search {
    /// The directory holds the manifest: it is the project root.
    Found(ProjectPath),
    /// No manifest here: the directory above is to be listed next.
    Ascend(ProjectPath),
    /// The search is over without a root.
    Failed(Failure),
}

impl View for Search {
    type V = SearchView;

    open spec fn view(&self) -> SearchView {
        match self {
            Search::Found(root) => SearchView::Found(root@),
            Search::Ascend(above) => SearchView::Ascend(above@),
            Search::Failed(failure) => SearchView::Failed(failure@),
        }
    }
}

/// What follows from `listing`, which listing `dir` gave: `dir` is the root
/// where it lists the manifest file; otherwise the search moves to the
/// directory above, and fails at a directory that has none above it. A
/// directory that could not be listed ends the search with the report.
pub open spec fn search_step(dir: PathView, listing: Result<Seq<EntryView>, Seq<char>>)
    -> SearchView {
    match listing {
        Err(report) => SearchView::Failed(
            FailureView::bare(ErrorKind::DirectoryUnreadable, dir.text()).caused_by(report),
        ),
        Ok(entries) => if lists_file(entries, MANIFEST_FILE_NAME@) {
            SearchView::Found(dir)
        } else if dir.segments.len() == 0 {
            SearchView::Failed(FailureView::bare(ErrorKind::ProjectNotFound, dir.text()))
        } else {
            SearchView::Ascend(dir.parent()->0)
        },
    }
}

/// Where the search ends when it starts in `dir` and every listing is the
/// one that `disk` gives: at the root that a step finds or with the failure
/// that a step ends in, and otherwise where it ends from the directory
/// above.
pub open spec fn located(disk: Disk, dir: PathView) -> Result<PathView, FailureView>
    decreases dir.segments.len(),
{
    match search_step(dir, disk(dir)) {
        SearchView::Found(root) => Ok(root),
        SearchView::Ascend(above) => located(disk, above),
        SearchView::Failed(failure) => Err(failure),
    }
}

/// One step of the search for the project root: `listing` is what listing
/// `dir` gave.
pub fn find_project_root(dir: &ProjectPath, listing: &Result<Vec<DirEntry>, String>) -> (step:
    Search)
    ensures
        step@ == search_step(dir@, listing_view(*listing)),
{
    match listing {
        Err(report) => Search::Failed(
            Failure::new(ErrorKind::DirectoryUnreadable, dir.render()).caused_by(report.clone()),
        ),
        Ok(entries) => {
            if holds_file(entries, MANIFEST_FILE_NAME) {
                Search::Found(dir.clone())
            } else {
                match dir.parent() {
                    Some(above) => Search::Ascend(above),
                    None => Search::Failed(Failure::new(ErrorKind::ProjectNotFound, dir.render())),
                }
            }
        },
    }
}

/// From the project root, or from any directory nested below it, the search
/// ends at the same root: provided that every directory from the start up
/// to the root can be listed, and that none of them below the root holds a
/// manifest of its own.
pub proof fn lemma_same_root_from_anywhere_inside(disk: Disk, root: PathView, start: PathView)
    requires
        start.is_within(root),
        disk(root) is Ok,
        lists_file(disk(root)->Ok_0, MANIFEST_FILE_NAME@),
        forall|depth: int|
            root.segments.len() < depth <= start.segments.len() ==> {
                &&& (#[trigger] disk(start.truncated(depth))) is Ok
                &&& !lists_file(disk(start.truncated(depth))->Ok_0, MANIFEST_FILE_NAME@)
            },
    ensures
        located(disk, start) == Ok::<PathView, FailureView>(root),
    decreases start.segments.len(),
{
    let length = start.segments.len() as int;
    assert(start.segments.take(length) =~= start.segments);
    assert(start.truncated(length) == start);
    if start.segments.len() == root.segments.len() {
        assert(start == root);
    } else {
        let above = start.parent()->0;
        assert(above.segments.take(root.segments.len() as int) =~= start.segments.take(
            root.segments.len() as int,
        ));
        assert forall|depth: int| root.segments.len() < depth <= above.segments.len() implies {
            &&& (#[trigger] disk(above.truncated(depth))) is Ok
            &&& !lists_file(disk(above.truncated(depth))->Ok_0, MANIFEST_FILE_NAME@)
        } by {
            assert(above.segments.take(depth) =~= start.segments.take(depth));
            assert(above.truncated(depth) == start.truncated(depth));
        }
        lemma_same_root_from_anywhere_inside(disk, root, above);
    }
}

/// Outside any project the search fails, and only after it has reached the
/// top: where every directory from the start upwards can be listed and none
/// holds a manifest, the failure names the topmost directory.
pub proof fn lemma_fails_at_the_top_outside_projects(disk: Disk, start: PathView)
    requires
        forall|depth: int|
            0 <= depth <= start.segments.len() ==> {
                &&& (#[trigger] disk(start.truncated(depth))) is Ok
                &&& !lists_file(disk(start.truncated(depth))->Ok_0, MANIFEST_FILE_NAME@)
            },
    ensures
        located(disk, start) == Err::<PathView, FailureView>(
            FailureView::bare(ErrorKind::ProjectNotFound, start.truncated(0).text()),
        ),
        start.absolute ==> start.truncated(0).text() == seq!['/'],
    decreases start.segments.len(),
{
    let length = start.segments.len() as int;
    assert(start.segments.take(length) =~= start.segments);
    assert(start.truncated(length) == start);
    if start.segments.len() == 0 {
        assert(start.truncated(0) == start);
    } else {
        let above = start.parent()->0;
        assert forall|depth: int| 0 <= depth <= above.segments.len() implies {
            &&& (#[trigger] disk(above.truncated(depth))) is Ok
            &&& !lists_file(disk(above.truncated(depth))->Ok_0, MANIFEST_FILE_NAME@)
        } by {
            assert(above.segments.take(depth) =~= start.segments.take(depth));
            assert(above.truncated(depth) == start.truncated(depth));
        }
        lemma_fails_at_the_top_outside_projects(disk, above);
        assert(above.segments.take(0) =~= start.segments.take(0));
        assert(above.truncated(0) == start.truncated(0));
    }
}

} // verus!
