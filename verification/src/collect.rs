//! Collecting the source files of a project: every file with the source
//! extension, at any depth below the source directory.
//!
//! A [`SourceWalk`] keeps the directories that are still to be listed and
//! the files found so far. It names the next directory, is told what
//! listing it gave, and goes on until no directory is left.

use vstd::prelude::*;
use crate::error::ErrorKind;
use crate::error::Failure;
use crate::error::FailureView;
use crate::listing::entry_views;
use crate::listing::listing_view;
use crate::listing::DirEntry;
use crate::listing::EntryView;
use crate::path::has_source_extension;
use crate::path::is_compilable;
use crate::path::path_views;
use crate::path::PathView;
use crate::path::ProjectPath;

verus! {

/// The directories among `entries`, as paths below `dir`, in the order of
/// the listing.
pub open spec fn subdirectories(dir: PathView, entries: Seq<EntryView>) -> Seq<PathView>
    decreases entries.len(),
{
    if entries.len() == 0 {
        Seq::empty()
    } else if entries.last().is_dir {
        subdirectories(dir, entries.drop_last()).push(dir.child(entries.last().name))
    } else {
        subdirectories(dir, entries.drop_last())
    }
}

/// The files among `entries` that are handed to the compiler, as paths
/// below `dir`.
pub open spec fn direct_sources(dir: PathView, entries: Seq<EntryView>) -> Set<PathView> {
    Set::new(
        |path: PathView|
            exists|i: int|
                0 <= i < entries.len() && !entries[i].is_dir && is_compilable(entries[i].name)
                    && path == dir.child(entries[i].name),
    )
}

/// The mathematical value of a [`SourceWalk`].
pub struct WalkView {
    /// The source directory, where the walk began.
    pub src: PathView,
    /// The directories still to be listed; the last one is next.
    pub pending: Seq<PathView>,
    /// The source files found so far.
    pub found: Set<PathView>,
    /// The report of the operating system, where the source directory itself
    /// could not be listed.
    pub unreadable: Option<Seq<char>>,
}

impl WalkView {
    /// The walk before any directory was listed.
    pub open spec fn begin(src: PathView) -> WalkView {
        WalkView { src, pending: seq![src], found: Set::empty(), unreadable: None }
    }

    /// The directory to be listed next.
    pub open spec fn current(self) -> Option<PathView> {
        if self.pending.len() == 0 {
            None
        } else {
            Some(self.pending.last())
        }
    }

    /// The walk after it was told that listing the current directory gave
    /// `listing`. Its source files are found and its directories are to be
    /// listed in turn. A directory that could not be listed adds nothing,
    /// unless it is the source directory itself: then the walk is over.
    pub open spec fn record(self, listing: Result<Seq<EntryView>, Seq<char>>) -> WalkView {
        if self.pending.len() == 0 {
            self
        } else {
            let dir = self.pending.last();
            let rest = self.pending.drop_last();
            match listing {
                Ok(entries) => WalkView {
                    pending: rest + subdirectories(dir, entries),
                    found: self.found.union(direct_sources(dir, entries)),
                    ..self
                },
                Err(report) => if dir == self.src {
                    WalkView { pending: Seq::empty(), unreadable: Some(report), ..self }
                } else {
                    WalkView { pending: rest, ..self }
                },
            }
        }
    }

    /// What the walk has come to: nothing yet while directories are left;
    /// then the files found, unless the source directory could not be listed
    /// or there are none.
    pub open spec fn outcome(self) -> Option<Result<Set<PathView>, FailureView>> {
        if self.pending.len() > 0 {
            None
        } else if self.unreadable is Some {
            Some(
                Err(
                    FailureView::bare(ErrorKind::SourceDirUnreadable, self.src.text()).caused_by(
                        self.unreadable->0,
                    ),
                ),
            )
        } else if self.found == Set::<PathView>::empty() {
            Some(Err(FailureView::bare(ErrorKind::NoSourceFiles, self.src.text())))
        } else {
            Some(Ok(self.found))
        }
    }
}

/// Whether `outcome` is what `expected` says: the same failure, or the same
/// set of files.
pub open spec fn delivers(
    outcome: Option<Result<SourceSet, Failure>>,
    expected: Option<Result<Set<PathView>, FailureView>>,
) -> bool {
    match outcome {
        None => expected is None,
        Some(Err(failure)) => expected == Some(Err::<Set<PathView>, FailureView>(failure@)),
        Some(Ok(sources)) => expected == Some(Ok::<Set<PathView>, FailureView>(sources@)),
    }
}

/// Whether `path` is among `paths`.
pub fn holds_path(paths: &Vec<ProjectPath>, path: &ProjectPath) -> (held: bool)
    ensures
        held == path_views(paths@).contains(path@),
{
    let mut i: usize = 0;
    while i < paths.len()
        invariant
            i <= paths.len(),
            forall|k: int| 0 <= k < i ==> path_views(paths@)[k] != path@,
        decreases paths.len() - i,
    {
        if paths[i].same(path) {
            assert(path_views(paths@)[i as int] == path@);
            return true;
        }
        i += 1;
    }
    false
}

/// A copy of `paths`.
pub fn copy_paths(paths: &Vec<ProjectPath>) -> (copy: Vec<ProjectPath>)
    ensures
        path_views(copy@) == path_views(paths@),
{
    let mut copy: Vec<ProjectPath> = Vec::new();
    let mut i: usize = 0;
    while i < paths.len()
        invariant
            i <= paths.len(),
            copy.len() == i,
            forall|k: int| 0 <= k < i ==> copy[k]@ == paths[k]@,
        decreases paths.len() - i,
    {
        copy.push(paths[i].clone());
        i += 1;
    }
    assert(path_views(copy@) =~= path_views(paths@));
    copy
}

/// Adding one element to a sequence adds it to the set of its elements.
proof fn lemma_push_to_set<A>(items: Seq<A>, item: A)
    ensures
        items.push(item).to_set() == items.to_set().insert(item),
{
    assert forall|a: A| items.push(item).to_set().contains(a) == items.to_set().insert(
        item,
    ).contains(a) by {
        if items.push(item).contains(a) {
            let i = choose|i: int| 0 <= i < items.push(item).len() && items.push(item)[i] == a;
            if i < items.len() {
                assert(items[i] == a);
            }
        }
        if items.contains(a) {
            let i = choose|i: int| 0 <= i < items.len() && items[i] == a;
            assert(items.push(item)[i] == a);
        }
        if a == item {
            assert(items.push(item)[items.len() as int] == a);
        }
    }
    assert(items.push(item).to_set() =~= items.to_set().insert(item));
}

/// One more entry adds its path to the sources of a listing exactly where
/// it is a file that is handed to the compiler.
proof fn lemma_direct_sources_grow(dir: PathView, entries: Seq<EntryView>, count: int)
    requires
        0 <= count < entries.len(),
    ensures
        direct_sources(dir, entries.take(count + 1)) == if !entries[count].is_dir && is_compilable(
            entries[count].name,
        ) {
            direct_sources(dir, entries.take(count)).insert(dir.child(entries[count].name))
        } else {
            direct_sources(dir, entries.take(count))
        },
{
    let before = entries.take(count);
    let after = entries.take(count + 1);
    let grown = if !entries[count].is_dir && is_compilable(entries[count].name) {
        direct_sources(dir, before).insert(dir.child(entries[count].name))
    } else {
        direct_sources(dir, before)
    };
    assert forall|path: PathView| direct_sources(dir, after).contains(path) == grown.contains(
        path,
    ) by {
        if direct_sources(dir, after).contains(path) {
            let i = choose|i: int|
                0 <= i < after.len() && !after[i].is_dir && is_compilable(after[i].name) && path
                    == dir.child(after[i].name);
            if i < count {
                assert(before[i] == after[i]);
            }
        }
        if direct_sources(dir, before).contains(path) {
            let i = choose|i: int|
                0 <= i < before.len() && !before[i].is_dir && is_compilable(before[i].name)
                    && path == dir.child(before[i].name);
            assert(after[i] == before[i]);
        }
        if !entries[count].is_dir && is_compilable(entries[count].name) && path == dir.child(
            entries[count].name,
        ) {
            assert(after[count] == entries[count]);
        }
    }
    assert(direct_sources(dir, after) =~= grown);
}

/// The files that a build compiles: at least one, none of them twice. Only
/// membership matters; the order in which the files are kept is there to be
/// read off, not to be relied on.
#[derive(Debug)]
pub struct SourceSet {
    files: Vec<ProjectPath>,
}

impl View for SourceSet {
    type V = Set<PathView>;

    closed spec fn view(&self) -> Set<PathView> {
        path_views(self.files@).to_set()
    }
}

impl SourceSet {
    /// At least one file, and none twice.
    #[verifier::type_invariant]
    spec fn filled_without_repeats(self) -> bool {
        path_views(self.files@).no_duplicates() && self.files@.len() > 0
    }

    /// The files in the order in which they are kept.
    pub closed spec fn order(&self) -> Seq<PathView> {
        path_views(self.files@)
    }

    /// The set of the paths in `paths`; none where `paths` is empty.
    pub fn from_paths(paths: Vec<ProjectPath>) -> (sources: Option<SourceSet>)
        ensures
            match sources {
                Some(set) => set@ == path_views(paths@).to_set() && paths@.len() > 0,
                None => paths@.len() == 0,
            },
    {
        if paths.len() == 0 {
            return None;
        }
        let mut files: Vec<ProjectPath> = Vec::new();
        let mut i: usize = 0;
        proof {
            assert(path_views(paths@).take(0) =~= Seq::<PathView>::empty());
            assert(path_views(files@).to_set() =~= path_views(paths@).take(0).to_set());
        }
        while i < paths.len()
            invariant
                i <= paths.len(),
                path_views(files@).no_duplicates(),
                path_views(files@).to_set() == path_views(paths@).take(i as int).to_set(),
                i > 0 ==> files@.len() > 0,
            decreases paths.len() - i,
        {
            let ghost kept = path_views(files@);
            proof {
                assert(path_views(paths@).take(i + 1) =~= path_views(paths@).take(i as int).push(
                    paths[i as int]@,
                ));
                lemma_push_to_set(path_views(paths@).take(i as int), paths[i as int]@);
            }
            if !holds_path(&files, &paths[i]) {
                files.push(paths[i].clone());
                proof {
                    assert(path_views(files@) =~= kept.push(paths[i as int]@));
                    lemma_push_to_set(kept, paths[i as int]@);
                }
            } else {
                assert(kept.to_set().contains(paths[i as int]@));
                assert(kept.to_set().insert(paths[i as int]@) =~= kept.to_set());
            }
            i += 1;
        }
        assert(path_views(paths@).take(paths@.len() as int) =~= path_views(paths@));
        Some(SourceSet { files })
    }

    /// The files, each once.
    pub fn files(&self) -> (files: &Vec<ProjectPath>)
        ensures
            path_views(files@) == self.order(),
            path_views(files@).to_set() == self@,
            path_views(files@).no_duplicates(),
            files@.len() > 0,
    {
        proof {
            use_type_invariant(self);
        }
        &self.files
    }

    /// Whether `path` is one of the files.
    pub fn contains(&self, path: &ProjectPath) -> (held: bool)
        ensures
            held == self@.contains(path@),
    {
        holds_path(&self.files, path)
    }

    /// How many files there are.
    pub fn count(&self) -> (count: usize)
        ensures
            count == self@.len(),
            count > 0,
            self@.finite(),
    {
        proof {
            use_type_invariant(self);
            path_views(self.files@).unique_seq_to_set();
        }
        self.files.len()
    }
}

impl Clone for SourceSet {
    fn clone(&self) -> (copy: SourceSet)
        ensures
            copy@ == self@,
            copy.order() == self.order(),
    {
        proof {
            use_type_invariant(self);
        }
        SourceSet { files: copy_paths(&self.files) }
    }
}

/// The state of a walk over the source directory.
#[derive(Debug)]
pub struct SourceWalk {
    src: ProjectPath,
    pending: Vec<ProjectPath>,
    found: Vec<ProjectPath>,
    unreadable: Option<String>,
}

impl View for SourceWalk {
    type V = WalkView;

    closed spec fn view(&self) -> WalkView {
        WalkView {
            src: self.src@,
            pending: path_views(self.pending@),
            found: path_views(self.found@).to_set(),
            unreadable: crate::error::optional_text(self.unreadable),
        }
    }
}

impl SourceWalk {
    /// No file is kept twice.
    #[verifier::type_invariant]
    spec fn keeps_each_file_once(self) -> bool {
        path_views(self.found@).no_duplicates()
    }

    /// A walk that is about to list `project_src`.
    pub fn begin(project_src: &ProjectPath) -> (walk: SourceWalk)
        ensures
            walk@ == WalkView::begin(project_src@),
    {
        let mut pending: Vec<ProjectPath> = Vec::new();
        pending.push(project_src.clone());
        let walk = SourceWalk {
            src: project_src.clone(),
            pending,
            found: Vec::new(),
            unreadable: None,
        };
        assert(path_views(walk.pending@) =~= seq![project_src@]);
        assert(path_views(walk.found@) =~= Seq::<PathView>::empty());
        assert(path_views(walk.found@).to_set() =~= Set::<PathView>::empty());
        walk
    }

    /// The source directory, where the walk began.
    pub fn source_dir(&self) -> (dir: &ProjectPath)
        ensures
            dir@ == self@.src,
    {
        &self.src
    }

    /// The directory to be listed next, if any is left.
    pub fn current(&self) -> (dir: Option<ProjectPath>)
        ensures
            match dir {
                Some(path) => self@.current() == Some(path@),
                None => self@.current() is None,
            },
    {
        let count = self.pending.len();
        if count == 0 {
            None
        } else {
            Some(self.pending[count - 1].clone())
        }
    }

    /// The walk after it was told what listing the current directory gave.
    pub fn record(self, listing: Result<Vec<DirEntry>, String>) -> (walk: SourceWalk)
        ensures
            walk@ == self@.record(listing_view(listing)),
    {
        proof {
            use_type_invariant(&self);
        }
        let ghost before = self@;
        if self.pending.len() == 0 {
            return self;
        }
        let SourceWalk { src, mut pending, mut found, unreadable } = self;
        let ghost found_before = path_views(found@).to_set();
        let dir = pending.pop().unwrap();
        assert(path_views(pending@) =~= before.pending.drop_last());
        assert(dir@ == before.pending.last());
        match listing {
            Err(report) => {
                if dir.same(&src) {
                    let walk = SourceWalk {
                        src,
                        pending: Vec::new(),
                        found,
                        unreadable: Some(report),
                    };
                    assert(path_views(walk.pending@) =~= Seq::<PathView>::empty());
                    walk
                } else {
                    SourceWalk { src, pending, found, unreadable }
                }
            },
            Ok(entries) => {
                let ghost rest = before.pending.drop_last();
                let ghost listed = entry_views(entries@);
                let mut i: usize = 0;
                proof {
                    assert(listed.take(0) =~= Seq::<EntryView>::empty());
                    assert(path_views(pending@) =~= rest + subdirectories(dir@, listed.take(0)));
                    assert(direct_sources(dir@, listed.take(0)) =~= Set::<PathView>::empty());
                    assert(found_before.union(direct_sources(dir@, listed.take(0)))
                        =~= found_before);
                }
                while i < entries.len()
                    invariant
                        i <= entries.len(),
                        listed == entry_views(entries@),
                        path_views(pending@) == rest + subdirectories(dir@, listed.take(i as int)),
                        path_views(found@).to_set() == found_before.union(
                            direct_sources(dir@, listed.take(i as int)),
                        ),
                        path_views(found@).no_duplicates(),
                    decreases entries.len() - i,
                {
                    let ghost pending_before = path_views(pending@);
                    let ghost kept_before = path_views(found@);
                    proof {
                        assert(listed.take(i + 1).drop_last() =~= listed.take(i as int));
                        assert(listed.take(i + 1).last() == listed[i as int]);
                        lemma_direct_sources_grow(dir@, listed, i as int);
                    }
                    let entry = &entries[i];
                    if entry.is_dir {
                        pending.push(dir.child(entry.name.as_str()));
                        assert(path_views(pending@) =~= pending_before.push(
                            dir@.child(listed[i as int].name),
                        ));
                        assert(path_views(pending@) =~= rest + subdirectories(
                            dir@,
                            listed.take(i + 1),
                        ));
                    } else if has_source_extension(entry.name.as_str()) {
                        let file = dir.child(entry.name.as_str());
                        if !holds_path(&found, &file) {
                            found.push(file);
                            proof {
                                assert(path_views(found@) =~= kept_before.push(
                                    dir@.child(listed[i as int].name),
                                ));
                                lemma_push_to_set(kept_before, dir@.child(listed[i as int].name));
                            }
                        } else {
                            assert(kept_before.to_set().contains(dir@.child(listed[i as int].name)));
                        }
                        assert(path_views(found@).to_set() =~= found_before.union(
                            direct_sources(dir@, listed.take(i + 1)),
                        ));
                    }
                    i += 1;
                }
                assert(listed.take(entries.len() as int) =~= listed);
                SourceWalk { src, pending, found, unreadable }
            },
        }
    }

    /// What the walk has come to: nothing yet while directories are left;
    /// then the files found, each once, unless the source directory could
    /// not be listed or holds nothing to compile.
    pub fn outcome(&self) -> (outcome: Option<Result<SourceSet, Failure>>)
        ensures
            delivers(outcome, self@.outcome()),
    {
        proof {
            use_type_invariant(self);
        }
        if self.pending.len() > 0 {
            return None;
        }
        match &self.unreadable {
            Some(report) => Some(
                Err(
                    Failure::new(ErrorKind::SourceDirUnreadable, self.src.render()).caused_by(
                        report.clone(),
                    ),
                ),
            ),
            None => {
                if self.found.len() == 0 {
                    assert(path_views(self.found@).to_set() =~= Set::<PathView>::empty());
                    Some(Err(Failure::new(ErrorKind::NoSourceFiles, self.src.render())))
                } else {
                    assert(path_views(self.found@).to_set().contains(path_views(self.found@)[0]));
                    Some(Ok(SourceSet { files: copy_paths(&self.found) }))
                }
            },
        }
    }
}

} // verus!
