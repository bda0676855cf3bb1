//! What a finished walk has found, for every file system.
//!
//! A source file below a directory is described directly: a path under the
//! directory whose last name has the source extension and which is reached
//! through listings, each directory on the way listed as a directory by the
//! one above it and the file listed as a file. The laws say that a walk
//! that was told these listings ends with exactly those files.

use vstd::prelude::*;
use crate::collect::direct_sources;
use crate::collect::subdirectories;
use crate::collect::WalkView;
use crate::error::ErrorKind;
use crate::error::FailureView;
use crate::listing::lists_directory;
use crate::listing::lists_file;
use crate::listing::Disk;
use crate::listing::EntryView;
use crate::path::is_compilable;
use crate::path::PathView;

verus! {

/// The listing of the ancestor of `path` that has `depth` segments can be
/// had, and it lists the next name of `path`: as a file where that name is
/// the last, as a directory otherwise.
pub open spec fn listed_on_the_way(disk: Disk, path: PathView, depth: int) -> bool {
    &&& disk(path.truncated(depth)) is Ok
    &&& if depth == path.segments.len() - 1 {
        lists_file(disk(path.truncated(depth))->Ok_0, path.segments[depth])
    } else {
        lists_directory(disk(path.truncated(depth))->Ok_0, path.segments[depth])
    }
}

/// `path` is a source file at some depth below `dir`.
pub open spec fn is_source_below(disk: Disk, dir: PathView, path: PathView) -> bool {
    &&& path.is_within(dir)
    &&& dir.segments.len() < path.segments.len()
    &&& is_compilable(path.segments.last())
    &&& forall|depth: int|
        dir.segments.len() <= depth < path.segments.len() ==> #[trigger] listed_on_the_way(
            disk,
            path,
            depth,
        )
}

/// Every source file at any depth below `dir`.
pub open spec fn sources_below(disk: Disk, dir: PathView) -> Set<PathView> {
    Set::new(|path: PathView| is_source_below(disk, dir, path))
}

/// `path` is a source file below one of `dirs`.
pub open spec fn is_source_below_any(disk: Disk, dirs: Seq<PathView>, path: PathView) -> bool {
    exists|k: int| 0 <= k < dirs.len() && is_source_below(disk, #[trigger] dirs[k], path)
}

/// The walk has lost nothing and invented nothing: the source files below
/// the source directory are those found so far together with those below
/// the directories still to be listed.
pub open spec fn on_track(walk: WalkView, disk: Disk) -> bool {
    if walk.unreadable is Some {
        walk.pending.len() == 0 && disk(walk.src) == Err::<Seq<EntryView>, Seq<char>>(
            walk.unreadable->0,
        )
    } else {
        &&& forall|path: PathView| #[trigger]
            is_source_below(disk, walk.src, path) <==> (walk.found.contains(path)
                || is_source_below_any(disk, walk.pending, path))
        &&& disk(walk.src) is Err ==> walk.pending == seq![walk.src]
    }
}

/// The walk after `steps` more listings, each the one that `disk` gives for
/// the directory that the walk names.
pub open spec fn walked(disk: Disk, walk: WalkView, steps: nat) -> WalkView
    decreases steps,
{
    if steps == 0 {
        walk
    } else {
        match walk.current() {
            Some(dir) => walked(disk, walk.record(disk(dir)), (steps - 1) as nat),
            None => walk,
        }
    }
}

/// Every path among the subdirectories of a listing comes from an entry
/// that is a directory.
pub proof fn lemma_subdirectory_was_listed(dir: PathView, entries: Seq<EntryView>, j: int)
    requires
        0 <= j < subdirectories(dir, entries).len(),
    ensures
        exists|i: int|
            0 <= i < entries.len() && entries[i].is_dir && subdirectories(dir, entries)[j]
                == dir.child(#[trigger] entries[i].name),
    decreases entries.len(),
{
    let shorter = entries.drop_last();
    if entries.last().is_dir && j == subdirectories(dir, shorter).len() {
        assert(subdirectories(dir, entries)[j] == dir.child(entries[entries.len() - 1].name));
    } else {
        lemma_subdirectory_was_listed(dir, shorter, j);
        let i = choose|i: int|
            0 <= i < shorter.len() && shorter[i].is_dir && subdirectories(dir, shorter)[j]
                == dir.child(#[trigger] shorter[i].name);
        assert(entries[i] == shorter[i]);
    }
}

/// Every entry that is a directory is among the subdirectories of its
/// listing.
pub proof fn lemma_listed_is_subdirectory(dir: PathView, entries: Seq<EntryView>, i: int)
    requires
        0 <= i < entries.len(),
        entries[i].is_dir,
    ensures
        exists|j: int|
            0 <= j < subdirectories(dir, entries).len() && #[trigger] subdirectories(
                dir,
                entries,
            )[j] == dir.child(entries[i].name),
    decreases entries.len(),
{
    let shorter = entries.drop_last();
    if i == entries.len() - 1 {
        let j = subdirectories(dir, shorter).len() as int;
        assert(subdirectories(dir, entries)[j] == dir.child(entries[i].name));
    } else {
        lemma_listed_is_subdirectory(dir, shorter, i);
        let j = choose|j: int|
            0 <= j < subdirectories(dir, shorter).len() && #[trigger] subdirectories(
                dir,
                shorter,
            )[j] == dir.child(shorter[i].name);
        assert(subdirectories(dir, entries)[j] == subdirectories(dir, shorter)[j]);
    }
}

/// A path lies below a directory's child exactly where it lies below the
/// directory and its next name is the child's.
proof fn lemma_truncated_child(dir: PathView, name: Seq<char>, path: PathView)
    requires
        path.is_within(dir),
        dir.segments.len() < path.segments.len(),
        path.segments[dir.segments.len() as int] == name,
    ensures
        path.is_within(dir.child(name)),
        path.truncated(dir.segments.len() as int) == dir,
        path.truncated(dir.segments.len() as int + 1) == dir.child(name),
{
    let depth = dir.segments.len() as int;
    assert(path.segments.take(depth + 1) =~= path.segments.take(depth).push(name));
}

/// Nothing is found below a directory that cannot be listed.
pub proof fn lemma_nothing_below_unreadable(disk: Disk, dir: PathView, path: PathView)
    requires
        disk(dir) is Err,
    ensures
        !is_source_below(disk, dir, path),
{
    if is_source_below(disk, dir, path) {
        let depth = dir.segments.len() as int;
        assert(listed_on_the_way(disk, path, depth));
        assert(path.truncated(depth) == dir);
    }
}

/// The source files below a directory that can be listed are its own
/// source files and those below its subdirectories.
pub proof fn lemma_sources_below_unfold(disk: Disk, dir: PathView, path: PathView)
    requires
        disk(dir) is Ok,
    ensures
        is_source_below(disk, dir, path) <==> (direct_sources(dir, disk(dir)->Ok_0).contains(path)
            || is_source_below_any(disk, subdirectories(dir, disk(dir)->Ok_0), path)),
{
    let entries = disk(dir)->Ok_0;
    let depth = dir.segments.len() as int;
    let below = subdirectories(dir, entries);
    if is_source_below(disk, dir, path) {
        assert(listed_on_the_way(disk, path, depth));
        let name = path.segments[depth];
        lemma_truncated_child(dir, name, path);
        if depth == path.segments.len() - 1 {
            let i = choose|i: int|
                0 <= i < entries.len() && entries[i].name == name && !entries[i].is_dir;
            assert(path.segments =~= dir.segments.push(name));
            assert(path == dir.child(entries[i].name));
            assert(direct_sources(dir, entries).contains(path));
        } else {
            let i = choose|i: int|
                0 <= i < entries.len() && entries[i].name == name && entries[i].is_dir;
            lemma_listed_is_subdirectory(dir, entries, i);
            let j = choose|j: int| 0 <= j < below.len() && #[trigger] below[j] == dir.child(name);
            assert forall|deeper: int|
                below[j].segments.len() <= deeper < path.segments.len() implies #[trigger] listed_on_the_way(
                disk,
                path,
                deeper,
            ) by {
                assert(listed_on_the_way(disk, path, deeper));
            }
            assert(is_source_below(disk, below[j], path));
        }
    }
    if direct_sources(dir, entries).contains(path) {
        let i = choose|i: int|
            0 <= i < entries.len() && !entries[i].is_dir && is_compilable(entries[i].name) && path
                == dir.child(entries[i].name);
        assert(path.segments.take(depth) =~= dir.segments);
        assert(path.truncated(depth) == dir);
        assert forall|at: int| depth <= at < path.segments.len() implies #[trigger] listed_on_the_way(
            disk,
            path,
            at,
        ) by {
            assert(at == depth);
        }
        assert(is_source_below(disk, dir, path));
    }
    if is_source_below_any(disk, below, path) {
        let j = choose|j: int| 0 <= j < below.len() && is_source_below(disk, #[trigger] below[j], path);
        lemma_subdirectory_was_listed(dir, entries, j);
        let i = choose|i: int|
            0 <= i < entries.len() && entries[i].is_dir && below[j] == dir.child(
                #[trigger] entries[i].name,
            );
        let name = entries[i].name;
        let child = dir.child(name);
        assert(child.segments.take(depth) =~= dir.segments);
        assert(path.segments.take(depth) =~= path.segments.take(depth + 1).take(depth));
        assert(path.segments.take(depth) =~= dir.segments);
        assert(path.segments[depth] == path.segments.take(depth + 1)[depth]);
        assert(path.truncated(depth) == dir);
        assert forall|at: int| depth <= at < path.segments.len() implies #[trigger] listed_on_the_way(
            disk,
            path,
            at,
        ) by {
            if at > depth {
                assert(listed_on_the_way(disk, path, at));
            }
        }
        assert(is_source_below(disk, dir, path));
    }
}

/// A walk that has listed nothing yet is on track.
pub proof fn lemma_walk_begins_on_track(disk: Disk, src: PathView)
    ensures
        on_track(WalkView::begin(src), disk),
{
    let walk = WalkView::begin(src);
    assert forall|path: PathView| #[trigger]
        is_source_below(disk, walk.src, path) <==> (walk.found.contains(path)
            || is_source_below_any(disk, walk.pending, path)) by {
        if is_source_below(disk, src, path) {
            assert(walk.pending[0] == src);
        }
    }
}

/// A walk on track stays on track when it is told the listing that the
/// file system gives for the directory it named.
pub proof fn lemma_walk_stays_on_track(disk: Disk, walk: WalkView)
    requires
        on_track(walk, disk),
        walk.current() is Some,
    ensures
        on_track(walk.record(disk(walk.current()->0)), disk),
        walk.record(disk(walk.current()->0)).src == walk.src,
{
    let dir = walk.pending.last();
    let rest = walk.pending.drop_last();
    let after = walk.record(disk(dir));
    assert(walk.unreadable is None);
    match disk(dir) {
        Err(report) => {
            if dir != walk.src {
                assert(disk(walk.src) is Ok);
                assert forall|path: PathView| #[trigger]
                    is_source_below(disk, after.src, path) <==> (after.found.contains(path)
                        || is_source_below_any(disk, after.pending, path)) by {
                    lemma_nothing_below_unreadable(disk, dir, path);
                    if is_source_below_any(disk, walk.pending, path) {
                        let k = choose|k: int|
                            0 <= k < walk.pending.len() && is_source_below(
                                disk,
                                #[trigger] walk.pending[k],
                                path,
                            );
                        assert(rest[k] == walk.pending[k]);
                    }
                    if is_source_below_any(disk, rest, path) {
                        let k = choose|k: int|
                            0 <= k < rest.len() && is_source_below(disk, #[trigger] rest[k], path);
                        assert(walk.pending[k] == rest[k]);
                    }
                }
            }
        },
        Ok(entries) => {
            let below = subdirectories(dir, entries);
            if disk(walk.src) is Err {
                assert(walk.pending[0] == walk.src);
            }
            assert forall|path: PathView| #[trigger]
                is_source_below(disk, after.src, path) <==> (after.found.contains(path)
                    || is_source_below_any(disk, after.pending, path)) by {
                lemma_sources_below_unfold(disk, dir, path);
                if is_source_below_any(disk, walk.pending, path) {
                    let k = choose|k: int|
                        0 <= k < walk.pending.len() && is_source_below(
                            disk,
                            #[trigger] walk.pending[k],
                            path,
                        );
                    if k < rest.len() {
                        assert(after.pending[k] == walk.pending[k]);
                    }
                }
                if is_source_below_any(disk, below, path) {
                    let j = choose|j: int|
                        0 <= j < below.len() && is_source_below(disk, #[trigger] below[j], path);
                    assert(after.pending[rest.len() + j] == below[j]);
                }
                if is_source_below_any(disk, after.pending, path) {
                    let k = choose|k: int|
                        0 <= k < after.pending.len() && is_source_below(
                            disk,
                            #[trigger] after.pending[k],
                            path,
                        );
                    if k < rest.len() {
                        assert(walk.pending[k] == after.pending[k]);
                    } else {
                        assert(below[k - rest.len()] == after.pending[k]);
                        assert(is_source_below(disk, dir, path));
                        assert(walk.pending[walk.pending.len() - 1] == dir);
                    }
                }
                if direct_sources(dir, entries).contains(path) {
                    assert(walk.pending[walk.pending.len() - 1] == dir);
                }
                if is_source_below(disk, dir, path) {
                    assert(walk.pending[walk.pending.len() - 1] == dir);
                }
            }
        },
    }
}

/// A walk on track is still on track after any number of listings.
pub proof fn lemma_walked_stays_on_track(disk: Disk, walk: WalkView, steps: nat)
    requires
        on_track(walk, disk),
    ensures
        on_track(walked(disk, walk, steps), disk),
        walked(disk, walk, steps).src == walk.src,
    decreases steps,
{
    if steps > 0 && walk.current() is Some {
        lemma_walk_stays_on_track(disk, walk);
        lemma_walked_stays_on_track(
            disk,
            walk.record(disk(walk.current()->0)),
            (steps - 1) as nat,
        );
    }
}

/// What collecting the sources below `src` comes to on a file system: the
/// source files at any depth below `src`; a failure where `src` itself
/// cannot be listed, and where there is no source file.
pub open spec fn collected(disk: Disk, src: PathView) -> Result<Set<PathView>, FailureView> {
    match disk(src) {
        Err(report) => Err(
            FailureView::bare(ErrorKind::SourceDirUnreadable, src.text()).caused_by(report),
        ),
        Ok(_) => if sources_below(disk, src) == Set::<PathView>::empty() {
            Err(FailureView::bare(ErrorKind::NoSourceFiles, src.text()))
        } else {
            Ok(sources_below(disk, src))
        },
    }
}

/// A walk on track that has no directory left has come to what collecting
/// comes to on the file system.
pub proof fn lemma_walk_on_track_ends_right(disk: Disk, walk: WalkView)
    requires
        on_track(walk, disk),
        walk.pending.len() == 0,
    ensures
        walk.outcome() == Some(collected(disk, walk.src)),
{
    if walk.unreadable is None {
        assert(walk.pending =~= Seq::<PathView>::empty());
        assert forall|path: PathView| walk.found.contains(path) == sources_below(
            disk,
            walk.src,
        ).contains(path) by {
            assert(is_source_below(disk, walk.src, path) <==> (walk.found.contains(path)
                || is_source_below_any(disk, walk.pending, path)));
        }
        assert(walk.found =~= sources_below(disk, walk.src));
    }
}

/// For every file system: once no directory is left to list, the walk has
/// found exactly the source files at any depth below the source directory,
/// no other file and no directory. It fails where the source directory
/// itself could not be listed, and where there is no source file.
pub proof fn lemma_walk_finds_exactly_the_sources(disk: Disk, src: PathView, steps: nat)
    requires
        walked(disk, WalkView::begin(src), steps).pending.len() == 0,
    ensures
        walked(disk, WalkView::begin(src), steps).outcome() == Some(collected(disk, src)),
{
    lemma_walk_begins_on_track(disk, src);
    lemma_walked_stays_on_track(disk, WalkView::begin(src), steps);
    lemma_walk_on_track_ends_right(disk, walked(disk, WalkView::begin(src), steps));
}

/// A source directory without any source file below it makes the walk fail
/// with the report that nothing was found, whatever else it holds: other
/// files, empty directories, directories that cannot be listed.
pub proof fn lemma_walk_without_sources_fails(disk: Disk, src: PathView, steps: nat)
    requires
        walked(disk, WalkView::begin(src), steps).pending.len() == 0,
        disk(src) is Ok,
        forall|path: PathView| !is_source_below(disk, src, path),
    ensures
        walked(disk, WalkView::begin(src), steps).outcome() == Some(
            Err::<Set<PathView>, FailureView>(
                FailureView::bare(ErrorKind::NoSourceFiles, src.text()),
            ),
        ),
{
    lemma_walk_finds_exactly_the_sources(disk, src, steps);
    assert(sources_below(disk, src) =~= Set::<PathView>::empty());
}

} // verus!
