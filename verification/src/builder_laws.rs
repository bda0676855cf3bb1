//! What a build resolves to, for every file system.
//!
//! Before the target directory and the compiler come into play, a build
//! only lists directories and reads the manifest. The law of this module
//! says that a build whose requests were answered from a file system has
//! resolved exactly what that file system holds: the nearest root, the name
//! that its manifest declares, and the source files below its source
//! directory.

use vstd::prelude::*;
use crate::builder::name_read;
use crate::builder::BuildView;
use crate::collect_laws::collected;
use crate::collect_laws::lemma_walk_begins_on_track;
use crate::collect_laws::lemma_walk_on_track_ends_right;
use crate::collect_laws::lemma_walk_stays_on_track;
use crate::collect_laws::on_track;
use crate::collect_laws::sources_below;
use crate::compile::binary_of;
use crate::compile::InvocationView;
use crate::compile::SOURCE_DIR_NAME;
use crate::effects::CreationView;
use crate::effects::EventView;
use crate::effects::RequestView;
use crate::error::FailureView;
use crate::error::Operation;
use crate::listing::Disk;
use crate::locate::located;
use crate::manifest::MANIFEST_FILE_NAME;
use crate::path::PathView;

verus! {

/// What reading each file gives: its text, or the report of the operating
/// system.
pub type Shelf = spec_fn(PathView) -> Result<Seq<char>, Seq<char>>;

/// Whether the build still has to find out what the project is: it asks
/// for a listing or for the manifest.
pub open spec fn is_resolving(build: BuildView) -> bool {
    build.request() is ListDirectory || build.request() is ReadFile
}

/// The build after at most `steps` more of its requests for listings and
/// file texts were answered from `disk` and `shelf`; it stops at the first
/// request of another kind.
pub open spec fn resolved(disk: Disk, shelf: Shelf, build: BuildView, steps: nat) -> BuildView
    decreases steps,
{
    if steps == 0 {
        build
    } else {
        match build.request() {
            RequestView::ListDirectory(dir) => resolved(
                disk,
                shelf,
                build.advance(EventView::Listed(disk(dir))),
                (steps - 1) as nat,
            ),
            RequestView::ReadFile(path) => resolved(
                disk,
                shelf,
                build.advance(EventView::Read(shelf(path))),
                (steps - 1) as nat,
            ),
            _ => build,
        }
    }
}

/// Where a build that has the root and the name of the project stands once
/// the sources below `root` are collected.
pub open spec fn with_sources(disk: Disk, root: PathView, name: Seq<char>) -> BuildView {
    let src = root.child(SOURCE_DIR_NAME@);
    match collected(disk, src) {
        Ok(sources) => BuildView::ProbingTarget { root, name, sources },
        Err(failure) => BuildView::Failed {
            failure: failure.during(Operation::GatheringSources, src.text()),
        },
    }
}

/// Where a build that has the root of the project stands once the manifest
/// is read and the sources are collected.
pub open spec fn with_name(disk: Disk, shelf: Shelf, root: PathView) -> BuildView {
    match name_read(root, shelf(root.child(MANIFEST_FILE_NAME@))) {
        Ok(name) => with_sources(disk, root, name),
        Err(failure) => BuildView::Failed { failure },
    }
}

/// Where a build that looks for its project from `dir` upwards, having
/// started in `start`, stands once it has resolved the project: ready to
/// look for the target directory, with the nearest root above `dir`, the
/// name that the manifest in that root declares and the source files below
/// its source directory; or failed with the first thing that went wrong.
pub open spec fn resolution(disk: Disk, shelf: Shelf, start: PathView, dir: PathView)
    -> BuildView {
    match located(disk, dir) {
        Ok(root) => with_name(disk, shelf, root),
        Err(failure) => BuildView::Failed {
            failure: failure.during(Operation::LocatingProject, start.text()),
        },
    }
}

/// What remains true of a build while it resolves the project on a file
/// system, and where it is bound to end.
pub open spec fn heads_for(disk: Disk, shelf: Shelf, build: BuildView, end: BuildView) -> bool {
    match build {
        BuildView::Locating { start, dir } => end == resolution(disk, shelf, start, dir),
        BuildView::ReadingManifest { root } => end == with_name(disk, shelf, root),
        BuildView::Collecting { root, name, walk } => {
            &&& walk.src == root.child(SOURCE_DIR_NAME@)
            &&& walk.pending.len() > 0
            &&& on_track(walk, disk)
            &&& end == with_sources(disk, root, name)
        },
        _ => end == build,
    }
}

/// One answered request keeps the build heading for the same end.
pub proof fn lemma_step_heads_for_the_same_end(
    disk: Disk,
    shelf: Shelf,
    build: BuildView,
    end: BuildView,
)
    requires
        heads_for(disk, shelf, build, end),
        is_resolving(build),
    ensures
        heads_for(
            disk,
            shelf,
            match build.request() {
                RequestView::ListDirectory(dir) => build.advance(EventView::Listed(disk(dir))),
                RequestView::ReadFile(path) => build.advance(EventView::Read(shelf(path))),
                _ => build,
            },
            end,
        ),
{
    match build {
        BuildView::Locating { start, dir } => {},
        BuildView::ReadingManifest { root } => {
            lemma_walk_begins_on_track(disk, root.child(SOURCE_DIR_NAME@));
        },
        BuildView::Collecting { root, name, walk } => {
            let next = walk.record(disk(walk.current()->0));
            lemma_walk_stays_on_track(disk, walk);
            if next.pending.len() == 0 {
                lemma_walk_on_track_ends_right(disk, next);
            }
        },
        _ => {},
    }
}

/// For every file system: a build that started in `start`, had its
/// requests answered from the file system and no longer asks for a listing
/// or for the manifest has resolved the project as the file system has it.
pub proof fn lemma_build_resolves_the_project(
    disk: Disk,
    shelf: Shelf,
    start: PathView,
    steps: nat,
)
    requires
        !is_resolving(resolved(disk, shelf, BuildView::start(start), steps)),
    ensures
        resolved(disk, shelf, BuildView::start(start), steps) == resolution(
            disk,
            shelf,
            start,
            start,
        ),
{
    lemma_resolved_reaches_the_end(
        disk,
        shelf,
        BuildView::start(start),
        resolution(disk, shelf, start, start),
        steps,
    );
}

/// A build that heads for an end and has stopped resolving has reached it.
pub proof fn lemma_resolved_reaches_the_end(
    disk: Disk,
    shelf: Shelf,
    build: BuildView,
    end: BuildView,
    steps: nat,
)
    requires
        heads_for(disk, shelf, build, end),
        !is_resolving(resolved(disk, shelf, build, steps)),
    ensures
        resolved(disk, shelf, build, steps) == end,
    decreases steps,
{
    if steps > 0 && is_resolving(build) {
        lemma_step_heads_for_the_same_end(disk, shelf, build, end);
        let next = match build.request() {
            RequestView::ListDirectory(dir) => build.advance(EventView::Listed(disk(dir))),
            RequestView::ReadFile(path) => build.advance(EventView::Read(shelf(path))),
            _ => build,
        };
        lemma_resolved_reaches_the_end(disk, shelf, next, end, (steps - 1) as nat);
    }
}

/// A sound project builds: where the file system has a root above the
/// start, a manifest there that declares a name, and at least one source
/// file below the source directory, a build whose requests were answered
/// from the file system gets ready to compile exactly those sources and,
/// once the compiler reports success, has written the binary named after
/// the manifest into the target directory of the root.
pub proof fn lemma_sound_project_builds(
    disk: Disk,
    shelf: Shelf,
    start: PathView,
    steps: nat,
    root: PathView,
    name: Seq<char>,
)
    requires
        !is_resolving(resolved(disk, shelf, BuildView::start(start), steps)),
        located(disk, start) == Ok::<PathView, FailureView>(root),
        name_read(root, shelf(root.child(MANIFEST_FILE_NAME@))) == Ok::<Seq<char>, FailureView>(
            name,
        ),
        collected(disk, root.child(SOURCE_DIR_NAME@)) is Ok,
    ensures
        ({
            let ready = resolved(disk, shelf, BuildView::start(start), steps);
            let sources = sources_below(disk, root.child(SOURCE_DIR_NAME@));
            let compiling = BuildView::Compiling {
                invocation: InvocationView { output: binary_of(root, name), sources },
            };
            &&& ready == (BuildView::ProbingTarget { root, name, sources })
            &&& name.len() > 0
            &&& sources != Set::<PathView>::empty()
            &&& ready.advance(EventView::Probed(Ok(true))) == compiling
            &&& ready.advance(EventView::Probed(Ok(false))).advance(
                EventView::Created(CreationView::Done),
            ) == compiling
            &&& compiling.advance(EventView::Exited(Ok(true))).outcome() == Some(
                Ok::<PathView, FailureView>(binary_of(root, name)),
            )
        }),
{
    lemma_build_resolves_the_project(disk, shelf, start, steps);
}

} // verus!
