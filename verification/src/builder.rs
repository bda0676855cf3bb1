//! The build, from a starting directory to a binary.
//!
//! A [`Build`] goes through the stages in order: it looks for the project
//! root, reads the manifest for the project's name, collects the sources,
//! makes sure that the target directory is there, and has the compiler run.
//! At every stage it names the outside work it needs and is told what came
//! of it; the first failure ends it.

use vstd::prelude::*;
use crate::collect::SourceSet;
use crate::collect::SourceWalk;
use crate::collect::WalkView;
use crate::compile::binary_of;
use crate::compile::binary_path;
use crate::compile::build_src_files;
use crate::compile::compilation_result;
use crate::compile::compiled;
use crate::compile::ensure_target_dir_exists;
use crate::compile::target_created;
use crate::compile::target_dir_created;
use crate::compile::target_step;
use crate::compile::Invocation;
use crate::compile::InvocationView;
use crate::compile::SOURCE_DIR_NAME;
use crate::compile::TARGET_DIR_NAME;
use crate::effects::CreationView;
use crate::effects::Event;
use crate::effects::EventView;
use crate::effects::Request;
use crate::effects::RequestView;
use crate::error::ErrorKind;
use crate::error::Failure;
use crate::error::FailureView;
use crate::error::Operation;
use crate::locate::find_project_root;
use crate::locate::search_step;
use crate::locate::Search;
use crate::locate::SearchView;
use crate::manifest::declared_name;
use crate::manifest::get_project_manifest;
use crate::manifest::get_project_name;
use crate::manifest::manifest_path;
use crate::manifest::parsed;
use crate::manifest::MANIFEST_FILE_NAME;
use crate::path::PathView;
use crate::path::ProjectPath;

verus! {

/// The mathematical value of a [`Build`].
pub enum BuildView {
    Locating { start: PathView, dir: PathView },
    ReadingManifest { root: PathView },
    Collecting { root: PathView, name: Seq<char>, walk: WalkView },
    ProbingTarget { root: PathView, name: Seq<char>, sources: Set<PathView> },
    CreatingTarget { root: PathView, name: Seq<char>, sources: Set<PathView> },
    Compiling { invocation: InvocationView },
    Built { binary: PathView },
    Failed { failure: FailureView },
}

/// What reading the manifest of the project rooted at `root` leads to: the
/// project's name, or the failure with the layer that tells which of the
/// two steps, reading the document or taking the name from it, went wrong.
pub open spec fn name_read(root: PathView, content: Result<Seq<char>, Seq<char>>) -> Result<
    Seq<char>,
    FailureView,
> {
    let path = root.child(MANIFEST_FILE_NAME@).text();
    match content {
        Err(report) => Err(
            FailureView::bare(ErrorKind::ManifestUnreadable, path).caused_by(report).during(
                Operation::ParsingManifest,
                Seq::empty(),
            ),
        ),
        Ok(text) => match parsed(text) {
            Err(complaint) => Err(
                FailureView::bare(ErrorKind::ManifestUnparsable, path).caused_by(
                    complaint,
                ).during(Operation::ParsingManifest, Seq::empty()),
            ),
            Ok(entries) => match declared_name(entries) {
                Err(kind) => Err(
                    FailureView::bare(kind, Seq::empty()).during(
                        Operation::ParsingName,
                        Seq::empty(),
                    ),
                ),
                Ok(name) => Ok(name),
            },
        },
    }
}

impl BuildView {
    /// The build that starts in `current_dir`.
    pub open spec fn start(current_dir: PathView) -> BuildView {
        BuildView::Locating { start: current_dir, dir: current_dir }
    }

    /// The outside work that the build needs next.
    pub open spec fn request(self) -> RequestView {
        match self {
            BuildView::Locating { start, dir } => RequestView::ListDirectory(dir),
            BuildView::ReadingManifest { root } => RequestView::ReadFile(
                root.child(MANIFEST_FILE_NAME@),
            ),
            BuildView::Collecting { root, name, walk } => match walk.current() {
                Some(dir) => RequestView::ListDirectory(dir),
                None => RequestView::Nothing,
            },
            BuildView::ProbingTarget { root, name, sources } => RequestView::Probe(
                root.child(TARGET_DIR_NAME@),
            ),
            BuildView::CreatingTarget { root, name, sources } => RequestView::CreateDirectory(
                root.child(TARGET_DIR_NAME@),
            ),
            BuildView::Compiling { invocation } => RequestView::Compile(invocation),
            BuildView::Built { binary } => RequestView::Nothing,
            BuildView::Failed { failure } => RequestView::Nothing,
        }
    }

    /// The build after `event`. An event that does not answer the build's
    /// request leaves it as it is, and so does any event once the build is
    /// over.
    pub open spec fn advance(self, event: EventView) -> BuildView {
        match (self, event) {
            (BuildView::Locating { start, dir }, EventView::Listed(listing)) => match search_step(
                dir,
                listing,
            ) {
                SearchView::Found(root) => BuildView::ReadingManifest { root },
                SearchView::Ascend(above) => BuildView::Locating { start, dir: above },
                SearchView::Failed(failure) => BuildView::Failed {
                    failure: failure.during(Operation::LocatingProject, start.text()),
                },
            },
            (BuildView::ReadingManifest { root }, EventView::Read(content)) => match name_read(
                root,
                content,
            ) {
                Ok(name) => BuildView::Collecting {
                    root,
                    name,
                    walk: WalkView::begin(root.child(SOURCE_DIR_NAME@)),
                },
                Err(failure) => BuildView::Failed { failure },
            },
            (BuildView::Collecting { root, name, walk }, EventView::Listed(listing)) => {
                let next = walk.record(listing);
                match next.outcome() {
                    None => BuildView::Collecting { root, name, walk: next },
                    Some(Ok(sources)) => BuildView::ProbingTarget { root, name, sources },
                    Some(Err(failure)) => BuildView::Failed {
                        failure: failure.during(Operation::GatheringSources, walk.src.text()),
                    },
                }
            },
            (
                BuildView::ProbingTarget { root, name, sources },
                EventView::Probed(probe),
            ) => match target_step(root.child(TARGET_DIR_NAME@), probe) {
                Ok(create) => if create {
                    BuildView::CreatingTarget { root, name, sources }
                } else {
                    BuildView::Compiling {
                        invocation: InvocationView { output: binary_of(root, name), sources },
                    }
                },
                Err(failure) => BuildView::Failed {
                    failure: failure.during(Operation::EnsuringTarget, Seq::empty()),
                },
            },
            (
                BuildView::CreatingTarget { root, name, sources },
                EventView::Created(creation),
            ) => match target_created(root.child(TARGET_DIR_NAME@), creation) {
                Ok(_) => BuildView::Compiling {
                    invocation: InvocationView { output: binary_of(root, name), sources },
                },
                Err(failure) => BuildView::Failed {
                    failure: failure.during(Operation::EnsuringTarget, Seq::empty()),
                },
            },
            (BuildView::Compiling { invocation }, EventView::Exited(exit)) => match compiled(exit) {
                Ok(_) => BuildView::Built { binary: invocation.output },
                Err(failure) => BuildView::Failed {
                    failure: failure.during(Operation::BuildingSources, Seq::empty()),
                },
            },
            _ => self,
        }
    }

    /// How the build ended, once it has.
    pub open spec fn outcome(self) -> Option<Result<PathView, FailureView>> {
        match self {
            BuildView::Built { binary } => Some(Ok(binary)),
            BuildView::Failed { failure } => Some(Err(failure)),
            _ => None,
        }
    }
}

/// A build and the stage it has reached.
#[derive(Debug)]
pub enum Build {
    /// Looking for the project root; `dir` is to be listed next.
    Locating { start: ProjectPath, dir: ProjectPath },
    /// The root is known; its manifest is to be read.
    ReadingManifest { root: ProjectPath },
    /// The name is known; the sources are being collected.
    Collecting { root: ProjectPath, name: String, walk: SourceWalk },
    /// The sources are known; it is to be found out whether the target
    /// directory exists.
    ProbingTarget { root: ProjectPath, name: String, sources: SourceSet },
    /// The target directory is to be created.
    CreatingTarget { root: ProjectPath, name: String, sources: SourceSet },
    /// The compiler is to run.
    Compiling { invocation: Invocation },
    /// The compiler has written the binary.
    Built { binary: ProjectPath },
    /// The build has failed.
    Failed { failure: Failure },
}

impl View for Build {
    type V = BuildView;

    open spec fn view(&self) -> BuildView {
        match self {
            Build::Locating { start, dir } => BuildView::Locating { start: start@, dir: dir@ },
            Build::ReadingManifest { root } => BuildView::ReadingManifest { root: root@ },
            Build::Collecting { root, name, walk } => BuildView::Collecting {
                root: root@,
                name: name@,
                walk: walk@,
            },
            Build::ProbingTarget { root, name, sources } => BuildView::ProbingTarget {
                root: root@,
                name: name@,
                sources: sources@,
            },
            Build::CreatingTarget { root, name, sources } => BuildView::CreatingTarget {
                root: root@,
                name: name@,
                sources: sources@,
            },
            Build::Compiling { invocation } => BuildView::Compiling { invocation: invocation@ },
            Build::Built { binary } => BuildView::Built { binary: binary@ },
            Build::Failed { failure } => BuildView::Failed { failure: failure@ },
        }
    }
}

/// Reads the project's name from what reading the manifest file gave.
pub fn read_project_name(project_root: &ProjectPath, content: Result<String, String>) -> (outcome:
    Result<String, Failure>)
    ensures
        match outcome {
            Ok(name) => name_read(project_root@, content_view(content)) == Ok::<
                Seq<char>,
                FailureView,
            >(name@),
            Err(failure) => name_read(project_root@, content_view(content)) == Err::<
                Seq<char>,
                FailureView,
            >(failure@),
        },
{
    match get_project_manifest(project_root, content) {
        Err(failure) => Err(failure.during(Operation::ParsingManifest, String::new())),
        Ok(manifest) => match get_project_name(&manifest) {
            Err(failure) => Err(failure.during(Operation::ParsingName, String::new())),
            Ok(name) => Ok(name),
        },
    }
}

/// The view of what reading a file gave.
pub open spec fn content_view(content: Result<String, String>) -> Result<Seq<char>, Seq<char>> {
    match content {
        Ok(text) => Ok(text@),
        Err(report) => Err(report@),
    }
}

impl Build {
    /// The build that starts in `current_dir`.
    pub fn start(current_dir: &ProjectPath) -> (build: Build)
        ensures
            build@ == BuildView::start(current_dir@),
    {
        Build::Locating { start: current_dir.clone(), dir: current_dir.clone() }
    }

    /// The outside work that the build needs next.
    pub fn request(&self) -> (request: Request)
        ensures
            request@ == self@.request(),
    {
        match self {
            Build::Locating { start, dir } => Request::ListDirectory(dir.clone()),
            Build::ReadingManifest { root } => Request::ReadFile(manifest_path(root)),
            Build::Collecting { root, name, walk } => match walk.current() {
                Some(dir) => Request::ListDirectory(dir),
                None => Request::Nothing,
            },
            Build::ProbingTarget { root, name, sources } => Request::Probe(
                root.child(TARGET_DIR_NAME),
            ),
            Build::CreatingTarget { root, name, sources } => Request::CreateDirectory(
                root.child(TARGET_DIR_NAME),
            ),
            Build::Compiling { invocation } => Request::Compile(invocation.clone()),
            Build::Built { binary } => Request::Nothing,
            Build::Failed { failure } => Request::Nothing,
        }
    }

    /// The build after `event`, which is what came of the work that the
    /// build asked for.
    pub fn advance(self, event: Event) -> (build: Build)
        ensures
            build@ == self@.advance(event@),
    {
        match self {
            Build::Locating { start, dir } => match event {
                Event::Listed(listing) => match find_project_root(&dir, &listing) {
                    Search::Found(root) => Build::ReadingManifest { root },
                    Search::Ascend(above) => Build::Locating { start, dir: above },
                    Search::Failed(failure) => Build::Failed {
                        failure: failure.during(Operation::LocatingProject, start.render()),
                    },
                },
                _ => Build::Locating { start, dir },
            },
            Build::ReadingManifest { root } => match event {
                Event::Read(content) => match read_project_name(&root, content) {
                    Ok(name) => {
                        let walk = SourceWalk::begin(&root.child(SOURCE_DIR_NAME));
                        Build::Collecting { root, name, walk }
                    },
                    Err(failure) => Build::Failed { failure },
                },
                _ => Build::ReadingManifest { root },
            },
            Build::Collecting { root, name, walk } => match event {
                Event::Listed(listing) => {
                    let next = walk.record(listing);
                    match next.outcome() {
                        None => Build::Collecting { root, name, walk: next },
                        Some(Ok(sources)) => Build::ProbingTarget { root, name, sources },
                        Some(Err(failure)) => Build::Failed {
                            failure: failure.during(
                                Operation::GatheringSources,
                                next.source_dir().render(),
                            ),
                        },
                    }
                },
                _ => Build::Collecting { root, name, walk },
            },
            Build::ProbingTarget { root, name, sources } => match event {
                Event::Probed(probe) => {
                    let target = root.child(TARGET_DIR_NAME);
                    match ensure_target_dir_exists(&target, probe) {
                        Ok(create) => {
                            if create {
                                Build::CreatingTarget { root, name, sources }
                            } else {
                                let binary = binary_path(&root, name.as_str());
                                Build::Compiling { invocation: build_src_files(sources, &binary) }
                            }
                        },
                        Err(failure) => Build::Failed {
                            failure: failure.during(Operation::EnsuringTarget, String::new()),
                        },
                    }
                },
                _ => Build::ProbingTarget { root, name, sources },
            },
            Build::CreatingTarget { root, name, sources } => match event {
                Event::Created(creation) => {
                    let target = root.child(TARGET_DIR_NAME);
                    match target_dir_created(&target, creation) {
                        Ok(_) => {
                            let binary = binary_path(&root, name.as_str());
                            Build::Compiling { invocation: build_src_files(sources, &binary) }
                        },
                        Err(failure) => Build::Failed {
                            failure: failure.during(Operation::EnsuringTarget, String::new()),
                        },
                    }
                },
                _ => Build::CreatingTarget { root, name, sources },
            },
            Build::Compiling { invocation } => match event {
                Event::Exited(exit) => match compilation_result(exit) {
                    Ok(_) => Build::Built { binary: invocation.output },
                    Err(failure) => Build::Failed {
                        failure: failure.during(Operation::BuildingSources, String::new()),
                    },
                },
                _ => Build::Compiling { invocation },
            },
            Build::Built { binary } => Build::Built { binary },
            Build::Failed { failure } => Build::Failed { failure },
        }
    }

    /// How the build ended, once it has: the path of the binary, or the
    /// failure.
    pub fn outcome(&self) -> (outcome: Option<Result<ProjectPath, Failure>>)
        ensures
            match outcome {
                None => self@.outcome() is None,
                Some(Ok(binary)) => self@.outcome() == Some(
                    Ok::<PathView, FailureView>(binary@),
                ),
                Some(Err(failure)) => self@.outcome() == Some(
                    Err::<PathView, FailureView>(failure@),
                ),
            },
    {
        match self {
            Build::Built { binary } => Some(Ok(binary.clone())),
            Build::Failed { failure } => Some(Err(failure.clone())),
            _ => None,
        }
    }
}

impl BuildView {
    /// The build after `events`, in order.
    pub open spec fn after(self, events: Seq<EventView>) -> BuildView
        decreases events.len(),
    {
        if events.len() == 0 {
            self
        } else {
            self.after(events.drop_last()).advance(events.last())
        }
    }
}

/// One more event takes the build one step further.
pub proof fn lemma_after_one_more(build: BuildView, events: Seq<EventView>, event: EventView)
    ensures
        build.after(events.push(event)) == build.after(events).advance(event),
{
    assert(events.push(event).drop_last() =~= events);
}

/// A build that is over stays as it is, whatever it is told.
pub proof fn lemma_finished_build_stays(build: BuildView, event: EventView)
    requires
        build.outcome() is Some,
    ensures
        build.advance(event) == build,
{
}

/// A build that has its sources writes the binary to the same place
/// whether the target directory was there or had to be created: below the
/// target directory of the root, under the name that the manifest declares.
pub proof fn lemma_binary_lands_in_the_same_place(
    root: PathView,
    name: Seq<char>,
    sources: Set<PathView>,
)
    ensures
        ({
            let ready = BuildView::ProbingTarget { root, name, sources };
            let fresh = ready.advance(EventView::Probed(Ok(false))).advance(
                EventView::Created(CreationView::Done),
            ).advance(EventView::Exited(Ok(true)));
            let again = ready.advance(EventView::Probed(Ok(true))).advance(
                EventView::Exited(Ok(true)),
            );
            &&& fresh == (BuildView::Built { binary: binary_of(root, name) })
            &&& again == fresh
        }),
{
}

/// Building twice: where a first build of an unchanged tree gets as far as
/// its sources, finds no target directory, creates it and compiles, a
/// second build that is told the same about the tree and finds the target
/// directory in place succeeds as well and writes the same binary.
pub proof fn lemma_second_build_overwrites_the_binary(start: PathView, unchanged: Seq<EventView>)
    requires
        BuildView::start(start).after(unchanged) is ProbingTarget,
    ensures
        ({
            let first = BuildView::start(start).after(
                unchanged.push(EventView::Probed(Ok(false))).push(
                    EventView::Created(CreationView::Done),
                ).push(EventView::Exited(Ok(true))),
            );
            let second = BuildView::start(start).after(
                unchanged.push(EventView::Probed(Ok(true))).push(EventView::Exited(Ok(true))),
            );
            &&& first is Built
            &&& second == first
        }),
{
    let begin = BuildView::start(start);
    let ready = begin.after(unchanged);
    let missing = EventView::Probed(Ok(false));
    let present = EventView::Probed(Ok(true));
    let created = EventView::Created(CreationView::Done);
    let compiled = EventView::Exited(Ok(true));
    lemma_after_one_more(begin, unchanged, missing);
    lemma_after_one_more(begin, unchanged.push(missing), created);
    lemma_after_one_more(begin, unchanged.push(missing).push(created), compiled);
    lemma_after_one_more(begin, unchanged, present);
    lemma_after_one_more(begin, unchanged.push(present), compiled);
    lemma_binary_lands_in_the_same_place(
        ready->ProbingTarget_root,
        ready->ProbingTarget_name,
        ready->ProbingTarget_sources,
    );
}

} // verus!
