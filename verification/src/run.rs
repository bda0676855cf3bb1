//! Running what a build has written: finding the binary below the project
//! root, starting it and waiting for it.

use vstd::prelude::*;
use crate::builder::BuildView;
use crate::compile::binary_of;
use crate::compile::binary_path;
use crate::compile::InvocationView;
use crate::effects::Event;
use crate::effects::EventView;
use crate::effects::Request;
use crate::effects::RequestView;
use crate::error::ErrorKind;
use crate::error::Failure;
use crate::error::FailureView;
use crate::error::Operation;
use crate::path::PathView;
use crate::path::ProjectPath;

verus! {

/// Where the binary of the project rooted at `root` is expected: below the
/// target directory, under the name that the manifest declares. That name
/// is `name`. Only a project without a manifest has none to give: its
/// binary is called after the root directory itself, and a root without a
/// name of its own has no such place.
pub open spec fn expected_binary(root: PathView, name: Option<Seq<char>>) -> Result<
    PathView,
    FailureView,
> {
    match name {
        Some(given) => Ok(binary_of(root, given)),
        None => match root.file_name() {
            Some(own) => Ok(binary_of(root, own)),
            None => Err(FailureView::bare(ErrorKind::ProjectNameUnavailable, Seq::empty())),
        },
    }
}

/// The binary, once it is known whether something exists where it is
/// expected.
pub open spec fn binary_found(root: PathView, name: Option<Seq<char>>, present: bool) -> Result<
    PathView,
    FailureView,
> {
    match expected_binary(root, name) {
        Err(failure) => Err(failure),
        Ok(path) => if present {
            Ok(path)
        } else {
            Err(FailureView::bare(ErrorKind::BinaryNotFound, path.text()))
        },
    }
}

/// Whether `outcome` is the path or the failure that `expected` says.
pub open spec fn yields(
    outcome: Result<ProjectPath, Failure>,
    expected: Result<PathView, FailureView>,
) -> bool {
    match outcome {
        Ok(path) => expected == Ok::<PathView, FailureView>(path@),
        Err(failure) => expected == Err::<PathView, FailureView>(failure@),
    }
}

/// The view of a name that may be given.
pub open spec fn name_view(name: Option<&str>) -> Option<Seq<char>> {
    match name {
        Some(given) => Some(given@),
        None => None,
    }
}

/// Where the binary of the project rooted at `project_root` is expected.
pub fn expected_project_binary(project_root: &ProjectPath, name: Option<&str>) -> (outcome: Result<
    ProjectPath,
    Failure,
>)
    ensures
        yields(outcome, expected_binary(project_root@, name_view(name))),
{
    match name {
        Some(given) => Ok(binary_path(project_root, given)),
        None => match project_root.file_name() {
            Some(own) => Ok(binary_path(project_root, own.as_str())),
            None => Err(Failure::plain(ErrorKind::ProjectNameUnavailable)),
        },
    }
}

/// The binary of the project rooted at `project_root`, given whether
/// something exists where it is expected. `name` is the name that the
/// manifest declares; `None` is for a project without a manifest, whose
/// binary is called after its root directory.
pub fn find_project_binary(project_root: &ProjectPath, name: Option<&str>, present: bool) -> (outcome:
    Result<ProjectPath, Failure>)
    ensures
        yields(outcome, binary_found(project_root@, name_view(name), present)),
{
    match expected_project_binary(project_root, name) {
        Err(failure) => Err(failure),
        Ok(path) => {
            if present {
                Ok(path)
            } else {
                let text = path.render();
                Err(Failure::new(ErrorKind::BinaryNotFound, text))
            }
        },
    }
}

/// The mathematical value of a [`Run`].
pub enum RunView {
    Probing { binary: PathView },
    Starting { binary: PathView },
    Waiting { binary: PathView },
    Finished { binary: PathView },
    Failed { failure: FailureView },
}

impl RunView {
    /// The run of the project rooted at `root`.
    pub open spec fn start(root: PathView, name: Option<Seq<char>>) -> RunView {
        match expected_binary(root, name) {
            Ok(binary) => RunView::Probing { binary },
            Err(failure) => RunView::Failed {
                failure: failure.during(Operation::FindingBinary, Seq::empty()),
            },
        }
    }

    /// The outside work that the run needs next.
    pub open spec fn request(self) -> RequestView {
        match self {
            RunView::Probing { binary } => RequestView::Probe(binary),
            RunView::Starting { binary } => RequestView::Start(binary),
            RunView::Waiting { binary } => RequestView::Await,
            RunView::Finished { binary } => RequestView::Nothing,
            RunView::Failed { failure } => RequestView::Nothing,
        }
    }

    /// The run after `event`. The binary counts as missing unless the probe
    /// said that it exists. How the program itself ended is not looked at:
    /// the run has succeeded once the program was started and waited for.
    pub open spec fn advance(self, event: EventView) -> RunView {
        match (self, event) {
            (RunView::Probing { binary }, EventView::Probed(probe)) => if probe == Ok::<
                bool,
                Seq<char>,
            >(true) {
                RunView::Starting { binary }
            } else {
                RunView::Failed {
                    failure: FailureView::bare(ErrorKind::BinaryNotFound, binary.text()).with_cause(
                        match probe {
                            Ok(_) => None,
                            Err(report) => Some(report),
                        },
                    ).during(Operation::FindingBinary, Seq::empty()),
                }
            },
            (RunView::Starting { binary }, EventView::Completed(done)) => match done {
                Ok(_) => RunView::Waiting { binary },
                Err(report) => RunView::Failed {
                    failure: FailureView::bare(ErrorKind::SpawnFailed, binary.text()).caused_by(
                        report,
                    ).during(Operation::RunningBinary, Seq::empty()),
                },
            },
            (RunView::Waiting { binary }, EventView::Completed(done)) => match done {
                Ok(_) => RunView::Finished { binary },
                Err(report) => RunView::Failed {
                    failure: FailureView::bare(ErrorKind::WaitFailed, binary.text()).caused_by(
                        report,
                    ).during(Operation::RunningBinary, Seq::empty()),
                },
            },
            _ => self,
        }
    }

    /// How the run ended, once it has.
    pub open spec fn outcome(self) -> Option<Result<PathView, FailureView>> {
        match self {
            RunView::Finished { binary } => Some(Ok(binary)),
            RunView::Failed { failure } => Some(Err(failure)),
            _ => None,
        }
    }
}

/// A run of the built binary and the stage it has reached.
#[derive(Debug)]
pub enum Run {
    /// It is to be found out whether the binary exists.
    Probing { binary: ProjectPath },
    /// The binary is to be started.
    Starting { binary: ProjectPath },
    /// The started binary is to be waited for.
    Waiting { binary: ProjectPath },
    /// The binary ran to its end.
    Finished { binary: ProjectPath },
    /// The run has failed.
    Failed { failure: Failure },
}

impl View for Run {
    type V = RunView;

    open spec fn view(&self) -> RunView {
        match self {
            Run::Probing { binary } => RunView::Probing { binary: binary@ },
            Run::Starting { binary } => RunView::Starting { binary: binary@ },
            Run::Waiting { binary } => RunView::Waiting { binary: binary@ },
            Run::Finished { binary } => RunView::Finished { binary: binary@ },
            Run::Failed { failure } => RunView::Failed { failure: failure@ },
        }
    }
}

impl Run {
    /// The run of the project rooted at `project_root`. `name` is the name
    /// that the manifest declares; `None` is for a project without a
    /// manifest, whose binary is called after its root directory.
    pub fn start(project_root: &ProjectPath, name: Option<&str>) -> (run: Run)
        ensures
            run@ == RunView::start(project_root@, name_view(name)),
    {
        match expected_project_binary(project_root, name) {
            Ok(binary) => Run::Probing { binary },
            Err(failure) => Run::Failed {
                failure: failure.during(Operation::FindingBinary, String::new()),
            },
        }
    }

    /// The run of a binary that a build has written: `binary` is the path
    /// that the build ended with.
    pub fn of_binary(binary: &ProjectPath) -> (run: Run)
        ensures
            run@ == (RunView::Probing { binary: binary@ }),
    {
        Run::Probing { binary: binary.clone() }
    }

    /// The outside work that the run needs next.
    pub fn request(&self) -> (request: Request)
        ensures
            request@ == self@.request(),
    {
        match self {
            Run::Probing { binary } => Request::Probe(binary.clone()),
            Run::Starting { binary } => Request::Start(binary.clone()),
            Run::Waiting { binary } => Request::Await,
            Run::Finished { binary } => Request::Nothing,
            Run::Failed { failure } => Request::Nothing,
        }
    }

    /// The run after `event`, which is what came of the work that the run
    /// asked for.
    pub fn advance(self, event: Event) -> (run: Run)
        ensures
            run@ == self@.advance(event@),
    {
        match self {
            Run::Probing { binary } => match event {
                Event::Probed(probe) => match probe {
                    Ok(present) => {
                        if present {
                            Run::Starting { binary }
                        } else {
                            let failure = Failure::new(ErrorKind::BinaryNotFound, binary.render());
                            assert(failure@.with_cause(None) == failure@);
                            Run::Failed {
                                failure: failure.during(Operation::FindingBinary, String::new()),
                            }
                        }
                    },
                    Err(report) => {
                        let failure = Failure::new(
                            ErrorKind::BinaryNotFound,
                            binary.render(),
                        ).caused_by(report);
                        Run::Failed {
                            failure: failure.during(Operation::FindingBinary, String::new()),
                        }
                    },
                },
                _ => Run::Probing { binary },
            },
            Run::Starting { binary } => match event {
                Event::Completed(done) => match done {
                    Ok(_) => Run::Waiting { binary },
                    Err(report) => Run::Failed {
                        failure: Failure::new(ErrorKind::SpawnFailed, binary.render()).caused_by(
                            report,
                        ).during(Operation::RunningBinary, String::new()),
                    },
                },
                _ => Run::Starting { binary },
            },
            Run::Waiting { binary } => match event {
                Event::Completed(done) => match done {
                    Ok(_) => Run::Finished { binary },
                    Err(report) => Run::Failed {
                        failure: Failure::new(ErrorKind::WaitFailed, binary.render()).caused_by(
                            report,
                        ).during(Operation::RunningBinary, String::new()),
                    },
                },
                _ => Run::Waiting { binary },
            },
            Run::Finished { binary } => Run::Finished { binary },
            Run::Failed { failure } => Run::Failed { failure },
        }
    }

    /// How the run ended, once it has: the binary that ran, or the failure.
    pub fn outcome(&self) -> (outcome: Option<Result<ProjectPath, Failure>>)
        ensures
            match outcome {
                None => self@.outcome() is None,
                Some(Ok(binary)) => self@.outcome() == Some(
                    Ok::<PathView, FailureView>(binary@),
                ),
                Some(Err(failure)) => self@.outcome() == Some(
                    Err::<PathView, FailureView>(failure@),
                ),
            },
    {
        match self {
            Run::Finished { binary } => Some(Ok(binary.clone())),
            Run::Failed { failure } => Some(Err(failure.clone())),
            _ => None,
        }
    }
}

/// A run whose probe finds nothing where the binary is expected fails with
/// the report that names that place, before anything is started.
pub proof fn lemma_run_without_binary_fails(root: PathView, name: Seq<char>)
    ensures
        RunView::start(root, Some(name)).advance(EventView::Probed(Ok(false))).outcome() == Some(
            Err::<PathView, FailureView>(
                FailureView::bare(ErrorKind::BinaryNotFound, binary_of(root, name).text()).during(
                    Operation::FindingBinary,
                    Seq::empty(),
                ),
            ),
        ),
        RunView::start(root, Some(name)).advance(EventView::Probed(Ok(false))).request()
            == RequestView::Nothing,
{
    let failure = FailureView::bare(ErrorKind::BinaryNotFound, binary_of(root, name).text());
    assert(failure.with_cause(None) == failure);
}

/// The run consumes what the build produces: a build of the project
/// rooted at `root` whose manifest declares `name` ends, once the compiler
/// has reported success, with the very path at which a run of that project
/// under that name looks for the binary, and at which a run of the built
/// binary looks. The name of the root directory plays no part.
pub proof fn lemma_run_looks_where_the_build_wrote(
    root: PathView,
    name: Seq<char>,
    sources: Set<PathView>,
)
    ensures
        ({
            let built = (BuildView::Compiling {
                invocation: InvocationView { output: binary_of(root, name), sources },
            }).advance(EventView::Exited(Ok(true)));
            let run = RunView::start(root, Some(name));
            &&& built == (BuildView::Built { binary: binary_of(root, name) })
            &&& run == (RunView::Probing { binary: binary_of(root, name) })
            &&& run.request() == RequestView::Probe(binary_of(root, name))
            &&& binary_found(root, Some(name), true) == Ok::<PathView, FailureView>(
                binary_of(root, name),
            )
            &&& binary_found(root, Some(name), false) == Err::<PathView, FailureView>(
                FailureView::bare(ErrorKind::BinaryNotFound, binary_of(root, name).text()),
            )
        }),
{
}

/// A run decides about the binary as `binary_found` does: told whether
/// something exists where the binary is expected, it goes on to start the
/// binary where `binary_found` gives its path, and fails with the failure
/// that `binary_found` gives, as part of finding the binary, where it
/// gives one.
pub proof fn lemma_run_finds_what_is_found(root: PathView, name: Option<Seq<char>>, present: bool)
    ensures
        RunView::start(root, name).advance(EventView::Probed(Ok(present))) == match binary_found(
            root,
            name,
            present,
        ) {
            Ok(binary) => RunView::Starting { binary },
            Err(failure) => RunView::Failed {
                failure: failure.during(Operation::FindingBinary, Seq::empty()),
            },
        },
{
    if expected_binary(root, name) is Ok {
        let missing = FailureView::bare(
            ErrorKind::BinaryNotFound,
            expected_binary(root, name)->Ok_0.text(),
        );
        assert(missing.with_cause(None) == missing);
    }
}

} // verus!
