//! Laying out a new project: its directory, its source directory, a
//! manifest that names it after its directory, and a first source file.

use vstd::prelude::*;
use crate::compile::SOURCE_DIR_NAME;
use crate::effects::CreationView;
use crate::effects::Event;
use crate::effects::EventView;
use crate::effects::Request;
use crate::effects::RequestView;
use crate::error::ErrorKind;
use crate::error::Failure;
use crate::error::FailureView;
use crate::error::Operation;
use crate::manifest::manifest_for;
use crate::manifest::manifest_path;
use crate::manifest::manifest_text;
use crate::manifest::MANIFEST_FILE_NAME;
use crate::path::is_compilable;
use crate::path::PathView;
use crate::path::ProjectPath;

verus! {

/// The name of the first source file of a new project.
pub const MAIN_FILE_NAME: &'static str = "main.cpp";

/// The text of the first source file of a new project.
pub const HELLO_WORLD_PROGRAM: &'static str =
    "#include <iostream>\n\nint main() {\n    std::cout << \"Hello World!\\n\";\n\n    return 0;\n}\n";

/// The mathematical value of a [`Scaffold`].
pub enum ScaffoldView {
    Probing { root: PathView },
    CreatingRoot { root: PathView },
    CreatingSources { root: PathView },
    WritingManifest { root: PathView },
    WritingProgram { root: PathView },
    Created { root: PathView },
    Failed { failure: FailureView },
}

impl ScaffoldView {
    /// The outside work that comes next.
    pub open spec fn request(self) -> RequestView {
        match self {
            ScaffoldView::Probing { root } => RequestView::Probe(root),
            ScaffoldView::CreatingRoot { root } => RequestView::CreateDirectories(root),
            ScaffoldView::CreatingSources { root } => RequestView::CreateDirectory(
                root.child(SOURCE_DIR_NAME@),
            ),
            ScaffoldView::WritingManifest { root } => match root.file_name() {
                Some(name) => RequestView::WriteFile(
                    root.child(MANIFEST_FILE_NAME@),
                    manifest_text(name),
                ),
                None => RequestView::Nothing,
            },
            ScaffoldView::WritingProgram { root } => RequestView::WriteFile(
                root.child(SOURCE_DIR_NAME@).child(MAIN_FILE_NAME@),
                HELLO_WORLD_PROGRAM@,
            ),
            ScaffoldView::Created { root } => RequestView::Nothing,
            ScaffoldView::Failed { failure } => RequestView::Nothing,
        }
    }

    /// The layout after `event`. Nothing is created where the path is
    /// taken; the path counts as free unless the probe said that something
    /// exists there. A directory that is not created ends the layout, also
    /// where something was in its place already. The manifest is written only for a root that has a
    /// name. An event that does not answer the request changes nothing.
    pub open spec fn advance(self, event: EventView) -> ScaffoldView {
        match (self, event) {
            (ScaffoldView::Probing { root }, EventView::Probed(probe)) => if probe == Ok::<
                bool,
                Seq<char>,
            >(true) {
                ScaffoldView::Failed {
                    failure: FailureView::bare(ErrorKind::PathExists, root.text()).during(
                        Operation::CreatingLayout,
                        Seq::empty(),
                    ),
                }
            } else {
                ScaffoldView::CreatingRoot { root }
            },
            (
                ScaffoldView::CreatingRoot { root },
                EventView::Created(creation),
            ) => match creation.trouble() {
                None => ScaffoldView::CreatingSources { root },
                Some(report) => ScaffoldView::Failed {
                    failure: FailureView::bare(
                        ErrorKind::ProjectDirUncreatable,
                        root.text(),
                    ).caused_by(report).during(Operation::CreatingLayout, Seq::empty()),
                },
            },
            (
                ScaffoldView::CreatingSources { root },
                EventView::Created(creation),
            ) => match creation.trouble() {
                None => if root.file_name() is Some {
                    ScaffoldView::WritingManifest { root }
                } else {
                    ScaffoldView::Failed {
                        failure: FailureView::bare(ErrorKind::RootNameUnavailable, root.text()),
                    }
                },
                Some(report) => ScaffoldView::Failed {
                    failure: FailureView::bare(
                        ErrorKind::SourceDirUncreatable,
                        root.child(SOURCE_DIR_NAME@).text(),
                    ).caused_by(report).during(Operation::CreatingLayout, Seq::empty()),
                },
            },
            (ScaffoldView::WritingManifest { root }, EventView::Completed(done)) => match done {
                Ok(_) => ScaffoldView::WritingProgram { root },
                Err(report) => ScaffoldView::Failed {
                    failure: FailureView::bare(
                        ErrorKind::ManifestUnwritable,
                        root.child(MANIFEST_FILE_NAME@).text(),
                    ).caused_by(report),
                },
            },
            (ScaffoldView::WritingProgram { root }, EventView::Completed(done)) => match done {
                Ok(_) => ScaffoldView::Created { root },
                Err(report) => ScaffoldView::Failed {
                    failure: FailureView::bare(
                        ErrorKind::SourceFileUnwritable,
                        root.child(SOURCE_DIR_NAME@).child(MAIN_FILE_NAME@).text(),
                    ).caused_by(report).during(Operation::CreatingHelloWorld, Seq::empty()),
                },
            },
            _ => self,
        }
    }

    /// How the layout ended, once it has.
    pub open spec fn outcome(self) -> Option<Result<PathView, FailureView>> {
        match self {
            ScaffoldView::Created { root } => Some(Ok(root)),
            ScaffoldView::Failed { failure } => Some(Err(failure)),
            _ => None,
        }
    }
}

/// The layout of a new project and the stage it has reached.
#[derive(Debug)]
pub enum Scaffold {
    /// It is to be found out whether the path is taken.
    Probing { root: ProjectPath },
    /// The project directory is to be created.
    CreatingRoot { root: ProjectPath },
    /// The source directory is to be created.
    CreatingSources { root: ProjectPath },
    /// The manifest is to be written.
    WritingManifest { root: ProjectPath },
    /// The first source file is to be written.
    WritingProgram { root: ProjectPath },
    /// The project is laid out.
    Created { root: ProjectPath },
    /// The layout has failed.
    Failed { failure: Failure },
}

impl View for Scaffold {
    type V = ScaffoldView;

    open spec fn view(&self) -> ScaffoldView {
        match self {
            Scaffold::Probing { root } => ScaffoldView::Probing { root: root@ },
            Scaffold::CreatingRoot { root } => ScaffoldView::CreatingRoot { root: root@ },
            Scaffold::CreatingSources { root } => ScaffoldView::CreatingSources { root: root@ },
            Scaffold::WritingManifest { root } => ScaffoldView::WritingManifest { root: root@ },
            Scaffold::WritingProgram { root } => ScaffoldView::WritingProgram { root: root@ },
            Scaffold::Created { root } => ScaffoldView::Created { root: root@ },
            Scaffold::Failed { failure } => ScaffoldView::Failed { failure: failure@ },
        }
    }
}

/// Begins the layout of a new project at `path`.
pub fn new_project(path: &ProjectPath) -> (scaffold: Scaffold)
    ensures
        scaffold@ == (ScaffoldView::Probing { root: path@ }),
{
    Scaffold::Probing { root: path.clone() }
}

/// The manifest of the project rooted at `project_root`: where it is
/// written and what it says. A root without a name has none; a name is
/// never empty.
pub fn create_manifest(project_root: &ProjectPath) -> (manifest: Option<(ProjectPath, String)>)
    ensures
        match manifest {
            Some((path, text)) => project_root@.file_name() is Some && project_root@.file_name()->0.len()
                > 0 && path@
                == project_root@.child(MANIFEST_FILE_NAME@) && text@ == manifest_text(
                project_root@.file_name()->0,
            ),
            None => project_root@.file_name() is None,
        },
{
    match project_root.file_name() {
        Some(name) => Some((manifest_path(project_root), manifest_for(name.as_str()))),
        None => None,
    }
}

/// The first source file of a project whose sources lie in `project_src`:
/// where it is written and what it says.
pub fn create_hello_world(project_src: &ProjectPath) -> (program: (ProjectPath, String))
    ensures
        program.0@ == project_src@.child(MAIN_FILE_NAME@),
        program.1@ == HELLO_WORLD_PROGRAM@,
{
    (project_src.child(MAIN_FILE_NAME), HELLO_WORLD_PROGRAM.to_owned())
}

impl Scaffold {
    /// The outside work that comes next.
    pub fn request(&self) -> (request: Request)
        ensures
            request@ == self@.request(),
    {
        match self {
            Scaffold::Probing { root } => Request::Probe(root.clone()),
            Scaffold::CreatingRoot { root } => Request::CreateDirectories(root.clone()),
            Scaffold::CreatingSources { root } => Request::CreateDirectory(
                root.child(SOURCE_DIR_NAME),
            ),
            Scaffold::WritingManifest { root } => match create_manifest(root) {
                Some((path, text)) => Request::WriteFile(path, text),
                None => Request::Nothing,
            },
            Scaffold::WritingProgram { root } => {
                let (path, text) = create_hello_world(&root.child(SOURCE_DIR_NAME));
                Request::WriteFile(path, text)
            },
            Scaffold::Created { root } => Request::Nothing,
            Scaffold::Failed { failure } => Request::Nothing,
        }
    }

    /// The layout after `event`, which is what came of the work that was
    /// asked for.
    pub fn advance(self, event: Event) -> (scaffold: Scaffold)
        ensures
            scaffold@ == self@.advance(event@),
    {
        match self {
            Scaffold::Probing { root } => match event {
                Event::Probed(probe) => {
                    let taken = match probe {
                        Ok(exists) => exists,
                        Err(_) => false,
                    };
                    if taken {
                        Scaffold::Failed {
                            failure: Failure::new(ErrorKind::PathExists, root.render()).during(
                                Operation::CreatingLayout,
                                String::new(),
                            ),
                        }
                    } else {
                        Scaffold::CreatingRoot { root }
                    }
                },
                _ => Scaffold::Probing { root },
            },
            Scaffold::CreatingRoot { root } => match event {
                Event::Created(creation) => match creation.trouble() {
                    None => Scaffold::CreatingSources { root },
                    Some(report) => Scaffold::Failed {
                        failure: Failure::new(
                            ErrorKind::ProjectDirUncreatable,
                            root.render(),
                        ).caused_by(report).during(Operation::CreatingLayout, String::new()),
                    },
                },
                _ => Scaffold::CreatingRoot { root },
            },
            Scaffold::CreatingSources { root } => match event {
                Event::Created(creation) => match creation.trouble() {
                    None => {
                        if root.file_name().is_some() {
                            Scaffold::WritingManifest { root }
                        } else {
                            Scaffold::Failed {
                                failure: Failure::new(
                                    ErrorKind::RootNameUnavailable,
                                    root.render(),
                                ),
                            }
                        }
                    },
                    Some(report) => Scaffold::Failed {
                        failure: Failure::new(
                            ErrorKind::SourceDirUncreatable,
                            root.child(SOURCE_DIR_NAME).render(),
                        ).caused_by(report).during(Operation::CreatingLayout, String::new()),
                    },
                },
                _ => Scaffold::CreatingSources { root },
            },
            Scaffold::WritingManifest { root } => match event {
                Event::Completed(done) => match done {
                    Ok(_) => Scaffold::WritingProgram { root },
                    Err(report) => Scaffold::Failed {
                        failure: Failure::new(
                            ErrorKind::ManifestUnwritable,
                            manifest_path(&root).render(),
                        ).caused_by(report),
                    },
                },
                _ => Scaffold::WritingManifest { root },
            },
            Scaffold::WritingProgram { root } => match event {
                Event::Completed(done) => match done {
                    Ok(_) => Scaffold::Created { root },
                    Err(report) => Scaffold::Failed {
                        failure: Failure::new(
                            ErrorKind::SourceFileUnwritable,
                            root.child(SOURCE_DIR_NAME).child(MAIN_FILE_NAME).render(),
                        ).caused_by(report).during(Operation::CreatingHelloWorld, String::new()),
                    },
                },
                _ => Scaffold::WritingProgram { root },
            },
            Scaffold::Created { root } => Scaffold::Created { root },
            Scaffold::Failed { failure } => Scaffold::Failed { failure },
        }
    }

    /// How the layout ended, once it has: the root of the new project, or
    /// the failure.
    pub fn outcome(&self) -> (outcome: Option<Result<ProjectPath, Failure>>)
        ensures
            match outcome {
                None => self@.outcome() is None,
                Some(Ok(root)) => self@.outcome() == Some(Ok::<PathView, FailureView>(root@)),
                Some(Err(failure)) => self@.outcome() == Some(
                    Err::<PathView, FailureView>(failure@),
                ),
            },
    {
        match self {
            Scaffold::Created { root } => Some(Ok(root.clone())),
            Scaffold::Failed { failure } => Some(Err(failure.clone())),
            _ => None,
        }
    }
}

/// A new project at a free path whose last segment can name it is laid
/// out in four steps, each asked for in turn: the project directory, the
/// source directory, a manifest written for the name of that directory,
/// which is not empty, and a first source file, which has the source
/// extension.
pub proof fn lemma_free_path_is_laid_out(root: PathView)
    requires
        root.file_name() is Some,
    ensures
        ({
            let free = EventView::Probed(Ok(false));
            let created = EventView::Created(CreationView::Done);
            let written = EventView::Completed(Ok(()));
            let probing = ScaffoldView::Probing { root };
            let first = probing.advance(free);
            let second = first.advance(created);
            let third = second.advance(created);
            let fourth = third.advance(written);
            &&& probing.request() == RequestView::Probe(root)
            &&& first.request() == RequestView::CreateDirectories(root)
            &&& second.request() == RequestView::CreateDirectory(root.child(SOURCE_DIR_NAME@))
            &&& third.request() == RequestView::WriteFile(
                root.child(MANIFEST_FILE_NAME@),
                manifest_text(root.file_name()->0),
            )
            &&& fourth.request() == RequestView::WriteFile(
                root.child(SOURCE_DIR_NAME@).child(MAIN_FILE_NAME@),
                HELLO_WORLD_PROGRAM@,
            )
            &&& fourth.advance(written).outcome() == Some(Ok::<PathView, FailureView>(root))
            &&& root.file_name()->0.len() > 0
            &&& is_compilable(MAIN_FILE_NAME@)
        }),
{
    reveal_strlit("main.cpp");
    assert(MAIN_FILE_NAME@.subrange(MAIN_FILE_NAME@.len() - 4, MAIN_FILE_NAME@.len() as int)
        =~= seq!['.', 'c', 'p', 'p']);
}

/// Nothing is created where something exists at the path of the new
/// project: the layout fails at once and asks for nothing more.
pub proof fn lemma_taken_path_is_left_alone(root: PathView)
    ensures
        ({
            let end = (ScaffoldView::Probing { root }).advance(EventView::Probed(Ok(true)));
            &&& end.outcome() == Some(
                Err::<PathView, FailureView>(
                    FailureView::bare(ErrorKind::PathExists, root.text()).during(
                        Operation::CreatingLayout,
                        Seq::empty(),
                    ),
                ),
            )
            &&& end.request() == RequestView::Nothing
        }),
{
}

} // verus!
