//! The compiler run: where the binary goes, and what the compiler is told.

use vstd::prelude::*;
use crate::collect::SourceSet;
use crate::effects::Creation;
use crate::effects::CreationView;
use crate::error::ErrorKind;
use crate::error::Failure;
use crate::error::FailureView;
use crate::path::texts;
use crate::path::PathView;
use crate::path::ProjectPath;

verus! {

/// The program that compiles the sources.
pub const COMPILER: &'static str = "g++";

/// The compiler flag in front of the path of the binary.
pub const OUTPUT_FLAG: &'static str = "-o";

/// The directory, below the project root, that holds the sources.
pub const SOURCE_DIR_NAME: &'static str = "src";

/// The directory, below the project root, that holds what is built.
pub const TARGET_DIR_NAME: &'static str = "target";

/// The path of the binary of the project `name` rooted at `root`.
pub open spec fn binary_of(root: PathView, name: Seq<char>) -> PathView {
    root.child(TARGET_DIR_NAME@).child(name)
}

/// The path of the binary of the project `name` rooted at `project_root`.
pub fn binary_path(project_root: &ProjectPath, name: &str) -> (path: ProjectPath)
    ensures
        path@ == binary_of(project_root@, name@),
{
    project_root.child(TARGET_DIR_NAME).child(name)
}

/// The mathematical value of an [`Invocation`].
pub struct InvocationView {
    pub output: PathView,
    pub sources: Set<PathView>,
}

/// One run of the compiler: the binary to write and the sources to read.
#[derive(Debug)]
pub struct Invocation {
    pub output: ProjectPath,
    pub sources: SourceSet,
}

impl View for Invocation {
    type V = InvocationView;

    open spec fn view(&self) -> InvocationView {
        InvocationView { output: self.output@, sources: self.sources@ }
    }
}

impl Clone for Invocation {
    fn clone(&self) -> (copy: Invocation)
        ensures
            copy@ == self@,
            copy.sources.order() == self.sources.order(),
    {
        Invocation { output: self.output.clone(), sources: self.sources.clone() }
    }
}

impl Invocation {
    /// The arguments of the run: the output flag, the binary, then every
    /// source once.
    pub open spec fn argument_texts(&self) -> Seq<Seq<char>> {
        seq![OUTPUT_FLAG@, self.output@.text()] + Seq::new(
            self.sources.order().len(),
            |i: int| self.sources.order()[i].text(),
        )
    }

    /// The arguments that the compiler is started with.
    pub fn arguments(&self) -> (arguments: Vec<String>)
        ensures
            texts(arguments@) == self.argument_texts(),
            self.sources.order().to_set() == self@.sources,
            self.sources.order().no_duplicates(),
    {
        let files = self.sources.files();
        let mut arguments: Vec<String> = Vec::new();
        arguments.push(OUTPUT_FLAG.to_owned());
        arguments.push(self.output.render());
        let mut i: usize = 0;
        while i < files.len()
            invariant
                i <= files.len(),
                arguments.len() == 2 + i,
                arguments[0]@ == OUTPUT_FLAG@,
                arguments[1]@ == self.output@.text(),
                forall|k: int| 0 <= k < i ==> arguments[2 + k]@ == (#[trigger] files[k])@.text(),
            decreases files.len() - i,
        {
            arguments.push(files[i].render());
            i += 1;
        }
        assert(texts(arguments@) =~= self.argument_texts());
        arguments
    }
}

/// The compiler run that builds `src_files` into `binary_path`.
pub fn build_src_files(src_files: SourceSet, binary_path: &ProjectPath) -> (invocation: Invocation)
    ensures
        invocation@ == (InvocationView { output: binary_path@, sources: src_files@ }),
        invocation.sources.order() == src_files.order(),
{
    Invocation { output: binary_path.clone(), sources: src_files }
}

/// What the end of a compiler run means for the build.
pub open spec fn compiled(exit: Result<bool, Seq<char>>) -> Result<(), FailureView> {
    match exit {
        Ok(success) => if success {
            Ok(())
        } else {
            Err(FailureView::bare(ErrorKind::CompilationFailed, Seq::empty()))
        },
        Err(report) => Err(
            FailureView::bare(ErrorKind::CompilerUnspawnable, COMPILER@).caused_by(report),
        ),
    }
}

/// Judges the end of a compiler run: `Ok(success)` where the compiler ran,
/// the report of the operating system where it could not be started.
pub fn compilation_result(exit: Result<bool, String>) -> (verdict: Result<(), Failure>)
    ensures
        match verdict {
            Ok(_) => compiled(exit_view(exit)) is Ok,
            Err(failure) => compiled(exit_view(exit)) == Err::<(), FailureView>(
                failure@,
            ),
        },
{
    match exit {
        Ok(success) => {
            if success {
                Ok(())
            } else {
                Err(Failure::plain(ErrorKind::CompilationFailed))
            }
        },
        Err(report) => Err(
            Failure::new(ErrorKind::CompilerUnspawnable, COMPILER.to_owned()).caused_by(report),
        ),
    }
}

/// The view of an answer that is a flag or a report.
pub open spec fn exit_view(exit: Result<bool, String>) -> Result<bool, Seq<char>> {
    match exit {
        Ok(flag) => Ok(flag),
        Err(report) => Err(report@),
    }
}

/// What is to be done about the target directory once it is known whether
/// it exists: nothing where it does, creating it where it does not.
pub open spec fn target_step(target: PathView, probe: Result<bool, Seq<char>>) -> Result<
    bool,
    FailureView,
> {
    match probe {
        Ok(exists) => Ok(!exists),
        Err(report) => Err(
            FailureView::bare(ErrorKind::TargetDirUnknown, target.text()).caused_by(report),
        ),
    }
}

/// Decides, from whether the target directory exists, whether it has to be
/// created: `Ok(true)` where it has.
pub fn ensure_target_dir_exists(project_target: &ProjectPath, probe: Result<bool, String>) -> (step:
    Result<bool, Failure>)
    ensures
        match step {
            Ok(create) => target_step(project_target@, exit_view(probe)) == Ok::<
                bool,
                FailureView,
            >(create),
            Err(failure) => target_step(project_target@, exit_view(probe)) == Err::<
                bool,
                FailureView,
            >(failure@),
        },
{
    match probe {
        Ok(exists) => Ok(!exists),
        Err(report) => Err(
            Failure::new(ErrorKind::TargetDirUnknown, project_target.render()).caused_by(report),
        ),
    }
}

/// What creating the target directory came to: all is well where the
/// directory was created, and also where something was there already.
pub open spec fn target_created(target: PathView, creation: CreationView) -> Result<
    (),
    FailureView,
> {
    match creation {
        CreationView::Done => Ok(()),
        CreationView::AlreadyThere(_) => Ok(()),
        CreationView::Failed(report) => Err(
            FailureView::bare(ErrorKind::TargetDirUncreatable, target.text()).caused_by(report),
        ),
    }
}

/// Judges the attempt to create the target directory.
pub fn target_dir_created(project_target: &ProjectPath, creation: Creation) -> (verdict: Result<
    (),
    Failure,
>)
    ensures
        match verdict {
            Ok(_) => target_created(project_target@, creation@) is Ok,
            Err(failure) => target_created(project_target@, creation@) == Err::<(), FailureView>(
                failure@,
            ),
        },
{
    match creation {
        Creation::Done => Ok(()),
        Creation::AlreadyThere(_) => Ok(()),
        Creation::Failed(report) => Err(
            Failure::new(ErrorKind::TargetDirUncreatable, project_target.render()).caused_by(
                report,
            ),
        ),
    }
}

} // verus!
