//! What can go wrong, and how it is told to the user.
//!
//! A [`Failure`] names the kind of problem, the path or command it concerns,
//! the report of the operating system or parser where there was one, and the
//! operations that were under way, innermost first.

use vstd::prelude::*;
use vstd::string::StringExecFns;

verus! {

/// The kinds of failure.
#[derive(Clone, Copy, Debug, PartialEq, Eq, Hash, Structural)]
pub enum ErrorKind {
    /// No manifest in the starting directory or any directory above it.
    ProjectNotFound,
    /// A directory on the way up could not be listed.
    DirectoryUnreadable,
    /// The manifest file could not be read.
    ManifestUnreadable,
    /// The manifest file is not a well-formed document.
    ManifestUnparsable,
    /// The manifest has no `project` entry.
    MissingSection,
    /// The manifest's `project` entry is not a table.
    SectionNotTable,
    /// The `project` table has no `name` entry.
    MissingKey,
    /// The `name` entry is a table, not a value.
    KeyNotValue,
    /// The `name` value is not a string.
    ValueNotString,
    /// The `name` string is empty.
    EmptyValue,
    /// The source directory could not be listed.
    SourceDirUnreadable,
    /// The source directory holds nothing to compile.
    NoSourceFiles,
    /// It could not be told whether the target directory exists.
    TargetDirUnknown,
    /// The target directory could not be created.
    TargetDirUncreatable,
    /// The compiler could not be started.
    CompilerUnspawnable,
    /// The compiler ran and reported failure.
    CompilationFailed,
    /// The project root has no name to call the binary by.
    ProjectNameUnavailable,
    /// The binary is not where a build would have put it.
    BinaryNotFound,
    /// The binary could not be started.
    SpawnFailed,
    /// The running binary could not be waited for.
    WaitFailed,
    /// The place for a new project is taken.
    PathExists,
    /// The directory of a new project could not be created.
    ProjectDirUncreatable,
    /// The source directory of a new project could not be created.
    SourceDirUncreatable,
    /// The path of a new project ends in nothing that can name it.
    RootNameUnavailable,
    /// The manifest of a new project could not be written.
    ManifestUnwritable,
    /// The first source file of a new project could not be written.
    SourceFileUnwritable,
}

impl ErrorKind {
    /// The message's text in front of the subject.
    pub open spec fn prefix_text(self) -> Seq<char> {
        match self {
            ErrorKind::ProjectNotFound => "Failed to find project manifest `Cppargo.toml` up to "@,
            ErrorKind::DirectoryUnreadable => "Couldn't read directory "@,
            ErrorKind::ManifestUnreadable => "Failed to read project manifest "@,
            ErrorKind::ManifestUnparsable => "Failed to parse project manifest "@,
            ErrorKind::MissingSection => "Missing '[project]' table in manifest!"@,
            ErrorKind::SectionNotTable => "Found 'project' key is not a table! (Should be '[project]')"@,
            ErrorKind::MissingKey => "Missing 'name' key in '[project]' table in manifest!"@,
            ErrorKind::KeyNotValue => "Found 'name' key in '[project]' table is not a value! (Should be 'name = \"YourMagicProjectName\"')"@,
            ErrorKind::ValueNotString => "Value for 'name' key in '[project]' table is not a string! (Should be 'name = \"YourMagicProjectName\"')"@,
            ErrorKind::EmptyValue => "Missing value for 'name' key in '[project]' table! (Should be 'name = \"YourMagicProjectName\"')"@,
            ErrorKind::SourceDirUnreadable => "Couldn't read source directory "@,
            ErrorKind::NoSourceFiles => "No source `.cpp` files to compile found in \""@,
            ErrorKind::TargetDirUnknown => "Couldn't look for project target directory at "@,
            ErrorKind::TargetDirUncreatable => "Failed to create project target directory at "@,
            ErrorKind::CompilerUnspawnable => "Couldn't start compiler: "@,
            ErrorKind::CompilationFailed => "Compilation failed!"@,
            ErrorKind::ProjectNameUnavailable => "Couldn't get project name."@,
            ErrorKind::BinaryNotFound => "Project excecutable "@,
            ErrorKind::SpawnFailed => "Couldn't excecute project file "@,
            ErrorKind::WaitFailed => "Project file "@,
            ErrorKind::PathExists => "Path "@,
            ErrorKind::ProjectDirUncreatable => "Failed to create project directory at "@,
            ErrorKind::SourceDirUncreatable => "Failed to create project source directory "@,
            ErrorKind::RootNameUnavailable => "Failed to get project name from project root: "@,
            ErrorKind::ManifestUnwritable => "Failed to create manifest at "@,
            ErrorKind::SourceFileUnwritable => "Failed to create project `"@,
        }
    }

    /// The message's text behind the subject.
    pub open spec fn suffix_text(self) -> Seq<char> {
        match self {
            ErrorKind::ProjectNotFound => "!"@,
            ErrorKind::DirectoryUnreadable => "."@,
            ErrorKind::ManifestUnreadable => " file!"@,
            ErrorKind::ManifestUnparsable => " file!"@,
            ErrorKind::SourceDirUnreadable => "."@,
            ErrorKind::NoSourceFiles => "\" directory."@,
            ErrorKind::TargetDirUnknown => "!"@,
            ErrorKind::TargetDirUncreatable => "!"@,
            ErrorKind::BinaryNotFound => " not found"@,
            ErrorKind::WaitFailed => " wasn't running"@,
            ErrorKind::PathExists => " already exists!"@,
            ErrorKind::ProjectDirUncreatable => "."@,
            ErrorKind::SourceDirUncreatable => "."@,
            ErrorKind::RootNameUnavailable => "!"@,
            ErrorKind::ManifestUnwritable => "!"@,
            ErrorKind::SourceFileUnwritable => "` file."@,
            _ => ""@,
        }
    }

    /// The whole message of a failure of this kind about `subject`.
    pub open spec fn message_text(self, subject: Seq<char>) -> Seq<char> {
        self.prefix_text() + subject + self.suffix_text()
    }

    /// One of the six ways in which a manifest that parses can still fail to
    /// name its project.
    pub open spec fn is_manifest_defect(self) -> bool {
        self == ErrorKind::MissingSection || self == ErrorKind::SectionNotTable || self
            == ErrorKind::MissingKey || self == ErrorKind::KeyNotValue || self
            == ErrorKind::ValueNotString || self == ErrorKind::EmptyValue
    }

    /// The message's text in front of the subject.
    pub fn prefix(self) -> (text: &'static str)
        ensures
            text@ == self.prefix_text(),
    {
        match self {
            ErrorKind::ProjectNotFound => "Failed to find project manifest `Cppargo.toml` up to ",
            ErrorKind::DirectoryUnreadable => "Couldn't read directory ",
            ErrorKind::ManifestUnreadable => "Failed to read project manifest ",
            ErrorKind::ManifestUnparsable => "Failed to parse project manifest ",
            ErrorKind::MissingSection => "Missing '[project]' table in manifest!",
            ErrorKind::SectionNotTable => "Found 'project' key is not a table! (Should be '[project]')",
            ErrorKind::MissingKey => "Missing 'name' key in '[project]' table in manifest!",
            ErrorKind::KeyNotValue => "Found 'name' key in '[project]' table is not a value! (Should be 'name = \"YourMagicProjectName\"')",
            ErrorKind::ValueNotString => "Value for 'name' key in '[project]' table is not a string! (Should be 'name = \"YourMagicProjectName\"')",
            ErrorKind::EmptyValue => "Missing value for 'name' key in '[project]' table! (Should be 'name = \"YourMagicProjectName\"')",
            ErrorKind::SourceDirUnreadable => "Couldn't read source directory ",
            ErrorKind::NoSourceFiles => "No source `.cpp` files to compile found in \"",
            ErrorKind::TargetDirUnknown => "Couldn't look for project target directory at ",
            ErrorKind::TargetDirUncreatable => "Failed to create project target directory at ",
            ErrorKind::CompilerUnspawnable => "Couldn't start compiler: ",
            ErrorKind::CompilationFailed => "Compilation failed!",
            ErrorKind::ProjectNameUnavailable => "Couldn't get project name.",
            ErrorKind::BinaryNotFound => "Project excecutable ",
            ErrorKind::SpawnFailed => "Couldn't excecute project file ",
            ErrorKind::WaitFailed => "Project file ",
            ErrorKind::PathExists => "Path ",
            ErrorKind::ProjectDirUncreatable => "Failed to create project directory at ",
            ErrorKind::SourceDirUncreatable => "Failed to create project source directory ",
            ErrorKind::RootNameUnavailable => "Failed to get project name from project root: ",
            ErrorKind::ManifestUnwritable => "Failed to create manifest at ",
            ErrorKind::SourceFileUnwritable => "Failed to create project `",
        }
    }

    /// The message's text behind the subject.
    pub fn suffix(self) -> (text: &'static str)
        ensures
            text@ == self.suffix_text(),
    {
        match self {
            ErrorKind::ProjectNotFound => "!",
            ErrorKind::DirectoryUnreadable => ".",
            ErrorKind::ManifestUnreadable => " file!",
            ErrorKind::ManifestUnparsable => " file!",
            ErrorKind::SourceDirUnreadable => ".",
            ErrorKind::NoSourceFiles => "\" directory.",
            ErrorKind::TargetDirUnknown => "!",
            ErrorKind::TargetDirUncreatable => "!",
            ErrorKind::BinaryNotFound => " not found",
            ErrorKind::WaitFailed => " wasn't running",
            ErrorKind::PathExists => " already exists!",
            ErrorKind::ProjectDirUncreatable => ".",
            ErrorKind::SourceDirUncreatable => ".",
            ErrorKind::RootNameUnavailable => "!",
            ErrorKind::ManifestUnwritable => "!",
            ErrorKind::SourceFileUnwritable => "` file.",
            _ => "",
        }
    }
}

/// What was being attempted when a failure came up.
#[derive(Clone, Copy, Debug, PartialEq, Eq, Hash, Structural)]
pub enum Operation {
    /// Looking for the project that the starting directory belongs to.
    LocatingProject,
    /// Reading and parsing the manifest.
    ParsingManifest,
    /// Taking the project's name from the manifest.
    ParsingName,
    /// Collecting the source files.
    GatheringSources,
    /// Making sure that the target directory is there.
    EnsuringTarget,
    /// Running the compiler.
    BuildingSources,
    /// Looking for the built binary.
    FindingBinary,
    /// Running the built binary.
    RunningBinary,
    /// Creating the directories of a new project.
    CreatingLayout,
    /// Writing the first source file of a new project.
    CreatingHelloWorld,
}

impl Operation {
    /// The message's text in front of the subject.
    pub open spec fn prefix_text(self) -> Seq<char> {
        match self {
            Operation::LocatingProject => "Current directory "@,
            Operation::ParsingManifest => "Failed to parse project manifest!"@,
            Operation::ParsingName => "Failed to parse project name!"@,
            Operation::GatheringSources => "Failed to gather source files from "@,
            Operation::EnsuringTarget => "Failed to ensure target directory exists for storing built binaries!"@,
            Operation::BuildingSources => "Failed to build source files!"@,
            Operation::FindingBinary => "Failed to find project binary!"@,
            Operation::RunningBinary => "Failed to run project binary!"@,
            Operation::CreatingLayout => "Failed to create project file structure"@,
            Operation::CreatingHelloWorld => "Failed to create simple 'Hello World!' program."@,
        }
    }

    /// The message's text behind the subject.
    pub open spec fn suffix_text(self) -> Seq<char> {
        match self {
            Operation::LocatingProject => " is not inside a `cppargo` project!"@,
            Operation::GatheringSources => "!"@,
            _ => ""@,
        }
    }

    /// The whole message of this operation on `subject`.
    pub open spec fn message_text(self, subject: Seq<char>) -> Seq<char> {
        self.prefix_text() + subject + self.suffix_text()
    }

    /// The message's text in front of the subject.
    pub fn prefix(self) -> (text: &'static str)
        ensures
            text@ == self.prefix_text(),
    {
        match self {
            Operation::LocatingProject => "Current directory ",
            Operation::ParsingManifest => "Failed to parse project manifest!",
            Operation::ParsingName => "Failed to parse project name!",
            Operation::GatheringSources => "Failed to gather source files from ",
            Operation::EnsuringTarget => "Failed to ensure target directory exists for storing built binaries!",
            Operation::BuildingSources => "Failed to build source files!",
            Operation::FindingBinary => "Failed to find project binary!",
            Operation::RunningBinary => "Failed to run project binary!",
            Operation::CreatingLayout => "Failed to create project file structure",
            Operation::CreatingHelloWorld => "Failed to create simple 'Hello World!' program.",
        }
    }

    /// The message's text behind the subject.
    pub fn suffix(self) -> (text: &'static str)
        ensures
            text@ == self.suffix_text(),
    {
        match self {
            Operation::LocatingProject => " is not inside a `cppargo` project!",
            Operation::GatheringSources => "!",
            _ => "",
        }
    }
}

/// The mathematical value of a [`Context`].
pub struct ContextView {
    pub operation: Operation,
    pub subject: Seq<char>,
}

impl ContextView {
    /// The line that this layer adds to a report.
    pub open spec fn text(self) -> Seq<char> {
        self.operation.message_text(self.subject)
    }
}

/// One layer of description around a failure: an operation and the path it
/// was about (empty where the operation names none).
#[derive(Debug, PartialEq, Eq)]
pub struct Context {
    pub operation: Operation,
    pub subject: String,
}

impl View for Context {
    type V = ContextView;

    open spec fn view(&self) -> ContextView {
        ContextView { operation: self.operation, subject: self.subject@ }
    }
}

/// The views of a list of layers, in order.
pub open spec fn context_views(layers: Seq<Context>) -> Seq<ContextView> {
    Seq::new(layers.len(), |i: int| layers[i]@)
}

/// The view of a text that may be absent.
pub open spec fn optional_text(text: Option<String>) -> Option<Seq<char>> {
    match text {
        Some(present) => Some(present@),
        None => None,
    }
}

/// The mathematical value of a [`Failure`].
pub struct FailureView {
    pub kind: ErrorKind,
    pub subject: Seq<char>,
    pub cause: Option<Seq<char>>,
    pub context: Seq<ContextView>,
}

impl FailureView {
    /// A failure of `kind` about `subject`, with no cause and no context.
    pub open spec fn bare(kind: ErrorKind, subject: Seq<char>) -> FailureView {
        FailureView { kind, subject, cause: None, context: Seq::empty() }
    }

    /// The same failure with the report that led to it.
    pub open spec fn caused_by(self, cause: Seq<char>) -> FailureView {
        FailureView { cause: Some(cause), ..self }
    }

    /// The same failure with its cause set or left out.
    pub open spec fn with_cause(self, cause: Option<Seq<char>>) -> FailureView {
        FailureView { cause, ..self }
    }

    /// The same failure inside one more layer of description.
    pub open spec fn during(self, operation: Operation, subject: Seq<char>) -> FailureView {
        FailureView { context: self.context.push(ContextView { operation, subject }), ..self }
    }

    /// The failure's own message.
    pub open spec fn message(self) -> Seq<char> {
        self.kind.message_text(self.subject)
    }

    /// The outermost line: that of the last layer added, or the failure's
    /// own message where there is no layer.
    pub open spec fn headline(self) -> Seq<char> {
        if self.context.len() == 0 {
            self.message()
        } else {
            self.context.last().text()
        }
    }

    /// Every line of the report, outermost first: the layers from the last
    /// added to the first, the failure's own message, then its cause.
    pub open spec fn chain(self) -> Seq<Seq<char>> {
        let layers = Seq::new(
            self.context.len(),
            |i: int| self.context[self.context.len() - 1 - i].text(),
        );
        match self.cause {
            Some(cause) => layers.push(self.message()).push(cause),
            None => layers.push(self.message()),
        }
    }
}

/// A failure with everything needed to report it.
#[derive(Debug, PartialEq, Eq)]
pub struct Failure {
    /// What went wrong.
    pub kind: ErrorKind,
    /// The path or command the failure is about, as text; empty for kinds
    /// whose message names none.
    pub subject: String,
    /// What the operating system or the parser reported, where the failure
    /// came from there.
    pub cause: Option<String>,
    /// The operations that were under way, innermost first.
    pub context: Vec<Context>,
}

impl View for Failure {
    type V = FailureView;

    open spec fn view(&self) -> FailureView {
        FailureView {
            kind: self.kind,
            subject: self.subject@,
            cause: optional_text(self.cause),
            context: context_views(self.context@),
        }
    }
}

impl Clone for Context {
    fn clone(&self) -> (copy: Context)
        ensures
            copy@ == self@,
    {
        Context { operation: self.operation, subject: self.subject.clone() }
    }
}

impl Clone for Failure {
    fn clone(&self) -> (copy: Failure)
        ensures
            copy@ == self@,
    {
        let mut context: Vec<Context> = Vec::new();
        let mut i: usize = 0;
        while i < self.context.len()
            invariant
                i <= self.context.len(),
                context.len() == i,
                forall|k: int| 0 <= k < i ==> context[k]@ == self.context[k]@,
            decreases self.context.len() - i,
        {
            context.push(self.context[i].clone());
            i += 1;
        }
        assert(context_views(context@) =~= context_views(self.context@));
        let cause = match &self.cause {
            Some(report) => Some(report.clone()),
            None => None,
        };
        Failure { kind: self.kind, subject: self.subject.clone(), cause, context }
    }
}

/// `prefix`, `subject` and `suffix` in one string.
pub fn compose(prefix: &str, subject: &str, suffix: &str) -> (text: String)
    ensures
        text@ == prefix@ + subject@ + suffix@,
{
    let mut text = prefix.to_owned();
    text.append(subject);
    text.append(suffix);
    text
}

impl Failure {
    /// A failure of `kind` about `subject`, with no cause and no context.
    pub fn new(kind: ErrorKind, subject: String) -> (failure: Failure)
        ensures
            failure@ == FailureView::bare(kind, subject@),
    {
        let failure = Failure { kind, subject, cause: None, context: Vec::new() };
        assert(context_views(failure.context@) =~= Seq::<ContextView>::empty());
        failure
    }

    /// A failure of a kind whose message names no path.
    pub fn plain(kind: ErrorKind) -> (failure: Failure)
        ensures
            failure@ == FailureView::bare(kind, Seq::empty()),
    {
        Failure::new(kind, String::new())
    }

    /// The same failure with the report that led to it.
    pub fn caused_by(self, cause: String) -> (failure: Failure)
        ensures
            failure@ == self@.caused_by(cause@),
    {
        Failure { kind: self.kind, subject: self.subject, cause: Some(cause), context: self.context }
    }

    /// The same failure inside one more layer of description.
    pub fn during(self, operation: Operation, subject: String) -> (failure: Failure)
        ensures
            failure@ == self@.during(operation, subject@),
    {
        let ghost before = self@;
        let mut context = self.context;
        context.push(Context { operation, subject });
        let failure = Failure { kind: self.kind, subject: self.subject, cause: self.cause, context };
        assert(failure@.context =~= before.context.push(ContextView { operation, subject: subject@ }));
        failure
    }

    /// The failure's own message.
    pub fn message(&self) -> (text: String)
        ensures
            text@ == self@.message(),
    {
        compose(self.kind.prefix(), self.subject.as_str(), self.kind.suffix())
    }

    /// The outermost line of the report.
    pub fn headline(&self) -> (text: String)
        ensures
            text@ == self@.headline(),
    {
        let count = self.context.len();
        if count == 0 {
            self.message()
        } else {
            let layer = &self.context[count - 1];
            compose(layer.operation.prefix(), layer.subject.as_str(), layer.operation.suffix())
        }
    }

    /// Every line of the report, outermost first.
    pub fn chain(&self) -> (lines: Vec<String>)
        ensures
            crate::path::texts(lines@) == self@.chain(),
    {
        let count = self.context.len();
        let mut lines: Vec<String> = Vec::new();
        let mut i: usize = 0;
        while i < count
            invariant
                i <= count,
                count == self.context.len(),
                lines.len() == i,
                forall|k: int| 0 <= k < i ==> lines[k]@ == self@.context[count - 1 - k].text(),
            decreases count - i,
        {
            let layer = &self.context[count - 1 - i];
            lines.push(
                compose(layer.operation.prefix(), layer.subject.as_str(), layer.operation.suffix()),
            );
            i += 1;
        }
        lines.push(self.message());
        match &self.cause {
            Some(cause) => {
                lines.push(cause.clone());
            },
            None => {},
        }
        assert(crate::path::texts(lines@) =~= self@.chain());
        lines
    }
}

/// The six ways in which a manifest can fail to name its project are told
/// apart by their messages: two different kinds never share a text.
pub proof fn lemma_manifest_defects_read_differently(first: ErrorKind, second: ErrorKind)
    requires
        first.is_manifest_defect(),
        second.is_manifest_defect(),
        first != second,
    ensures
        first.message_text(Seq::empty()) != second.message_text(Seq::empty()),
{
    reveal_strlit("Missing '[project]' table in manifest!");
    reveal_strlit("Found 'project' key is not a table! (Should be '[project]')");
    reveal_strlit("Missing 'name' key in '[project]' table in manifest!");
    reveal_strlit(
        "Found 'name' key in '[project]' table is not a value! (Should be 'name = \"YourMagicProjectName\"')",
    );
    reveal_strlit(
        "Value for 'name' key in '[project]' table is not a string! (Should be 'name = \"YourMagicProjectName\"')",
    );
    reveal_strlit(
        "Missing value for 'name' key in '[project]' table! (Should be 'name = \"YourMagicProjectName\"')",
    );
    reveal_strlit("");
    assert(first.message_text(Seq::empty()).len() == first.prefix_text().len());
    assert(second.message_text(Seq::empty()).len() == second.prefix_text().len());
    assert(first.prefix_text().len() != second.prefix_text().len());
}

} // verus!
