use std::collections::BTreeMap;
use std::collections::BTreeSet;

use cppargo::builder::read_project_name;
use cppargo::builder::Build;
use cppargo::cli::Cli;
use cppargo::cli::Commands;
use cppargo::effects::Creation;
use cppargo::effects::Event;
use cppargo::effects::Request;
use cppargo::error::Context;
use cppargo::error::ErrorKind;
use cppargo::error::Failure;
use cppargo::error::Operation;
use cppargo::listing::DirEntry;
use cppargo::new::create_hello_world;
use cppargo::new::new_project;
use cppargo::new::Scaffold;
use cppargo::new::HELLO_WORLD_PROGRAM;
use cppargo::new::MAIN_FILE_NAME;
use cppargo::path::ProjectPath;
use cppargo::run::expected_project_binary;
use cppargo::run::find_project_binary;
use cppargo::run::Run;

const PROJECT_MANIFEST: &str = "[project]\nname = \"foo\"\n";

const MAIN_FILE_WITH_INCLUDE_MODULE: &str = "#include <iostream>\n#include \"module.hpp\"\n\nint main() {\n    std::cout << \"Hello World!\\n\";\n    hello_module();\n\n    return 0;\n}\n";

const MODULE_FILE: &str =
    "#include <iostream>\n\nvoid hello_module() {\n    std::cout << \"Hello Module!\\n\";\n}\n";

fn at(text: &str) -> ProjectPath {
    let mut path = if text.starts_with('/') { ProjectPath::root() } else { ProjectPath::here() };
    for segment in text.split('/').filter(|segment| !segment.is_empty()) {
        path = path.child(segment);
    }
    path
}

/// A made-up machine: directories, files with their text, a compiler that
/// writes the binary, and a record of what was asked of it.
struct Machine {
    dirs: BTreeSet<Place>,
    files: BTreeMap<Place, String>,
    compiler_installed: bool,
    compiler_accepts: bool,
    compilations: Vec<Vec<String>>,
    started: Vec<String>,
    awaited: usize,
}

type Place = (bool, Vec<String>);

fn key(path: &ProjectPath) -> Place {
    (path.absolute, path.segments.clone())
}

impl Machine {
    fn new() -> Machine {
        let mut dirs = BTreeSet::new();
        dirs.insert(key(&ProjectPath::root()));
        dirs.insert(key(&ProjectPath::here()));
        Machine {
            dirs,
            files: BTreeMap::new(),
            compiler_installed: true,
            compiler_accepts: true,
            compilations: Vec::new(),
            started: Vec::new(),
            awaited: 0,
        }
    }

    fn with_dir(mut self, text: &str) -> Machine {
        self.make_dirs(&at(text));
        self
    }

    fn with_file(mut self, text: &str, content: &str) -> Machine {
        let path = at(text);
        self.make_dirs(&path.parent().unwrap());
        self.files.insert(key(&path), content.to_string());
        self
    }

    fn make_dirs(&mut self, path: &ProjectPath) {
        let mut dir = Some(path.clone());
        while let Some(current) = dir {
            self.dirs.insert(key(&current));
            dir = current.parent();
        }
    }

    fn is_dir(&self, text: &str) -> bool {
        self.dirs.contains(&key(&at(text)))
    }

    fn is_file(&self, text: &str) -> bool {
        self.files.contains_key(&key(&at(text)))
    }

    fn text(&self, text: &str) -> Option<&str> {
        self.files.get(&key(&at(text))).map(|content| content.as_str())
    }

    fn is_taken(&self, path: &ProjectPath) -> bool {
        self.dirs.contains(&key(path)) || self.files.contains_key(&key(path))
    }

    fn missing() -> String {
        "No such file or directory (os error 2)".to_string()
    }

    fn list(&self, dir: &ProjectPath) -> Result<Vec<DirEntry>, String> {
        if !self.dirs.contains(&key(dir)) {
            return Err(Machine::missing());
        }
        let mut entries = Vec::new();
        for (absolute, segments) in self.dirs.iter() {
            if *absolute == dir.absolute
                && segments.len() == dir.segments.len() + 1
                && segments[..dir.segments.len()] == dir.segments[..]
            {
                entries.push(DirEntry { name: segments.last().unwrap().clone(), is_dir: true });
            }
        }
        for (absolute, segments) in self.files.keys() {
            if *absolute == dir.absolute
                && segments.len() == dir.segments.len() + 1
                && segments[..dir.segments.len()] == dir.segments[..]
            {
                entries.push(DirEntry { name: segments.last().unwrap().clone(), is_dir: false });
            }
        }
        Ok(entries)
    }

    fn create_dir(&mut self, path: &ProjectPath) -> Creation {
        if self.is_taken(path) {
            return Creation::AlreadyThere("File exists (os error 17)".to_string());
        }
        match path.parent() {
            Some(parent) if self.dirs.contains(&key(&parent)) => {
                self.dirs.insert(key(path));
                Creation::Done
            }
            _ => Creation::Failed(Machine::missing()),
        }
    }

    fn write(&mut self, path: &ProjectPath, content: String) -> Result<(), String> {
        match path.parent() {
            Some(parent) if self.dirs.contains(&key(&parent)) => {
                self.files.insert(key(path), content);
                Ok(())
            }
            _ => Err(Machine::missing()),
        }
    }

    /// Does the work that `request` names; nothing where the session is over.
    fn perform(&mut self, request: Request) -> Option<Event> {
        Some(match request {
            Request::ListDirectory(dir) => Event::Listed(self.list(&dir)),
            Request::ReadFile(path) => {
                Event::Read(self.files.get(&key(&path)).cloned().ok_or_else(Machine::missing))
            }
            Request::Probe(path) => Event::Probed(Ok(self.is_taken(&path))),
            Request::CreateDirectories(path) => {
                self.make_dirs(&path);
                Event::Created(Creation::Done)
            }
            Request::CreateDirectory(path) => Event::Created(self.create_dir(&path)),
            Request::WriteFile(path, content) => Event::Completed(self.write(&path, content)),
            Request::Compile(invocation) => {
                if !self.compiler_installed {
                    return Some(Event::Exited(Err(Machine::missing())));
                }
                self.compilations.push(invocation.arguments());
                let sources_there =
                    invocation.sources.files().iter().all(|source| self.files.contains_key(&key(source)));
                if self.compiler_accepts && sources_there {
                    Event::Exited(Ok(self.write(&invocation.output, "binary".to_string()).is_ok()))
                } else {
                    Event::Exited(Ok(false))
                }
            }
            Request::Start(path) => {
                if self.files.contains_key(&key(&path)) {
                    self.started.push(path.render());
                    Event::Completed(Ok(()))
                } else {
                    Event::Completed(Err(Machine::missing()))
                }
            }
            Request::Await => {
                self.awaited += 1;
                Event::Completed(Ok(()))
            }
            Request::Nothing => return None,
        })
    }

    fn build(&mut self, current_dir: &str) -> Result<ProjectPath, Failure> {
        let mut build = Build::start(&at(current_dir));
        let mut steps = 0;
        while let Some(event) = self.perform(build.request()) {
            assert!(build.outcome().is_none());
            build = build.advance(event);
            steps += 1;
            assert!(steps < 1000);
        }
        build.outcome().expect("a build that asks for nothing is over")
    }

    fn run(&mut self, project_root: &str, name: Option<&str>) -> Result<ProjectPath, Failure> {
        let mut run = Run::start(&at(project_root), name);
        while let Some(event) = self.perform(run.request()) {
            run = run.advance(event);
        }
        run.outcome().expect("a run that asks for nothing is over")
    }

    fn run_binary(&mut self, binary: &ProjectPath) -> Result<ProjectPath, Failure> {
        let mut run = Run::of_binary(binary);
        while let Some(event) = self.perform(run.request()) {
            run = run.advance(event);
        }
        run.outcome().expect("a run that asks for nothing is over")
    }

    fn create(&mut self, path: &str) -> Result<ProjectPath, Failure> {
        let mut scaffold = new_project(&at(path));
        while let Some(event) = self.perform(scaffold.request()) {
            scaffold = scaffold.advance(event);
        }
        scaffold.outcome().expect("a layout that asks for nothing is over")
    }
}

fn foo_project() -> Machine {
    Machine::new()
        .with_file("/tmp/foo/Cppargo.toml", PROJECT_MANIFEST)
        .with_file("/tmp/foo/src/main.cpp", MAIN_FILE_WITH_INCLUDE_MODULE)
        .with_file("/tmp/foo/src/module.hpp", MODULE_FILE)
}

fn ensure_project_created_successfully(machine: &Machine, project_root: &str, name: &str) {
    assert!(machine.is_dir(project_root));
    assert_eq!(
        machine.text(&format!("{}/Cppargo.toml", project_root)),
        Some(format!("[project]\nname = \"{}\"\n", name).as_str())
    );
    assert!(machine.is_dir(&format!("{}/src", project_root)));
    assert!(machine.is_file(&format!("{}/src/main.cpp", project_root)));
    assert_eq!(machine.text(&format!("{}/src/main.cpp", project_root)), Some(HELLO_WORLD_PROGRAM));
}

#[test]
fn proper_main() {
    let mut machine = foo_project().with_dir("/tmp/foo/target");

    assert_eq!(machine.build("/tmp/foo"), Ok(at("/tmp/foo/target/foo")));

    assert!(machine.is_file("/tmp/foo/target/foo"));
    assert_eq!(
        machine.compilations,
        vec![vec![
            "-o".to_string(),
            "/tmp/foo/target/foo".to_string(),
            "/tmp/foo/src/main.cpp".to_string()
        ]]
    );
}

#[test]
fn binary_is_named_after_the_manifest_not_the_directory() {
    let mut machine = Machine::new()
        .with_file("/tmp/dir/Cppargo.toml", "[project]\nname = \"other\"\n")
        .with_file("/tmp/dir/src/main.cpp", "int main() {}\n");

    assert_eq!(machine.build("/tmp/dir"), Ok(at("/tmp/dir/target/other")));

    assert!(machine.is_file("/tmp/dir/target/other"));
    assert!(!machine.is_file("/tmp/dir/target/dir"));
}

#[test]
fn build_from_nested_directory_uses_the_project_root() {
    let mut machine = foo_project().with_dir("/tmp/foo/src/deep/deeper");

    assert_eq!(machine.build("/tmp/foo/src/deep/deeper"), Ok(at("/tmp/foo/target/foo")));
    assert!(machine.is_file("/tmp/foo/target/foo"));
}

#[test]
fn build_compiles_every_source_at_any_depth() {
    let mut machine = foo_project()
        .with_file("/tmp/foo/src/a/one.cpp", "")
        .with_file("/tmp/foo/src/a/b/two.cpp", "")
        .with_file("/tmp/foo/src/a/b/two.hpp", "")
        .with_dir("/tmp/foo/src/empty");

    assert_eq!(machine.build("/tmp/foo"), Ok(at("/tmp/foo/target/foo")));

    assert_eq!(machine.compilations.len(), 1);
    let arguments = &machine.compilations[0];
    assert_eq!(arguments[..2], ["-o".to_string(), "/tmp/foo/target/foo".to_string()]);
    let mut sources = arguments[2..].to_vec();
    sources.sort();
    assert_eq!(
        sources,
        vec!["/tmp/foo/src/a/b/two.cpp", "/tmp/foo/src/a/one.cpp", "/tmp/foo/src/main.cpp"]
    );
}

#[test]
fn fail_outside_cppargo_project() {
    let mut machine = Machine::new().with_dir("/tmp/elsewhere");

    let failure = machine.build("/tmp/elsewhere").unwrap_err();

    assert!(failure
        .chain()
        .contains(&"Failed to find project manifest `Cppargo.toml` up to /!".to_string()));
    assert_eq!(
        failure,
        Failure::new(ErrorKind::ProjectNotFound, "/".to_string())
            .during(Operation::LocatingProject, "/tmp/elsewhere".to_string())
    );
    assert_eq!(
        failure.headline(),
        "Current directory /tmp/elsewhere is not inside a `cppargo` project!"
    );
    assert!(machine.compilations.is_empty());
}

#[test]
fn fail_because_project_has_no_main_file() {
    let mut machine = Machine::new()
        .with_file("/tmp/foo/Cppargo.toml", PROJECT_MANIFEST)
        .with_dir("/tmp/foo/src");

    let failure = machine.build("/tmp/foo").unwrap_err();

    let lines = failure.chain();
    assert!(lines.iter().any(|line| {
        line.contains("No source ") && line.contains(" files to compile found")
    }));
    assert_eq!(
        lines,
        vec![
            "Failed to gather source files from /tmp/foo/src!".to_string(),
            "No source `.cpp` files to compile found in \"/tmp/foo/src\" directory.".to_string(),
        ]
    );
    assert!(machine.compilations.is_empty());
    assert!(!machine.is_dir("/tmp/foo/target"));
}

#[test]
fn fail_because_project_has_no_source_directory() {
    let mut machine = Machine::new().with_file("/tmp/foo/Cppargo.toml", PROJECT_MANIFEST);

    let failure = machine.build("/tmp/foo").unwrap_err();

    assert_eq!(
        failure,
        Failure::new(ErrorKind::SourceDirUnreadable, "/tmp/foo/src".to_string())
            .caused_by(Machine::missing())
            .during(Operation::GatheringSources, "/tmp/foo/src".to_string())
    );
}

#[test]
fn fail_because_manifest_has_bad_syntax() {
    let mut machine = Machine::new()
        .with_file("/tmp/foo/Cppargo.toml", "[project]\nname =\n")
        .with_file("/tmp/foo/src/main.cpp", "");

    let failure = machine.build("/tmp/foo").unwrap_err();

    assert_eq!(failure.kind, ErrorKind::ManifestUnparsable);
    assert_eq!(failure.subject, "/tmp/foo/Cppargo.toml");
    assert_eq!(
        failure.context,
        vec![Context { operation: Operation::ParsingManifest, subject: String::new() }]
    );
    assert_eq!(failure.headline(), "Failed to parse project manifest!");
}

#[test]
fn fail_because_manifest_names_nothing() {
    let mut machine = Machine::new()
        .with_file("/tmp/foo/Cppargo.toml", "[project]\nname = \"\"\n")
        .with_file("/tmp/foo/src/main.cpp", "");

    let failure = machine.build("/tmp/foo").unwrap_err();

    assert_eq!(
        failure,
        Failure::plain(ErrorKind::EmptyValue).during(Operation::ParsingName, String::new())
    );
    assert_eq!(failure.headline(), "Failed to parse project name!");
}

#[test]
fn fail_because_compiler_rejects_the_sources() {
    let mut machine = foo_project();
    machine.compiler_accepts = false;

    let failure = machine.build("/tmp/foo").unwrap_err();

    assert_eq!(
        failure.chain(),
        vec!["Failed to build source files!".to_string(), "Compilation failed!".to_string()]
    );
    assert!(!machine.is_file("/tmp/foo/target/foo"));
}

#[test]
fn fail_because_compiler_is_missing() {
    let mut machine = foo_project();
    machine.compiler_installed = false;

    let failure = machine.build("/tmp/foo").unwrap_err();

    assert_eq!(
        failure,
        Failure::new(ErrorKind::CompilerUnspawnable, "g++".to_string())
            .caused_by(Machine::missing())
            .during(Operation::BuildingSources, String::new())
    );
}

#[test]
fn fail_because_target_directory_cannot_be_created() {
    let mut machine = foo_project();
    let mut build = Build::start(&at("/tmp/foo"));
    loop {
        match build.request() {
            Request::Probe(_) => break,
            request => build = build.advance(machine.perform(request).unwrap()),
        }
    }
    let build = build.advance(Event::Probed(Ok(false)));
    assert!(matches!(build.request(), Request::CreateDirectory(path) if path == at("/tmp/foo/target")));
    let build = build.advance(Event::Created(Creation::Failed(
        "Permission denied (os error 13)".to_string(),
    )));
    assert_eq!(
        build.outcome(),
        Some(Err(
            Failure::new(ErrorKind::TargetDirUncreatable, "/tmp/foo/target".to_string())
                .caused_by("Permission denied (os error 13)".to_string())
                .during(Operation::EnsuringTarget, String::new())
        ))
    );
}

#[test]
fn succeed_without_existing_target_dir() {
    let mut machine = Machine::new()
        .with_file("/tmp/foo/Cppargo.toml", PROJECT_MANIFEST)
        .with_file("/tmp/foo/src/main.cpp", HELLO_WORLD_PROGRAM);
    assert!(!machine.is_dir("/tmp/foo/target"));

    assert_eq!(machine.build("/tmp/foo"), Ok(at("/tmp/foo/target/foo")));

    assert!(machine.is_dir("/tmp/foo/target"));
    assert!(machine.is_file("/tmp/foo/target/foo"));
}

#[test]
fn succeed_with_existing_target_dir() {
    let mut machine = Machine::new()
        .with_file("/tmp/foo/Cppargo.toml", PROJECT_MANIFEST)
        .with_file("/tmp/foo/src/main.cpp", HELLO_WORLD_PROGRAM)
        .with_file("/tmp/foo/target/foo", "");

    assert_eq!(machine.build("/tmp/foo"), Ok(at("/tmp/foo/target/foo")));

    assert_eq!(machine.text("/tmp/foo/target/foo"), Some("binary"));
}

#[test]
fn building_twice_succeeds_twice_and_overwrites_the_binary() {
    let mut machine = Machine::new()
        .with_file("/tmp/foo/Cppargo.toml", PROJECT_MANIFEST)
        .with_file("/tmp/foo/src/main.cpp", HELLO_WORLD_PROGRAM);

    let first = machine.build("/tmp/foo");
    let second = machine.build("/tmp/foo");

    assert_eq!(first, Ok(at("/tmp/foo/target/foo")));
    assert_eq!(second, first);
    assert_eq!(machine.compilations.len(), 2);
    assert_eq!(machine.compilations[0], machine.compilations[1]);
    assert_eq!(machine.list(&at("/tmp/foo/target")).unwrap().len(), 1);
}

#[test]
fn build_asks_for_one_thing_at_a_time() {
    let mut machine = foo_project();
    let mut build = Build::start(&at("/tmp/foo/src"));
    let mut asked = Vec::new();
    loop {
        let request = build.request();
        asked.push(match &request {
            Request::ListDirectory(path) => format!("list {}", path.render()),
            Request::ReadFile(path) => format!("read {}", path.render()),
            Request::Probe(path) => format!("probe {}", path.render()),
            Request::CreateDirectory(path) => format!("create {}", path.render()),
            Request::Compile(invocation) => format!("compile {}", invocation.output.render()),
            Request::Nothing => "nothing".to_string(),
            _ => "unexpected".to_string(),
        });
        match machine.perform(request) {
            Some(event) => build = build.advance(event),
            None => break,
        }
    }
    assert_eq!(
        asked,
        vec![
            "list /tmp/foo/src",
            "list /tmp/foo",
            "read /tmp/foo/Cppargo.toml",
            "list /tmp/foo/src",
            "probe /tmp/foo/target",
            "create /tmp/foo/target",
            "compile /tmp/foo/target/foo",
            "nothing",
        ]
    );
}

#[test]
fn event_that_answers_nothing_changes_nothing() {
    let build = Build::start(&at("/tmp/foo"));
    let build = build.advance(Event::Probed(Ok(true)));
    let build = build.advance(Event::Completed(Ok(())));
    let build = build.advance(Event::Exited(Ok(true)));
    let build = build.advance(Event::Read(Ok(PROJECT_MANIFEST.to_string())));
    assert!(matches!(build.request(), Request::ListDirectory(path) if path == at("/tmp/foo")));
    assert!(build.outcome().is_none());
}

#[test]
fn finished_build_stays_finished() {
    let mut machine = foo_project();
    let mut build = Build::start(&at("/tmp/foo"));
    while let Some(event) = machine.perform(build.request()) {
        build = build.advance(event);
    }
    let build = build.advance(Event::Exited(Ok(false)));
    let build = build.advance(Event::Listed(Err("gone".to_string())));
    assert_eq!(build.outcome(), Some(Ok(at("/tmp/foo/target/foo"))));
    assert!(matches!(build.request(), Request::Nothing));
}

#[test]
fn project_name_is_read_from_the_manifest_text() {
    let root = at("/tmp/foo");
    assert_eq!(read_project_name(&root, Ok(PROJECT_MANIFEST.to_string())), Ok("foo".to_string()));
    assert_eq!(
        read_project_name(&root, Err("gone".to_string())),
        Err(
            Failure::new(ErrorKind::ManifestUnreadable, "/tmp/foo/Cppargo.toml".to_string())
                .caused_by("gone".to_string())
                .during(Operation::ParsingManifest, String::new())
        )
    );
    assert_eq!(
        read_project_name(&root, Ok("[project]\n".to_string())),
        Err(Failure::plain(ErrorKind::MissingKey).during(Operation::ParsingName, String::new()))
    );
}

#[test]
fn proper_find_project_binary() {
    let project_root = at("/tmp/project");
    let project_binary = at("/tmp/project/target/project");

    let found_project_binary = find_project_binary(&project_root, None, true);

    assert_eq!(found_project_binary, Ok(project_binary));
}

#[test]
fn project_binary_is_found_under_the_manifest_name() {
    let project_root = at("/t/bar");

    assert_eq!(find_project_binary(&project_root, Some("foo"), true), Ok(at("/t/bar/target/foo")));
    assert_eq!(
        find_project_binary(&project_root, Some("foo"), false),
        Err(Failure::new(ErrorKind::BinaryNotFound, "/t/bar/target/foo".to_string()))
    );
    assert_eq!(find_project_binary(&project_root, Some("bar"), true), Ok(at("/t/bar/target/bar")));
    assert_eq!(
        find_project_binary(&ProjectPath::root(), Some("foo"), true),
        Ok(at("/target/foo"))
    );
}

#[test]
fn missing_project_binary_is_not_found() {
    let failure = find_project_binary(&at("/tmp/project"), None, false).unwrap_err();

    assert_eq!(
        failure,
        Failure::new(ErrorKind::BinaryNotFound, "/tmp/project/target/project".to_string())
    );
    assert_eq!(failure.message(), "Project excecutable /tmp/project/target/project not found");
    assert!(failure.message().contains("not found"));
}

#[test]
fn root_without_name_has_no_binary() {
    for present in [true, false] {
        let failure = find_project_binary(&ProjectPath::root(), None, present).unwrap_err();
        assert_eq!(failure, Failure::plain(ErrorKind::ProjectNameUnavailable));
        assert_eq!(failure.message(), "Couldn't get project name.");
    }
    assert_eq!(
        expected_project_binary(&at("/tmp/.."), None),
        Err(Failure::plain(ErrorKind::ProjectNameUnavailable))
    );
    assert_eq!(
        expected_project_binary(&at("/tmp").child(""), None),
        Err(Failure::plain(ErrorKind::ProjectNameUnavailable))
    );
}

#[test]
fn expected_binary_follows_the_given_name_or_the_root() {
    assert_eq!(expected_project_binary(&at("/tmp/dir"), Some("foo")), Ok(at("/tmp/dir/target/foo")));
    assert_eq!(expected_project_binary(&at("/tmp/dir"), None), Ok(at("/tmp/dir/target/dir")));
    assert_eq!(expected_project_binary(&ProjectPath::root(), Some("foo")), Ok(at("/target/foo")));
}

#[test]
fn run_without_prior_build_fails() {
    let mut machine = Machine::new()
        .with_file("/tmp/foo/Cppargo.toml", PROJECT_MANIFEST)
        .with_file("/tmp/foo/src/main.cpp", HELLO_WORLD_PROGRAM);

    let failure = machine.run("/tmp/foo", Some("foo")).unwrap_err();

    assert_eq!(
        failure,
        Failure::new(ErrorKind::BinaryNotFound, "/tmp/foo/target/foo".to_string())
            .during(Operation::FindingBinary, String::new())
    );
    assert!(failure.chain().iter().any(|line| line.contains("not found")));
    assert_eq!(
        failure.chain(),
        vec![
            "Failed to find project binary!".to_string(),
            "Project excecutable /tmp/foo/target/foo not found".to_string()
        ]
    );
    assert!(machine.started.is_empty());
}

#[test]
fn succeed_build_and_run_project() {
    let mut machine = Machine::new()
        .with_file("/tmp/foo/Cppargo.toml", PROJECT_MANIFEST)
        .with_file("/tmp/foo/src/main.cpp", HELLO_WORLD_PROGRAM)
        .with_dir("/tmp/foo/target");

    let binary = machine.build("/tmp/foo").unwrap();
    assert_eq!(binary, at("/tmp/foo/target/foo"));
    assert_eq!(machine.run_binary(&binary), Ok(at("/tmp/foo/target/foo")));

    assert_eq!(machine.started, vec!["/tmp/foo/target/foo".to_string()]);
    assert_eq!(machine.awaited, 1);
}

#[test]
fn run_by_manifest_name_finds_what_the_build_wrote() {
    let mut machine = Machine::new()
        .with_file("/tmp/dir/Cppargo.toml", "[project]\nname = \"other\"\n")
        .with_file("/tmp/dir/src/main.cpp", "int main() {}\n");

    let binary = machine.build("/tmp/dir").unwrap();

    assert_eq!(binary, at("/tmp/dir/target/other"));
    assert_eq!(machine.run("/tmp/dir", Some("other")), Ok(at("/tmp/dir/target/other")));
    assert_eq!(machine.run_binary(&binary), Ok(at("/tmp/dir/target/other")));
    assert_eq!(
        machine.started,
        vec!["/tmp/dir/target/other".to_string(), "/tmp/dir/target/other".to_string()]
    );
}

#[test]
fn build_from_nested_directory_is_run_from_the_root() {
    let mut machine = Machine::new()
        .with_file("/t/bar/Cppargo.toml", PROJECT_MANIFEST)
        .with_file("/t/bar/src/deep/main.cpp", "int main() {}\n");

    let binary = machine.build("/t/bar/src/deep").unwrap();

    assert_eq!(binary, at("/t/bar/target/foo"));
    assert_eq!(machine.run_binary(&binary), Ok(at("/t/bar/target/foo")));
    assert_eq!(machine.started, vec!["/t/bar/target/foo".to_string()]);
}

#[test]
fn run_of_a_binary_begins_by_probing_it() {
    let run = Run::of_binary(&at("/t/bar/target/foo"));
    assert!(matches!(&run, Run::Probing { binary } if *binary == at("/t/bar/target/foo")));
    assert!(matches!(run.request(), Request::Probe(path) if path == at("/t/bar/target/foo")));
    assert!(run.outcome().is_none());
    let run = run.advance(Event::Probed(Ok(false)));
    assert_eq!(
        run.outcome(),
        Some(Err(
            Failure::new(ErrorKind::BinaryNotFound, "/t/bar/target/foo".to_string())
                .during(Operation::FindingBinary, String::new())
        ))
    );
}

#[test]
fn run_without_manifest_is_named_after_the_root() {
    let mut machine = Machine::new().with_file("/tmp/dir/target/dir", "binary");

    assert_eq!(machine.run("/tmp/dir", None), Ok(at("/tmp/dir/target/dir")));
}

#[test]
fn run_reports_a_binary_that_cannot_be_started() {
    let run = Run::start(&at("/tmp/foo"), None);
    let run = run.advance(Event::Probed(Ok(true)));
    assert!(matches!(run.request(), Request::Start(path) if path == at("/tmp/foo/target/foo")));
    let run = run.advance(Event::Completed(Err("Permission denied (os error 13)".to_string())));
    let failure = run.outcome().unwrap().unwrap_err();
    assert_eq!(
        failure.chain(),
        vec![
            "Failed to run project binary!".to_string(),
            "Couldn't excecute project file /tmp/foo/target/foo".to_string(),
            "Permission denied (os error 13)".to_string(),
        ]
    );
}

#[test]
fn run_reports_a_binary_that_cannot_be_waited_for() {
    let run = Run::start(&at("/tmp/foo"), None)
        .advance(Event::Probed(Ok(true)))
        .advance(Event::Completed(Ok(())));
    assert!(matches!(run.request(), Request::Await));
    let run = run.advance(Event::Completed(Err("Interrupted".to_string())));
    assert_eq!(
        run.outcome(),
        Some(Err(
            Failure::new(ErrorKind::WaitFailed, "/tmp/foo/target/foo".to_string())
                .caused_by("Interrupted".to_string())
                .during(Operation::RunningBinary, String::new())
        ))
    );
}

#[test]
fn run_treats_a_failed_probe_as_a_missing_binary() {
    let run = Run::start(&at("/tmp/foo"), None).advance(Event::Probed(Err("denied".to_string())));
    assert_eq!(
        run.outcome(),
        Some(Err(
            Failure::new(ErrorKind::BinaryNotFound, "/tmp/foo/target/foo".to_string())
                .caused_by("denied".to_string())
                .during(Operation::FindingBinary, String::new())
        ))
    );
}

#[test]
fn run_of_nameless_root_fails_at_once() {
    let run = Run::start(&ProjectPath::root(), None);
    assert!(matches!(run.request(), Request::Nothing));
    assert_eq!(
        run.outcome(),
        Some(Err(
            Failure::plain(ErrorKind::ProjectNameUnavailable)
                .during(Operation::FindingBinary, String::new())
        ))
    );
}

#[test]
fn proper_project_fs_creation() {
    let mut machine = Machine::new().with_dir("/tmp");

    assert_eq!(machine.create("/tmp/test"), Ok(at("/tmp/test")));

    assert!(machine.is_dir("/tmp/test"));
    assert!(machine.is_dir("/tmp/test/src"));
}

#[test]
fn proper_nested_project_fs_creation() {
    let mut machine = Machine::new().with_dir("/tmp");

    assert_eq!(machine.create("/tmp/parent/project_dir"), Ok(at("/tmp/parent/project_dir")));

    assert!(machine.is_dir("/tmp/parent/project_dir"));
    assert!(machine.is_dir("/tmp/parent/project_dir/src"));
}

#[test]
fn proper_hello_world_creation() {
    let project_src = at("/tmp/project/src");

    let (path, text) = create_hello_world(&project_src);

    assert_eq!(path, at("/tmp/project/src/main.cpp"));
    assert_eq!(text, HELLO_WORLD_PROGRAM);
    assert_eq!(MAIN_FILE_NAME, "main.cpp");
    assert_eq!(
        HELLO_WORLD_PROGRAM,
        "#include <iostream>\n\nint main() {\n    std::cout << \"Hello World!\\n\";\n\n    return 0;\n}\n"
    );
}

#[test]
fn proper_new_project() {
    let mut machine = Machine::new().with_dir("/tmp");

    assert_eq!(machine.create("/tmp/foo"), Ok(at("/tmp/foo")));

    assert!(machine.is_dir("/tmp/foo"));
    assert_eq!(machine.text("/tmp/foo/Cppargo.toml"), Some("[project]\nname = \"foo\"\n"));
    assert!(machine.is_dir("/tmp/foo/src"));
    assert!(machine.is_file("/tmp/foo/src/main.cpp"));
}

#[test]
fn succeed_relative() {
    let mut machine = Machine::new();

    assert_eq!(machine.create("foo"), Ok(at("foo")));

    ensure_project_created_successfully(&machine, "foo", "foo");
}

#[test]
fn succeed_relative_nested() {
    let mut machine = Machine::new();

    assert_eq!(machine.create("foo/bar"), Ok(at("foo/bar")));

    ensure_project_created_successfully(&machine, "foo/bar", "bar");
}

#[test]
fn succeed_absolute() {
    let mut machine = Machine::new().with_dir("/tmp");

    assert_eq!(machine.create("/tmp/foo"), Ok(at("/tmp/foo")));

    ensure_project_created_successfully(&machine, "/tmp/foo", "foo");
}

#[test]
fn succeed_absolute_nested() {
    let mut machine = Machine::new().with_dir("/tmp");

    assert_eq!(machine.create("/tmp/foo/bar"), Ok(at("/tmp/foo/bar")));

    ensure_project_created_successfully(&machine, "/tmp/foo/bar", "bar");
}

#[test]
fn fail_because_project_dir_already_exists() {
    let mut machine = Machine::new().with_dir("/tmp/foo");

    let failure = machine.create("/tmp/foo").unwrap_err();

    assert_eq!(
        failure,
        Failure::new(ErrorKind::PathExists, "/tmp/foo".to_string())
            .during(Operation::CreatingLayout, String::new())
    );
    assert_eq!(
        failure.chain(),
        vec![
            "Failed to create project file structure".to_string(),
            "Path /tmp/foo already exists!".to_string()
        ]
    );
    assert!(!machine.is_dir("/tmp/foo/src"));
    assert!(!machine.is_file("/tmp/foo/Cppargo.toml"));
}

#[test]
fn fail_because_project_path_is_a_file() {
    let mut machine = Machine::new().with_file("/tmp/foo", "");

    assert_eq!(machine.create("/tmp/foo").unwrap_err().kind, ErrorKind::PathExists);
}

#[test]
fn new_project_begins_by_probing_the_path() {
    let scaffold = new_project(&at("/tmp/foo"));
    assert!(matches!(&scaffold, Scaffold::Probing { root } if *root == at("/tmp/foo")));
    assert!(matches!(scaffold.request(), Request::Probe(path) if path == at("/tmp/foo")));
    assert!(scaffold.outcome().is_none());
}

#[test]
fn new_project_asks_for_one_thing_at_a_time() {
    let mut machine = Machine::new().with_dir("/tmp");
    let mut scaffold = new_project(&at("/tmp/foo"));
    let mut asked = Vec::new();
    loop {
        let request = scaffold.request();
        asked.push(match &request {
            Request::Probe(path) => format!("probe {}", path.render()),
            Request::CreateDirectories(path) => format!("create all {}", path.render()),
            Request::CreateDirectory(path) => format!("create {}", path.render()),
            Request::WriteFile(path, text) => format!("write {} ({})", path.render(), text.len()),
            Request::Nothing => "nothing".to_string(),
            _ => "unexpected".to_string(),
        });
        match machine.perform(request) {
            Some(event) => scaffold = scaffold.advance(event),
            None => break,
        }
    }
    assert_eq!(
        asked,
        vec![
            "probe /tmp/foo".to_string(),
            "create all /tmp/foo".to_string(),
            "create /tmp/foo/src".to_string(),
            format!("write /tmp/foo/Cppargo.toml ({})", PROJECT_MANIFEST.len()),
            format!("write /tmp/foo/src/main.cpp ({})", HELLO_WORLD_PROGRAM.len()),
            "nothing".to_string(),
        ]
    );
}

#[test]
fn new_project_failures_name_what_could_not_be_done() {
    let denied = || Event::Completed(Err("Permission denied (os error 13)".to_string()));
    let done = || Event::Completed(Ok(()));
    let refused = || Event::Created(Creation::Failed("Permission denied (os error 13)".to_string()));
    let created = || Event::Created(Creation::Done);
    let free = || Event::Probed(Ok(false));
    let begin = || new_project(&at("/tmp/foo"));
    let failed = |scaffold: Scaffold| scaffold.outcome().unwrap().unwrap_err().chain();

    assert_eq!(
        failed(begin().advance(free()).advance(refused())),
        vec![
            "Failed to create project file structure",
            "Failed to create project directory at /tmp/foo.",
            "Permission denied (os error 13)"
        ]
    );
    assert_eq!(
        failed(begin().advance(free()).advance(created()).advance(refused())),
        vec![
            "Failed to create project file structure",
            "Failed to create project source directory /tmp/foo/src.",
            "Permission denied (os error 13)"
        ]
    );
    assert_eq!(
        failed(begin().advance(free()).advance(created()).advance(created()).advance(denied())),
        vec!["Failed to create manifest at /tmp/foo/Cppargo.toml!", "Permission denied (os error 13)"]
    );
    assert_eq!(
        failed(
            begin()
                .advance(free())
                .advance(created())
                .advance(created())
                .advance(done())
                .advance(denied())
        ),
        vec![
            "Failed to create simple 'Hello World!' program.",
            "Failed to create project `/tmp/foo/src/main.cpp` file.",
            "Permission denied (os error 13)"
        ]
    );
}

#[test]
fn new_project_without_a_name_fails_before_the_manifest() {
    let scaffold = new_project(&at("/tmp/gone/.."))
        .advance(Event::Probed(Ok(false)))
        .advance(Event::Created(Creation::Done))
        .advance(Event::Created(Creation::Done));
    let failure = scaffold.outcome().unwrap().unwrap_err();
    assert_eq!(failure, Failure::new(ErrorKind::RootNameUnavailable, "/tmp/gone/..".to_string()));
    assert_eq!(failure.message(), "Failed to get project name from project root: /tmp/gone/..!");
}

#[test]
fn succeed_create_and_build_project() {
    let mut machine = Machine::new().with_dir("/tmp");

    assert_eq!(machine.create("/tmp/foo"), Ok(at("/tmp/foo")));
    assert_eq!(machine.build("/tmp/foo"), Ok(at("/tmp/foo/target/foo")));

    assert!(machine.is_file("/tmp/foo/target/foo"));
    assert_eq!(
        machine.compilations,
        vec![vec![
            "-o".to_string(),
            "/tmp/foo/target/foo".to_string(),
            "/tmp/foo/src/main.cpp".to_string()
        ]]
    );
}

#[test]
fn commands_are_plain_values() {
    let cli = Cli { command: Commands::New { path: at("/tmp/foo") } };
    assert_eq!(cli.command, Commands::New { path: at("/tmp/foo") });
    assert_ne!(cli.command, Commands::Build);
    assert_ne!(Commands::Build, Commands::Run);
}

#[test]
fn target_directory_that_appeared_meanwhile_is_no_failure() {
    let mut machine = foo_project();
    let mut build = Build::start(&at("/tmp/foo"));
    loop {
        match build.request() {
            Request::Probe(_) => break,
            request => build = build.advance(machine.perform(request).unwrap()),
        }
    }
    let build = build.advance(Event::Probed(Ok(false)));
    let build =
        build.advance(Event::Created(Creation::AlreadyThere("File exists (os error 17)".to_string())));
    assert!(
        matches!(build.request(), Request::Compile(invocation) if invocation.output == at("/tmp/foo/target/foo"))
    );
}

#[test]
fn new_project_fails_where_the_source_directory_is_already_there() {
    let scaffold = new_project(&at("/tmp/foo"))
        .advance(Event::Probed(Ok(false)))
        .advance(Event::Created(Creation::Done))
        .advance(Event::Created(Creation::AlreadyThere("File exists (os error 17)".to_string())));
    assert_eq!(
        scaffold.outcome(),
        Some(Err(
            Failure::new(ErrorKind::SourceDirUncreatable, "/tmp/foo/src".to_string())
                .caused_by("File exists (os error 17)".to_string())
                .during(Operation::CreatingLayout, String::new())
        ))
    );
}

#[test]
fn creation_tells_its_trouble() {
    assert_eq!(Creation::Done.trouble(), None);
    assert_eq!(Creation::AlreadyThere("there".to_string()).trouble(), Some("there".to_string()));
    assert_eq!(Creation::Failed("denied".to_string()).trouble(), Some("denied".to_string()));
}

#[test]
fn new_project_at_a_path_ending_in_nothing_names_nothing() {
    let nameless = at("/tmp").child("");
    let scaffold = new_project(&nameless)
        .advance(Event::Probed(Ok(false)))
        .advance(Event::Created(Creation::Done))
        .advance(Event::Created(Creation::Done));
    let failure = scaffold.outcome().unwrap().unwrap_err();
    assert_eq!(failure.kind, ErrorKind::RootNameUnavailable);
    assert_eq!(failure.subject, "/tmp/");
    assert_eq!(cppargo::new::create_manifest(&nameless), None);
}
