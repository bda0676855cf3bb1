use cppargo::collect::copy_paths;
use cppargo::collect::holds_path;
use cppargo::collect::SourceSet;
use cppargo::collect::SourceWalk;
use cppargo::error::ErrorKind;
use cppargo::error::Failure;
use cppargo::listing::DirEntry;
use cppargo::path::ProjectPath;

fn at(text: &str) -> ProjectPath {
    let mut path = if text.starts_with('/') { ProjectPath::root() } else { ProjectPath::here() };
    for segment in text.split('/').filter(|segment| !segment.is_empty()) {
        path = path.child(segment);
    }
    path
}

fn file(name: &str) -> DirEntry {
    DirEntry { name: name.to_string(), is_dir: false }
}

fn dir(name: &str) -> DirEntry {
    DirEntry { name: name.to_string(), is_dir: true }
}

/// Lists a directory of a made-up file system: only the listed directories
/// can be read.
fn list(disk: &[(&str, Vec<DirEntry>)], dir: &ProjectPath) -> Result<Vec<DirEntry>, String> {
    let text = dir.render();
    for (path, entries) in disk {
        if *path == text {
            return Ok(entries
                .iter()
                .map(|entry| DirEntry { name: entry.name.clone(), is_dir: entry.is_dir })
                .collect());
        }
    }
    Err("No such file or directory (os error 2)".to_string())
}

/// Runs a walk over the made-up file system and gives the files as sorted
/// texts.
fn find_src_files(disk: &[(&str, Vec<DirEntry>)], project_src: &ProjectPath) -> Result<Vec<String>, Failure> {
    let mut walk = SourceWalk::begin(project_src);
    let mut listed = 0;
    while let Some(dir) = walk.current() {
        assert!(walk.outcome().is_none());
        walk = walk.record(list(disk, &dir));
        listed += 1;
        assert!(listed < 1000);
    }
    let sources = walk.outcome().expect("a walk without directories left is over")?;
    let mut found: Vec<String> = sources.files().iter().map(|path| path.render()).collect();
    assert_eq!(found.len(), sources.count());
    found.sort();
    Ok(found)
}

fn expected(paths: &[&str]) -> Result<Vec<String>, Failure> {
    let mut paths: Vec<String> = paths.iter().map(|path| path.to_string()).collect();
    paths.sort();
    Ok(paths)
}

#[test]
fn find_main() {
    let disk = [("/tmp/src", vec![file("main.cpp")])];

    let found_src_files = find_src_files(&disk, &at("/tmp/src"));

    assert_eq!(found_src_files, expected(&["/tmp/src/main.cpp"]));
}

#[test]
fn find_only_cpp_files() {
    let disk = [(
        "/tmp/src",
        vec![
            file("main.cpp"),
            file("header.hpp"),
            file("text.txt"),
            file("c_file.c"),
            file("c_header.h"),
            file("binary"),
        ],
    )];

    let found_src_files = find_src_files(&disk, &at("/tmp/src"));

    assert_eq!(found_src_files, expected(&["/tmp/src/main.cpp"]));
}

#[test]
fn find_same_dir_files() {
    let disk = [("/tmp/src", vec![file("main.cpp"), file("other.cpp")])];

    let found_src_files = find_src_files(&disk, &at("/tmp/src"));

    assert_eq!(found_src_files, expected(&["/tmp/src/main.cpp", "/tmp/src/other.cpp"]));
}

#[test]
fn find_with_empty_directories() {
    let disk = [("/tmp/src", vec![file("main.cpp"), dir("empty")]), ("/tmp/src/empty", vec![])];

    let found_src_files = find_src_files(&disk, &at("/tmp/src"));

    assert_eq!(found_src_files, expected(&["/tmp/src/main.cpp"]));
}

#[test]
fn find_within_nested_directories() {
    let disk = [
        ("/tmp/src", vec![file("main.cpp"), dir("nested")]),
        ("/tmp/src/nested", vec![file("nested.cpp")]),
    ];

    let found_src_files = find_src_files(&disk, &at("/tmp/src"));

    assert_eq!(found_src_files, expected(&["/tmp/src/main.cpp", "/tmp/src/nested/nested.cpp"]));
}

#[test]
fn find_within_doubly_nested_directories() {
    let disk = [
        ("/tmp/src", vec![file("main.cpp"), dir("doubly")]),
        ("/tmp/src/doubly", vec![dir("nested")]),
        ("/tmp/src/doubly/nested", vec![file("doubly_nested.cpp")]),
    ];

    let found_src_files = find_src_files(&disk, &at("/tmp/src"));

    assert_eq!(
        found_src_files,
        expected(&["/tmp/src/main.cpp", "/tmp/src/doubly/nested/doubly_nested.cpp"])
    );
}

#[test]
fn find_in_a_wide_and_deep_tree() {
    let disk = [
        ("/p/src", vec![dir("a"), file("one.cpp"), dir("b"), file("notes.md"), dir("c")]),
        ("/p/src/a", vec![file("two.cpp"), dir("deep")]),
        ("/p/src/a/deep", vec![dir("deeper")]),
        ("/p/src/a/deep/deeper", vec![file("three.cpp"), file("three.hpp")]),
        ("/p/src/b", vec![file("Makefile")]),
        ("/p/src/c", vec![file("four.cpp"), file("five.cpp")]),
    ];

    let found_src_files = find_src_files(&disk, &at("/p/src"));

    assert_eq!(
        found_src_files,
        expected(&[
            "/p/src/one.cpp",
            "/p/src/a/two.cpp",
            "/p/src/a/deep/deeper/three.cpp",
            "/p/src/c/four.cpp",
            "/p/src/c/five.cpp",
        ])
    );
}

#[test]
fn empty_source_directory_fails() {
    let disk = [("/tmp/src", vec![])];

    let failure = find_src_files(&disk, &at("/tmp/src")).unwrap_err();

    assert_eq!(failure, Failure::new(ErrorKind::NoSourceFiles, "/tmp/src".to_string()));
    assert_eq!(
        failure.message(),
        "No source `.cpp` files to compile found in \"/tmp/src\" directory."
    );
}

#[test]
fn source_directory_without_sources_fails_whatever_else_it_holds() {
    let disk = [
        ("/tmp/src", vec![file("header.hpp"), dir("empty"), file("binary"), dir("docs")]),
        ("/tmp/src/empty", vec![dir("emptier")]),
        ("/tmp/src/empty/emptier", vec![]),
        ("/tmp/src/docs", vec![file("readme.txt"), file(".cpp")]),
    ];

    let failure = find_src_files(&disk, &at("/tmp/src")).unwrap_err();

    assert_eq!(failure.kind, ErrorKind::NoSourceFiles);
    assert_eq!(failure.subject, "/tmp/src");
}

#[test]
fn missing_source_directory_fails() {
    let disk = [];

    let failure = find_src_files(&disk, &at("/tmp/src")).unwrap_err();

    assert_eq!(
        failure,
        Failure::new(ErrorKind::SourceDirUnreadable, "/tmp/src".to_string())
            .caused_by("No such file or directory (os error 2)".to_string())
    );
    assert_eq!(failure.message(), "Couldn't read source directory /tmp/src.");
}

#[test]
fn unreadable_subdirectory_adds_nothing() {
    let disk = [("/tmp/src", vec![dir("locked"), file("main.cpp"), dir("open")]), (
        "/tmp/src/open",
        vec![file("open.cpp")],
    )];

    let found_src_files = find_src_files(&disk, &at("/tmp/src"));

    assert_eq!(found_src_files, expected(&["/tmp/src/main.cpp", "/tmp/src/open/open.cpp"]));
}

#[test]
fn only_unreadable_subdirectories_means_no_sources() {
    let disk = [("/tmp/src", vec![dir("locked")])];

    let failure = find_src_files(&disk, &at("/tmp/src")).unwrap_err();

    assert_eq!(failure.kind, ErrorKind::NoSourceFiles);
}

#[test]
fn directory_with_source_extension_is_entered_not_collected() {
    let disk = [
        ("/tmp/src", vec![dir("lib.cpp"), file("main.cpp")]),
        ("/tmp/src/lib.cpp", vec![file("inner.cpp")]),
    ];

    let found_src_files = find_src_files(&disk, &at("/tmp/src"));

    assert_eq!(found_src_files, expected(&["/tmp/src/main.cpp", "/tmp/src/lib.cpp/inner.cpp"]));
}

#[test]
fn file_listed_twice_is_found_once() {
    let disk = [("/tmp/src", vec![file("main.cpp"), file("other.cpp"), file("main.cpp")])];

    let found_src_files = find_src_files(&disk, &at("/tmp/src"));

    assert_eq!(found_src_files, expected(&["/tmp/src/main.cpp", "/tmp/src/other.cpp"]));
}

#[test]
fn relative_source_directory_gives_relative_files() {
    let disk = [("src", vec![file("main.cpp")])];

    let found_src_files = find_src_files(&disk, &at("src"));

    assert_eq!(found_src_files, expected(&["src/main.cpp"]));
}

#[test]
fn walk_begins_with_the_source_directory() {
    let walk = SourceWalk::begin(&at("/tmp/src"));
    assert_eq!(walk.current(), Some(at("/tmp/src")));
    assert_eq!(walk.source_dir(), &at("/tmp/src"));
    assert!(walk.outcome().is_none());
}

#[test]
fn walk_lists_the_last_subdirectory_first() {
    let walk = SourceWalk::begin(&at("/s"));
    let walk = walk.record(Ok(vec![dir("a"), file("x.cpp"), dir("b")]));
    assert_eq!(walk.current(), Some(at("/s/b")));
    let walk = walk.record(Ok(vec![dir("c")]));
    assert_eq!(walk.current(), Some(at("/s/b/c")));
    let walk = walk.record(Err("gone".to_string()));
    assert_eq!(walk.current(), Some(at("/s/a")));
    let walk = walk.record(Ok(vec![]));
    assert_eq!(walk.current(), None);
    assert_eq!(walk.source_dir(), &at("/s"));
}

#[test]
fn finished_walk_ignores_further_listings() {
    let walk = SourceWalk::begin(&at("/s")).record(Ok(vec![file("x.cpp")]));
    let walk = walk.record(Ok(vec![file("y.cpp"), dir("d")]));
    assert_eq!(walk.current(), None);
    let sources = walk.outcome().unwrap().unwrap();
    assert_eq!(sources.files(), &vec![at("/s/x.cpp")]);
}

#[test]
fn source_set_keeps_each_path_once() {
    let sources =
        SourceSet::from_paths(vec![at("/s/a.cpp"), at("/s/b.cpp"), at("/s/a.cpp")]).unwrap();
    assert_eq!(sources.count(), 2);
    assert_eq!(sources.files(), &vec![at("/s/a.cpp"), at("/s/b.cpp")]);
    assert!(sources.contains(&at("/s/a.cpp")));
    assert!(sources.contains(&at("/s/b.cpp")));
    assert!(!sources.contains(&at("/s/c.cpp")));
    assert_eq!(sources.clone().files(), sources.files());
}

#[test]
fn source_set_is_never_empty() {
    assert!(SourceSet::from_paths(Vec::new()).is_none());
}

#[test]
fn holds_path_and_copy_paths() {
    let paths = vec![at("/a"), at("/b/c")];
    assert!(holds_path(&paths, &at("/b/c")));
    assert!(!holds_path(&paths, &at("/b")));
    assert!(!holds_path(&paths, &at("b/c")));
    assert_eq!(copy_paths(&paths), paths);
}
