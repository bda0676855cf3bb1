//! The project manifest: where it lies, how its text becomes a document,
//! and how the project's name is taken from the document.
//!
//! Parsing and printing are the work of `toml_edit`. What this module
//! believes of that crate is stated on the items marked as trusted below;
//! everything else is proved from those statements.

use vstd::prelude::*;
use toml_edit::DocumentMut;
use toml_edit::Item;
use toml_edit::Table;
use crate::error::ErrorKind;
use crate::error::Failure;
use crate::error::FailureView;
use crate::path::ProjectPath;

verus! {

/// The name of the manifest file, which marks a directory as a project root.
pub const MANIFEST_FILE_NAME: &'static str = "Cppargo.toml";

/// The manifest entry that holds the project's settings.
pub const PROJECT_SECTION: &'static str = "project";

/// The key, inside the project section, of the project's name.
pub const NAME_KEY: &'static str = "name";

/// What a table holds under one key, as far as the manifest rules care.
pub enum Entry {
    /// A table with a header of its own, and what it holds in turn.
    Section(Map<Seq<char>, Entry>),
    /// A string value.
    Text(Seq<char>),
    /// Any other value: a number, a boolean, a date, an array, an inline table.
    Scalar,
    /// An array of tables.
    Sections,
}

/// Trusted: `toml_edit::DocumentMut`, carried through as an opaque value.
#[verifier::external_type_specification]
#[verifier::external_body]
pub struct ExDocumentMut(DocumentMut);

/// Trusted: `toml_edit::Table`, carried through as an opaque value.
#[verifier::external_type_specification]
#[verifier::external_body]
pub struct ExTable(Table);

/// The entries of a table: every key under which `Table::get` finds an item,
/// with the shape of that item.
pub uninterp spec fn table_entries(table: Table) -> Map<Seq<char>, Entry>;

/// The entries of a document's root table; none where the root is no table.
pub uninterp spec fn document_entries(document: DocumentMut) -> Map<Seq<char>, Entry>;

/// What `DocumentMut::from_str` makes of a text: the entries of the document
/// that it returns, or the text of the error that it reports.
pub uninterp spec fn parsed(text: Seq<char>) -> Result<Map<Seq<char>, Entry>, Seq<char>>;

/// The text that `toml_edit` prints for a fresh document in which the table
/// `section` holds the string `value` under `key`, and nothing else.
pub uninterp spec fn printed(section: Seq<char>, key: Seq<char>, value: Seq<char>) -> Seq<char>;

/// The manifest text of a project called `name`.
pub open spec fn manifest_text(name: Seq<char>) -> Seq<char> {
    printed(PROJECT_SECTION@, NAME_KEY@, name)
}

/// What a lookup in a table came back with.
enum Found<'a> {
    /// Nothing under the key.
    Missing,
    /// A table with a header of its own.
    Section(&'a Table),
    /// A string value.
    Text(&'a str),
    /// Any other value.
    Scalar,
    /// An array of tables.
    Sections,
}

/// Trusted: `<DocumentMut as FromStr>::from_str`, with the error turned into
/// its text by `TomlError::to_string`. Claimed: the outcome depends on the
/// text alone, so it can be called `parsed(text)`.
#[verifier::external_body]
fn parse_document(text: &str) -> (outcome: Result<DocumentMut, String>)
    ensures
        match outcome {
            Ok(document) => parsed(text@) == Ok::<Map<Seq<char>, Entry>, Seq<char>>(
                document_entries(document),
            ),
            Err(complaint) => parsed(text@) == Err::<Map<Seq<char>, Entry>, Seq<char>>(
                complaint@,
            ),
        },
{
    <DocumentMut as std::str::FromStr>::from_str(text).map_err(|error| error.to_string())
}

/// Trusted: `DocumentMut::as_item` followed by `Item::as_table`. Claimed: a
/// document's entries are those of its root table.
#[verifier::external_body]
fn document_root<'a>(document: &'a DocumentMut) -> (root: Option<&'a Table>)
    ensures
        match root {
            Some(table) => table_entries(*table) == document_entries(*document),
            None => document_entries(*document) == Map::<Seq<char>, Entry>::empty(),
        },
{
    document.as_item().as_table()
}

/// Trusted: `Table::get`, with the item that it returns told apart by its
/// variant, and a value told apart by `Value::as_str`. Claimed: `get` finds
/// nothing exactly under the keys that the table's entries lack, and
/// otherwise the item has the shape that the entries record.
#[verifier::external_body]
fn lookup<'a>(table: &'a Table, key: &str) -> (found: Found<'a>)
    ensures
        match found {
            Found::Missing => !table_entries(*table).contains_key(key@),
            Found::Section(section) => table_entries(*table).contains_key(key@)
                && table_entries(*table)[key@] == Entry::Section(table_entries(*section)),
            Found::Text(text) => table_entries(*table).contains_key(key@) && table_entries(
                *table,
            )[key@] == Entry::Text(text@),
            Found::Scalar => table_entries(*table).contains_key(key@) && table_entries(
                *table,
            )[key@] == Entry::Scalar,
            Found::Sections => table_entries(*table).contains_key(key@) && table_entries(
                *table,
            )[key@] == Entry::Sections,
        },
{
    match table.get(key) {
        None | Some(Item::None) => Found::Missing,
        Some(Item::Table(section)) => Found::Section(section),
        Some(Item::ArrayOfTables(_)) => Found::Sections,
        Some(Item::Value(value)) => match value.as_str() {
            Some(text) => Found::Text(text),
            None => Found::Scalar,
        },
    }
}

/// Trusted: `DocumentMut::new`, two assignments through `IndexMut` (a new
/// `Table` under `section`, then `toml_edit::value(value)` under `key` in
/// that table) and `DocumentMut::to_string`. Claimed: the text depends on
/// the three strings alone, so it can be called `printed(section, key,
/// value)`.
#[verifier::external_body]
fn print_document(section: &str, key: &str, value: &str) -> (text: String)
    ensures
        text@ == printed(section@, key@, value@),
{
    let mut document = DocumentMut::new();
    document[section] = Item::Table(Table::new());
    document[section][key] = toml_edit::value(value);
    document.to_string()
}

/// The shape of what was found under a key, without the thing itself.
#[derive(Debug, PartialEq, Eq)]
pub enum Shape {
    /// Nothing under the key.
    Missing,
    /// A table with a header of its own.
    Section,
    /// A string value, with its text.
    Text(String),
    /// Any other value.
    Scalar,
    /// An array of tables.
    Sections,
}

/// The mathematical value of a [`Shape`].
pub enum ShapeView {
    Missing,
    Section,
    Text(Seq<char>),
    Scalar,
    Sections,
}

impl View for Shape {
    type V = ShapeView;

    open spec fn view(&self) -> ShapeView {
        match self {
            Shape::Missing => ShapeView::Missing,
            Shape::Section => ShapeView::Section,
            Shape::Text(text) => ShapeView::Text(text@),
            Shape::Scalar => ShapeView::Scalar,
            Shape::Sections => ShapeView::Sections,
        }
    }
}

/// The shape of what `entries` holds under `key`.
pub open spec fn shape_at(entries: Map<Seq<char>, Entry>, key: Seq<char>) -> ShapeView {
    if !entries.contains_key(key) {
        ShapeView::Missing
    } else {
        match entries[key] {
            Entry::Section(_) => ShapeView::Section,
            Entry::Text(text) => ShapeView::Text(text),
            Entry::Scalar => ShapeView::Scalar,
            Entry::Sections => ShapeView::Sections,
        }
    }
}

/// The entries of the table under `key`; none where there is no table.
pub open spec fn section_at(entries: Map<Seq<char>, Entry>, key: Seq<char>) -> Map<
    Seq<char>,
    Entry,
> {
    if entries.contains_key(key) && entries[key] is Section {
        entries[key]->Section_0
    } else {
        Map::empty()
    }
}

/// The project's name, given the shape of the manifest's `project` entry
/// and the shape of the `name` entry inside it: the non-empty string under
/// `name` in the table `project`, or the first rule that the manifest
/// breaks.
pub open spec fn name_from_shapes(project: ShapeView, name: ShapeView) -> Result<
    Seq<char>,
    ErrorKind,
> {
    match project {
        ShapeView::Missing => Err(ErrorKind::MissingSection),
        ShapeView::Section => match name {
            ShapeView::Missing => Err(ErrorKind::MissingKey),
            ShapeView::Text(text) => if text.len() == 0 {
                Err(ErrorKind::EmptyValue)
            } else {
                Ok(text)
            },
            ShapeView::Scalar => Err(ErrorKind::ValueNotString),
            _ => Err(ErrorKind::KeyNotValue),
        },
        _ => Err(ErrorKind::SectionNotTable),
    }
}

/// The name that a manifest with these entries declares.
pub open spec fn declared_name(entries: Map<Seq<char>, Entry>) -> Result<Seq<char>, ErrorKind> {
    name_from_shapes(
        shape_at(entries, PROJECT_SECTION@),
        shape_at(section_at(entries, PROJECT_SECTION@), NAME_KEY@),
    )
}

/// Whether `outcome` reports exactly what `expected` says, as a name or as a
/// bare failure of the expected kind.
pub open spec fn reports(outcome: Result<String, Failure>, expected: Result<Seq<char>, ErrorKind>)
    -> bool {
    match outcome {
        Ok(name) => expected == Ok::<Seq<char>, ErrorKind>(name@),
        Err(failure) => expected is Err && failure@ == FailureView::bare(
            expected->Err_0,
            Seq::empty(),
        ),
    }
}

/// The shape of a lookup's result.
fn shape_of(found: &Found<'_>) -> (shape: Shape)
    ensures
        shape@ == match *found {
            Found::Missing => ShapeView::Missing,
            Found::Section(_) => ShapeView::Section,
            Found::Text(text) => ShapeView::Text(text@),
            Found::Scalar => ShapeView::Scalar,
            Found::Sections => ShapeView::Sections,
        },
{
    match found {
        Found::Missing => Shape::Missing,
        Found::Section(_) => Shape::Section,
        Found::Text(text) => Shape::Text((*text).to_owned()),
        Found::Scalar => Shape::Scalar,
        Found::Sections => Shape::Sections,
    }
}

/// The path of the manifest of the project rooted at `project_root`.
pub fn manifest_path(project_root: &ProjectPath) -> (path: ProjectPath)
    ensures
        path@ == project_root@.child(MANIFEST_FILE_NAME@),
{
    project_root.child(MANIFEST_FILE_NAME)
}

/// Decides the project's name from the shapes of the two manifest entries
/// that matter.
pub fn project_name_from_shapes(project: Shape, name: Shape) -> (outcome: Result<String, Failure>)
    ensures
        reports(outcome, name_from_shapes(project@, name@)),
{
    match project {
        Shape::Missing => Err(Failure::plain(ErrorKind::MissingSection)),
        Shape::Section => match name {
            Shape::Missing => Err(Failure::plain(ErrorKind::MissingKey)),
            Shape::Text(text) => {
                if text.as_str().is_empty() {
                    Err(Failure::plain(ErrorKind::EmptyValue))
                } else {
                    Ok(text)
                }
            },
            Shape::Scalar => Err(Failure::plain(ErrorKind::ValueNotString)),
            _ => Err(Failure::plain(ErrorKind::KeyNotValue)),
        },
        _ => Err(Failure::plain(ErrorKind::SectionNotTable)),
    }
}

/// Takes the project's name from a parsed manifest. A manifest that does
/// not declare a usable name is a failure: no other name, such as that of
/// the project's directory, stands in for it.
pub fn get_project_name(project_manifest: &DocumentMut) -> (outcome: Result<String, Failure>)
    ensures
        reports(outcome, declared_name(document_entries(*project_manifest))),
{
    let ghost entries = document_entries(*project_manifest);
    match document_root(project_manifest) {
        None => project_name_from_shapes(Shape::Missing, Shape::Missing),
        Some(root) => {
            let project = lookup(root, PROJECT_SECTION);
            match project {
                Found::Section(section) => {
                    let name = lookup(section, NAME_KEY);
                    assert(section_at(entries, PROJECT_SECTION@) == table_entries(*section));
                    project_name_from_shapes(Shape::Section, shape_of(&name))
                },
                _ => {
                    let shape = shape_of(&project);
                    assert(!(shape@ is Section));
                    project_name_from_shapes(shape, Shape::Missing)
                },
            }
        },
    }
}

/// Turns what reading the manifest file gave (its text, or the report of
/// the operating system) into a document.
pub fn get_project_manifest(project_root: &ProjectPath, content: Result<String, String>) -> (outcome:
    Result<DocumentMut, Failure>)
    ensures
        match outcome {
            Ok(document) => content is Ok && parsed(content->Ok_0@) == Ok::<
                Map<Seq<char>, Entry>,
                Seq<char>,
            >(document_entries(document)),
            Err(failure) => match content {
                Ok(text) => parsed(text@) is Err && failure@ == FailureView::bare(
                    ErrorKind::ManifestUnparsable,
                    project_root@.child(MANIFEST_FILE_NAME@).text(),
                ).caused_by(parsed(text@)->Err_0),
                Err(report) => failure@ == FailureView::bare(
                    ErrorKind::ManifestUnreadable,
                    project_root@.child(MANIFEST_FILE_NAME@).text(),
                ).caused_by(report@),
            },
        },
{
    let path = manifest_path(project_root).render();
    match content {
        Err(report) => Err(Failure::new(ErrorKind::ManifestUnreadable, path).caused_by(report)),
        Ok(text) => match parse_document(text.as_str()) {
            Ok(document) => Ok(document),
            Err(complaint) => Err(
                Failure::new(ErrorKind::ManifestUnparsable, path).caused_by(complaint),
            ),
        },
    }
}

/// The manifest text of a new project called `name`.
pub fn manifest_for(name: &str) -> (text: String)
    ensures
        text@ == manifest_text(name@),
{
    print_document(PROJECT_SECTION, NAME_KEY, name)
}

} // verus!
