//! The outside work that a session asks for, and what came of it.
//!
//! A session never reads a directory or starts a program. It names the next
//! piece of work as a [`Request`]; whoever runs the session does the work
//! and hands back the matching [`Event`].

use vstd::prelude::*;
use crate::compile::Invocation;
use crate::compile::InvocationView;
use crate::listing::entry_views;
use crate::listing::DirEntry;
use crate::listing::EntryView;
use crate::path::PathView;
use crate::path::ProjectPath;

verus! {

/// The mathematical value of a [`Request`].
pub enum RequestView {
    ListDirectory(PathView),
    ReadFile(PathView),
    Probe(PathView),
    CreateDirectories(PathView),
    CreateDirectory(PathView),
    WriteFile(PathView, Seq<char>),
    Compile(InvocationView),
    Start(PathView),
    Await,
    Nothing,
}

/// A piece of outside work.
#[derive(Debug)]
pub enum Request {
    /// List the entries of this directory; answered by [`Event::Listed`].
    ListDirectory(ProjectPath),
    /// Read this file as text; answered by [`Event::Read`].
    ReadFile(ProjectPath),
    /// Find out whether anything exists at this path; answered by
    /// [`Event::Probed`].
    Probe(ProjectPath),
    /// Create this directory and those above it that are missing; answered
    /// by [`Event::Created`].
    CreateDirectories(ProjectPath),
    /// Create this one directory; answered by [`Event::Created`].
    CreateDirectory(ProjectPath),
    /// Write this text to this file; answered by [`Event::Completed`].
    WriteFile(ProjectPath, String),
    /// Run the compiler and wait for it; answered by [`Event::Exited`].
    Compile(Invocation),
    /// Start this program; answered by [`Event::Completed`].
    Start(ProjectPath),
    /// Wait for the started program to end; answered by
    /// [`Event::Completed`].
    Await,
    /// The session is over.
    Nothing,
}

impl View for Request {
    type V = RequestView;

    open spec fn view(&self) -> RequestView {
        match self {
            Request::ListDirectory(path) => RequestView::ListDirectory(path@),
            Request::ReadFile(path) => RequestView::ReadFile(path@),
            Request::Probe(path) => RequestView::Probe(path@),
            Request::CreateDirectories(path) => RequestView::CreateDirectories(path@),
            Request::CreateDirectory(path) => RequestView::CreateDirectory(path@),
            Request::WriteFile(path, text) => RequestView::WriteFile(path@, text@),
            Request::Compile(invocation) => RequestView::Compile(invocation@),
            Request::Start(path) => RequestView::Start(path@),
            Request::Await => RequestView::Await,
            Request::Nothing => RequestView::Nothing,
        }
    }
}

/// The mathematical value of a [`Creation`].
pub enum CreationView {
    Done,
    AlreadyThere(Seq<char>),
    Failed(Seq<char>),
}

impl CreationView {
    /// The report of the operating system, where the directory was not
    /// created.
    pub open spec fn trouble(self) -> Option<Seq<char>> {
        match self {
            CreationView::Done => None,
            CreationView::AlreadyThere(report) => Some(report),
            CreationView::Failed(report) => Some(report),
        }
    }
}

/// What came of creating a directory. Where it was not created, the report
/// of the operating system is kept.
#[derive(Debug, PartialEq, Eq)]
pub enum Creation {
    /// The directory was created.
    Done,
    /// Nothing was created because something exists at the path.
    AlreadyThere(String),
    /// The directory could not be created for another reason.
    Failed(String),
}

impl View for Creation {
    type V = CreationView;

    open spec fn view(&self) -> CreationView {
        match self {
            Creation::Done => CreationView::Done,
            Creation::AlreadyThere(report) => CreationView::AlreadyThere(report@),
            Creation::Failed(report) => CreationView::Failed(report@),
        }
    }
}

impl Creation {
    /// The report of the operating system, where the directory was not
    /// created.
    pub fn trouble(self) -> (report: Option<String>)
        ensures
            crate::error::optional_text(report) == self@.trouble(),
    {
        match self {
            Creation::Done => None,
            Creation::AlreadyThere(report) => Some(report),
            Creation::Failed(report) => Some(report),
        }
    }
}

/// The mathematical value of an [`Event`].
pub enum EventView {
    Listed(Result<Seq<EntryView>, Seq<char>>),
    Read(Result<Seq<char>, Seq<char>>),
    Probed(Result<bool, Seq<char>>),
    Created(CreationView),
    Completed(Result<(), Seq<char>>),
    Exited(Result<bool, Seq<char>>),
}

/// What came of a piece of outside work. An `Err` carries the report of
/// the operating system.
#[derive(Debug)]
pub enum Event {
    /// The entries of the directory.
    Listed(Result<Vec<DirEntry>, String>),
    /// The text of the file.
    Read(Result<String, String>),
    /// Whether something exists at the path.
    Probed(Result<bool, String>),
    /// What came of creating a directory.
    Created(Creation),
    /// The work was done.
    Completed(Result<(), String>),
    /// The compiler ran, and whether it reported success.
    Exited(Result<bool, String>),
}

impl View for Event {
    type V = EventView;

    open spec fn view(&self) -> EventView {
        match self {
            Event::Listed(listing) => EventView::Listed(
                match listing {
                    Ok(entries) => Ok(entry_views(entries@)),
                    Err(report) => Err(report@),
                },
            ),
            Event::Read(content) => EventView::Read(
                match content {
                    Ok(text) => Ok(text@),
                    Err(report) => Err(report@),
                },
            ),
            Event::Probed(answer) => EventView::Probed(
                match answer {
                    Ok(exists) => Ok(*exists),
                    Err(report) => Err(report@),
                },
            ),
            Event::Created(creation) => EventView::Created(creation@),
            Event::Completed(answer) => EventView::Completed(
                match answer {
                    Ok(_) => Ok(()),
                    Err(report) => Err(report@),
                },
            ),
            Event::Exited(answer) => EventView::Exited(
                match answer {
                    Ok(success) => Ok(*success),
                    Err(report) => Err(report@),
                },
            ),
        }
    }
}

} // verus!
