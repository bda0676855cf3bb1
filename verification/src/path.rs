//! Paths as the resolver sees them: an anchor (absolute or relative) and a
//! list of segments. Nothing here touches the file system.

use vstd::prelude::*;
use vstd::string::StrSliceExecFns;
use vstd::string::StringExecFns;

verus! {

/// The mathematical value of a [`ProjectPath`].
pub struct PathView {
    pub absolute: bool,
    pub segments: Seq<Seq<char>>,
}

/// The texts of `parts` in order, with `separator` between each two.
pub open spec fn separated(parts: Seq<Seq<char>>, separator: Seq<char>) -> Seq<char>
    decreases parts.len(),
{
    if parts.len() == 0 {
        Seq::empty()
    } else if parts.len() == 1 {
        parts[0]
    } else {
        separated(parts.drop_last(), separator) + separator + parts.last()
    }
}

/// The segments in order, with `/` between each two.
pub open spec fn joined(segments: Seq<Seq<char>>) -> Seq<char> {
    separated(segments, seq!['/'])
}

impl PathView {
    /// The path one level below `self`, ending in `name`.
    pub open spec fn child(self, name: Seq<char>) -> PathView {
        PathView { absolute: self.absolute, segments: self.segments.push(name) }
    }

    /// The path one level above `self`; a path without segments has none.
    pub open spec fn parent(self) -> Option<PathView> {
        if self.segments.len() == 0 {
            None
        } else {
            Some(PathView { absolute: self.absolute, segments: self.segments.drop_last() })
        }
    }

    /// The name that the path ends in: its last segment, unless the path
    /// has none, or the last segment is empty or is `..`. A name is never
    /// empty.
    pub open spec fn file_name(self) -> Option<Seq<char>> {
        if self.segments.len() == 0 || self.segments.last().len() == 0 || self.segments.last()
            == ".."@ {
            None
        } else {
            Some(self.segments.last())
        }
    }

    /// How the path is written: a leading `/` when absolute, then the
    /// segments separated by `/`.
    pub open spec fn text(self) -> Seq<char> {
        if self.absolute {
            seq!['/'] + joined(self.segments)
        } else {
            joined(self.segments)
        }
    }

    /// `self` is `ancestor` or lies somewhere below it.
    pub open spec fn is_within(self, ancestor: PathView) -> bool {
        &&& self.absolute == ancestor.absolute
        &&& ancestor.segments.len() <= self.segments.len()
        &&& self.segments.take(ancestor.segments.len() as int) == ancestor.segments
    }

    /// The ancestor of `self` that keeps its first `depth` segments.
    pub open spec fn truncated(self, depth: int) -> PathView {
        PathView { absolute: self.absolute, segments: self.segments.take(depth) }
    }
}

/// The views of a list of strings, in order.
pub open spec fn texts(strings: Seq<String>) -> Seq<Seq<char>> {
    Seq::new(strings.len(), |i: int| strings[i]@)
}

/// A directory or file location, independent of any file system.
#[derive(Debug, PartialEq, Eq, Hash)]
pub struct ProjectPath {
    pub absolute: bool,
    pub segments: Vec<String>,
}

impl View for ProjectPath {
    type V = PathView;

    open spec fn view(&self) -> PathView {
        PathView { absolute: self.absolute, segments: texts(self.segments@) }
    }
}

/// The views of a list of paths, in order.
pub open spec fn path_views(paths: Seq<ProjectPath>) -> Seq<PathView> {
    Seq::new(paths.len(), |i: int| paths[i]@)
}

/// Whether two strings hold the same text.
pub fn same_text(left: &str, right: &str) -> (same: bool)
    ensures
        same == (left@ == right@),
{
    let left_owned = left.to_owned();
    let right_owned = right.to_owned();
    left_owned == right_owned
}

impl Clone for ProjectPath {
    fn clone(&self) -> (copy: ProjectPath)
        ensures
            copy@ == self@,
    {
        let mut segments: Vec<String> = Vec::new();
        let mut i: usize = 0;
        while i < self.segments.len()
            invariant
                i <= self.segments.len(),
                segments.len() == i,
                forall|k: int| 0 <= k < i ==> segments[k]@ == self.segments[k]@,
            decreases self.segments.len() - i,
        {
            segments.push(self.segments[i].clone());
            i += 1;
        }
        assert(texts(segments@) =~= texts(self.segments@));
        ProjectPath { absolute: self.absolute, segments }
    }
}

impl ProjectPath {
    /// The top of the file system: absolute, without segments.
    pub fn root() -> (path: ProjectPath)
        ensures
            path@ == (PathView { absolute: true, segments: Seq::empty() }),
    {
        let path = ProjectPath { absolute: true, segments: Vec::new() };
        assert(texts(path.segments@) =~= Seq::<Seq<char>>::empty());
        path
    }

    /// The place a relative path starts from: relative, without segments.
    pub fn here() -> (path: ProjectPath)
        ensures
            path@ == (PathView { absolute: false, segments: Seq::empty() }),
    {
        let path = ProjectPath { absolute: false, segments: Vec::new() };
        assert(texts(path.segments@) =~= Seq::<Seq<char>>::empty());
        path
    }

    /// The path one level below this one, ending in `name`.
    pub fn child(&self, name: &str) -> (path: ProjectPath)
        ensures
            path@ == self@.child(name@),
    {
        let mut path = self.clone();
        path.segments.push(name.to_owned());
        assert(texts(path.segments@) =~= self@.segments.push(name@));
        path
    }

    /// The path one level above this one, if there is one.
    pub fn parent(&self) -> (above: Option<ProjectPath>)
        ensures
            match above {
                Some(path) => self@.parent() == Some(path@),
                None => self@.parent() is None,
            },
    {
        if self.segments.len() == 0 {
            None
        } else {
            let mut path = self.clone();
            path.segments.pop();
            assert(texts(path.segments@) =~= self@.segments.drop_last());
            Some(path)
        }
    }

    /// The name that the path ends in: its last segment, unless the path
    /// has none, or the last segment is empty or is `..`.
    pub fn file_name(&self) -> (name: Option<String>)
        ensures
            match name {
                Some(text) => self@.file_name() == Some(text@) && text@.len() > 0,
                None => self@.file_name() is None,
            },
    {
        let count = self.segments.len();
        if count == 0 {
            None
        } else if self.segments[count - 1].as_str().is_empty() {
            None
        } else if same_text(self.segments[count - 1].as_str(), "..") {
            None
        } else {
            Some(self.segments[count - 1].clone())
        }
    }

    /// Whether both paths have the same anchor and the same segments.
    pub fn same(&self, other: &ProjectPath) -> (equal: bool)
        ensures
            equal == (self@ == other@),
    {
        if self.absolute != other.absolute || self.segments.len() != other.segments.len() {
            assert(self@.segments.len() == self.segments.len());
            assert(other@.segments.len() == other.segments.len());
            return false;
        }
        let mut i: usize = 0;
        while i < self.segments.len()
            invariant
                i <= self.segments.len(),
                self.segments.len() == other.segments.len(),
                forall|k: int| 0 <= k < i ==> self.segments[k]@ == other.segments[k]@,
            decreases self.segments.len() - i,
        {
            if self.segments[i] != other.segments[i] {
                assert(self@.segments[i as int] != other@.segments[i as int]);
                return false;
            }
            i += 1;
        }
        assert(self@.segments =~= other@.segments);
        true
    }

    /// The path as text: a leading `/` when absolute, then the segments
    /// separated by `/`.
    pub fn render(&self) -> (text: String)
        ensures
            text@ == self@.text(),
    {
        proof {
            reveal_strlit("/");
            assert("/"@ =~= seq!['/']);
        }
        let names = join_texts(&self.segments, "/");
        if self.absolute {
            let mut text = "/".to_owned();
            text.append(names.as_str());
            text
        } else {
            names
        }
    }
}

/// The strings of `parts` in order, with `separator` between each two.
pub fn join_texts(parts: &Vec<String>, separator: &str) -> (text: String)
    ensures
        text@ == separated(texts(parts@), separator@),
{
    let mut text = String::new();
    let mut i: usize = 0;
    proof {
        assert(texts(parts@).take(0) =~= Seq::<Seq<char>>::empty());
    }
    while i < parts.len()
        invariant
            i <= parts.len(),
            text@ == separated(texts(parts@).take(i as int), separator@),
        decreases parts.len() - i,
    {
        if i > 0 {
            text.append(separator);
        }
        text.append(parts[i].as_str());
        proof {
            let before = texts(parts@).take(i as int);
            let after = texts(parts@).take(i + 1);
            assert(after.drop_last() =~= before);
            assert(after.last() == parts[i as int]@);
            if i == 0 {
                assert(separated(before, separator@) =~= Seq::<char>::empty());
            }
            assert(text@ =~= separated(after, separator@));
        }
        i += 1;
    }
    proof {
        assert(texts(parts@).take(i as int) =~= texts(parts@));
    }
    text
}

/// Whether a file of this name is handed to the compiler: the name ends in
/// `.cpp` and has something in front of that.
pub open spec fn is_compilable(name: Seq<char>) -> bool {
    name.len() > 4 && name.subrange(name.len() - 4, name.len() as int) == seq!['.', 'c', 'p', 'p']
}

/// Whether a file of this name is handed to the compiler.
pub fn has_source_extension(name: &str) -> (compilable: bool)
    ensures
        compilable == is_compilable(name@),
{
    let length = name.unicode_len();
    if length <= 4 {
        false
    } else {
        let dot = name.get_char(length - 4);
        let first = name.get_char(length - 3);
        let second = name.get_char(length - 2);
        let third = name.get_char(length - 1);
        let matches = dot == '.' && first == 'c' && second == 'p' && third == 'p';
        proof {
            let tail = name@.subrange(name@.len() - 4, name@.len() as int);
            assert(tail.len() == 4);
            assert(tail[0] == dot && tail[1] == first && tail[2] == second && tail[3] == third);
            if matches {
                assert(tail =~= seq!['.', 'c', 'p', 'p']);
            } else {
                assert(seq!['.', 'c', 'p', 'p'][0] == '.');
                assert(seq!['.', 'c', 'p', 'p'][1] == 'c');
                assert(seq!['.', 'c', 'p', 'p'][2] == 'p');
                assert(seq!['.', 'c', 'p', 'p'][3] == 'p');
            }
        }
        matches
    }
}

} // verus!
