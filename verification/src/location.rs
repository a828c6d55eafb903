//! Positions in the file system, kept as a root and the segments below it.

use vstd::prelude::*;
use vstd::string::*;

verus! {

/// The texts of a sequence of strings.
pub open spec fn texts(names: Seq<String>) -> Seq<Seq<char>> {
    Seq::new(names.len(), |i: int| names[i]@)
}

/// The segments written one after the other with a `/` between neighbours.
pub open spec fn joined(segments: Seq<Seq<char>>) -> Seq<char>
    decreases segments.len(),
{
    if segments.len() == 0 {
        Seq::empty()
    } else if segments.len() == 1 {
        segments[0]
    } else {
        joined(segments.drop_last()) + seq!['/'] + segments.last()
    }
}

/// What a [`Location`] stands for.
pub struct Place {
    /// The text the position starts with: `/`, a drive with its separator, or
    /// nothing for a position relative to the working directory.
    pub root: Seq<char>,
    /// The names below the root, outermost first.
    pub segments: Seq<Seq<char>>,
}

impl Place {
    /// The position one level further down, at `name`.
    pub open spec fn child(self, name: Seq<char>) -> Place {
        Place { root: self.root, segments: self.segments.push(name) }
    }

    /// The position one level further up; the root is its own parent.
    pub open spec fn parent(self) -> Place {
        if self.segments.len() == 0 {
            self
        } else {
            Place { root: self.root, segments: self.segments.drop_last() }
        }
    }

    /// The position written out for display.
    pub open spec fn shown(self) -> Seq<char> {
        self.root + joined(self.segments)
    }
}

/// A position in the file system.
#[derive(Debug, PartialEq, Eq)]
pub struct Location {
    root: String,
    segments: Vec<String>,
}

impl View for Location {
    type V = Place;

    closed spec fn view(&self) -> Place {
        Place { root: self.root@, segments: texts(self.segments@) }
    }
}

impl Location {
    /// The position at `root` itself.
    pub fn new(root: String) -> (location: Location)
        ensures
            location@ == (Place { root: root@, segments: Seq::empty() }),
    {
        let location = Location { root, segments: Vec::new() };
        assert(texts(location.segments@) =~= Seq::empty());
        location
    }

    /// The position `segments` below `root`.
    pub fn from_parts(root: String, segments: Vec<String>) -> (location: Location)
        ensures
            location@ == (Place { root: root@, segments: texts(segments@) }),
    {
        Location { root, segments }
    }

    /// The text the position starts with.
    pub fn root(&self) -> (root: &String)
        ensures
            root@ == self@.root,
    {
        &self.root
    }

    /// The names below the root, outermost first.
    pub fn segments(&self) -> (segments: &Vec<String>)
        ensures
            texts(segments@) == self@.segments,
    {
        &self.segments
    }

    /// How many levels below the root the position lies.
    pub fn depth(&self) -> (depth: usize)
        ensures
            depth == self@.segments.len(),
    {
        self.segments.len()
    }

    /// A copy of the position.
    pub fn duplicate(&self) -> (copy: Location)
        ensures
            copy@ == self@,
    {
        Location { root: self.root.clone(), segments: self.segments.clone() }
    }

    /// Descends one level, into `name`.
    pub fn push(&mut self, name: String)
        ensures
            final(self)@ == old(self)@.child(name@),
    {
        self.segments.push(name);
        assert(texts(self.segments@) =~= texts(old(self).segments@).push(name@));
    }

    /// Ascends one level. At the root nothing changes and `false` comes back.
    pub fn pop(&mut self) -> (moved: bool)
        ensures
            final(self)@ == old(self)@.parent(),
            moved == (old(self)@.segments.len() > 0),
    {
        let last = self.segments.pop();
        assert(texts(self.segments@) =~= old(self)@.parent().segments);
        last.is_some()
    }

    /// The position one level below this one, at `name`.
    pub fn join(&self, name: &str) -> (below: Location)
        ensures
            below@ == self@.child(name@),
    {
        let mut below = self.duplicate();
        below.push(String::from_str(name));
        below
    }

    /// The position written out for display.
    pub fn text(&self) -> (shown: String)
        ensures
            shown@ == self@.shown(),
    {
        let mut shown = self.root.clone();
        let mut i: usize = 0;
        while i < self.segments.len()
            invariant
                i <= self.segments.len(),
                shown@ == self.root@ + joined(texts(self.segments@).take(i as int)),
            decreases self.segments.len() - i,
        {
            assert(texts(self.segments@).take(i + 1).drop_last() =~= texts(self.segments@).take(
                i as int,
            ));
            if i > 0 {
                proof {
                    reveal_strlit("/");
                }
                shown.append("/");
            }
            shown.append(self.segments[i].as_str());
            i += 1;
        }
        assert(texts(self.segments@).take(i as int) =~= texts(self.segments@));
        shown
    }
}

} // verus!
