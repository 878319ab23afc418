//! A file system path as the library builds it: a base path and the segments
//! joined to it, in order. Joining the segments one after the other onto the
//! base with the platform's path type gives the path on disk.
use vstd::prelude::*;

verus! {

/// A base path and the relative segments joined to it, in order.
pub struct JoinedPath {
    pub base: String,
    pub segments: Vec<String>,
}

impl View for JoinedPath {
    type V = (Seq<char>, Seq<Seq<char>>);

    open spec fn view(&self) -> (Seq<char>, Seq<Seq<char>>) {
        (self.base@, self.segments.deep_view())
    }
}

impl JoinedPath {
    /// The path `base`, with nothing joined to it yet.
    pub fn new(base: &str) -> (p: JoinedPath)
        ensures
            p@ == (base@, Seq::<Seq<char>>::empty()),
    {
        let segments: Vec<String> = Vec::new();
        assert(segments.deep_view() =~= Seq::<Seq<char>>::empty());
        JoinedPath { base: base.to_owned(), segments }
    }

    /// This path with `segment` joined at its end.
    pub fn join(&self, segment: &str) -> (p: JoinedPath)
        ensures
            p@ == (self@.0, self@.1.push(segment@)),
    {
        let mut segments: Vec<String> = Vec::new();
        let n = self.segments.len();
        let mut i: usize = 0;
        while i < n
            invariant
                n == self.segments@.len(),
                0 <= i <= n,
                segments@.len() == i,
                forall|j: int| 0 <= j < i ==> (#[trigger] segments@[j])@ == self.segments@[j]@,
            decreases n - i,
        {
            let segment_copy = self.segments[i].clone();
            segments.push(segment_copy);
            i = i + 1;
        }
        segments.push(segment.to_owned());
        proof {
            assert(segments.deep_view() =~= self.segments.deep_view().push(segment@));
        }
        JoinedPath { base: self.base.clone(), segments }
    }
}

} // verus!
