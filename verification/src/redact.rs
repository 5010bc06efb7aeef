//! Redaction of sensitive parts of a URI path for logging. A per-segment
//! marker selects which '/'-separated segments are replaced by the text
//! `{redacted}`; a greedy position redacts everything from a character
//! position to the end.

use vstd::prelude::*;

verus! {

use vstd::string::{StringExecFns, StrSliceExecFns};
use crate::strutil::{spec_split, split_char};

/// The path segments after the leading one, each rendered behind a '/' and
/// replaced by `{redacted}` where the mask says so.
pub open spec fn spec_mark_segments(segs: Seq<Seq<char>>, mask: Seq<bool>) -> Seq<char>
    decreases segs.len(),
{
    if segs.len() == 0 {
        Seq::<char>::empty()
    } else {
        spec_mark_segments(segs.drop_last(), mask.drop_last()) + "/"@ + (if mask.last() {
            "{redacted}"@
        } else {
            segs.last()
        })
    }
}

/// What rendering a path with a segment mask yields: the leading segment is
/// skipped, each later segment stands behind a '/', redacted where masked.
pub open spec fn spec_redact_path(path: Seq<char>, mask: Seq<bool>) -> Seq<char> {
    spec_mark_segments(spec_split(path, '/').skip(1), mask)
}

/// The mask a marker chooses for a path: one flag per segment after the
/// leading one.
pub open spec fn spec_marker_mask<M: SegmentMarker>(path: Seq<char>, marker: M) -> Seq<bool> {
    Seq::new((spec_split(path, '/').len() - 1) as nat, |i: int| marker.marks_spec(i))
}

/// Renders `path` with the segments selected by `mask` redacted.
pub fn redact_path_segments(path: &str, mask: &Vec<bool>) -> (r: String)
    requires
        mask@.len() == spec_split(path@, '/').len() - 1,
    ensures
        r@ == spec_redact_path(path@, mask@),
{
    let parts = split_char(path, '/');
    let mut out = String::new();
    let mut i: usize = 1;
    proof {
        assert(parts.deep_view().skip(1).take(0) =~= Seq::<Seq<char>>::empty());
        assert(mask@.take(0) =~= Seq::<bool>::empty());
    }
    while i < parts.len()
        invariant
            1 <= i <= parts.len(),
            parts.deep_view() == spec_split(path@, '/'),
            parts.deep_view().len() == parts.len(),
            mask@.len() == parts.len() - 1,
            out@ == spec_mark_segments(parts.deep_view().skip(1).take(i - 1), mask@.take(i - 1)),
        decreases parts.len() - i,
    {
        out.append("/");
        if mask[i - 1] {
            out.append("{redacted}");
        } else {
            out.append(parts[i]);
        }
        proof {
            let segs = parts.deep_view().skip(1);
            assert(segs.take(i as int).drop_last() =~= segs.take(i - 1));
            assert(mask@.take(i as int).drop_last() =~= mask@.take(i - 1));
            assert(segs.take(i as int).last() == parts.deep_view()[i as int]);
            assert(mask@.take(i as int).last() == mask@[i - 1]);
        }
        i += 1;
    }
    proof {
        assert(parts.deep_view().skip(1).take(parts.len() - 1) =~= parts.deep_view().skip(1));
        assert(mask@.take(parts.len() - 1) =~= mask@);
    }
    out
}

/// A marker that marks nothing as sensitive.
pub fn noop_path_marker(_index: usize) -> (r: bool)
    ensures
        r == false,
{
    false
}

/// Decides, by index, which path segments are sensitive.
pub trait SegmentMarker {
    /// Which indices the marker marks.
    spec fn marks_spec(&self, index: int) -> bool;

    fn marks(&self, index: usize) -> (r: bool)
        ensures
            r == self.marks_spec(index as int),
    ;
}

/// The marker that marks nothing.
#[derive(Debug, Clone, Copy)]
pub struct NoopMarker;

impl SegmentMarker for NoopMarker {
    open spec fn marks_spec(&self, _index: int) -> bool {
        false
    }

    fn marks(&self, index: usize) -> (r: bool)
        ensures
            r == self.marks_spec(index as int),
    {
        noop_path_marker(index)
    }
}

/// The marker that marks every segment.
#[derive(Debug, Clone, Copy)]
pub struct MarkAll;

impl SegmentMarker for MarkAll {
    open spec fn marks_spec(&self, _index: int) -> bool {
        true
    }

    fn marks(&self, index: usize) -> (r: bool)
        ensures
            r == self.marks_spec(index as int),
    {
        true
    }
}

/// The marker that marks exactly the listed segment indices.
#[derive(Debug)]
pub struct MarkIndices {
    pub indices: Vec<usize>,
}

impl SegmentMarker for MarkIndices {
    open spec fn marks_spec(&self, index: int) -> bool {
        exists|j: int| 0 <= j < self.indices@.len() && self.indices@[j] == index
    }

    fn marks(&self, index: usize) -> (r: bool)
        ensures
            r == self.marks_spec(index as int),
    {
        let mut j: usize = 0;
        while j < self.indices.len()
            invariant
                j <= self.indices@.len(),
                forall|k: int| 0 <= k < j ==> self.indices@[k] != index,
            decreases self.indices@.len() - j,
        {
            if self.indices[j] == index {
                return true;
            }
            j += 1;
        }
        false
    }
}

/// A path paired with a marker that selects, by index, the path segments
/// rendered as sensitive.
pub struct SensitivePath<'a, M> {
    pub path: &'a str,
    pub marker: M,
}

impl<'a> SensitivePath<'a, NoopMarker> {
    /// A view of `path` with nothing marked as sensitive.
    pub fn new(path: &'a str) -> (r: Self)
        ensures
            r.path == path,
            r.marker == NoopMarker,
    {
        SensitivePath { path, marker: NoopMarker }
    }
}

impl<'a, M> SensitivePath<'a, M> {
    /// Marks segments as sensitive by supplying another marker.
    pub fn mark<G>(self, marker: G) -> (r: SensitivePath<'a, G>)
        ensures
            r.path == self.path,
            r.marker == marker,
    {
        SensitivePath { path: self.path, marker }
    }
}

impl<'a, M: SegmentMarker> SensitivePath<'a, M> {
    /// Renders the path, replacing each segment whose index the marker marks
    /// by `{redacted}`.
    pub fn redacted(&self) -> (r: String)
        ensures
            r@ == spec_redact_path(self.path@, spec_marker_mask(self.path@, self.marker)),
    {
        let parts = split_char(self.path, '/');
        let mut mask: Vec<bool> = Vec::new();
        let mut i: usize = 1;
        proof {
            crate::strutil::lemma_split_len_pos(self.path@, '/');
        }
        while i < parts.len()
            invariant
                1 <= i <= parts.len(),
                parts.deep_view() == spec_split(self.path@, '/'),
                parts.deep_view().len() == parts.len(),
                mask@.len() == i - 1,
                forall|j: int| 0 <= j < mask@.len() ==> mask@[j] == self.marker.marks_spec(j),
            decreases parts.len() - i,
        {
            let b = self.marker.marks(i - 1);
            mask.push(b);
            i += 1;
        }
        proof {
            assert(mask@ =~= spec_marker_mask(self.path@, self.marker));
        }
        redact_path_segments(self.path, &mask)
    }
}

/// A path whose suffix, from a character position on, is redacted when
/// rendered.
#[derive(Debug)]
pub struct SensitiveGreedyPath<'a> {
    pub path: &'a str,
    pub position: usize,
}

impl<'a> SensitiveGreedyPath<'a> {
    /// A view of `path` with `position` marking the redacted suffix.
    pub fn new(path: &'a str, position: usize) -> (r: Self)
        ensures
            r.path == path,
            r.position == position,
    {
        SensitiveGreedyPath { path, position }
    }

    /// Renders the path: shorter paths stand as they are; otherwise the
    /// prefix before `position` is kept and the rest replaced by
    /// `{redacted}`.
    pub fn redacted(&self) -> (r: String)
        ensures
            self.path@.len() < self.position ==> r@ == self.path@,
            self.path@.len() >= self.position ==> r@ == self.path@.take(self.position as int)
                + "{redacted}"@,
    {
        let n = self.path.unicode_len();
        if n < self.position {
            String::from_str(self.path)
        } else {
            let mut out = String::from_str(self.path.substring_char(0, self.position));
            out.append("{redacted}");
            out
        }
    }
}

/// A marker wrapped for dispatch, marking sensitive URI labels.
#[derive(Debug)]
pub struct Labels<M>(pub M);

/// The character position of a greedy URI label within a path.
#[derive(Debug)]
pub struct GreedyLabel(pub usize);

/// Polymorphism over the two redaction schemes.
pub trait MakePath<'a> {
    type Target;

    fn make(&self, path: &'a str) -> Self::Target;
}

impl<'a, M: SegmentMarker + Copy> MakePath<'a> for Labels<M> {
    type Target = SensitivePath<'a, M>;

    fn make(&self, path: &'a str) -> (r: SensitivePath<'a, M>)
        ensures
            r.path == path,
            r.marker == self.0,
    {
        SensitivePath::new(path).mark(self.0)
    }
}

impl<'a> MakePath<'a> for GreedyLabel {
    type Target = SensitiveGreedyPath<'a>;

    fn make(&self, path: &'a str) -> (r: SensitiveGreedyPath<'a>)
        ensures
            r.path == path,
            r.position == self.0,
    {
        SensitiveGreedyPath::new(path, self.0)
    }
}

} // verus!
