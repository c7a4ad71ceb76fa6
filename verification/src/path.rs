//! Parent-relative path building.
//!
//! When many sibling files under one fixed parent directory are probed in a
//! hot loop, building each path afresh allocates once per sibling. The
//! [`PathHandler`] keeps one mutable buffer and replaces only the final
//! segment on each call; the plain [`PathBuf`] always appends. Rooted at the
//! same directory, both produce identical path bytes — the choice between
//! them is purely an allocation trade-off.
//!
//! Paths are held as raw byte sequences, as the OS sees them; `47u8` is the
//! `/` separator.

use vstd::prelude::*;

verus! {

/// Whether `p` can serve as one path segment: non-empty and free of the `/`
/// separator.
pub open spec fn is_path_segment(p: Seq<u8>) -> bool {
    p.len() > 0 && forall|i: int| 0 <= i < p.len() ==> p[i] != 47u8
}

/// Whether `p` can serve as a parent directory in a built path: non-empty and
/// without a trailing `/` separator, so that appending `/` plus a segment
/// yields exactly one new segment.
pub open spec fn is_parent_path(p: Seq<u8>) -> bool {
    p.len() > 0 && p.last() != 47u8
}

/// A path container that can receive a child segment in place.
///
/// `join` appends `p` as a path segment and returns a view of the whole path,
/// valid until the next call. Where the new segment lands is the container's
/// `next_parent` directory: the fixed parent for a [`PathHandler`], the whole
/// current path for a plain [`PathBuf`].
pub trait PathPush: Sized {
    /// The container's internal invariant.
    spec fn wf(&self) -> bool;

    /// The bytes of the path the container currently denotes.
    spec fn path_view(&self) -> Seq<u8>;

    /// The directory the next joined segment lands in.
    spec fn next_parent(&self) -> Seq<u8>;

    /// What `next_parent` becomes once a segment `p` has been joined.
    spec fn next_parent_after(&self, p: Seq<u8>) -> Seq<u8>;

    /// The path that joining the segment `p` produces.
    open spec fn joined(&self, p: Seq<u8>) -> Seq<u8> {
        self.next_parent() + seq![47u8] + p
    }

    /// Appends `p` as the final path segment and returns the resulting path.
    fn join(&mut self, p: &[u8]) -> (r: &[u8])
        requires
            old(self).wf(),
            is_path_segment(p@),
        ensures
            final(self).wf(),
            final(self).path_view() == old(self).joined(p@),
            final(self).next_parent() == old(self).next_parent_after(p@),
            r@ == final(self).path_view(),
    ;
}

/// A reusable path buffer holding one fixed parent directory plus one
/// replaceable final segment. Each `join` removes the previous final segment
/// before appending the new one, so the buffer never accumulates segments and
/// never re-allocates a whole path per sibling.
pub struct PathHandler {
    buf: Vec<u8>,
    parent_len: usize,
}

impl PathHandler {
    /// Creates a handler rooted at `parent`. A placeholder segment is
    /// appended right away, so that the first `join` — which always starts by
    /// removing the current final segment — has one to remove.
    pub fn new(parent: &[u8]) -> (h: Self)
        requires
            is_parent_path(parent@),
        ensures
            h.wf(),
            h.next_parent() == parent@,
            h.path_view() == parent@ + seq![47u8, 97u8],
    {
        let mut buf: Vec<u8> = Vec::new();
        let mut i: usize = 0;
        while i < parent.len()
            invariant
                0 <= i <= parent@.len(),
                buf@ == parent@.take(i as int),
            decreases parent@.len() - i,
        {
            proof {
                assert(parent@.take(i + 1) =~= parent@.take(i as int).push(parent@[i as int]));
            }
            buf.push(parent[i]);
            i = i + 1;
        }
        proof {
            assert(parent@.take(parent@.len() as int) =~= parent@);
        }
        buf.push(47);
        buf.push(97);
        let h = PathHandler { buf, parent_len: parent.len() };
        proof {
            assert(h.buf@ =~= parent@ + seq![47u8, 97u8]);
            assert(h.buf@.take(h.parent_len as int) =~= parent@);
        }
        h
    }
}

impl PathPush for PathHandler {
    /// The buffer holds the parent, then a `/` separator, then at least one
    /// byte of child segment.
    closed spec fn wf(&self) -> bool {
        &&& self.parent_len + 1 < self.buf@.len()
        &&& self.buf@[self.parent_len as int] == 47u8
    }

    closed spec fn path_view(&self) -> Seq<u8> {
        self.buf@
    }

    closed spec fn next_parent(&self) -> Seq<u8> {
        self.buf@.take(self.parent_len as int)
    }

    /// The parent is fixed at construction; joining leaves it unchanged.
    open spec fn next_parent_after(&self, p: Seq<u8>) -> Seq<u8> {
        self.next_parent()
    }

    fn join(&mut self, p: &[u8]) -> (r: &[u8]) {
        proof {
            // the buffer's length fits in usize, so `parent_len + 1` does too
            vstd::std_specs::vec::axiom_spec_len(&self.buf);
        }
        let keep: usize = self.parent_len + 1;
        self.buf.truncate(keep);
        let ghost stem: Seq<u8> = self.buf@;
        let ghost plen: usize = self.parent_len;
        let mut i: usize = 0;
        while i < p.len()
            invariant
                0 <= i <= p@.len(),
                self.buf@ == stem + p@.take(i as int),
                self.parent_len == plen,
            decreases p@.len() - i,
        {
            proof {
                assert(p@.take(i + 1) =~= p@.take(i as int).push(p@[i as int]));
                assert(stem + p@.take(i + 1) =~= (stem + p@.take(i as int)).push(p@[i as int]));
            }
            self.buf.push(p[i]);
            i = i + 1;
        }
        proof {
            assert(p@.take(p@.len() as int) =~= p@);
            assert(stem =~= old(self).next_parent() + seq![47u8]);
            assert(self.buf@ =~= old(self).joined(p@));
            assert(self.buf@.take(self.parent_len as int) =~= old(self).next_parent());
        }
        self.buf.as_slice()
    }
}

/// An ordinary growable path buffer: `join` always appends, never removes, so
/// each joined segment deepens the path. It is the simple counterpart of
/// [`PathHandler`] for callers that build each path from a fresh parent and
/// do not mind the per-call growth.
pub struct PathBuf {
    buf: Vec<u8>,
}

impl PathBuf {
    /// Creates a buffer that denotes exactly `parent`.
    pub fn new(parent: &[u8]) -> (b: Self)
        requires
            is_parent_path(parent@),
        ensures
            b.wf(),
            b.path_view() == parent@,
            b.next_parent() == parent@,
    {
        let mut buf: Vec<u8> = Vec::new();
        let mut i: usize = 0;
        while i < parent.len()
            invariant
                0 <= i <= parent@.len(),
                buf@ == parent@.take(i as int),
            decreases parent@.len() - i,
        {
            proof {
                assert(parent@.take(i + 1) =~= parent@.take(i as int).push(parent@[i as int]));
            }
            buf.push(parent[i]);
            i = i + 1;
        }
        proof {
            assert(parent@.take(parent@.len() as int) =~= parent@);
        }
        PathBuf { buf }
    }
}

impl PathPush for PathBuf {
    /// The buffer denotes a parent path: non-empty, no trailing separator.
    closed spec fn wf(&self) -> bool {
        is_parent_path(self.buf@)
    }

    closed spec fn path_view(&self) -> Seq<u8> {
        self.buf@
    }

    /// A joined segment lands under the whole current path.
    closed spec fn next_parent(&self) -> Seq<u8> {
        self.buf@
    }

    /// Joining deepens the path: the next segment lands under the result.
    open spec fn next_parent_after(&self, p: Seq<u8>) -> Seq<u8> {
        self.joined(p)
    }

    fn join(&mut self, p: &[u8]) -> (r: &[u8]) {
        let ghost stem: Seq<u8> = self.buf@;
        self.buf.push(47);
        let mut i: usize = 0;
        while i < p.len()
            invariant
                0 <= i <= p@.len(),
                self.buf@ == stem + seq![47u8] + p@.take(i as int),
            decreases p@.len() - i,
        {
            proof {
                assert(p@.take(i + 1) =~= p@.take(i as int).push(p@[i as int]));
                assert(stem + seq![47u8] + p@.take(i + 1)
                    =~= (stem + seq![47u8] + p@.take(i as int)).push(p@[i as int]));
            }
            self.buf.push(p[i]);
            i = i + 1;
        }
        proof {
            assert(p@.take(p@.len() as int) =~= p@);
            assert(self.buf@ =~= old(self).joined(p@));
            assert(self.buf@.last() == p@.last());
            assert(is_path_segment(p@));
        }
        self.buf.as_slice()
    }
}

/// Setting a child segment replaces the previous one: the path a
/// `PathHandler` produces depends only on its configured parent, never on
/// whatever segment was set before, so repeated joins never accumulate.
pub proof fn lemma_join_replaces_segment(h1: PathHandler, h2: PathHandler, p: Seq<u8>)
    requires
        h1.next_parent() == h2.next_parent(),
    ensures
        h1.joined(p) == h2.joined(p),
{
}

/// The two containers are behaviorally interchangeable: rooted at the same
/// directory, joining the same child segment yields the same path bytes.
pub proof fn lemma_path_containers_agree(h: PathHandler, b: PathBuf, p: Seq<u8>)
    requires
        h.next_parent() == b.next_parent(),
    ensures
        h.joined(p) == b.joined(p),
{
}

} // verus!
