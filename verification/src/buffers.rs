//! Bookkeeping for the pixel buffers of the surface.
//!
//! The presenter keeps a buffer for as long as it shows it. A buffer that
//! was handed over and has not come back is outstanding and must not be
//! painted. The bar paints one buffer per frame, the current one, and moves
//! to another only while the current one is outstanding.

use vstd::prelude::*;

verus! {

/// Which buffers exist, which of them are outstanding, and which one is
/// current. Buffers are named by handles, numbered from 0 in the order in
/// which they were first handed out.
pub struct FrameBuffer {
    outstanding: Vec<bool>,
    current: Option<usize>,
}

/// The mathematical content of a `FrameBuffer`.
pub struct FrameBufferView {
    /// For each handle, whether its buffer is outstanding.
    pub outstanding: Seq<bool>,
    /// The handle that was handed out last.
    pub current: Option<usize>,
}

impl FrameBufferView {
    /// Whether the current handle, if there is one, names a buffer.
    pub open spec fn wf(self) -> bool {
        self.current matches Some(h) ==> h < self.outstanding.len()
    }

    /// Whether `handle` names a buffer that must not be painted.
    pub open spec fn is_outstanding(self, handle: int) -> bool {
        0 <= handle < self.outstanding.len() && self.outstanding[handle]
    }

    /// Whether `handle` names a buffer that may be painted.
    pub open spec fn is_writable(self, handle: int) -> bool {
        0 <= handle < self.outstanding.len() && !self.outstanding[handle]
    }

    /// Whether the next acquisition hands out the current buffer again.
    pub open spec fn reuses_current(self) -> bool {
        self.current matches Some(h) && self.is_writable(h as int)
    }

    /// The lowest handle from `from` on whose buffer is not outstanding, or
    /// the number of buffers if there is none.
    pub open spec fn first_free(self, from: int) -> int
        decreases self.outstanding.len() - from,
    {
        if from < 0 || from >= self.outstanding.len() {
            self.outstanding.len() as int
        } else if !self.outstanding[from] {
            from
        } else {
            self.first_free(from + 1)
        }
    }

    /// The handle that the next acquisition hands out.
    pub open spec fn next_handle(self) -> int {
        if self.reuses_current() {
            self.current.unwrap() as int
        } else {
            self.first_free(0)
        }
    }

    /// The bookkeeping after an acquisition.
    pub open spec fn acquired(self) -> FrameBufferView {
        let handle = self.next_handle();
        FrameBufferView {
            outstanding: if handle < self.outstanding.len() {
                self.outstanding
            } else {
                self.outstanding.push(false)
            },
            current: Some(handle as usize),
        }
    }

    /// The bookkeeping after `handle` has been marked outstanding or not.
    pub open spec fn marked(self, handle: int, outstanding: bool) -> FrameBufferView {
        if 0 <= handle < self.outstanding.len() {
            FrameBufferView { outstanding: self.outstanding.update(handle, outstanding), ..self }
        } else {
            self
        }
    }
}

impl View for FrameBuffer {
    type V = FrameBufferView;

    closed spec fn view(&self) -> FrameBufferView {
        FrameBufferView { outstanding: self.outstanding@, current: self.current }
    }
}

impl FrameBuffer {
    /// Bookkeeping without any buffer.
    pub fn new() -> (frames: FrameBuffer)
        ensures
            frames@.outstanding.len() == 0,
            frames@.current is None,
            frames@.wf(),
    {
        FrameBuffer { outstanding: Vec::new(), current: None }
    }

    /// The handle that was handed out last.
    pub fn current(&self) -> (handle: Option<usize>)
        ensures
            handle == self@.current,
    {
        self.current
    }

    /// How many buffers have been handed out so far.
    pub fn buffers(&self) -> (count: usize)
        ensures
            count == self@.outstanding.len(),
    {
        self.outstanding.len()
    }

    /// Whether `handle` names a buffer that must not be painted.
    pub fn is_outstanding(&self, handle: usize) -> (busy: bool)
        ensures
            busy == self@.is_outstanding(handle as int),
    {
        handle < self.outstanding.len() && self.outstanding[handle]
    }

    fn find_free(&self) -> (handle: usize)
        ensures
            handle == self@.first_free(0),
            handle <= self@.outstanding.len(),
            handle < self@.outstanding.len() ==> !self@.outstanding[handle as int],
    {
        let n: usize = self.outstanding.len();
        let mut i: usize = 0;
        while i < n && self.outstanding[i]
            invariant
                i <= n,
                n == self.outstanding@.len(),
                self@.first_free(0) == self@.first_free(i as int),
            decreases n - i,
        {
            i += 1;
        }
        i
    }

    /// Hands out the buffer to paint this frame: the current one unless it
    /// is outstanding, else the lowest buffer that is not, else a new one.
    /// The buffer handed out becomes current.
    pub fn acquire_buffer(&mut self) -> (handle: usize)
        ensures
            handle == old(self)@.next_handle(),
            final(self)@ == old(self)@.acquired(),
            final(self)@.current == Some(handle),
            final(self)@.is_writable(handle as int),
            final(self)@.wf(),
    {
        if let Some(handle) = self.current {
            if handle < self.outstanding.len() && !self.outstanding[handle] {
                assert(self@ == old(self)@.acquired());
                return handle;
            }
        }
        let handle: usize = self.find_free();
        if handle == self.outstanding.len() {
            self.outstanding.push(false);
        }
        self.current = Some(handle);
        assert(self@.outstanding =~= old(self)@.acquired().outstanding);
        handle
    }

    /// Records that the buffer `handle` was handed to the presenter. A
    /// handle that names no buffer is ignored.
    pub fn mark_presented(&mut self, handle: usize)
        ensures
            final(self)@ == old(self)@.marked(handle as int, true),
            old(self)@.wf() ==> final(self)@.wf(),
    {
        if handle < self.outstanding.len() {
            self.outstanding[handle] = true;
        }
        assert(self@.outstanding =~= old(self)@.marked(handle as int, true).outstanding);
    }

    /// Records that the presenter gave the buffer `handle` back. A handle
    /// that names no buffer is ignored.
    pub fn mark_released(&mut self, handle: usize)
        ensures
            final(self)@ == old(self)@.marked(handle as int, false),
            old(self)@.wf() ==> final(self)@.wf(),
    {
        if handle < self.outstanding.len() {
            self.outstanding[handle] = false;
        }
        assert(self@.outstanding =~= old(self)@.marked(handle as int, false).outstanding);
    }
}

/// The handle that an acquisition hands out names a buffer that may be
/// painted, and the bookkeeping stays well formed.
pub proof fn lemma_acquired_is_writable(v: FrameBufferView)
    requires
        v.outstanding.len() < usize::MAX,
    ensures
        v.acquired().wf(),
        v.acquired().current == Some(v.next_handle() as usize),
        0 <= v.next_handle() <= v.outstanding.len(),
        v.acquired().is_writable(v.next_handle()),
{
    lemma_first_free(v, 0);
}

/// `first_free` finds a buffer that is not outstanding, or runs off the end.
pub proof fn lemma_first_free(v: FrameBufferView, from: int)
    requires
        0 <= from <= v.outstanding.len(),
    ensures
        from <= v.first_free(from) <= v.outstanding.len(),
        v.first_free(from) < v.outstanding.len() ==> !v.outstanding[v.first_free(from)],
        forall|i: int| from <= i < v.first_free(from) ==> v.outstanding[i],
    decreases v.outstanding.len() - from,
{
    if from < v.outstanding.len() && v.outstanding[from] {
        lemma_first_free(v, from + 1);
    }
}

/// Two acquisitions in a row: while the buffer handed out first is
/// outstanding, the second acquisition hands out another one; once it has
/// been released, or if it was never presented, the second acquisition
/// hands out the same one.
pub proof fn lemma_reuse_after_release(v: FrameBufferView)
    requires
        v.outstanding.len() < usize::MAX,
    ensures
        ({
            let first = v.next_handle();
            let held = v.acquired().marked(first, true);
            let back = held.marked(first, false);
            &&& held.next_handle() != first
            &&& back.next_handle() == first
            &&& v.acquired().next_handle() == first
        }),
{
    lemma_acquired_is_writable(v);
    let first = v.next_handle();
    let held = v.acquired().marked(first, true);
    lemma_first_free(held, 0);
}

} // verus!
