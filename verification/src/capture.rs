//! The capture buffer: gathers sample blocks of any length into analysis
//! windows of one fixed length.

use vstd::prelude::*;

verus! {

/// Samples per second of the captured stream.
pub const SAMPLE_RATE: usize = 44100;

/// Samples in one analysis window.
pub const WINDOW_SIZE: usize = 4096;

/// Padding that the pitch estimator is set up with: half a window.
pub const PADDING: usize = 2048;

/// Samples gathered so far, and the length of the window they are to fill.
pub struct CaptureBuffer<T> {
    window: usize,
    samples: Vec<T>,
}

impl<T: Copy> CaptureBuffer<T> {
    /// The window length that the buffer was made with.
    pub closed spec fn window(&self) -> nat {
        self.window as nat
    }

    /// The samples that wait for the window to fill.
    pub closed spec fn pending(&self) -> Seq<T> {
        self.samples@
    }

    /// Fewer samples wait than a window holds.
    pub open spec fn wf(&self) -> bool {
        self.pending().len() < self.window() || self.pending().len() == 0
    }

    /// An empty buffer for windows of `window` samples.
    pub fn new(window: usize) -> (buffer: Self)
        ensures
            buffer.wf(),
            buffer.window() == window,
            buffer.pending() == Seq::<T>::empty(),
    {
        CaptureBuffer { window, samples: Vec::new() }
    }

    /// Number of samples that wait.
    pub fn len(&self) -> (n: usize)
        ensures
            n == self.pending().len(),
    {
        self.samples.len()
    }

    /// Takes in a block of samples.
    ///
    /// While the samples that wait and the block together hold less than a
    /// window, the block is appended and nothing comes out. Otherwise the
    /// first window's worth of them comes out for analysis, and the buffer is
    /// left empty: what the block held beyond the window is dropped.
    pub fn feed(&mut self, block: &[T]) -> (ready: Option<Vec<T>>)
        requires
            old(self).wf(),
        ensures
            final(self).wf(),
            final(self).window() == old(self).window(),
            old(self).pending().len() + block@.len() < old(self).window() ==> ready is None
                && final(self).pending() == old(self).pending() + block@,
            old(self).pending().len() + block@.len() >= old(self).window() ==> ready is Some
                && ready.unwrap()@ == (old(self).pending() + block@).subrange(
                0,
                old(self).window() as int,
            ) && final(self).pending() == Seq::<T>::empty(),
    {
        let ghost all = old(self).pending() + block@;
        let mut i: usize = 0;
        while i < block.len() && self.samples.len() < self.window
            invariant
                self.window == old(self).window,
                i <= block@.len(),
                self.samples@.len() == old(self).pending().len() + i,
                self.samples@.len() <= self.window || i == 0,
                self.samples@ == all.subrange(0, self.samples@.len() as int),
                all == old(self).pending() + block@,
                old(self).wf(),
            decreases block@.len() - i,
        {
            self.samples.push(block[i]);
            i += 1;
            assert(self.samples@ =~= all.subrange(0, self.samples@.len() as int));
        }
        if self.samples.len() >= self.window {
            let mut ready: Vec<T> = Vec::new();
            ready.append(&mut self.samples);
            assert(ready@ =~= all.subrange(0, self.window as int));
            Some(ready)
        } else {
            assert(self.samples@ =~= all);
            None
        }
    }
}

} // verus!
