use vstd::prelude::*;

verus! {

/// Number of samples handed to each spectral analysis.
pub const WINDOW_SIZE: usize = 4096;

/// Samples kept after an analysis, to overlap the next window:
/// `window_size / 2` of them, or all of them when fewer remain.
pub open spec fn overlap_keep(len: nat, window_size: nat) -> nat {
    if len < window_size / 2 {
        len
    } else {
        window_size / 2
    }
}

/// The consumer-owned queue of samples waiting for analysis.
pub struct AudioSamples<T> {
    samples: Vec<T>,
}

impl<T> View for AudioSamples<T> {
    type V = Seq<T>;

    closed spec fn view(&self) -> Seq<T> {
        self.samples@
    }
}

impl<T: Copy> AudioSamples<T> {
    pub fn new() -> (r: Self)
        ensures
            r@ == Seq::<T>::empty(),
    {
        AudioSamples { samples: Vec::new() }
    }

    pub fn len(&self) -> (r: usize)
        ensures
            r == self@.len(),
    {
        self.samples.len()
    }

    /// Drops every buffered sample.
    pub fn clear(&mut self)
        ensures
            final(self)@ == Seq::<T>::empty(),
    {
        self.samples.clear();
    }

    /// Appends one block of samples, keeping their order.
    pub fn extend_block(&mut self, block: Vec<T>)
        ensures
            final(self)@ == old(self)@ + block@,
    {
        let mut block = block;
        self.samples.append(&mut block);
    }

    /// Takes the next analysis window: the first `window_size` samples.
    ///
    /// When fewer samples are buffered nothing changes and `None` comes back.
    /// Otherwise the front of the queue is dropped so that exactly
    /// `window_size / 2` samples remain to start the next, overlapping window.
    pub fn take_window(&mut self, window_size: usize) -> (r: Option<Vec<T>>)
        ensures
            old(self)@.len() < window_size ==> r.is_none() && final(self)@ == old(self)@,
            old(self)@.len() >= window_size ==> r.is_some()
                && r.unwrap()@ == old(self)@.subrange(0, window_size as int)
                && final(self)@ == old(self)@.subrange(
                    old(self)@.len() - overlap_keep(old(self)@.len(), window_size as nat),
                    old(self)@.len() as int,
                ),
    {
        let len = self.samples.len();
        if len < window_size {
            return None;
        }
        let mut w: Vec<T> = Vec::with_capacity(window_size);
        let mut i: usize = 0;
        while i < window_size
            invariant
                i <= window_size <= len,
                len == self.samples@.len(),
                self.samples@ == old(self)@,
                w@ == self.samples@.subrange(0, i as int),
            decreases window_size - i,
        {
            w.push(self.samples[i]);
            i = i + 1;
        }
        let drop = len - window_size / 2;
        let rest = self.samples.split_off(drop);
        self.samples = rest;
        Some(w)
    }
}

} // verus!
