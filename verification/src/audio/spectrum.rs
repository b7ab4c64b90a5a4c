use vstd::prelude::*;

verus! {

/// Number of samples in one analysis window (a power of two).
pub const FFT_SIZE: usize = 2048;

/// Number of bars in the spectrum display.
pub const NUM_BARS: usize = 32;

/// Ring buffer of the most recent `FFT_SIZE` mono samples.
///
/// The buffer is generic in the sample type: it only stores and copies
/// samples, it never computes with them. Its view is the window in
/// chronological order, oldest sample first.
pub struct SampleBuffer<T> {
    samples: Vec<T>,
    write_pos: usize,
}

impl<T> View for SampleBuffer<T> {
    type V = Seq<T>;

    /// The stored window read from the write cursor onwards, wrapping around.
    closed spec fn view(&self) -> Seq<T> {
        self.samples@.subrange(self.write_pos as int, self.samples@.len() as int)
            + self.samples@.subrange(0, self.write_pos as int)
    }
}

/// The window after `pushed` has been pushed onto `window`, sample by sample:
/// each push drops the oldest sample and appends the new one.
pub open spec fn window_after<T>(window: Seq<T>, pushed: Seq<T>) -> Seq<T>
    decreases pushed.len(),
{
    if pushed.len() == 0 {
        window
    } else {
        window_after(window.drop_first().push(pushed[0]), pushed.drop_first())
    }
}

/// A window of `FFT_SIZE` copies of `silence`.
pub open spec fn silent_window<T>(silence: T) -> Seq<T> {
    Seq::new(FFT_SIZE as nat, |i: int| silence)
}

impl<T: Copy> SampleBuffer<T> {
    /// The storage holds exactly `FFT_SIZE` samples and the cursor points into it.
    pub closed spec fn wf(&self) -> bool {
        &&& self.samples@.len() == FFT_SIZE
        &&& self.write_pos < FFT_SIZE
    }

    /// A buffer in which every slot holds `silence`.
    pub fn new(silence: T) -> (buffer: Self)
        ensures
            buffer.wf(),
            buffer@ == silent_window(silence),
    {
        let mut samples: Vec<T> = Vec::with_capacity(FFT_SIZE);
        let mut i: usize = 0;
        while i < FFT_SIZE
            invariant
                i <= FFT_SIZE,
                samples@.len() == i,
                forall|k: int| 0 <= k < i ==> samples@[k] == silence,
            decreases FFT_SIZE - i,
        {
            samples.push(silence);
            i += 1;
        }
        let buffer = SampleBuffer { samples, write_pos: 0 };
        assert(buffer@ =~= silent_window(silence));
        buffer
    }

    /// Overwrites the oldest sample with `sample`, which becomes the newest.
    pub fn push(&mut self, sample: T)
        requires
            old(self).wf(),
        ensures
            final(self).wf(),
            final(self)@ == old(self)@.drop_first().push(sample),
    {
        let pos = self.write_pos;
        self.samples.set(pos, sample);
        self.write_pos = (pos + 1) % FFT_SIZE;
        assert(final(self)@ =~= old(self)@.drop_first().push(sample));
    }

    /// A copy of the window in chronological order, oldest sample first.
    pub fn get_samples(&self) -> (result: Vec<T>)
        requires
            self.wf(),
        ensures
            result@ == self@,
            result@.len() == FFT_SIZE,
    {
        let mut result: Vec<T> = Vec::with_capacity(FFT_SIZE);
        let mut i: usize = 0;
        while i < FFT_SIZE
            invariant
                self.wf(),
                i <= FFT_SIZE,
                result@.len() == i,
                forall|k: int|
                    0 <= k < i ==> result@[k] == self.samples@[(self.write_pos + k) % (
                    FFT_SIZE as int)],
            decreases FFT_SIZE - i,
        {
            let idx = (self.write_pos + i) % FFT_SIZE;
            result.push(self.samples[idx]);
            i += 1;
        }
        assert(result@ =~= self@);
        result
    }

    /// A well-formed buffer always shows a window of `FFT_SIZE` samples.
    pub proof fn lemma_window_len(&self)
        requires
            self.wf(),
        ensures
            self@.len() == FFT_SIZE,
    {
    }
}

/// Pushing onto a window keeps its length.
pub proof fn lemma_window_after_len<T>(window: Seq<T>, pushed: Seq<T>)
    requires
        window.len() > 0,
    ensures
        window_after(window, pushed).len() == window.len(),
    decreases pushed.len(),
{
    if pushed.len() > 0 {
        lemma_window_after_len(window.drop_first().push(pushed[0]), pushed.drop_first());
    }
}

/// After any number of pushes the window is the tail of everything it has
/// ever held: the old window followed by the pushed samples, cut to the
/// window's length from the back.
pub proof fn lemma_window_after_is_tail<T>(window: Seq<T>, pushed: Seq<T>)
    requires
        window.len() > 0,
    ensures
        window_after(window, pushed) == (window + pushed).subrange(
            pushed.len() as int,
            (window.len() + pushed.len()) as int,
        ),
    decreases pushed.len(),
{
    if pushed.len() == 0 {
        assert(window =~= (window + pushed).subrange(0, window.len() as int));
    } else {
        let next = window.drop_first().push(pushed[0]);
        let rest = pushed.drop_first();
        lemma_window_after_is_tail(next, rest);
        assert((next + rest).subrange(rest.len() as int, (next.len() + rest.len()) as int) =~= (
        window + pushed).subrange(pushed.len() as int, (window.len() + pushed.len()) as int));
    }
}

/// Pushing fewer samples than the window holds onto a silent buffer leaves
/// the silence in front and the pushed samples, in the order in which they
/// came, at the end.
pub proof fn lemma_partial_fill<T>(silence: T, pushed: Seq<T>)
    requires
        pushed.len() < FFT_SIZE,
    ensures
        window_after(silent_window(silence), pushed) == Seq::new(
            (FFT_SIZE - pushed.len()) as nat,
            |i: int| silence,
        ) + pushed,
        window_after(silent_window(silence), pushed).len() == FFT_SIZE,
{
    lemma_window_after_is_tail(silent_window(silence), pushed);
    assert((silent_window(silence) + pushed).subrange(
        pushed.len() as int,
        (FFT_SIZE + pushed.len()) as int,
    ) =~= Seq::new((FFT_SIZE - pushed.len()) as nat, |i: int| silence) + pushed);
}

} // verus!
