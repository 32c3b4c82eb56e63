//! The switch of the capture and playback threads.
use vstd::prelude::*;

verus! {

/// Whether the sound threads run: they run only between a start and a close.
pub struct Audio {
    is_audio_stoped: bool,
}

impl Audio {
    /// Threads that have not started.
    pub fn new() -> (res: Self)
        ensures
            res.stopped(),
    {
        Audio { is_audio_stoped: true }
    }

    /// Whether the threads are stopped.
    pub closed spec fn stopped(&self) -> bool {
        self.is_audio_stoped
    }

    /// Whether the threads are stopped.
    pub fn is_audio_stoped(&self) -> (r: bool)
        ensures
            r == self.stopped(),
    {
        self.is_audio_stoped
    }

    /// Starts the threads; a start while they run is ignored. Returns whether
    /// the threads are to be spawned.
    pub fn start(&mut self) -> (spawn: bool)
        ensures
            spawn == old(self).stopped(),
            !final(self).stopped(),
    {
        if !self.is_audio_stoped {
            return false;
        }
        self.is_audio_stoped = false;
        true
    }

    /// Stops the threads; closing stopped threads is ignored. Returns whether
    /// the threads are to be joined.
    pub fn close(&mut self) -> (join: bool)
        ensures
            join == !old(self).stopped(),
            final(self).stopped(),
    {
        if self.is_audio_stoped {
            return false;
        }
        self.is_audio_stoped = true;
        true
    }
}

/// How often the playback callback asks again without pausing.
pub const EAGER_RETRIES: usize = 12;

/// One more wait of the playback callback for samples, after `n` waits: the
/// first retries come at once, later ones after a pause. Gives the new count
/// and whether to pause.
pub fn output_backoff(n: usize) -> (r: (usize, bool))
    ensures
        n > EAGER_RETRIES ==> r == (n, true),
        n <= EAGER_RETRIES ==> r.0 == n + 1 && !r.1,
{
    if n > EAGER_RETRIES {
        (n, true)
    } else {
        (n + 1, false)
    }
}

} // verus!
