//! A queue of control frames, worked off one at a time.
use vstd::prelude::*;
use std::collections::VecDeque;
use crate::audio::cache::CacheView;
use crate::audio::controller::{ActionView, ControllerAction};
use crate::utils::frame::tts::{TtsFrameView, TtsState};
use crate::utils::frame::{Frame, FrameView};

verus! {

/// What the queue worker does with a frame: a sentence start restarts
/// playback, a sentence end is noted, an unreadable frame is reported;
/// everything else is left alone.
pub open spec fn queued_action_of(f: FrameView) -> ActionView {
    match f {
        FrameView::TtsFrame(TtsFrameView { state, .. }) => match state {
            TtsState::SentenceStart => ActionView::RestartSession,
            TtsState::SentenceEnd => ActionView::SentenceEnd,
            _ => ActionView::Ignore,
        },
        FrameView::ListenFrame(_) => ActionView::Ignore,
        FrameView::Error => ActionView::ErrorFrame,
    }
}

/// Only a sentence start restarts playback from the queue: a sentence end is
/// only noted, an unreadable frame is reported, and every other frame,
/// listening frames and speech start and stop among them, leaves the
/// buffers as they are.
pub proof fn law_queued_actions<S>(f: FrameView, s: CacheView<S>)
    ensures
        (queued_action_of(f) == ActionView::RestartSession) <==> (f matches FrameView::TtsFrame(
            TtsFrameView { state: TtsState::SentenceStart, .. },
        )),
        (f matches FrameView::TtsFrame(TtsFrameView { state: TtsState::SentenceEnd, .. }))
            ==> queued_action_of(f) == ActionView::SentenceEnd,
        f == FrameView::Error ==> queued_action_of(f) == ActionView::ErrorFrame,
        !(f matches FrameView::TtsFrame(TtsFrameView { state: TtsState::SentenceStart, .. }))
            ==> s.apply_action(queued_action_of(f)) == s,
        (f matches FrameView::TtsFrame(TtsFrameView { state: TtsState::SentenceStart, .. }))
            ==> s.apply_action(queued_action_of(f)) == s.session_stop().session_start(),
{
}

/// Frames waiting for the worker, oldest first, and the worker's stop flag.
pub struct Controller {
    pub frame_buffer: VecDeque<Frame>,
    stop_flag: bool,
}

impl Controller {
    /// An empty queue whose worker runs.
    pub fn new() -> (res: Self)
        ensures
            res.queue().len() == 0,
            !res.stopped(),
    {
        Controller { frame_buffer: VecDeque::new(), stop_flag: false }
    }

    /// The frames waiting, oldest first.
    pub closed spec fn queue(&self) -> Seq<Frame> {
        self.frame_buffer@
    }

    /// Whether the worker has been told to stop.
    pub closed spec fn stopped(&self) -> bool {
        self.stop_flag
    }

    /// Whether the worker has been told to stop.
    pub fn is_stopped(&self) -> (r: bool)
        ensures
            r == self.stopped(),
    {
        self.stop_flag
    }

    /// Queues a frame behind the others.
    pub fn push_frame(&mut self, frame: Frame)
        ensures
            final(self).queue() == old(self).queue().push(frame),
            final(self).stopped() == old(self).stopped(),
    {
        self.frame_buffer.push_back(frame);
    }

    /// Tells the worker to stop.
    pub fn stop(&mut self)
        ensures
            final(self).stopped(),
            final(self).queue() == old(self).queue(),
    {
        self.stop_flag = true;
    }

    /// One turn of the worker: takes the oldest frame, if any, and says what
    /// to do with it.
    pub fn next_action(&mut self) -> (action: Option<ControllerAction>)
        ensures
            old(self).queue().len() == 0 ==> action is None && final(self).queue()
                == old(self).queue(),
            old(self).queue().len() > 0 ==> {
                &&& action matches Some(a) && a@ == queued_action_of(old(self).queue()[0]@)
                &&& final(self).queue() == old(self).queue().drop_first()
            },
            final(self).stopped() == old(self).stopped(),
    {
        match self.frame_buffer.pop_front() {
            Some(frame) => Some(Self::dispatch(&frame)),
            None => None,
        }
    }

    /// What the queue worker does with a frame.
    pub fn dispatch(frame: &Frame) -> (action: ControllerAction)
        ensures
            action@ == queued_action_of(frame@),
    {
        match frame {
            Frame::TtsFrame(f) => match f.state {
                TtsState::SentenceStart => ControllerAction::RestartSession,
                TtsState::SentenceEnd => ControllerAction::SentenceEnd,
                _ => ControllerAction::Ignore,
            },
            Frame::ListenFrame(_) => ControllerAction::Ignore,
            Frame::Error => ControllerAction::ErrorFrame,
        }
    }
}

} // verus!
