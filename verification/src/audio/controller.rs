//! Decides what the control frames from the server ask the client to do.
use vstd::prelude::*;
use crate::utils::frame::tts::{TtsFrameView, TtsState};
use crate::utils::frame::{Frame, FrameView};

verus! {

/// What a control frame asks for.
#[derive(Clone, Debug)]
pub enum ControllerAction {
    /// The server starts speaking this text; it is shown to the user.
    ShowText(String),
    /// The server starts speaking without text; this is reported.
    MissingText,
    /// A new sentence begins: the playback session restarts, so that nothing
    /// of the last sentence is played after it.
    RestartSession,
    /// A sentence has ended.
    SentenceEnd,
    /// A frame that could not be read; this is reported.
    ErrorFrame,
    /// Nothing to do.
    Ignore,
}

/// The contents of an action.
pub enum ActionView {
    ShowText(Seq<char>),
    MissingText,
    RestartSession,
    SentenceEnd,
    ErrorFrame,
    Ignore,
}

impl View for ControllerAction {
    type V = ActionView;

    open spec fn view(&self) -> ActionView {
        match self {
            ControllerAction::ShowText(t) => ActionView::ShowText(t@),
            ControllerAction::MissingText => ActionView::MissingText,
            ControllerAction::RestartSession => ActionView::RestartSession,
            ControllerAction::SentenceEnd => ActionView::SentenceEnd,
            ControllerAction::ErrorFrame => ActionView::ErrorFrame,
            ControllerAction::Ignore => ActionView::Ignore,
        }
    }
}

/// What the conversation worker does with a frame: speech start shows its
/// text, a sentence start restarts playback, a sentence end is noted;
/// speech stop, listening frames and unreadable frames are left alone.
pub open spec fn action_of(f: FrameView) -> ActionView {
    match f {
        FrameView::TtsFrame(TtsFrameView { state, text }) => match state {
            TtsState::Start => match text {
                Some(t) => ActionView::ShowText(t),
                None => ActionView::MissingText,
            },
            TtsState::Stop => ActionView::Ignore,
            TtsState::SentenceStart => ActionView::RestartSession,
            TtsState::SentenceEnd => ActionView::SentenceEnd,
        },
        FrameView::ListenFrame(_) => ActionView::Ignore,
        FrameView::Error => ActionView::Ignore,
    }
}

/// What the worker does, frame by frame: a speech start shows its text (or
/// reports that there is none), only a sentence start restarts playback, a
/// sentence end is only noted, and speech stop, listening frames and
/// unreadable frames are left alone.
pub proof fn law_worker_actions(f: FrameView)
    ensures
        f matches FrameView::TtsFrame(TtsFrameView { state: TtsState::Start, text: Some(t) })
            ==> action_of(f) == ActionView::ShowText(t),
        (f matches FrameView::TtsFrame(TtsFrameView { state: TtsState::Start, text: None }))
            ==> action_of(f) == ActionView::MissingText,
        (action_of(f) == ActionView::RestartSession) <==> (f matches FrameView::TtsFrame(
            TtsFrameView { state: TtsState::SentenceStart, .. },
        )),
        (f matches FrameView::TtsFrame(TtsFrameView { state: TtsState::SentenceEnd, .. }))
            ==> action_of(f) == ActionView::SentenceEnd,
        (f matches FrameView::TtsFrame(TtsFrameView { state: TtsState::Stop, .. }))
            ==> action_of(f) == ActionView::Ignore,
        (f matches FrameView::ListenFrame(_)) ==> action_of(f) == ActionView::Ignore,
        f == FrameView::Error ==> action_of(f) == ActionView::Ignore,
{
}

/// The conversation worker's switch: it runs only between a start and a close.
pub struct Controller {
    is_stopped: bool,
}

impl Controller {
    /// A worker that has not started.
    pub fn new() -> (res: Self)
        ensures
            res.is_stopped(),
    {
        Controller { is_stopped: true }
    }

    /// Whether the worker is stopped.
    pub closed spec fn is_stopped(&self) -> bool {
        self.is_stopped
    }

    /// Whether the worker is stopped.
    pub fn stopped(&self) -> (r: bool)
        ensures
            r == self.is_stopped(),
    {
        self.is_stopped
    }

    /// Starts the worker; a second start is refused. Returns whether the
    /// worker is to be launched.
    pub fn start(&mut self) -> (launch: bool)
        ensures
            launch == old(self).is_stopped(),
            !final(self).is_stopped(),
    {
        if !self.is_stopped {
            return false;
        }
        self.is_stopped = false;
        true
    }

    /// Stops the worker; closing a stopped worker is refused. Returns whether
    /// the worker is to be joined.
    pub fn close(&mut self) -> (join: bool)
        ensures
            join == !old(self).is_stopped(),
            final(self).is_stopped(),
    {
        if self.is_stopped {
            return false;
        }
        self.is_stopped = true;
        true
    }

    /// What the worker does with a frame.
    pub fn handle_frame(frame: &Frame) -> (action: ControllerAction)
        ensures
            action@ == action_of(frame@),
    {
        match frame {
            Frame::TtsFrame(f) => match f.state {
                TtsState::Start => match &f.text {
                    Some(t) => ControllerAction::ShowText(t.clone()),
                    None => ControllerAction::MissingText,
                },
                TtsState::Stop => ControllerAction::Ignore,
                TtsState::SentenceStart => ControllerAction::RestartSession,
                TtsState::SentenceEnd => ControllerAction::SentenceEnd,
            },
            Frame::ListenFrame(_) => ControllerAction::Ignore,
            Frame::Error => ControllerAction::Ignore,
        }
    }
}

} // verus!
