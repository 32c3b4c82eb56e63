//! Buffers between the sound card and the server.
//!
//! Input: captured samples are split into channels and handed out to be
//! resampled; the resampled stream is cut into frames and handed out to be
//! encoded; encoded packets are handed out to be sent.
//! Output: packets from the server are handed out to be decoded; decoded
//! samples are handed out to be resampled; resampled samples are played on
//! both channels and read by the sound card in blocks.
//!
//! Resampling and the codec run outside: each step says what work is due and
//! the caller hands the result back.
use vstd::prelude::*;
use crate::utils::config::Config;
use crate::audio::controller::{action_of, ActionView, ControllerAction};
use crate::utils::frame::FrameView;
use crate::utils::frame::tts::{TtsFrameView, TtsState};
use crate::audio::samples::{
    chunks, deinterleave, law_chunks_roundtrip, law_deinterleave_roundtrip, spec_chunks,
    lemma_leftover_short, spec_deinterleave, spec_interleave, spec_leftover, spec_stereo,
    to_stereo, views_of, whole_frames,
};

verus! {

/// Work that the input side asks for.
pub enum InputStep<S> {
    /// Send these encoded packets to the server, in order.
    Send(Vec<Vec<u8>>),
    /// Encode each of these frames of resampled samples, in order.
    Encode(Vec<Vec<S>>),
    /// Resample these channels (captured samples split by channel).
    Resample(Vec<Vec<S>>),
    /// Nothing to do yet.
    Idle,
}

/// Work that the output side asks for.
pub enum OutputStep {
    /// Resample these decoded samples to the rate of the output device.
    Resample(Vec<i16>),
    /// Decode each of these packets, in order.
    Decode(Vec<Vec<u8>>),
    /// Nothing to do yet.
    Idle,
}

/// What a read of the playback buffer gives.
pub struct ReadResult {
    /// The first read of a session: the caller lets the buffer fill a while.
    pub warm_up: bool,
    /// The block for the sound card, when the session is active and enough is buffered.
    pub samples: Option<Vec<i16>>,
    /// Work due when no block could be given.
    pub step: OutputStep,
}

/// The contents of an input step.
pub enum InputStepView<S> {
    Send(Seq<Seq<u8>>),
    Encode(Seq<Seq<S>>),
    Resample(Seq<Seq<S>>),
    Idle,
}

/// The contents of an output step.
pub enum OutputStepView {
    Resample(Seq<i16>),
    Decode(Seq<Seq<u8>>),
    Idle,
}

/// The contents of a read result.
pub struct ReadView {
    pub warm_up: bool,
    pub samples: Option<Seq<i16>>,
    pub step: OutputStepView,
}

impl<S> View for InputStep<S> {
    type V = InputStepView<S>;

    open spec fn view(&self) -> InputStepView<S> {
        match self {
            InputStep::Send(p) => InputStepView::Send(views_of(p@)),
            InputStep::Encode(f) => InputStepView::Encode(views_of(f@)),
            InputStep::Resample(c) => InputStepView::Resample(views_of(c@)),
            InputStep::Idle => InputStepView::Idle,
        }
    }
}

impl View for OutputStep {
    type V = OutputStepView;

    open spec fn view(&self) -> OutputStepView {
        match self {
            OutputStep::Resample(s) => OutputStepView::Resample(s@),
            OutputStep::Decode(p) => OutputStepView::Decode(views_of(p@)),
            OutputStep::Idle => OutputStepView::Idle,
        }
    }
}

impl View for ReadResult {
    type V = ReadView;

    open spec fn view(&self) -> ReadView {
        ReadView {
            warm_up: self.warm_up,
            samples: match self.samples {
                Some(v) => Some(v@),
                None => None,
            },
            step: self.step@,
        }
    }
}

/// The state of the buffers, as values.
pub struct CacheView<S> {
    pub input_rate: u32,
    pub output_rate: u32,
    pub opus_rate: usize,
    pub frame_size: usize,
    pub input_channels: usize,
    /// Captured samples, interleaved, not yet resampled.
    pub raw_in: Seq<S>,
    /// Resampled mono samples, not yet encoded.
    pub resampled_in: Seq<S>,
    /// Encoded packets, not yet sent.
    pub opus_in: Seq<Seq<u8>>,
    /// Stereo samples ready for the sound card.
    pub raw_out: Seq<i16>,
    /// Decoded mono samples, not yet resampled.
    pub decoded_out: Seq<i16>,
    /// Packets from the server, not yet decoded.
    pub opus_out: Seq<Seq<u8>>,
    /// Whether the output session plays.
    pub session_active: bool,
    /// Whether the session has had its first read.
    pub warmed_up: bool,
}

impl<S> CacheView<S> {
    /// The limits under which the buffers work.
    pub open spec fn wf(self) -> bool {
        &&& self.frame_size > 0
        &&& self.input_channels > 0
        &&& self.frame_size * self.input_channels <= usize::MAX
        &&& self.frame_size * 3 <= usize::MAX
    }

    /// Appends captured samples.
    pub open spec fn write_input_data(self, data: Seq<S>) -> Self {
        CacheView { raw_in: self.raw_in + data, ..self }
    }

    /// Once more than a frame's worth of captured samples waits, all whole
    /// channel frames go out to be resampled.
    pub open spec fn resample_in(self) -> (Self, InputStepView<S>) {
        if self.raw_in.len() > self.frame_size * self.input_channels {
            (
                CacheView {
                    raw_in: spec_leftover(self.raw_in, self.input_channels as nat),
                    ..self
                },
                InputStepView::Resample(
                    spec_deinterleave(self.raw_in, self.input_channels as nat),
                ),
            )
        } else {
            (self, InputStepView::Idle)
        }
    }

    /// Appends resampled samples.
    pub open spec fn push_resampled_in(self, mono: Seq<S>) -> Self {
        CacheView { resampled_in: self.resampled_in + mono, ..self }
    }

    /// Once a whole frame of resampled samples waits, all whole frames go out
    /// to be encoded; otherwise captured samples are looked at.
    pub open spec fn encode(self) -> (Self, InputStepView<S>) {
        if self.resampled_in.len() >= self.frame_size {
            (
                CacheView {
                    resampled_in: spec_leftover(self.resampled_in, self.frame_size as nat),
                    ..self
                },
                InputStepView::Encode(spec_chunks(self.resampled_in, self.frame_size as nat)),
            )
        } else {
            self.resample_in()
        }
    }

    /// Appends an encoded packet.
    pub open spec fn push_encoded(self, packet: Seq<u8>) -> Self {
        CacheView { opus_in: self.opus_in.push(packet), ..self }
    }

    /// Waiting packets all go out to be sent; otherwise frames are looked at.
    pub open spec fn send_audio(self) -> (Self, InputStepView<S>) {
        if self.opus_in.len() > 0 {
            (
                CacheView { opus_in: Seq::empty(), ..self },
                InputStepView::Send(self.opus_in),
            )
        } else {
            self.encode()
        }
    }

    /// Appends a packet from the server.
    pub open spec fn write_output_data(self, packet: Seq<u8>) -> Self {
        CacheView { opus_out: self.opus_out.push(packet), ..self }
    }

    /// Waiting packets from the server all go out to be decoded.
    pub open spec fn decode(self) -> (Self, OutputStepView) {
        if self.opus_out.len() > 0 {
            (CacheView { opus_out: Seq::empty(), ..self }, OutputStepView::Decode(self.opus_out))
        } else {
            (self, OutputStepView::Idle)
        }
    }

    /// Appends decoded samples.
    pub open spec fn push_decoded(self, pcm: Seq<i16>) -> Self {
        CacheView { decoded_out: self.decoded_out + pcm, ..self }
    }

    /// Once more than `frames` frames of decoded samples wait, all of them go
    /// out to be resampled; otherwise packets are looked at.
    pub open spec fn resample_out(self, frames: nat) -> (Self, OutputStepView) {
        if self.decoded_out.len() > self.frame_size * frames {
            (
                CacheView { decoded_out: Seq::empty(), ..self },
                OutputStepView::Resample(self.decoded_out),
            )
        } else {
            self.decode()
        }
    }

    /// Appends resampled mono samples, each played on both channels.
    pub open spec fn push_resampled_out(self, mono: Seq<i16>) -> Self {
        CacheView { raw_out: self.raw_out + spec_stereo(mono), ..self }
    }

    /// A read of `size` samples for the sound card. The first read of a
    /// session only warms up: the caller lets the buffer fill, then reads
    /// again.
    pub open spec fn read(self, size: nat) -> (Self, ReadView) {
        if !self.warmed_up {
            (
                CacheView { warmed_up: true, ..self },
                ReadView { warm_up: true, samples: None, step: OutputStepView::Idle },
            )
        } else if !self.session_active {
            (self, ReadView { warm_up: false, samples: None, step: OutputStepView::Idle })
        } else if self.raw_out.len() > size {
            (
                CacheView { raw_out: self.raw_out.skip(size as int), ..self },
                ReadView {
                    warm_up: false,
                    samples: Some(self.raw_out.take(size as int)),
                    step: OutputStepView::Idle,
                },
            )
        } else {
            let (t, step) = self.resample_out(3);
            (t, ReadView { warm_up: false, samples: None, step })
        }
    }

    /// Ends the output session and drops everything that waits for playback.
    pub open spec fn session_stop(self) -> Self {
        CacheView {
            session_active: false,
            raw_out: Seq::empty(),
            decoded_out: Seq::empty(),
            opus_out: Seq::empty(),
            ..self
        }
    }

    /// Starts an output session; its first read warms up.
    pub open spec fn session_start(self) -> Self {
        CacheView { session_active: true, warmed_up: false, ..self }
    }

    /// Restarts the output session: stops it, then starts it.
    pub open spec fn restart_session(self) -> Self {
        self.session_stop().session_start()
    }

    /// What an action of the conversation worker does to the buffers: a
    /// restart restarts the session; no other action touches them.
    pub open spec fn apply_action(self, a: ActionView) -> Self {
        match a {
            ActionView::RestartSession => self.restart_session(),
            _ => self,
        }
    }
}

/// Every waiting packet from the server is handed out to be decoded, in the
/// order it came, as soon as one waits, and none stays behind; with none
/// waiting nothing changes.
pub proof fn law_decode_takes_all<S>(s: CacheView<S>)
    ensures
        s.opus_out.len() > 0 ==> s.decode() == (
            CacheView { opus_out: Seq::empty(), ..s },
            OutputStepView::Decode(s.opus_out),
        ),
        s.opus_out.len() == 0 ==> s.decode() == (s, OutputStepView::Idle),
{
}

/// A single packet from the server is decoded at once: writing it to a
/// buffer with nothing else waiting hands out exactly that packet.
pub proof fn law_single_packet_decoded<S>(s: CacheView<S>, p: Seq<u8>)
    requires
        s.opus_out.len() == 0,
    ensures
        s.write_output_data(p).decode().1 == OutputStepView::Decode(seq![p]),
        s.write_output_data(p).decode().0.opus_out.len() == 0,
{
    assert(s.opus_out.push(p) =~= seq![p]);
}

/// Every encoded packet is handed out to be sent as soon as one waits, all
/// of them in order, and the queue is left empty; only with no packet
/// waiting are frames looked at.
pub proof fn law_send_takes_all<S>(s: CacheView<S>)
    ensures
        s.opus_in.len() > 0 ==> s.send_audio() == (
            CacheView { opus_in: Seq::empty(), ..s },
            InputStepView::<S>::Send(s.opus_in),
        ),
        s.opus_in.len() == 0 ==> s.send_audio() == s.encode(),
{
}

/// A single encoded packet is sent at once.
pub proof fn law_single_packet_sent<S>(s: CacheView<S>, p: Seq<u8>)
    requires
        s.opus_in.len() == 0,
    ensures
        s.push_encoded(p).send_audio().1 == InputStepView::<S>::Send(seq![p]),
        s.push_encoded(p).send_audio().0.opus_in.len() == 0,
{
    assert(s.opus_in.push(p) =~= seq![p]);
}

/// Once a whole frame of resampled samples waits, every whole frame is
/// handed out to be encoded and only a partial frame stays; with less than
/// a frame, the captured samples are looked at.
pub proof fn law_encode_takes_whole_frames<S>(s: CacheView<S>)
    requires
        s.wf(),
    ensures
        s.resampled_in.len() >= s.frame_size ==> {
            &&& s.encode().1 == InputStepView::Encode(
                spec_chunks(s.resampled_in, s.frame_size as nat),
            )
            &&& spec_chunks(s.resampled_in, s.frame_size as nat).len() >= 1
            &&& s.encode().0.resampled_in.len() < s.frame_size
            &&& s.encode().0 == (CacheView { resampled_in: s.encode().0.resampled_in, ..s })
        },
        s.resampled_in.len() < s.frame_size ==> s.encode() == s.resample_in(),
{
    lemma_leftover_short(s.resampled_in, s.frame_size as nat);
}

/// Once more than a frame's worth of captured samples waits, every whole
/// channel frame is handed out to be resampled and only a partial frame
/// stays; otherwise nothing changes.
pub proof fn law_resample_in_takes_whole_frames<S>(s: CacheView<S>)
    requires
        s.wf(),
    ensures
        s.raw_in.len() > s.frame_size * s.input_channels ==> {
            &&& s.resample_in().1 == InputStepView::Resample(
                spec_deinterleave(s.raw_in, s.input_channels as nat),
            )
            &&& s.resample_in().0.raw_in.len() < s.input_channels
            &&& s.resample_in().0 == (CacheView { raw_in: s.resample_in().0.raw_in, ..s })
        },
        s.raw_in.len() <= s.frame_size * s.input_channels ==> s.resample_in() == (
            s,
            InputStepView::<S>::Idle,
        ),
{
    lemma_leftover_short(s.raw_in, s.input_channels as nat);
}

/// Decoded samples handed out to be resampled leave the buffer, all at
/// once: once more than `frames` frames wait, the step holds exactly what
/// waited and nothing stays, so no sample is handed out twice; otherwise the
/// decoded samples stay and packets are looked at.
pub proof fn law_resample_out_takes_all<S>(s: CacheView<S>, frames: nat)
    ensures
        s.decoded_out.len() > s.frame_size * frames ==> s.resample_out(frames) == (
            CacheView { decoded_out: Seq::empty(), ..s },
            OutputStepView::Resample(s.decoded_out),
        ),
        s.decoded_out.len() <= s.frame_size * frames ==> s.resample_out(frames) == s.decode(),
        s.resample_out(frames).1 matches OutputStepView::Resample(pcm) ==> pcm
            + s.resample_out(frames).0.decoded_out == s.decoded_out,
        !(s.resample_out(frames).1 is Resample) ==> s.resample_out(frames).0.decoded_out
            == s.decoded_out,
{
    if s.decoded_out.len() > s.frame_size * frames {
        assert(s.decoded_out + Seq::<i16>::empty() =~= s.decoded_out);
    }
}

/// Samples handed out to be resampled are not handed out again: after a
/// read that hands them out, the next read cannot ask to resample anything
/// before new decoded samples come.
pub proof fn law_resampled_once<S>(s: CacheView<S>, a: nat, b: nat)
    requires
        s.read(a).1.step is Resample,
    ensures
        s.read(a).0.decoded_out.len() == 0,
        !(s.read(a).0.read(b).1.step is Resample),
{
}

/// Written packets and samples are appended behind what waits, nothing
/// else changing.
pub proof fn law_writes_append<S>(s: CacheView<S>, p: Seq<u8>, pcm: Seq<i16>, data: Seq<S>)
    ensures
        s.write_output_data(p) == (CacheView { opus_out: s.opus_out.push(p), ..s }),
        s.push_decoded(pcm) == (CacheView { decoded_out: s.decoded_out + pcm, ..s }),
        s.write_input_data(data) == (CacheView { raw_in: s.raw_in + data, ..s }),
        s.push_encoded(p) == (CacheView { opus_in: s.opus_in.push(p), ..s }),
        s.push_resampled_in(data) == (CacheView { resampled_in: s.resampled_in + data, ..s }),
{
}

/// Once warmed up, a read of an inactive session gives nothing, asks for no
/// work and changes nothing.
pub proof fn law_inactive_read<S>(s: CacheView<S>, size: nat)
    requires
        s.warmed_up,
        !s.session_active,
    ensures
        s.read(size) == (s, ReadView { warm_up: false, samples: None, step: OutputStepView::Idle }),
{
}

/// When a playing, warmed-up session has no block for the sound card, the
/// read asks for the output work due at a threshold of three frames: the
/// decoded samples once more than three frames of them wait, else the
/// waiting packets.
pub proof fn law_short_read_asks_for_work<S>(s: CacheView<S>, size: nat)
    requires
        s.warmed_up,
        s.session_active,
        s.raw_out.len() <= size,
    ensures
        s.decoded_out.len() > s.frame_size * 3 ==> s.read(size) == (
            CacheView { decoded_out: Seq::empty(), ..s },
            ReadView { warm_up: false, samples: None, step: OutputStepView::Resample(s.decoded_out) },
        ),
        s.decoded_out.len() <= s.frame_size * 3 && s.opus_out.len() > 0 ==> s.read(size) == (
            CacheView { opus_out: Seq::empty(), ..s },
            ReadView { warm_up: false, samples: None, step: OutputStepView::Decode(s.opus_out) },
        ),
        s.decoded_out.len() <= s.frame_size * 3 && s.opus_out.len() == 0 ==> s.read(size) == (
            s,
            ReadView { warm_up: false, samples: None, step: OutputStepView::Idle },
        ),
{
}

/// Session control touches only the output side: stopping drops what waits
/// for playback and ends the session, starting begins a session that warms
/// up; the input side and the settings stay as they are.
pub proof fn law_session_control_is_output_only<S>(s: CacheView<S>)
    ensures
        s.session_stop() == (CacheView {
            session_active: false,
            raw_out: Seq::empty(),
            decoded_out: Seq::empty(),
            opus_out: Seq::empty(),
            ..s
        }),
        s.session_start() == (CacheView { session_active: true, warmed_up: false, ..s }),
{
}

/// Once warmed up, a read gives a block exactly when the session plays and
/// more than the block waits; the block is the oldest `size` samples, and
/// what stays is the rest, in order.
pub proof fn law_read_takes_oldest<S>(s: CacheView<S>, size: nat)
    ensures
        s.read(size).1.samples is Some <==> s.warmed_up && s.session_active && s.raw_out.len()
            > size,
        s.read(size).1.samples matches Some(block) ==> {
            &&& block.len() == size
            &&& block + s.read(size).0.raw_out == s.raw_out
        },
{
    if s.warmed_up && s.session_active && s.raw_out.len() > size {
        assert(s.raw_out.take(size as int) + s.raw_out.skip(size as int) =~= s.raw_out);
    }
}

/// Once the session is stopped, reads give nothing and ask for no work, and
/// nothing of the old session is played later.
pub proof fn law_stopped_session_is_silent<S>(s: CacheView<S>, size: nat)
    ensures
        s.session_stop().read(size).1.samples is None,
        s.session_stop().read(size).1.step is Idle,
        s.session_stop().read(size).0.raw_out.len() == 0,
        s.session_stop().read(size).0.decoded_out.len() == 0,
        s.session_stop().read(size).0.opus_out.len() == 0,
{
}

/// The first read of a session warms up and changes nothing else; the reads
/// after it do not warm up.
pub proof fn law_first_read_warms_up<S>(s: CacheView<S>, a: nat, b: nat)
    ensures
        s.session_start().read(a).1.warm_up,
        s.session_start().read(a).1.samples is None,
        s.session_start().read(a).0 == (CacheView { warmed_up: true, ..s.session_start() }),
        !s.read(a).0.read(b).1.warm_up,
{
}

/// Restarting the session (stop, then start) leaves an empty, playing
/// session whose first read warms up.
pub proof fn law_restart_session<S>(s: CacheView<S>, size: nat)
    ensures
        s.session_stop().session_start().session_active,
        s.session_stop().session_start().raw_out.len() == 0,
        s.session_stop().session_start().read(size).1.warm_up,
        s.session_stop().session_start().read(size).1.samples is None,
        s.session_stop().session_start().read(size).0.read(size).1.samples is None,
{
}

/// A sentence start restarts playback: the worker's action on such a frame
/// empties what waits for playback and starts a fresh session; every other
/// frame leaves the buffers as they are.
pub proof fn law_sentence_start_restarts_playback<S>(s: CacheView<S>, f: FrameView)
    ensures
        (f matches FrameView::TtsFrame(TtsFrameView { state: TtsState::SentenceStart, .. }))
            ==> s.apply_action(action_of(f)) == s.session_stop().session_start(),
        !(f matches FrameView::TtsFrame(TtsFrameView { state: TtsState::SentenceStart, .. }))
            ==> s.apply_action(action_of(f)) == s,
        (f matches FrameView::TtsFrame(TtsFrameView { state: TtsState::SentenceStart, .. })) ==> {
            &&& s.apply_action(action_of(f)).session_active
            &&& s.apply_action(action_of(f)).raw_out.len() == 0
            &&& s.apply_action(action_of(f)).decoded_out.len() == 0
            &&& s.apply_action(action_of(f)).opus_out.len() == 0
        },
{
}

/// No captured sample is lost or reordered: the channels handed out to be
/// resampled, put back together, followed by what stays, are what waited.
pub proof fn law_capture_conserved<S>(s: CacheView<S>)
    requires
        s.wf(),
    ensures
        s.resample_in().1 matches InputStepView::Resample(chans) ==> {
            &&& chans.len() == s.input_channels
            &&& spec_interleave(chans, whole_frames(s.raw_in.len(), s.input_channels as nat))
                + s.resample_in().0.raw_in == s.raw_in
        },
        s.resample_in().1 is Idle ==> s.resample_in().0 == s,
{
    law_deinterleave_roundtrip(s.raw_in, s.input_channels as nat);
}

/// No resampled sample is lost or reordered: the frames handed out to be
/// encoded each hold a whole frame, and one after the other, followed by what
/// stays, they are what waited.
pub proof fn law_frames_conserved<S>(s: CacheView<S>)
    requires
        s.wf(),
    ensures
        s.encode().1 matches InputStepView::Encode(frames) ==> {
            &&& frames.flatten() + s.encode().0.resampled_in == s.resampled_in
            &&& forall|k: int| 0 <= k < frames.len() ==> #[trigger] frames[k].len() == s.frame_size
            &&& s.encode().0.raw_in == s.raw_in
        },
{
    law_chunks_roundtrip(s.resampled_in, s.frame_size as nat);
}

/// Encoded packets are sent in the order they were encoded, all at once.
pub proof fn law_packets_sent_in_order<S>(s: CacheView<S>, a: Seq<u8>, b: Seq<u8>)
    ensures
        s.push_encoded(a).push_encoded(b).send_audio().1 == InputStepView::<S>::Send(
            s.opus_in.push(a).push(b),
        ),
        s.push_encoded(a).push_encoded(b).send_audio().0.opus_in.len() == 0,
{
}

/// Packets from the server are decoded in the order they came.
pub proof fn law_packets_decoded_in_order<S>(s: CacheView<S>, a: Seq<u8>, b: Seq<u8>)
    ensures
        s.write_output_data(a).write_output_data(b).decode().1 == OutputStepView::Decode(
            s.opus_out.push(a).push(b),
        ),
{
}

/// Resampled samples are played after what already waits, each on both
/// channels.
pub proof fn law_playback_order<S>(s: CacheView<S>, mono: Seq<i16>)
    ensures
        s.push_resampled_out(mono).raw_out.take(s.raw_out.len() as int) == s.raw_out,
        s.push_resampled_out(mono).raw_out.len() == s.raw_out.len() + 2 * mono.len(),
        forall|i: int|
            0 <= i < mono.len() ==> {
                &&& #[trigger] s.push_resampled_out(mono).raw_out[s.raw_out.len() + 2 * i]
                    == mono[i]
                &&& s.push_resampled_out(mono).raw_out[s.raw_out.len() + 2 * i + 1] == mono[i]
            },
{
    assert(s.push_resampled_out(mono).raw_out.take(s.raw_out.len() as int) =~= s.raw_out);
}

/// The buffers of one conversation, for samples of type `S` on the input side.
pub struct AudioCache<S> {
    input_rate: u32,
    output_rate: u32,
    opus_rate: usize,
    frame_size: usize,
    input_channels: usize,
    raw_in: Vec<S>,
    resampled_in: Vec<S>,
    opus_in: Vec<Vec<u8>>,
    raw_out: Vec<i16>,
    decoded_out: Vec<i16>,
    opus_out: Vec<Vec<u8>>,
    session_active: bool,
    warmed_up: bool,
}

impl<S> View for AudioCache<S> {
    type V = CacheView<S>;

    closed spec fn view(&self) -> CacheView<S> {
        CacheView {
            input_rate: self.input_rate,
            output_rate: self.output_rate,
            opus_rate: self.opus_rate,
            frame_size: self.frame_size,
            input_channels: self.input_channels,
            raw_in: self.raw_in@,
            resampled_in: self.resampled_in@,
            opus_in: views_of(self.opus_in@),
            raw_out: self.raw_out@,
            decoded_out: self.decoded_out@,
            opus_out: views_of(self.opus_out@),
            session_active: self.session_active,
            warmed_up: self.warmed_up,
        }
    }
}

impl<S> AudioCache<S> {
    /// Empty buffers with the given rates and sizes; no session plays.
    pub open spec fn new_view(
        input_rate: u32,
        output_rate: u32,
        opus_rate: usize,
        frame_size: usize,
        input_channels: usize,
    ) -> CacheView<S> {
        CacheView {
            input_rate,
            output_rate,
            opus_rate,
            frame_size,
            input_channels,
            raw_in: Seq::empty(),
            resampled_in: Seq::empty(),
            opus_in: Seq::empty(),
            raw_out: Seq::empty(),
            decoded_out: Seq::empty(),
            opus_out: Seq::empty(),
            session_active: false,
            warmed_up: false,
        }
    }
}

impl<S: Copy> AudioCache<S> {
    /// Empty buffers; no session plays yet.
    pub fn new(
        input_rate: u32,
        output_rate: u32,
        opus_rate: usize,
        frame_size: usize,
        input_channels: usize,
    ) -> (res: Self)
        requires
            frame_size > 0,
            input_channels > 0,
            frame_size * input_channels <= usize::MAX,
            frame_size * 3 <= usize::MAX,
        ensures
            res@ == AudioCache::<S>::new_view(
                input_rate,
                output_rate,
                opus_rate,
                frame_size,
                input_channels,
            ),
            res@.wf(),
    {
        let res = AudioCache {
            input_rate,
            output_rate,
            opus_rate,
            frame_size,
            input_channels,
            raw_in: Vec::new(),
            resampled_in: Vec::new(),
            opus_in: Vec::new(),
            raw_out: Vec::new(),
            decoded_out: Vec::new(),
            opus_out: Vec::new(),
            session_active: false,
            warmed_up: false,
        };
        assert(views_of(res.opus_in@) =~= Seq::<Seq<u8>>::empty());
        assert(views_of(res.opus_out@) =~= Seq::<Seq<u8>>::empty());
        res
    }

    /// Empty buffers for the devices and codec that the settings name: the
    /// input and output rates are those of the devices, frames and codec rate
    /// those of the settings.
    pub fn from_config(config: &Config) -> (res: Self)
        requires
            config.supports_audio(),
        ensures
            res@ == AudioCache::<S>::new_view(
                config.input_device.sample_rate,
                config.output_device.sample_rate,
                config.opus.sample_rate,
                config.websocket.frame_size,
                config.input_device.channels,
            ),
            res@.wf(),
    {
        Self::new(
            config.input_device.sample_rate,
            config.output_device.sample_rate,
            config.opus.sample_rate,
            config.websocket.frame_size,
            config.input_device.channels,
        )
    }

    /// Sample rate of the input device.
    pub fn input_rate(&self) -> (r: u32)
        ensures
            r == self@.input_rate,
    {
        self.input_rate
    }

    /// Sample rate of the output device.
    pub fn output_rate(&self) -> (r: u32)
        ensures
            r == self@.output_rate,
    {
        self.output_rate
    }

    /// Sample rate of the codec.
    pub fn opus_rate(&self) -> (r: usize)
        ensures
            r == self@.opus_rate,
    {
        self.opus_rate
    }

    /// Samples per codec frame.
    pub fn frame_size(&self) -> (r: usize)
        ensures
            r == self@.frame_size,
    {
        self.frame_size
    }

    /// Channels of the input device.
    pub fn input_channels(&self) -> (r: usize)
        ensures
            r == self@.input_channels,
    {
        self.input_channels
    }

    /// Whether the output session plays.
    pub fn is_session_active(&self) -> (r: bool)
        ensures
            r == self@.session_active,
    {
        self.session_active
    }

    /// Appends captured samples.
    pub fn write_input_data(&mut self, data: Vec<S>)
        ensures
            final(self)@ == old(self)@.write_input_data(data@),
    {
        let mut data = data;
        self.raw_in.append(&mut data);
    }

    /// Hands out the captured channel frames to be resampled, once more than a
    /// frame's worth waits.
    pub fn resample_in(&mut self) -> (step: InputStep<S>)
        requires
            old(self)@.wf(),
        ensures
            (final(self)@, step@) == old(self)@.resample_in(),
    {
        if self.raw_in.len() > self.frame_size * self.input_channels {
            let (chans, rest) = deinterleave(&self.raw_in, self.input_channels);
            self.raw_in = rest;
            InputStep::Resample(chans)
        } else {
            InputStep::Idle
        }
    }

    /// Appends the resampled samples of the first channel.
    pub fn push_resampled_in(&mut self, mono: Vec<S>)
        ensures
            final(self)@ == old(self)@.push_resampled_in(mono@),
    {
        let mut mono = mono;
        self.resampled_in.append(&mut mono);
    }

    /// Hands out whole frames to be encoded; with none waiting, looks at the
    /// captured samples.
    pub fn encode(&mut self) -> (step: InputStep<S>)
        requires
            old(self)@.wf(),
        ensures
            (final(self)@, step@) == old(self)@.encode(),
    {
        if self.resampled_in.len() >= self.frame_size {
            let (frames, rest) = chunks(&self.resampled_in, self.frame_size);
            self.resampled_in = rest;
            InputStep::Encode(frames)
        } else {
            self.resample_in()
        }
    }

    /// Appends an encoded packet.
    pub fn push_encoded(&mut self, packet: Vec<u8>)
        ensures
            final(self)@ == old(self)@.push_encoded(packet@),
    {
        self.opus_in.push(packet);
        proof {
            assert(views_of(self.opus_in@) =~= views_of(old(self).opus_in@).push(packet@));
        }
    }

    /// Hands out the waiting packets to be sent; with none waiting, looks at
    /// the frames.
    pub fn send_audio(&mut self) -> (step: InputStep<S>)
        requires
            old(self)@.wf(),
        ensures
            (final(self)@, step@) == old(self)@.send_audio(),
    {
        if self.opus_in.len() > 0 {
            let mut packets: Vec<Vec<u8>> = Vec::new();
            std::mem::swap(&mut packets, &mut self.opus_in);
            proof {
                assert(views_of(self.opus_in@) =~= Seq::<Seq<u8>>::empty());
            }
            InputStep::Send(packets)
        } else {
            self.encode()
        }
    }

    /// Appends a packet from the server.
    pub fn write_output_data(&mut self, data: Vec<u8>)
        ensures
            final(self)@ == old(self)@.write_output_data(data@),
    {
        self.opus_out.push(data);
        proof {
            assert(views_of(self.opus_out@) =~= views_of(old(self).opus_out@).push(data@));
        }
    }

    /// Hands out the waiting packets from the server to be decoded.
    pub fn decode(&mut self) -> (step: OutputStep)
        ensures
            (final(self)@, step@) == old(self)@.decode(),
    {
        if self.opus_out.len() > 0 {
            let mut packets: Vec<Vec<u8>> = Vec::new();
            std::mem::swap(&mut packets, &mut self.opus_out);
            proof {
                assert(views_of(self.opus_out@) =~= Seq::<Seq<u8>>::empty());
            }
            OutputStep::Decode(packets)
        } else {
            OutputStep::Idle
        }
    }

    /// Appends decoded samples.
    pub fn push_decoded(&mut self, pcm: Vec<i16>)
        ensures
            final(self)@ == old(self)@.push_decoded(pcm@),
    {
        let mut pcm = pcm;
        self.decoded_out.append(&mut pcm);
    }

    /// Hands out the decoded samples to be resampled once more than `frames`
    /// frames wait; otherwise looks at the packets from the server.
    pub fn resample_out(&mut self, frames: usize) -> (step: OutputStep)
        requires
            old(self)@.frame_size * frames <= usize::MAX,
        ensures
            (final(self)@, step@) == old(self)@.resample_out(frames as nat),
    {
        if self.decoded_out.len() > self.frame_size * frames {
            let mut pcm: Vec<i16> = Vec::new();
            std::mem::swap(&mut pcm, &mut self.decoded_out);
            OutputStep::Resample(pcm)
        } else {
            self.decode()
        }
    }

    /// Appends resampled mono samples, each played on both channels.
    pub fn push_resampled_out(&mut self, mono: Vec<i16>)
        ensures
            final(self)@ == old(self)@.push_resampled_out(mono@),
    {
        let mut stereo = to_stereo(&mono);
        self.raw_out.append(&mut stereo);
    }

    /// Takes a block of `size` samples for the sound card. The first read of
    /// a session only asks the caller to let the buffer fill a while and to
    /// read again.
    pub fn read(&mut self, size: usize) -> (res: ReadResult)
        requires
            old(self)@.wf(),
        ensures
            (final(self)@, res@) == old(self)@.read(size as nat),
    {
        if !self.warmed_up {
            self.warmed_up = true;
            return ReadResult { warm_up: true, samples: None, step: OutputStep::Idle };
        }
        if !self.session_active {
            return ReadResult { warm_up: false, samples: None, step: OutputStep::Idle };
        }
        if self.raw_out.len() > size {
            let mut block = self.raw_out.split_off(size);
            std::mem::swap(&mut block, &mut self.raw_out);
            ReadResult { warm_up: false, samples: Some(block), step: OutputStep::Idle }
        } else {
            let step = self.resample_out(3);
            ReadResult { warm_up: false, samples: None, step }
        }
    }

    /// Ends the output session and drops everything that waits for playback.
    pub fn session_stop(&mut self)
        ensures
            final(self)@ == old(self)@.session_stop(),
    {
        self.session_active = false;
        self.raw_out.clear();
        self.decoded_out.clear();
        self.opus_out.clear();
        proof {
            assert(views_of(self.opus_out@) =~= Seq::<Seq<u8>>::empty());
        }
    }

    /// Starts an output session; its first read warms up.
    pub fn session_start(&mut self)
        ensures
            final(self)@ == old(self)@.session_start(),
    {
        self.warmed_up = false;
        self.session_active = true;
    }

    /// Restarts the output session: stops it, then starts it.
    pub fn restart_session(&mut self)
        ensures
            final(self)@ == old(self)@.restart_session(),
    {
        self.session_stop();
        self.session_start();
    }

    /// Does to the buffers what an action of the conversation worker asks.
    pub fn apply_action(&mut self, action: &ControllerAction)
        ensures
            final(self)@ == old(self)@.apply_action(action@),
    {
        match action {
            ControllerAction::RestartSession => self.restart_session(),
            _ => {},
        }
    }
}

} // verus!
