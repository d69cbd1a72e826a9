//! The framing layer: discrete op-coded messages over the contiguous byte
//! windows of a fixed-capacity ring transport.
//!
//! A frame occupies one window. Its first byte is the op-code: `OP_DATA`
//! marks a data frame whose remaining bytes are the payload; anything else is
//! a no-op padding frame that carries no message. When the window a transport
//! offers is too small for the payload plus its header byte, the sender fills
//! the whole window with a no-op frame and retries; a payload that cannot fit
//! the transport under any window is rejected once, against the fixed
//! capacity, instead of retrying forever.

use vstd::prelude::*;
use vstd::string::StringSliceAdditionalSpecFns;
use vstd::utf8::encode_utf8;
use vstd::utf8::valid_utf8;
use vstd::slice::{slice_subrange, slice_to_vec};

use crate::msg::ChannelError;
use crate::msg::QuickMsg;

verus! {

/// Op-code of a no-op padding frame, also used for the padding bytes.
pub const OP_NOOP: u8 = 0;

/// Op-code of a data frame.
pub const OP_DATA: u8 = 1;

/// The bytes of a data frame: the op-code, then the payload.
pub open spec fn data_frame(payload: Seq<u8>) -> Seq<u8> {
    seq![OP_DATA] + payload
}

/// The bytes of a no-op frame filling a whole window.
pub open spec fn noop_frame(window_len: nat) -> Seq<u8> {
    Seq::new(window_len, |i: int| OP_NOOP)
}

/// The message one window carries: the payload of a data frame, or none for
/// a no-op frame.
pub open spec fn frame_message(window: Seq<u8>) -> Option<Seq<u8>> {
    if window.len() >= 1 && window[0] == OP_DATA {
        Some(window.skip(1))
    } else {
        None
    }
}

/// The frames the sender writes for one payload when the transport offers
/// windows of the given lengths, in order: a no-op frame filling each window
/// too small for the data frame, then one data frame in the first window
/// that holds it.
pub open spec fn send_transcript(payload: Seq<u8>, windows: Seq<nat>) -> Seq<Seq<u8>>
    decreases windows.len(),
{
    if windows.len() == 0 {
        seq![]
    } else if payload.len() + 1 <= windows.first() {
        seq![data_frame(payload)]
    } else {
        seq![noop_frame(windows.first())] + send_transcript(payload, windows.drop_first())
    }
}

/// The payloads the receiver reports from a sequence of frames, in order;
/// no-op frames contribute nothing.
pub open spec fn received_messages(frames: Seq<Seq<u8>>) -> Seq<Seq<u8>>
    decreases frames.len(),
{
    if frames.len() == 0 {
        seq![]
    } else {
        match frame_message(frames.first()) {
            Some(p) => seq![p] + received_messages(frames.drop_first()),
            None => received_messages(frames.drop_first()),
        }
    }
}

/// Whether every frame of a sequence is a no-op frame.
pub open spec fn all_noop(frames: Seq<Seq<u8>>) -> bool {
    forall|i: int| 0 <= i < frames.len() ==> frame_message(#[trigger] frames[i]) is None
}

/// Round trip: a data frame carrying any payload decodes back to exactly
/// that payload.
pub proof fn lemma_frame_round_trip(payload: Seq<u8>)
    ensures
        frame_message(data_frame(payload)) == Some(payload),
{
    assert(data_frame(payload).skip(1) =~= payload);
}

/// No-op transparency: a no-op frame, whatever the window length, yields no
/// message, so none of its padding bytes reaches the caller.
pub proof fn lemma_noop_transparent(window_len: nat)
    ensures
        frame_message(noop_frame(window_len)) is None,
{
}

/// A single data frame delivers exactly its payload.
pub proof fn lemma_received_single_data(payload: Seq<u8>)
    ensures
        received_messages(seq![data_frame(payload)]) == seq![payload],
{
    let s = seq![data_frame(payload)];
    lemma_frame_round_trip(payload);
    assert(s.first() == data_frame(payload));
    assert(s.drop_first() =~= Seq::<Seq<u8>>::empty());
    assert(received_messages(s.drop_first()) == Seq::<Seq<u8>>::empty());
    assert(received_messages(s) == seq![payload] + received_messages(s.drop_first()));
    assert(seq![payload] + Seq::<Seq<u8>>::empty() =~= seq![payload]);
}

/// Round trip under backpressure: however many windows were too small, as
/// soon as the transport offers one that fits, the receiver gets exactly the
/// one payload that was sent.
pub proof fn lemma_send_round_trip(payload: Seq<u8>, windows: Seq<nat>)
    requires
        exists|i: int| 0 <= i < windows.len() && payload.len() + 1 <= windows[i],
    ensures
        received_messages(send_transcript(payload, windows)) == seq![payload],
    decreases windows.len(),
{
    let t = send_transcript(payload, windows);
    if payload.len() + 1 <= windows.first() {
        lemma_received_single_data(payload);
    } else {
        let i = choose|i: int| 0 <= i < windows.len() && payload.len() + 1 <= windows[i];
        assert(windows.drop_first()[i - 1] == windows[i]);
        lemma_send_round_trip(payload, windows.drop_first());
        lemma_noop_transparent(windows.first());
        let rest = send_transcript(payload, windows.drop_first());
        assert(t == seq![noop_frame(windows.first())] + rest);
        assert(t.first() == noop_frame(windows.first()));
        assert(t.drop_first() =~= rest);
    }
}

/// Splitting a frame sequence splits what is received, in order.
pub proof fn lemma_received_messages_concat(a: Seq<Seq<u8>>, b: Seq<Seq<u8>>)
    ensures
        received_messages(a + b) == received_messages(a) + received_messages(b),
    decreases a.len(),
{
    if a.len() == 0 {
        assert(a + b =~= b);
        assert(received_messages(a) + received_messages(b) =~= received_messages(b));
    } else {
        assert((a + b).first() == a.first());
        assert((a + b).drop_first() =~= a.drop_first() + b);
        lemma_received_messages_concat(a.drop_first(), b);
        match frame_message(a.first()) {
            Some(p) => {
                assert(seq![p] + (received_messages(a.drop_first()) + received_messages(b)) =~= (
                seq![p] + received_messages(a.drop_first())) + received_messages(b));
            },
            None => {},
        }
    }
}

/// A run of no-op frames delivers nothing at all.
pub proof fn lemma_noop_frames_silent(frames: Seq<Seq<u8>>)
    requires
        all_noop(frames),
    ensures
        received_messages(frames) == Seq::<Seq<u8>>::empty(),
    decreases frames.len(),
{
    if frames.len() > 0 {
        assert(frame_message(frames[0]) is None);
        lemma_noop_frames_silent(frames.drop_first());
    }
}

/// Ordering: two payloads sent in order, with any runs of no-op padding
/// frames before, between and after them, are received in that same order.
pub proof fn lemma_ordering(
    first: Seq<u8>,
    second: Seq<u8>,
    before: Seq<Seq<u8>>,
    between: Seq<Seq<u8>>,
    after: Seq<Seq<u8>>,
)
    requires
        all_noop(before),
        all_noop(between),
        all_noop(after),
    ensures
        received_messages(
            before + seq![data_frame(first)] + between + seq![data_frame(second)] + after,
        ) == seq![first, second],
{
    let d1 = seq![data_frame(first)];
    let d2 = seq![data_frame(second)];
    lemma_received_messages_concat(before + d1 + between + d2, after);
    lemma_received_messages_concat(before + d1 + between, d2);
    lemma_received_messages_concat(before + d1, between);
    lemma_received_messages_concat(before, d1);
    lemma_noop_frames_silent(before);
    lemma_noop_frames_silent(between);
    lemma_noop_frames_silent(after);
    lemma_received_single_data(first);
    lemma_received_single_data(second);
    assert(received_messages(
        before + seq![data_frame(first)] + between + seq![data_frame(second)] + after,
    ) =~= seq![first, second]);
}

/// What the sender hands the transport for one offered window: the frame
/// bytes to write, and whether they deliver the payload (`true`) or only pad
/// the window under backpressure (`false`).
#[derive(Debug)]
pub struct PreparedFrame {
    pub bytes: Vec<u8>,
    pub delivered: bool,
}

/// The sending half of the framing layer for one ring of fixed capacity.
pub struct FramingSender {
    pub capacity: u64,
}

impl FramingSender {
    pub fn new(capacity: u64) -> (s: Self)
        ensures
            s.capacity == capacity,
    {
        FramingSender { capacity }
    }

    /// Whether a payload can ever be delivered: its frame, one header byte
    /// longer, must fit the transport's fixed capacity.
    pub fn payload_fits(&self, payload: &[u8]) -> (fits: bool)
        ensures
            fits <==> payload@.len() + 1 <= self.capacity,
    {
        (payload.len() as u64) < self.capacity
    }

    /// The frame to write into one offered window.
    ///
    /// A payload whose frame exceeds the fixed capacity is rejected at once:
    /// no window will ever hold it. Otherwise the frame is a data frame when
    /// the window has room for it, and a no-op frame filling the whole window
    /// when it does not; the caller then retries with the next window.
    pub fn prepare_frame(&self, payload: &[u8], window_len: usize) -> (r: Result<
        PreparedFrame,
        ChannelError,
    >)
        ensures
            r is Ok <==> payload@.len() + 1 <= self.capacity,
            r is Err ==> r == Err::<PreparedFrame, ChannelError>(ChannelError::ResourceExhaustion),
            r matches Ok(f) ==> {
                &&& f.delivered <==> payload@.len() + 1 <= window_len
                &&& f.delivered ==> f.bytes@ == data_frame(payload@)
                &&& !f.delivered ==> f.bytes@ == noop_frame(window_len as nat)
            },
    {
        if !self.payload_fits(payload) {
            return Err(ChannelError::ResourceExhaustion);
        }
        if payload.len() < window_len {
            let mut bytes: Vec<u8> = Vec::new();
            bytes.push(OP_DATA);
            let mut i: usize = 0;
            while i < payload.len()
                invariant
                    i <= payload@.len(),
                    bytes@.len() == 1 + i,
                    bytes@ == seq![OP_DATA] + payload@.subrange(0, i as int),
                decreases payload@.len() - i,
            {
                bytes.push(payload[i]);
                assert(bytes@ =~= seq![OP_DATA] + payload@.subrange(0, i as int + 1));
                i += 1;
            }
            assert(payload@.subrange(0, payload@.len() as int) =~= payload@);
            assert(bytes@ == data_frame(payload@));
            Ok(PreparedFrame { bytes, delivered: true })
        } else {
            let mut bytes: Vec<u8> = Vec::new();
            let mut i: usize = 0;
            while i < window_len
                invariant
                    i <= window_len,
                    bytes@.len() == i,
                    forall|j: int| 0 <= j < i ==> bytes@[j] == OP_NOOP,
                decreases window_len - i,
            {
                bytes.push(OP_NOOP);
                i += 1;
            }
            assert(bytes@ =~= noop_frame(window_len as nat));
            Ok(PreparedFrame { bytes, delivered: false })
        }
    }
}

/// Whether a channel carries arbitrary bytes or text that must be valid
/// UTF-8.
#[derive(Debug, Clone, Copy, PartialEq, Eq, Structural)]
pub enum Discipline {
    Binary,
    Text,
}

/// The receiving half of the framing layer.
pub struct FramingReceiver {
    pub discipline: Discipline,
}

/// Relies on `core::str::from_utf8`: it returns `Ok` exactly when the bytes
/// are valid UTF-8, and the resulting string slice views those same bytes.
#[verifier::external_body]
fn parse_utf8(bytes: &[u8]) -> (r: Option<&str>)
    ensures
        r is Some <==> valid_utf8(bytes@),
        r matches Some(s) ==> s.spec_bytes() == bytes@,
{
    core::str::from_utf8(bytes).ok()
}

impl FramingReceiver {
    pub fn new(discipline: Discipline) -> (r: Self)
        ensures
            r.discipline == discipline,
    {
        FramingReceiver { discipline }
    }

    /// Decode one window, consumed in full whatever its op-code.
    ///
    /// A no-op frame yields `NoOp`: no message, and none of its padding
    /// bytes. A data frame yields its payload, as raw bytes on a binary
    /// channel; on a text channel the payload must be valid UTF-8, and
    /// anything else is a protocol violation.
    pub fn decode_frame(&self, window: &[u8]) -> (r: Result<QuickMsg, ChannelError>)
        requires
            window@.len() >= 1,
        ensures
            frame_message(window@) is None ==> (r matches Ok(m) && m is NoOp),
            frame_message(window@) matches Some(p) ==> {
                &&& self.discipline is Binary ==> (r matches Ok(m) && (m matches
                QuickMsg::Binary(b) && b@ == p))
                &&& self.discipline is Text ==> {
                    &&& r is Ok <==> valid_utf8(p)
                    &&& r matches Ok(m) ==> (m matches QuickMsg::String(s) && encode_utf8(s@) == p)
                    &&& r is Err ==> r == Err::<QuickMsg, ChannelError>(
                        ChannelError::ProtocolViolation,
                    )
                }
            },
    {
        if window[0] != OP_DATA {
            return Ok(QuickMsg::NoOp);
        }
        let payload = slice_subrange(window, 1, window.len());
        assert(payload@ == window@.skip(1));
        match self.discipline {
            Discipline::Binary => Ok(QuickMsg::Binary(slice_to_vec(payload))),
            Discipline::Text => match parse_utf8(payload) {
                Some(text) => Ok(QuickMsg::String(text.to_owned())),
                None => Err(ChannelError::ProtocolViolation),
            },
        }
    }
}

} // verus!
