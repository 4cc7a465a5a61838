//! The message model: classification of raw MIDI bytes, re-encoding, and
//! channel arithmetic.

use vstd::prelude::*;
use vstd::slice::slice_to_vec;

verus! {

/// The four kinds a MIDI message is classified into.
#[derive(Clone, Copy, Debug, PartialEq, Eq, Structural)]
pub enum Kind {
    /// Three-byte channel voice message.
    Channel,
    /// Two-byte channel voice message, such as a program change.
    ChannelSmall,
    /// System common message of any length.
    SystemCommon,
    /// One-byte system realtime message.
    SystemRealtime,
}

/// Mathematical model of a message payload: its kind and its bytes on the wire.
pub struct Payload {
    pub kind: Kind,
    pub bytes: Seq<u8>,
}

/// Mathematical model of a timestamped message.
pub struct Message {
    pub ts: u64,
    pub data: Payload,
}

/// Status bytes below this value start a channel voice message.
pub const SYSTEM_COMMON_START: u8 = 0xf0;

/// Status bytes from this value on are system realtime messages.
pub const SYSTEM_REALTIME_START: u8 = 0xf8;

/// The status byte `status` moved to the wire channel `channel - 1`.
pub open spec fn rechannel(status: u8, channel: u8) -> u8 {
    (status & 0xf0) | ((channel - 1) as u8)
}

/// The human-visible channel (1 to 16) that a channel status byte carries.
pub open spec fn status_channel(status: u8) -> u8 {
    ((status & 0x0f) + 1) as u8
}

impl Payload {
    /// Whether the payload is a channel voice message.
    pub open spec fn is_channel(self) -> bool {
        self.kind == Kind::Channel || self.kind == Kind::ChannelSmall
    }

    /// The channel of a channel voice message, `None` for the other kinds.
    pub open spec fn channel(self) -> Option<u8> {
        if self.is_channel() {
            Some(status_channel(self.bytes[0]))
        } else {
            None
        }
    }

    /// The payload moved to `channel`; other kinds are left as they are.
    pub open spec fn with_channel(self, channel: u8) -> Payload {
        if self.is_channel() {
            Payload {
                kind: self.kind,
                bytes: self.bytes.update(0, rechannel(self.bytes[0], channel)),
            }
        } else {
            self
        }
    }

    /// Whether the bytes have the length and status byte that the kind calls for.
    pub open spec fn well_formed(self) -> bool {
        match self.kind {
            Kind::Channel => self.bytes.len() == 3 && self.bytes[0] < SYSTEM_COMMON_START,
            Kind::ChannelSmall => self.bytes.len() == 2 && self.bytes[0] < SYSTEM_COMMON_START,
            Kind::SystemCommon => self.bytes.len() >= 1 && SYSTEM_COMMON_START <= self.bytes[0]
                < SYSTEM_REALTIME_START,
            Kind::SystemRealtime => self.bytes.len() == 1 && self.bytes[0]
                >= SYSTEM_REALTIME_START,
        }
    }
}

impl Message {
    /// The channel of a channel voice message, `None` for the other kinds.
    pub open spec fn channel(self) -> Option<u8> {
        self.data.channel()
    }

    /// The message moved to `channel`, with its timestamp kept.
    pub open spec fn with_channel(self, channel: u8) -> Message {
        Message { ts: self.ts, data: self.data.with_channel(channel) }
    }

    /// The bytes that encode the message.
    pub open spec fn bytes(self) -> Seq<u8> {
        self.data.bytes
    }
}

/// What classification makes of a non-empty byte sequence: the first byte
/// selects the kind, and a channel message of a length other than 2 or 3 is
/// rejected.
pub open spec fn classify(ts: u64, bytes: Seq<u8>) -> Option<Message>
    recommends
        bytes.len() > 0,
{
    if bytes[0] < SYSTEM_COMMON_START {
        if bytes.len() == 3 {
            Some(Message { ts, data: Payload { kind: Kind::Channel, bytes } })
        } else if bytes.len() == 2 {
            Some(Message { ts, data: Payload { kind: Kind::ChannelSmall, bytes } })
        } else {
            None
        }
    } else if bytes[0] < SYSTEM_REALTIME_START {
        Some(Message { ts, data: Payload { kind: Kind::SystemCommon, bytes } })
    } else {
        Some(Message { ts, data: Payload { kind: Kind::SystemRealtime, bytes: seq![bytes[0]] } })
    }
}

/// The models of a batch of messages, in order.
pub open spec fn models(batch: Seq<MidiMessage>) -> Seq<Message> {
    batch.map_values(|m: MidiMessage| m@)
}

/// The messages of a batch that are on `channel`, in order. Messages
/// without a channel are not among them.
pub open spec fn keep_channel(batch: Seq<Message>, channel: u8) -> Seq<Message> {
    batch.filter(|m: Message| m.channel() == Some(channel))
}

/// The messages of a batch, each moved to `channel`.
pub open spec fn move_to_channel(batch: Seq<Message>, channel: u8) -> Seq<Message> {
    batch.map_values(|m: Message| m.with_channel(channel))
}

/// The encodings of the messages of a batch, in order.
pub open spec fn encode_all(batch: Seq<Message>) -> Seq<Seq<u8>> {
    batch.map_values(|m: Message| m.bytes())
}

/// A classified MIDI payload.
#[derive(Debug)]
pub enum MidiMessageKind {
    /// Three-byte channel voice message.
    Channel([u8; 3]),
    /// Two-byte channel voice message.
    ChannelSmall([u8; 2]),
    /// System common message, kept as received.
    SystemCommon(Vec<u8>),
    /// System realtime message.
    SystemRealtime(u8),
}

/// A timestamped, classified MIDI message.
#[derive(Debug)]
pub struct MidiMessage {
    ts: u64,
    data: MidiMessageKind,
}

impl View for MidiMessageKind {
    type V = Payload;

    open spec fn view(&self) -> Payload {
        match self {
            MidiMessageKind::Channel(b) => Payload { kind: Kind::Channel, bytes: b@ },
            MidiMessageKind::ChannelSmall(b) => Payload { kind: Kind::ChannelSmall, bytes: b@ },
            MidiMessageKind::SystemCommon(v) => Payload { kind: Kind::SystemCommon, bytes: v@ },
            MidiMessageKind::SystemRealtime(b) => Payload {
                kind: Kind::SystemRealtime,
                bytes: seq![*b],
            },
        }
    }
}

impl View for MidiMessage {
    type V = Message;

    closed spec fn view(&self) -> Message {
        Message { ts: self.ts, data: self.data@ }
    }
}

impl Clone for MidiMessageKind {
    fn clone(&self) -> (res: Self)
        ensures
            res@ == self@,
    {
        match self {
            MidiMessageKind::Channel(b) => MidiMessageKind::Channel(*b),
            MidiMessageKind::ChannelSmall(b) => MidiMessageKind::ChannelSmall(*b),
            MidiMessageKind::SystemCommon(v) => MidiMessageKind::SystemCommon(v.clone()),
            MidiMessageKind::SystemRealtime(b) => MidiMessageKind::SystemRealtime(*b),
        }
    }
}

impl Clone for MidiMessage {
    fn clone(&self) -> (res: Self)
        ensures
            res@ == self@,
    {
        MidiMessage { ts: self.ts, data: self.data.clone() }
    }
}

impl MidiMessageKind {
    /// Moves a channel voice payload to `channel` (1 to 16): the low nibble of
    /// the status byte becomes `channel - 1`. Other kinds come back unchanged.
    pub fn with_channel(self, channel: u8) -> (res: MidiMessageKind)
        requires
            1 <= channel <= 16,
        ensures
            res@ == self@.with_channel(channel),
    {
        match self {
            MidiMessageKind::Channel(b) => {
                let c_actual: u8 = channel - 1;
                let status: u8 = (b[0] & 0xf0) | c_actual;
                let res = MidiMessageKind::Channel([status, b[1], b[2]]);
                assert(res@.bytes =~= self@.with_channel(channel).bytes);
                res
            },
            MidiMessageKind::ChannelSmall(b) => {
                let c_actual: u8 = channel - 1;
                let status: u8 = (b[0] & 0xf0) | c_actual;
                let res = MidiMessageKind::ChannelSmall([status, b[1]]);
                assert(res@.bytes =~= self@.with_channel(channel).bytes);
                res
            },
            other => other,
        }
    }
}

impl MidiMessage {
    /// Classifies the raw bytes of one message received at `ts`.
    ///
    /// A first byte below `0xf0` makes a channel voice message, which must be
    /// 2 or 3 bytes long and is rejected otherwise; from `0xf0` up to `0xf7`
    /// the bytes are kept whole as a system common message; from `0xf8` on
    /// the first byte alone is a system realtime message.
    pub fn from_slice(ts: u64, bytes: &[u8]) -> (res: Option<MidiMessage>)
        requires
            bytes@.len() > 0,
        ensures
            match res {
                Some(m) => classify(ts, bytes@) == Some(m@),
                None => classify(ts, bytes@) is None,
            },
            res matches Some(m) ==> m@.data.well_formed(),
    {
        if bytes[0] < SYSTEM_COMMON_START {
            if bytes.len() == 3 {
                let array: [u8; 3] = [bytes[0], bytes[1], bytes[2]];
                assert(array@ =~= bytes@);
                Some(MidiMessage { ts, data: MidiMessageKind::Channel(array) })
            } else if bytes.len() == 2 {
                let array: [u8; 2] = [bytes[0], bytes[1]];
                assert(array@ =~= bytes@);
                Some(MidiMessage { ts, data: MidiMessageKind::ChannelSmall(array) })
            } else {
                None
            }
        } else if bytes[0] < SYSTEM_REALTIME_START {
            let v = slice_to_vec(bytes);
            Some(MidiMessage { ts, data: MidiMessageKind::SystemCommon(v) })
        } else {
            Some(MidiMessage { ts, data: MidiMessageKind::SystemRealtime(bytes[0]) })
        }
    }

    /// Encodes the message into the bytes it goes over the wire as.
    pub fn to_bytes(&self) -> (res: Vec<u8>)
        ensures
            res@ == self@.bytes(),
    {
        let mut ret: Vec<u8> = Vec::new();
        match &self.data {
            MidiMessageKind::SystemCommon(v) => {
                ret = v.clone();
            },
            MidiMessageKind::Channel(b) => {
                ret.push(b[0]);
                ret.push(b[1]);
                ret.push(b[2]);
            },
            MidiMessageKind::ChannelSmall(b) => {
                ret.push(b[0]);
                ret.push(b[1]);
            },
            MidiMessageKind::SystemRealtime(b) => {
                ret.push(*b);
            },
        }
        assert(ret@ =~= self@.bytes());
        ret
    }

    /// The time the message was received at.
    pub fn timestamp(&self) -> (res: u64)
        ensures
            res == self@.ts,
    {
        self.ts
    }

    /// The channel of a channel voice message, counted from 1 as musicians
    /// do; `None` for the other kinds.
    pub fn channel(&self) -> (res: Option<u8>)
        ensures
            res == self@.channel(),
            res matches Some(c) ==> 1 <= c <= 16,
    {
        match &self.data {
            MidiMessageKind::Channel(b) => Some(channel_of_status(b[0])),
            MidiMessageKind::ChannelSmall(b) => Some(channel_of_status(b[0])),
            _ => None,
        }
    }

    /// The message moved to `channel` (1 to 16). Messages that are not
    /// channel voice messages come back unchanged.
    pub fn with_channel(&self, channel: u8) -> (res: MidiMessage)
        requires
            1 <= channel <= 16,
        ensures
            res@ == self@.with_channel(channel),
            self@.data.is_channel() ==> res@.channel() == Some(channel),
            !self@.data.is_channel() ==> res@ == self@,
    {
        proof {
            if self@.data.is_channel() {
                lemma_with_channel_sets_channel(self@, channel);
            }
        }
        let ret = self.clone();
        MidiMessage { ts: ret.ts, data: ret.data.with_channel(channel) }
    }
}

/// Reads the channel, counted from 1, out of a channel status byte.
fn channel_of_status(status: u8) -> (res: u8)
    ensures
        res == status_channel(status),
        1 <= res <= 16,
{
    let low: u8 = status & 0x0f;
    assert(low <= 15) by (bit_vector)
        requires
            low == status & 0x0f,
    ;
    low + 1
}

/// The models of a batch grow with the batch.
pub proof fn lemma_models_push(batch: Seq<MidiMessage>, m: MidiMessage)
    ensures
        models(batch.push(m)) == models(batch).push(m@),
{
    assert(models(batch.push(m)) =~= models(batch).push(m@));
}

/// The models of the first `i` messages are the first `i` models.
pub proof fn lemma_models_take(batch: Seq<MidiMessage>, i: int)
    requires
        0 <= i <= batch.len(),
    ensures
        models(batch.take(i)) == models(batch).take(i),
{
    assert(models(batch.take(i)) =~= models(batch).take(i));
}

/// Filtering one message more keeps it exactly if it is on the channel.
pub proof fn lemma_keep_channel_step(batch: Seq<Message>, channel: u8, i: int)
    requires
        0 <= i < batch.len(),
    ensures
        keep_channel(batch.take(i + 1), channel) == if batch[i].channel() == Some(channel) {
            keep_channel(batch.take(i), channel).push(batch[i])
        } else {
            keep_channel(batch.take(i), channel)
        },
        keep_channel(batch.take(0), channel) == Seq::<Message>::empty(),
{
    reveal(Seq::filter);
    assert(batch.take(i + 1).drop_last() =~= batch.take(i));
    assert(batch.take(0) =~= Seq::<Message>::empty());
}

/// Encoding undoes classification: whenever a byte sequence is accepted, the
/// accepted message encodes to that same sequence. A realtime status byte
/// stands alone, so a sequence that starts with one has no further bytes.
pub proof fn lemma_encode_inverts_classify(ts: u64, bytes: Seq<u8>)
    requires
        bytes.len() > 0,
        bytes[0] >= SYSTEM_REALTIME_START ==> bytes.len() == 1,
    ensures
        classify(ts, bytes) matches Some(m) ==> m.bytes() == bytes && m.ts == ts,
{
    if bytes[0] >= SYSTEM_REALTIME_START {
        assert(seq![bytes[0]] =~= bytes);
    }
}

/// Classification rejects exactly the channel voice messages whose length
/// is neither 2 nor 3, and what it accepts is well formed for its kind.
pub proof fn lemma_classify_rejects_only_odd_channel_lengths(ts: u64, bytes: Seq<u8>)
    requires
        bytes.len() > 0,
    ensures
        classify(ts, bytes) is None <==> bytes[0] < SYSTEM_COMMON_START && bytes.len() != 2
            && bytes.len() != 3,
        classify(ts, bytes) matches Some(m) ==> m.data.well_formed(),
{
}

/// A channel status byte whose low nibble is `n` reports channel `n + 1`,
/// which lies between 1 and 16.
pub proof fn lemma_channel_is_low_nibble_plus_one(p: Payload, n: u8)
    requires
        p.is_channel(),
        p.bytes[0] & 0x0f == n,
    ensures
        p.channel() == Some((n + 1) as u8),
        n <= 15,
{
    let status = p.bytes[0];
    assert(status & 0x0f <= 15) by (bit_vector);
}

/// Moving a channel voice message to a channel between 1 and 16 makes it
/// report exactly that channel, and keeps its kind, length and data bytes.
pub proof fn lemma_with_channel_sets_channel(m: Message, channel: u8)
    requires
        m.data.is_channel(),
        m.data.bytes.len() > 0,
        1 <= channel <= 16,
    ensures
        m.with_channel(channel).channel() == Some(channel),
        m.with_channel(channel).ts == m.ts,
        m.with_channel(channel).data.kind == m.data.kind,
        m.with_channel(channel).data.bytes.len() == m.data.bytes.len(),
        forall|i: int|
            1 <= i < m.data.bytes.len() ==> m.with_channel(channel).data.bytes[i]
                == m.data.bytes[i],
{
    let status = m.data.bytes[0];
    let wire: u8 = (channel - 1) as u8;
    assert((((status & 0xf0) | wire) & 0x0f) == wire) by (bit_vector)
        requires
            wire <= 15,
    ;
}

/// Moving a message that is not a channel voice message changes nothing.
pub proof fn lemma_with_channel_skips_other_kinds(m: Message, channel: u8)
    requires
        !m.data.is_channel(),
    ensures
        m.with_channel(channel) == m,
        m.with_channel(channel).channel() is None,
{
}

/// Moving a message keeps it well formed: the status byte of a channel
/// voice message stays below the system range.
pub proof fn lemma_with_channel_keeps_well_formed(m: Message, channel: u8)
    requires
        m.data.well_formed(),
        1 <= channel <= 16,
    ensures
        m.with_channel(channel).data.well_formed(),
{
    if m.data.is_channel() {
        let status = m.data.bytes[0];
        let wire: u8 = (channel - 1) as u8;
        assert(((status & 0xf0) | wire) < 0xf0) by (bit_vector)
            requires
                wire <= 15,
                status < 0xf0,
        ;
    }
}

} // verus!
