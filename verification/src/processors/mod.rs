//! The nodes of the routing graph: what every node can be asked, the
//! mathematical model the graph reasons with, and the closed set of kinds.

pub mod channelfilter;
pub mod channelmerge;
pub mod connection;
pub mod dummyplayer;

use crate::consts::{channelfilter_cmd_words, CHANNELFILTER_CMDS, IDX_CHANNEL};
use crate::message::{
    classify, encode_all, keep_channel, models, move_to_channel, Kind, Message, MidiMessage,
    Payload,
};
use crate::processors::channelfilter::ChannelFilter;
use crate::processors::channelmerge::ChannelMerge;
use crate::processors::connection::{MidiIn, MidiOut};
use crate::processors::dummyplayer::DummyPlayer;
use crate::text::{parse_unsigned, parse_unsigned_spec};
use crate::utils::{
    keyword_match, push_if_not_present, shortened_keyword_match, texts, Id, MMMErr,
};
use vstd::pervasive::unreached;
use vstd::slice::slice_subrange;
use vstd::prelude::*;
use vstd::std_specs::cmp::PartialEqSpec;

verus! {

/// The kinds of node that the graph knows.
#[derive(Clone, Copy, Debug, PartialEq, Eq, Structural)]
pub enum NodeKind {
    /// Messages arriving from a hardware or virtual input port.
    Input,
    /// Messages leaving through a virtual output port.
    Output,
    /// Passes on the messages of one channel only.
    ChannelFilter,
    /// Moves every message to one channel.
    ChannelMerge,
    /// Emits one note a second, to try a routing without hardware.
    DummyPlayer,
}

/// What came of configuring a node.
#[derive(Clone, Copy, Debug, PartialEq, Eq, Structural)]
pub enum CfgReply {
    /// The node has nothing to configure.
    NotApplicable,
    /// No sub-command was given: the node is on this channel.
    Channel(u8),
    /// The node was moved to this channel.
    ChannelChanged(u8),
    /// The sub-command needs a channel number and got none.
    ChannelRequired,
    /// The channel number is not a number.
    ChannelUnparsed,
    /// The channel number is not between 1 and 16.
    ChannelOutOfRange,
    /// The sub-command is not one the node knows.
    UnknownCommand,
}

/// Mathematical model of a node. A field that a kind has no use for holds
/// its empty value.
pub struct Node {
    pub kind: NodeKind,
    /// The configured name.
    pub name: Seq<char>,
    /// Name of the port behind an input.
    pub port_name: Seq<char>,
    /// The channel of a filter, a merge or a dummy player.
    pub channel: u8,
    /// Identifiers that messages read from this node are forwarded to.
    pub outputs: Seq<Id>,
    /// Messages buffered until the next read.
    pub pending: Seq<Message>,
    /// Encoded messages of an output that wait for the transport.
    pub outbox: Seq<Seq<u8>>,
    /// The second in which a dummy player last emitted its note.
    pub last_msg: u64,
}

/// Key and velocity of the note a dummy player emits.
pub const DUMMY_NOTE: u8 = 0x40;

/// The note-on message that a dummy player on `channel` emits.
pub open spec fn dummy_note(channel: u8) -> Message {
    Message {
        ts: 0,
        data: Payload {
            kind: Kind::Channel,
            bytes: seq![0x90u8 | ((channel - 1) as u8), DUMMY_NOTE, DUMMY_NOTE],
        },
    }
}

/// The outputs of a node after `id` has been added: nothing is listed twice.
pub open spec fn with_output(outputs: Seq<Id>, id: Id) -> Seq<Id> {
    if outputs.contains(id) {
        outputs
    } else {
        outputs.push(id)
    }
}

impl Node {
    /// Whether messages can be read from the node.
    pub open spec fn readable(self) -> bool {
        self.kind != NodeKind::Output
    }

    /// Whether messages can be written to the node.
    pub open spec fn writable(self) -> bool {
        self.kind == NodeKind::Output || self.kind == NodeKind::ChannelFilter || self.kind
            == NodeKind::ChannelMerge
    }

    /// Whether the node works on one channel.
    pub open spec fn has_channel(self) -> bool {
        self.kind == NodeKind::ChannelFilter || self.kind == NodeKind::ChannelMerge || self.kind
            == NodeKind::DummyPlayer
    }

    /// Whether the node takes configuration commands.
    pub open spec fn configurable(self) -> bool {
        self.kind == NodeKind::ChannelFilter || self.kind == NodeKind::DummyPlayer
    }

    /// Whether the node buffers messages between a write, or an arrival, and
    /// the next read.
    pub open spec fn buffers(self) -> bool {
        self.kind == NodeKind::Input || self.kind == NodeKind::ChannelFilter || self.kind
            == NodeKind::ChannelMerge
    }

    /// The invariant of every node: no output is listed twice, a channel is
    /// between 1 and 16, and the fields the kind has no use for are empty.
    pub open spec fn wf(self) -> bool {
        &&& self.outputs.no_duplicates()
        &&& self.has_channel() ==> 1 <= self.channel <= 16
        &&& !self.has_channel() ==> self.channel == 0
        &&& !self.readable() ==> self.outputs.len() == 0
        &&& !self.buffers() ==> self.pending.len() == 0
        &&& self.kind != NodeKind::Output ==> self.outbox.len() == 0
        &&& self.kind != NodeKind::Input ==> self.port_name.len() == 0
        &&& self.kind != NodeKind::DummyPlayer ==> self.last_msg == 0
    }

    /// A node of `kind` as it is right after its creation.
    pub open spec fn fresh(
        kind: NodeKind,
        name: Seq<char>,
        port_name: Seq<char>,
        channel: u8,
        last_msg: u64,
    ) -> Node {
        Node {
            kind,
            name,
            port_name,
            channel,
            outputs: Seq::empty(),
            pending: Seq::empty(),
            outbox: Seq::empty(),
            last_msg,
        }
    }

    /// The name shown to the operator: the configured name, the port in
    /// front of it for an input, and the kind behind it.
    pub open spec fn display_name(self) -> Seq<char> {
        match self.kind {
            NodeKind::Input => self.port_name + " -> "@ + self.name + " (input)"@,
            NodeKind::Output => self.name + " (output)"@,
            NodeKind::ChannelFilter => self.name + " (channelfilter)"@,
            NodeKind::ChannelMerge => self.name + " (channelmerge)"@,
            NodeKind::DummyPlayer => self.name + " (dummyplayer)"@,
        }
    }

    /// The node under a new name.
    pub open spec fn renamed(self, name: Seq<char>) -> Node {
        Node { name, ..self }
    }

    /// The node with `id` among its outputs.
    pub open spec fn connected(self, id: Id) -> Node {
        Node { outputs: with_output(self.outputs, id), ..self }
    }

    /// The node without `id` among its outputs.
    pub open spec fn disconnected(self, id: Id) -> Node {
        Node { outputs: self.outputs.remove_value(id), ..self }
    }

    /// The node on another channel.
    pub open spec fn on_channel(self, channel: u8) -> Node {
        Node { channel, ..self }
    }

    /// What the node makes of a batch written to it: a filter keeps the
    /// messages on its channel, a merge moves every message to its channel.
    pub open spec fn accepted(self, batch: Seq<Message>) -> Seq<Message> {
        match self.kind {
            NodeKind::ChannelFilter => keep_channel(batch, self.channel),
            NodeKind::ChannelMerge => move_to_channel(batch, self.channel),
            _ => Seq::empty(),
        }
    }

    /// The node after a batch was written to it. A filter and a merge
    /// buffer what they accept; an output encodes every message for the
    /// transport.
    pub open spec fn after_write(self, batch: Seq<Message>) -> Node {
        match self.kind {
            NodeKind::Output => Node { outbox: self.outbox + encode_all(batch), ..self },
            _ => Node { pending: self.pending + self.accepted(batch), ..self },
        }
    }

    /// The node after a message arrived at it from its port.
    pub open spec fn after_arrival(self, message: Message) -> Node {
        Node { pending: self.pending.push(message), ..self }
    }

    /// The node after the raw event `bytes` came from the transport at
    /// `ts`: an input buffers what classification accepts.
    pub open spec fn after_event(self, ts: u64, bytes: Seq<u8>) -> Node {
        if self.kind == NodeKind::Input {
            match classify(ts, bytes) {
                Some(m) => self.after_arrival(m),
                None => self,
            }
        } else {
            self
        }
    }

    /// What a read at the second `now` returns: everything buffered, or for
    /// a dummy player its note if a whole second has passed since the last.
    pub open spec fn read_batch(self, now: u64) -> Seq<Message> {
        match self.kind {
            NodeKind::DummyPlayer => if now > self.last_msg {
                seq![dummy_note(self.channel)]
            } else {
                Seq::empty()
            },
            _ => self.pending,
        }
    }

    /// The node after a read at the second `now`: its buffer is empty.
    pub open spec fn after_read(self, now: u64) -> Node {
        match self.kind {
            NodeKind::DummyPlayer => Node {
                last_msg: if now > self.last_msg {
                    now
                } else {
                    self.last_msg
                },
                ..self
            },
            _ => Node { pending: Seq::empty(), ..self },
        }
    }

    /// What configuring the node with `command` answers. A configurable
    /// node reports its channel when asked nothing, and takes the
    /// sub-command `channel` with the new channel behind it.
    pub open spec fn cfg_reply(self, command: Seq<Seq<char>>) -> CfgReply {
        if !self.configurable() {
            CfgReply::NotApplicable
        } else if command.len() == 0 {
            CfgReply::Channel(self.channel)
        } else if keyword_match(command[0], channelfilter_cmd_words()) == Some(
            IDX_CHANNEL as int,
        ) {
            channel_change(command.skip(1))
        } else {
            CfgReply::UnknownCommand
        }
    }

    /// The node after it was configured with `command`: on the new channel
    /// where the command changed it, as before otherwise.
    pub open spec fn configured(self, command: Seq<Seq<char>>) -> Node {
        match self.cfg_reply(command) {
            CfgReply::ChannelChanged(c) => self.on_channel(c),
            _ => self,
        }
    }

    /// The node after the transport took what waited in its outbox.
    pub open spec fn after_flush(self) -> Node {
        Node { outbox: Seq::empty(), ..self }
    }
}

/// The byte sequences of a list of encoded messages.
pub open spec fn payloads(encoded: Seq<Vec<u8>>) -> Seq<Seq<u8>> {
    encoded.map_values(|v: Vec<u8>| v@)
}

/// What the arguments of a channel node ask for: exactly one argument, a
/// number, between 1 and 16.
pub open spec fn channel_arg(args: Seq<Seq<char>>) -> Result<u8, MMMErr> {
    if args.len() != 1 {
        Err(MMMErr::ArgError)
    } else {
        match parse_unsigned_spec(args[0], u8::MAX as nat) {
            None => Err(MMMErr::ParseError),
            Some(c) => if 1 <= c <= 16 {
                Ok(c as u8)
            } else {
                Err(MMMErr::ArgError)
            },
        }
    }
}

/// Reads the channel that the arguments of a channel node ask for.
pub fn parse_channel(args: &[String]) -> (res: Result<u8, MMMErr>)
    ensures
        res == channel_arg(texts(args@)),
        res matches Ok(c) ==> 1 <= c <= 16,
{
    if args.len() != 1 {
        Err(MMMErr::ArgError)
    } else {
        assert(texts(args@)[0] == args@[0]@);
        match parse_unsigned(args[0].as_str(), u8::MAX as u64) {
            None => Err(MMMErr::ParseError),
            Some(c) => {
                if 1 <= c && c <= 16 {
                    Ok(c as u8)
                } else {
                    Err(MMMErr::ArgError)
                }
            },
        }
    }
}

/// What a request to change the channel comes to: the first argument is
/// the new channel.
pub open spec fn channel_change(args: Seq<Seq<char>>) -> CfgReply {
    if args.len() == 0 {
        CfgReply::ChannelRequired
    } else {
        match parse_unsigned_spec(args[0], u8::MAX as nat) {
            None => CfgReply::ChannelUnparsed,
            Some(c) => if 1 <= c <= 16 {
                CfgReply::ChannelChanged(c as u8)
            } else {
                CfgReply::ChannelOutOfRange
            },
        }
    }
}

/// Decides what a request to change the channel comes to.
pub fn parse_channel_change(args: &[String]) -> (res: CfgReply)
    ensures
        res == channel_change(texts(args@)),
        res matches CfgReply::ChannelChanged(c) ==> 1 <= c <= 16,
{
    if args.len() == 0 {
        CfgReply::ChannelRequired
    } else {
        assert(texts(args@)[0] == args@[0]@);
        match parse_unsigned(args[0].as_str(), u8::MAX as u64) {
            None => CfgReply::ChannelUnparsed,
            Some(c) => {
                if 1 <= c && c <= 16 {
                    CfgReply::ChannelChanged(c as u8)
                } else {
                    CfgReply::ChannelOutOfRange
                }
            },
        }
    }
}

/// Decides what configuring a node on `channel` with `command` answers.
pub fn channel_cfg(channel: u8, command: &[String]) -> (res: CfgReply)
    ensures
        command@.len() == 0 ==> res == CfgReply::Channel(channel),
        command@.len() > 0 ==> res == if keyword_match(
            texts(command@)[0],
            channelfilter_cmd_words(),
        ) == Some(IDX_CHANNEL as int) {
            channel_change(texts(command@).skip(1))
        } else {
            CfgReply::UnknownCommand
        },
        res matches CfgReply::ChannelChanged(c) ==> 1 <= c <= 16,
{
    if command.len() == 0 {
        CfgReply::Channel(channel)
    } else {
        assert(texts(command@)[0] == command@[0]@);
        match shortened_keyword_match(command[0].as_str(), CHANNELFILTER_CMDS.as_slice()) {
            Some(idx) => {
                if idx == IDX_CHANNEL {
                    let rest = slice_subrange(command, 1, command.len());
                    assert(texts(rest@) =~= texts(command@).skip(1));
                    parse_channel_change(rest)
                } else {
                    CfgReply::UnknownCommand
                }
            },
            None => CfgReply::UnknownCommand,
        }
    }
}

/// Adds `id` to a list of outputs unless it is there.
pub fn add_to_outputs(outputs: &mut Vec<Id>, id: Id)
    ensures
        final(outputs)@ == with_output(old(outputs)@, id),
        old(outputs)@.no_duplicates() ==> final(outputs)@.no_duplicates(),
{
    push_if_not_present(id, outputs);
    proof {
        let before = old(outputs)@;
        if before.contains(id) {
            let i = choose|i: int| 0 <= i < before.len() && before[i] == id;
            assert(before[i].eq_spec(&id));
        }
    }
}

/// Takes `id` out of a list of outputs if it is there.
pub fn remove_from_outputs(outputs: &mut Vec<Id>, id: Id)
    ensures
        final(outputs)@ == old(outputs)@.remove_value(id),
        old(outputs)@.no_duplicates() ==> final(outputs)@.no_duplicates(),
        old(outputs)@.no_duplicates() ==> !final(outputs)@.contains(id),
{
    let mut i: usize = 0;
    while i < outputs.len()
        invariant
            outputs@ == old(outputs)@,
            i <= outputs@.len(),
            forall|j: int| 0 <= j < i ==> outputs@[j] != id,
        decreases outputs@.len() - i,
    {
        if outputs[i] == id {
            outputs.remove(i);
            proof {
                let before = old(outputs)@;
                let after = before.remove(i as int);
                before.index_of_first_ensures(id);
                let first = before.index_of_first(id).unwrap();
                assert(first == i) by {
                    if first < i {
                        assert(before[first] != id);
                    }
                }
                if before.no_duplicates() {
                    assert forall|a: int, b: int|
                        0 <= a < after.len() && 0 <= b < after.len() && a != b implies after[a]
                        != after[b] by {
                        let a0 = if a < i { a } else { a + 1 };
                        let b0 = if b < i { b } else { b + 1 };
                        assert(before[a0] != before[b0]);
                    }
                    assert forall|a: int| 0 <= a < after.len() implies after[a] != id by {
                        let a0 = if a < i { a } else { a + 1 };
                        assert(before[a0] != before[i as int]);
                    }
                }
            }
            return ;
        }
        i += 1;
    }
    proof {
        old(outputs)@.index_of_first_ensures(id);
    }
}


/// A participant of the routing graph, of one of the kinds that the graph
/// knows. Every node has a name; what else it can do depends on its kind
/// and is asked with `can_read` and `can_write` before it is called for.
pub enum MidiIO {
    Input(MidiIn),
    Output(MidiOut),
    ChannelFilter(ChannelFilter),
    ChannelMerge(ChannelMerge),
    DummyPlayer(DummyPlayer),
}

impl MidiIO {
    /// The model of the node.
    pub open spec fn model(&self) -> Node {
        match self {
            MidiIO::Input(n) => n.model(),
            MidiIO::Output(n) => n.model(),
            MidiIO::ChannelFilter(n) => n.model(),
            MidiIO::ChannelMerge(n) => n.model(),
            MidiIO::DummyPlayer(n) => n.model(),
        }
    }

    /// The invariant of the node: that of its kind.
    pub open spec fn wf(&self) -> bool {
        match self {
            MidiIO::Input(n) => n.wf(),
            MidiIO::Output(n) => n.wf(),
            MidiIO::ChannelFilter(n) => n.wf(),
            MidiIO::ChannelMerge(n) => n.wf(),
            MidiIO::DummyPlayer(n) => n.wf(),
        }
    }

    /// The kind of the node.
    pub fn kind(&self) -> (res: NodeKind)
        requires
            self.wf(),
        ensures
            res == self.model().kind,
    {
        match self {
            MidiIO::Input(_) => NodeKind::Input,
            MidiIO::Output(_) => NodeKind::Output,
            MidiIO::ChannelFilter(_) => NodeKind::ChannelFilter,
            MidiIO::ChannelMerge(_) => NodeKind::ChannelMerge,
            MidiIO::DummyPlayer(_) => NodeKind::DummyPlayer,
        }
    }

    /// Whether messages can be read from the node.
    pub fn can_read(&self) -> (res: bool)
        ensures
            res == self.model().readable(),
    {
        match self {
            MidiIO::Input(n) => n.can_read(),
            MidiIO::Output(n) => n.can_read(),
            MidiIO::ChannelFilter(n) => n.can_read(),
            MidiIO::ChannelMerge(n) => n.can_read(),
            MidiIO::DummyPlayer(n) => n.can_read(),
        }
    }

    /// Whether messages can be written to the node.
    pub fn can_write(&self) -> (res: bool)
        ensures
            res == self.model().writable(),
    {
        match self {
            MidiIO::Input(n) => n.can_write(),
            MidiIO::Output(n) => n.can_write(),
            MidiIO::ChannelFilter(n) => n.can_write(),
            MidiIO::ChannelMerge(n) => n.can_write(),
            MidiIO::DummyPlayer(n) => n.can_write(),
        }
    }

    /// The configured name.
    pub fn get_name(&self) -> (res: String)
        ensures
            res@ == self.model().name,
    {
        match self {
            MidiIO::Input(n) => n.get_name(),
            MidiIO::Output(n) => n.get_name(),
            MidiIO::ChannelFilter(n) => n.get_name(),
            MidiIO::ChannelMerge(n) => n.get_name(),
            MidiIO::DummyPlayer(n) => n.get_name(),
        }
    }

    /// The name shown to the operator, which says what kind of node it is.
    pub fn get_display_name(&self) -> (res: String)
        ensures
            res@ == self.model().display_name(),
    {
        match self {
            MidiIO::Input(n) => n.get_display_name(),
            MidiIO::Output(n) => n.get_display_name(),
            MidiIO::ChannelFilter(n) => n.get_display_name(),
            MidiIO::ChannelMerge(n) => n.get_display_name(),
            MidiIO::DummyPlayer(n) => n.get_display_name(),
        }
    }

    /// Renames the node.
    pub fn set_name(&mut self, name: &str)
        ensures
            final(self).model() == old(self).model().renamed(name@),
            old(self).wf() ==> final(self).wf(),
    {
        match self {
            MidiIO::Input(n) => n.set_name(name),
            MidiIO::Output(n) => n.set_name(name),
            MidiIO::ChannelFilter(n) => n.set_name(name),
            MidiIO::ChannelMerge(n) => n.set_name(name),
            MidiIO::DummyPlayer(n) => n.set_name(name),
        }
    }

    /// The identifiers that messages read from the node are forwarded to.
    /// Only a node that can be read from has any.
    pub fn list_outputs(&self) -> (res: &[Id])
        requires
            self.wf(),
            self.model().readable(),
        ensures
            res@ == self.model().outputs,
    {
        match self {
            MidiIO::Input(n) => n.list_outputs(),
            MidiIO::Output(_) => unreached(),
            MidiIO::ChannelFilter(n) => n.list_outputs(),
            MidiIO::ChannelMerge(n) => n.list_outputs(),
            MidiIO::DummyPlayer(n) => n.list_outputs(),
        }
    }

    /// Adds an output to a node that can be read from, unless the output
    /// is already listed.
    pub fn add_output(&mut self, id: Id)
        requires
            old(self).wf(),
            old(self).model().readable(),
        ensures
            final(self).wf(),
            final(self).model() == old(self).model().connected(id),
    {
        match self {
            MidiIO::Input(n) => n.add_output(id),
            MidiIO::Output(_) => unreached(),
            MidiIO::ChannelFilter(n) => n.add_output(id),
            MidiIO::ChannelMerge(n) => n.add_output(id),
            MidiIO::DummyPlayer(n) => n.add_output(id),
        }
    }

    /// Removes an output from a node that can be read from, if the output
    /// is listed.
    pub fn rem_output(&mut self, id: Id)
        requires
            old(self).wf(),
            old(self).model().readable(),
        ensures
            final(self).wf(),
            final(self).model() == old(self).model().disconnected(id),
    {
        match self {
            MidiIO::Input(n) => n.rem_output(id),
            MidiIO::Output(_) => unreached(),
            MidiIO::ChannelFilter(n) => n.rem_output(id),
            MidiIO::ChannelMerge(n) => n.rem_output(id),
            MidiIO::DummyPlayer(n) => n.rem_output(id),
        }
    }

    /// Configures the node with a command of its own kind, and says what
    /// came of it.
    pub fn cfg(&mut self, command: &[String]) -> (res: CfgReply)
        requires
            old(self).wf(),
        ensures
            final(self).wf(),
            res == old(self).model().cfg_reply(texts(command@)),
            final(self).model() == old(self).model().configured(texts(command@)),
    {
        match self {
            MidiIO::Input(n) => n.cfg(command),
            MidiIO::Output(n) => n.cfg(command),
            MidiIO::ChannelFilter(n) => n.cfg(command),
            MidiIO::ChannelMerge(n) => n.cfg(command),
            MidiIO::DummyPlayer(n) => n.cfg(command),
        }
    }

    /// Writes a batch of messages to a node that can be written to.
    pub fn write(&mut self, messages: &[MidiMessage])
        requires
            old(self).wf(),
            old(self).model().writable(),
        ensures
            final(self).wf(),
            final(self).model() == old(self).model().after_write(models(messages@)),
    {
        match self {
            MidiIO::Input(_) => unreached(),
            MidiIO::Output(n) => n.write(messages),
            MidiIO::ChannelFilter(n) => n.write(messages),
            MidiIO::ChannelMerge(n) => n.write(messages),
            MidiIO::DummyPlayer(_) => unreached(),
        }
    }

    /// Reads a node that can be read from, at the second `now` of the
    /// clock: everything buffered comes out, and the buffer is left empty.
    pub fn read(&mut self, now: u64) -> (res: Vec<MidiMessage>)
        requires
            old(self).wf(),
            old(self).model().readable(),
        ensures
            final(self).wf(),
            models(res@) == old(self).model().read_batch(now),
            final(self).model() == old(self).model().after_read(now),
    {
        match self {
            MidiIO::Input(n) => n.read(),
            MidiIO::Output(_) => unreached(),
            MidiIO::ChannelFilter(n) => n.read(),
            MidiIO::ChannelMerge(n) => n.read(),
            MidiIO::DummyPlayer(n) => n.read(now),
        }
    }

    /// Hands a raw event from the transport to the node. An input buffers
    /// what classification accepts; any other node ignores the event.
    pub fn receive(&mut self, ts: u64, bytes: &[u8])
        requires
            old(self).wf(),
            bytes@.len() > 0,
        ensures
            final(self).wf(),
            final(self).model() == old(self).model().after_event(ts, bytes@),
    {
        match self {
            MidiIO::Input(n) => n.receive(ts, bytes),
            _ => {},
        }
    }

    /// Hands out the encoded messages that wait for the transport. Only an
    /// output has any.
    pub fn take_outgoing(&mut self) -> (res: Vec<Vec<u8>>)
        requires
            old(self).wf(),
        ensures
            final(self).wf(),
            payloads(res@) == old(self).model().outbox,
            final(self).model() == old(self).model().after_flush(),
    {
        match self {
            MidiIO::Output(n) => n.take_outgoing(),
            _ => {
                let res: Vec<Vec<u8>> = Vec::new();
                assert(payloads(res@) =~= Seq::empty());
                assert(self.model().outbox =~= Seq::empty());
                res
            },
        }
    }

    /// Lets go of the node.
    pub fn delete(self) {
        match self {
            MidiIO::Input(n) => n.delete(),
            MidiIO::Output(n) => n.delete(),
            MidiIO::ChannelFilter(n) => n.delete(),
            MidiIO::ChannelMerge(n) => n.delete(),
            MidiIO::DummyPlayer(n) => n.delete(),
        }
    }
}

} // verus!
