//! The dummy player: a node that emits one note a second, to try a
//! routing without hardware.

use crate::message::{classify, models, MidiMessage};
use crate::processors::{
    add_to_outputs, channel_arg, channel_cfg, dummy_note, parse_channel, remove_from_outputs,
    CfgReply, Node, NodeKind, DUMMY_NOTE,
};
use crate::utils::{texts, Id, MMMErr};
use vstd::prelude::*;
use vstd::string::StringExecFns;

verus! {

/// Emits a note-on message on its channel, at most once for every whole
/// second of the clock that its reads are given.
pub struct DummyPlayer {
    channel: u8,
    name: String,
    outputs: Vec<Id>,
    last_msg: u64,
}

impl DummyPlayer {
    /// The model of the dummy player.
    pub closed spec fn model(&self) -> Node {
        Node {
            kind: NodeKind::DummyPlayer,
            name: self.name@,
            port_name: Seq::empty(),
            channel: self.channel,
            outputs: self.outputs@,
            pending: Seq::empty(),
            outbox: Seq::empty(),
            last_msg: self.last_msg,
        }
    }

    /// The invariant of the dummy player: its model is a well-formed dummy
    /// player.
    pub open spec fn wf(&self) -> bool {
        self.model().wf() && self.model().kind == NodeKind::DummyPlayer
    }

    fn new(channel: u8, name: String, now: u64) -> (res: DummyPlayer)
        requires
            1 <= channel <= 16,
        ensures
            res.wf(),
            res.model() == Node::fresh(NodeKind::DummyPlayer, name@, Seq::empty(), channel, now),
    {
        DummyPlayer { channel, name, outputs: Vec::new(), last_msg: now }
    }

    /// Creates a dummy player at the second `now` from its arguments:
    /// exactly one, the channel, a number between 1 and 16.
    pub fn new_args(name: String, args: &[String], now: u64) -> (res: Result<DummyPlayer, MMMErr>)
        ensures
            match res {
                Ok(player) => channel_arg(texts(args@)) matches Ok(c) && player.wf()
                    && player.model() == Node::fresh(
                    NodeKind::DummyPlayer,
                    name@,
                    Seq::empty(),
                    c,
                    now,
                ),
                Err(e) => channel_arg(texts(args@)) == Err::<u8, MMMErr>(e),
            },
    {
        match parse_channel(args) {
            Ok(c) => Ok(Self::new(c, name, now)),
            Err(e) => Err(e),
        }
    }

    /// Moves the player to the channel that the first argument names, a
    /// number between 1 and 16, and says what came of it.
    pub fn change_channel(&mut self, args: &[String]) -> (res: CfgReply)
        requires
            old(self).wf(),
        ensures
            final(self).wf(),
            res == crate::processors::channel_change(texts(args@)),
            final(self).model() == match res {
                CfgReply::ChannelChanged(c) => old(self).model().on_channel(c),
                _ => old(self).model(),
            },
    {
        let res = crate::processors::parse_channel_change(args);
        if let CfgReply::ChannelChanged(c) = res {
            self.channel = c;
        }
        res
    }

    /// A dummy player can be read from.
    pub fn can_read(&self) -> (res: bool)
        ensures
            res == self.model().readable(),
            res,
    {
        true
    }

    /// A dummy player cannot be written to.
    pub fn can_write(&self) -> (res: bool)
        ensures
            res == self.model().writable(),
            !res,
    {
        false
    }

    /// The configured name.
    pub fn get_name(&self) -> (res: String)
        ensures
            res@ == self.model().name,
    {
        self.name.clone()
    }

    /// The name shown to the operator.
    pub fn get_display_name(&self) -> (res: String)
        ensures
            res@ == self.model().display_name(),
    {
        self.name.clone().concat(" (dummyplayer)")
    }

    /// Renames the player.
    pub fn set_name(&mut self, name: &str)
        ensures
            final(self).model() == old(self).model().renamed(name@),
            old(self).wf() ==> final(self).wf(),
    {
        self.name = String::from_str(name);
    }

    /// The identifiers that the player's notes are forwarded to.
    pub fn list_outputs(&self) -> (res: &[Id])
        ensures
            res@ == self.model().outputs,
    {
        self.outputs.as_slice()
    }

    /// Adds an output, unless it is already listed.
    pub fn add_output(&mut self, id: Id)
        ensures
            final(self).model() == old(self).model().connected(id),
            old(self).wf() ==> final(self).wf(),
    {
        add_to_outputs(&mut self.outputs, id)
    }

    /// Removes an output, if it is listed.
    pub fn rem_output(&mut self, id: Id)
        ensures
            final(self).model() == old(self).model().disconnected(id),
            old(self).wf() ==> final(self).wf(),
    {
        remove_from_outputs(&mut self.outputs, id)
    }

    /// Configures the player. Without a sub-command it reports its channel;
    /// the sub-command `channel`, which may be abbreviated, changes it.
    pub fn cfg(&mut self, command: &[String]) -> (res: CfgReply)
        requires
            old(self).wf(),
        ensures
            final(self).wf(),
            res == old(self).model().cfg_reply(texts(command@)),
            final(self).model() == old(self).model().configured(texts(command@)),
    {
        let res = channel_cfg(self.channel, command);
        if let CfgReply::ChannelChanged(c) = res {
            self.channel = c;
        }
        res
    }

    /// Reads the player at the second `now`: if the clock has moved past
    /// the second of the last note, one note-on message on the player's
    /// channel comes out, and nothing otherwise.
    pub fn read(&mut self, now: u64) -> (res: Vec<MidiMessage>)
        requires
            old(self).wf(),
        ensures
            final(self).wf(),
            models(res@) == old(self).model().read_batch(now),
            final(self).model() == old(self).model().after_read(now),
    {
        let mut ret: Vec<MidiMessage> = Vec::new();
        if now > self.last_msg {
            let wire: u8 = self.channel - 1;
            let status: u8 = 0x90 | wire;
            assert(status < 0xf0) by (bit_vector)
                requires
                    status == 0x90u8 | wire,
                    wire <= 15,
            ;
            let bytes: [u8; 3] = [status, DUMMY_NOTE, DUMMY_NOTE];
            let slice = bytes.as_slice();
            assert(slice@ =~= seq![status, DUMMY_NOTE, DUMMY_NOTE]);
            let note = MidiMessage::from_slice(0, slice);
            assert(classify(0, slice@) == Some(dummy_note(self.channel)));
            match note {
                Some(m) => {
                    ret.push(m);
                    assert(models(ret@) =~= seq![dummy_note(self.channel)]);
                },
                None => {},
            }
            self.last_msg = now;
        } else {
            assert(models(ret@) =~= Seq::empty());
        }
        ret
    }

    /// Lets go of the player. It holds nothing that needs releasing.
    pub fn delete(self) {
    }
}

} // verus!
