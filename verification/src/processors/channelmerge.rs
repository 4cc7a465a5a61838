//! The channel merge: a node that moves every message to one channel.

use crate::message::{lemma_models_push, models, move_to_channel, MidiMessage};
use crate::processors::{
    add_to_outputs, channel_arg, parse_channel, remove_from_outputs, CfgReply, Node, NodeKind,
};
use crate::utils::{texts, Id, MMMErr};
use vstd::prelude::*;
use vstd::string::StringExecFns;

verus! {

/// Passes on every message written to it, moved to its channel.
pub struct ChannelMerge {
    channel: u8,
    name: String,
    buf: Vec<MidiMessage>,
    outputs: Vec<Id>,
}

impl ChannelMerge {
    /// The model of the merge.
    pub closed spec fn model(&self) -> Node {
        Node {
            kind: NodeKind::ChannelMerge,
            name: self.name@,
            port_name: Seq::empty(),
            channel: self.channel,
            outputs: self.outputs@,
            pending: models(self.buf@),
            outbox: Seq::empty(),
            last_msg: 0,
        }
    }

    /// The invariant of the merge: its model is a well-formed merge.
    pub open spec fn wf(&self) -> bool {
        self.model().wf() && self.model().kind == NodeKind::ChannelMerge
    }

    fn new(channel: u8, name: String) -> (res: ChannelMerge)
        requires
            1 <= channel <= 16,
        ensures
            res.wf(),
            res.model() == Node::fresh(NodeKind::ChannelMerge, name@, Seq::empty(), channel, 0),
    {
        let res = ChannelMerge { channel, name, buf: Vec::new(), outputs: Vec::new() };
        assert(res.model().pending =~= Seq::empty());
        res
    }

    /// Creates a merge from the arguments of the `new` command: exactly
    /// one, the channel, a number between 1 and 16.
    pub fn new_args(name: String, args: &[String]) -> (res: Result<ChannelMerge, MMMErr>)
        ensures
            match res {
                Ok(merge) => channel_arg(texts(args@)) matches Ok(c) && merge.wf()
                    && merge.model() == Node::fresh(
                    NodeKind::ChannelMerge,
                    name@,
                    Seq::empty(),
                    c,
                    0,
                ),
                Err(e) => channel_arg(texts(args@)) == Err::<u8, MMMErr>(e),
            },
    {
        match parse_channel(args) {
            Ok(c) => Ok(Self::new(c, name)),
            Err(e) => Err(e),
        }
    }

    /// A merge can be read from.
    pub fn can_read(&self) -> (res: bool)
        ensures
            res == self.model().readable(),
            res,
    {
        true
    }

    /// A merge can be written to.
    pub fn can_write(&self) -> (res: bool)
        ensures
            res == self.model().writable(),
            res,
    {
        true
    }

    /// The configured name.
    pub fn get_name(&self) -> (res: String)
        ensures
            res@ == self.model().name,
    {
        self.name.clone()
    }

    /// The name shown to the operator.
    pub fn get_display_name(&self) -> (res: String)
        ensures
            res@ == self.model().display_name(),
    {
        self.name.clone().concat(" (channelmerge)")
    }

    /// Renames the merge.
    pub fn set_name(&mut self, name: &str)
        ensures
            final(self).model() == old(self).model().renamed(name@),
            old(self).wf() ==> final(self).wf(),
    {
        self.name = String::from_str(name);
    }

    /// The identifiers that messages read from the merge are forwarded to.
    pub fn list_outputs(&self) -> (res: &[Id])
        ensures
            res@ == self.model().outputs,
    {
        self.outputs.as_slice()
    }

    /// Adds an output, unless it is already listed.
    pub fn add_output(&mut self, id: Id)
        ensures
            final(self).model() == old(self).model().connected(id),
            old(self).wf() ==> final(self).wf(),
    {
        add_to_outputs(&mut self.outputs, id)
    }

    /// Removes an output, if it is listed.
    pub fn rem_output(&mut self, id: Id)
        ensures
            final(self).model() == old(self).model().disconnected(id),
            old(self).wf() ==> final(self).wf(),
    {
        remove_from_outputs(&mut self.outputs, id)
    }

    /// A merge has nothing to configure.
    pub fn cfg(&mut self, command: &[String]) -> (res: CfgReply)
        ensures
            res == old(self).model().cfg_reply(texts(command@)),
            res == CfgReply::NotApplicable,
            final(self).model() == old(self).model().configured(texts(command@)),
            final(self).model() == old(self).model(),
    {
        CfgReply::NotApplicable
    }

    /// Buffers every message of the batch, moved to the merge's channel, in
    /// the order of the batch. Messages without a channel are buffered as
    /// they are.
    pub fn write(&mut self, messages: &[MidiMessage])
        requires
            old(self).wf(),
        ensures
            final(self).wf(),
            final(self).model() == old(self).model().after_write(models(messages@)),
    {
        let ghost batch = models(messages@);
        let mut i: usize = 0;
        assert(models(self.buf@) =~= models(old(self).buf@) + move_to_channel(
            batch.take(0),
            self.channel,
        ));
        while i < messages.len()
            invariant
                i <= messages@.len(),
                batch == models(messages@),
                1 <= self.channel <= 16,
                self.channel == old(self).channel,
                self.name == old(self).name,
                self.outputs == old(self).outputs,
                models(self.buf@) == models(old(self).buf@) + move_to_channel(
                    batch.take(i as int),
                    self.channel,
                ),
            decreases messages@.len() - i,
        {
            let ghost before = self.buf@;
            let moved = messages[i].with_channel(self.channel);
            self.buf.push(moved);
            proof {
                lemma_models_push(before, moved);
                assert(batch[i as int] == messages@[i as int]@);
                assert(models(self.buf@) =~= models(old(self).buf@) + move_to_channel(
                    batch.take(i + 1),
                    self.channel,
                ));
            }
            i += 1;
        }
        assert(batch.take(i as int) =~= batch);
    }

    /// Hands out everything buffered since the last read, and empties the
    /// buffer.
    pub fn read(&mut self) -> (res: Vec<MidiMessage>)
        ensures
            forall|now: u64| models(res@) == #[trigger] old(self).model().read_batch(now),
            forall|now: u64| final(self).model() == #[trigger] old(self).model().after_read(now),
            old(self).wf() ==> final(self).wf(),
    {
        let mut res: Vec<MidiMessage> = Vec::new();
        std::mem::swap(&mut res, &mut self.buf);
        assert(models(self.buf@) =~= Seq::empty());
        res
    }

    /// Lets go of the merge. It holds nothing that needs releasing.
    pub fn delete(self) {
    }
}

} // verus!
