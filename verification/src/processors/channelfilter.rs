//! The channel filter: a node that passes on the messages of one channel.

use crate::message::{
    keep_channel, lemma_keep_channel_step, lemma_models_push, lemma_models_take, models,
    MidiMessage,
};
use crate::processors::{
    add_to_outputs, channel_arg, channel_cfg, parse_channel, remove_from_outputs, CfgReply, Node,
    NodeKind,
};
use crate::utils::{texts, Id, MMMErr};
use vstd::prelude::*;
use vstd::string::StringExecFns;

verus! {

/// Passes on the messages written to it that are on its channel, and drops
/// the rest.
pub struct ChannelFilter {
    channel: u8,
    name: String,
    buf: Vec<MidiMessage>,
    outputs: Vec<Id>,
}

impl ChannelFilter {
    /// The model of the filter.
    pub closed spec fn model(&self) -> Node {
        Node {
            kind: NodeKind::ChannelFilter,
            name: self.name@,
            port_name: Seq::empty(),
            channel: self.channel,
            outputs: self.outputs@,
            pending: models(self.buf@),
            outbox: Seq::empty(),
            last_msg: 0,
        }
    }

    /// The invariant of the filter: its model is a well-formed filter.
    pub open spec fn wf(&self) -> bool {
        self.model().wf() && self.model().kind == NodeKind::ChannelFilter
    }

    fn new(channel: u8, name: String) -> (res: ChannelFilter)
        requires
            1 <= channel <= 16,
        ensures
            res.wf(),
            res.model() == Node::fresh(NodeKind::ChannelFilter, name@, Seq::empty(), channel, 0),
    {
        let res = ChannelFilter { channel, name, buf: Vec::new(), outputs: Vec::new() };
        assert(res.model().pending =~= Seq::empty());
        res
    }

    /// Creates a filter from the arguments of the `new` command: exactly
    /// one, the channel, a number between 1 and 16.
    pub fn new_args(name: String, args: &[String]) -> (res: Result<ChannelFilter, MMMErr>)
        ensures
            match res {
                Ok(filter) => channel_arg(texts(args@)) matches Ok(c) && filter.wf()
                    && filter.model() == Node::fresh(
                    NodeKind::ChannelFilter,
                    name@,
                    Seq::empty(),
                    c,
                    0,
                ),
                Err(e) => channel_arg(texts(args@)) == Err::<u8, MMMErr>(e),
            },
    {
        match parse_channel(args) {
            Ok(c) => Ok(Self::new(c, name)),
            Err(e) => Err(e),
        }
    }

    /// Moves the filter to the channel that the first argument names, a
    /// number between 1 and 16, and says what came of it.
    pub fn change_channel(&mut self, args: &[String]) -> (res: CfgReply)
        requires
            old(self).wf(),
        ensures
            final(self).wf(),
            res == crate::processors::channel_change(texts(args@)),
            final(self).model() == match res {
                CfgReply::ChannelChanged(c) => old(self).model().on_channel(c),
                _ => old(self).model(),
            },
    {
        let res = crate::processors::parse_channel_change(args);
        if let CfgReply::ChannelChanged(c) = res {
            self.channel = c;
        }
        res
    }

    /// A filter can be read from.
    pub fn can_read(&self) -> (res: bool)
        ensures
            res == self.model().readable(),
            res,
    {
        true
    }

    /// A filter can be written to.
    pub fn can_write(&self) -> (res: bool)
        ensures
            res == self.model().writable(),
            res,
    {
        true
    }

    /// The configured name.
    pub fn get_name(&self) -> (res: String)
        ensures
            res@ == self.model().name,
    {
        self.name.clone()
    }

    /// The name shown to the operator.
    pub fn get_display_name(&self) -> (res: String)
        ensures
            res@ == self.model().display_name(),
    {
        self.name.clone().concat(" (channelfilter)")
    }

    /// Renames the filter.
    pub fn set_name(&mut self, name: &str)
        ensures
            final(self).model() == old(self).model().renamed(name@),
            old(self).wf() ==> final(self).wf(),
    {
        self.name = String::from_str(name);
    }

    /// The identifiers that messages read from the filter are forwarded to.
    pub fn list_outputs(&self) -> (res: &[Id])
        ensures
            res@ == self.model().outputs,
    {
        self.outputs.as_slice()
    }

    /// Adds an output, unless it is already listed.
    pub fn add_output(&mut self, id: Id)
        ensures
            final(self).model() == old(self).model().connected(id),
            old(self).wf() ==> final(self).wf(),
    {
        add_to_outputs(&mut self.outputs, id)
    }

    /// Removes an output, if it is listed.
    pub fn rem_output(&mut self, id: Id)
        ensures
            final(self).model() == old(self).model().disconnected(id),
            old(self).wf() ==> final(self).wf(),
    {
        remove_from_outputs(&mut self.outputs, id)
    }

    /// Configures the filter. Without a sub-command it reports its channel;
    /// the sub-command `channel`, which may be abbreviated, changes it.
    pub fn cfg(&mut self, command: &[String]) -> (res: CfgReply)
        requires
            old(self).wf(),
        ensures
            final(self).wf(),
            res == old(self).model().cfg_reply(texts(command@)),
            final(self).model() == old(self).model().configured(texts(command@)),
    {
        let res = channel_cfg(self.channel, command);
        if let CfgReply::ChannelChanged(c) = res {
            self.channel = c;
        }
        res
    }

    /// Buffers the messages of the batch that are on the filter's channel,
    /// in their order. Messages on another channel, and messages without a
    /// channel, are dropped.
    pub fn write(&mut self, messages: &[MidiMessage])
        ensures
            final(self).model() == old(self).model().after_write(models(messages@)),
            old(self).wf() ==> final(self).wf(),
    {
        let ghost batch = models(messages@);
        let mut i: usize = 0;
        proof {
            lemma_models_take(messages@, 0);
            if messages@.len() > 0 {
                lemma_keep_channel_step(batch, self.channel, 0);
            } else {
                reveal(Seq::filter);
            }
            assert(batch.take(0) =~= Seq::empty());
        }
        while i < messages.len()
            invariant
                i <= messages@.len(),
                batch == models(messages@),
                self.channel == old(self).channel,
                self.name == old(self).name,
                self.outputs == old(self).outputs,
                models(self.buf@) == models(old(self).buf@) + keep_channel(
                    batch.take(i as int),
                    self.channel,
                ),
            decreases messages@.len() - i,
        {
            let m = &messages[i];
            proof {
                lemma_keep_channel_step(batch, self.channel, i as int);
                assert(batch[i as int] == m@);
            }
            let on_channel = match m.channel() {
                Some(c) => c == self.channel,
                None => false,
            };
            if on_channel {
                let ghost before = self.buf@;
                let copy = m.clone();
                self.buf.push(copy);
                proof {
                    lemma_models_push(before, copy);
                    assert(models(self.buf@) =~= models(old(self).buf@) + keep_channel(
                        batch.take(i + 1),
                        self.channel,
                    ));
                }
            }
            i += 1;
        }
        assert(batch.take(i as int) =~= batch);
    }

    /// Hands out everything buffered since the last read, and empties the
    /// buffer.
    pub fn read(&mut self) -> (res: Vec<MidiMessage>)
        ensures
            forall|now: u64| models(res@) == #[trigger] old(self).model().read_batch(now),
            forall|now: u64| final(self).model() == #[trigger] old(self).model().after_read(now),
            old(self).wf() ==> final(self).wf(),
    {
        let mut res: Vec<MidiMessage> = Vec::new();
        std::mem::swap(&mut res, &mut self.buf);
        assert(models(self.buf@) =~= Seq::empty());
        res
    }

    /// Lets go of the filter. It holds nothing that needs releasing.
    pub fn delete(self) {
    }
}

} // verus!
