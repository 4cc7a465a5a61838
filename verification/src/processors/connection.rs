//! The two ends of the graph: the input node that messages from a port
//! arrive at, and the output node that messages leave through.
//!
//! Neither node talks to the transport itself. What arrives is handed to
//! the input node as raw bytes; what leaves waits in the output node until
//! the caller takes it and sends it.

use crate::message::{classify, lemma_models_push, models, MidiMessage};
use crate::processors::{
    add_to_outputs, payloads, remove_from_outputs, CfgReply, Node, NodeKind,
};
use crate::text::{parse_unsigned, parse_unsigned_spec};
use crate::utils::{texts, Id, MMMErr};
use vstd::prelude::*;
use vstd::string::StringExecFns;

verus! {

/// A port that the transport has to open before a node can be created.
#[derive(Clone, Debug, PartialEq, Eq)]
pub enum PortRequest {
    /// Connect the input port with this index, under this name.
    Input { index: usize, name: String },
    /// Create a virtual output port of this name.
    Output { name: String },
}

/// Mathematical model of a port request.
pub enum PortRequestView {
    Input { index: usize, name: Seq<char> },
    Output { name: Seq<char> },
}

impl View for PortRequest {
    type V = PortRequestView;

    open spec fn view(&self) -> PortRequestView {
        match self {
            PortRequest::Input { index, name } => PortRequestView::Input {
                index: *index,
                name: name@,
            },
            PortRequest::Output { name } => PortRequestView::Output { name: name@ },
        }
    }
}

/// What the arguments of an input node ask for: exactly one argument, the
/// index of the port.
pub open spec fn input_arg(args: Seq<Seq<char>>) -> Result<usize, MMMErr> {
    if args.len() != 1 {
        Err(MMMErr::ArgError)
    } else {
        match parse_unsigned_spec(args[0], usize::MAX as nat) {
            None => Err(MMMErr::ParseError),
            Some(index) => Ok(index as usize),
        }
    }
}

/// Classifies one raw event and appends the message to `buf`. An event
/// that classification rejects is dropped.
pub fn process_msg(ts: u64, bytes: &[u8], buf: &mut Vec<MidiMessage>)
    requires
        bytes@.len() > 0,
    ensures
        models(final(buf)@) == match classify(ts, bytes@) {
            Some(m) => models(old(buf)@).push(m),
            None => models(old(buf)@),
        },
{
    if let Some(msg) = MidiMessage::from_slice(ts, bytes) {
        proof {
            lemma_models_push(buf@, msg);
        }
        buf.push(msg)
    }
}

/// The node that messages from an input port arrive at.
pub struct MidiIn {
    buf: Vec<MidiMessage>,
    name: String,
    port_name: String,
    outputs: Vec<Id>,
}

impl MidiIn {
    /// The model of the input.
    pub closed spec fn model(&self) -> Node {
        Node {
            kind: NodeKind::Input,
            name: self.name@,
            port_name: self.port_name@,
            channel: 0,
            outputs: self.outputs@,
            pending: models(self.buf@),
            outbox: Seq::empty(),
            last_msg: 0,
        }
    }

    /// The invariant of the input: its model is a well-formed input.
    pub open spec fn wf(&self) -> bool {
        self.model().wf() && self.model().kind == NodeKind::Input
    }

    /// The input node for a port that the transport has connected.
    /// `port_name` is the name that the transport gives the port.
    pub fn new(name: String, port_name: String) -> (res: MidiIn)
        ensures
            res.wf(),
            res.model() == Node::fresh(NodeKind::Input, name@, port_name@, 0, 0),
    {
        let res = MidiIn { buf: Vec::new(), name, port_name, outputs: Vec::new() };
        assert(res.model().pending =~= Seq::empty());
        res
    }

    /// Reads the arguments of the `new` command for an input: exactly one,
    /// the index of the port. The answer is the port to connect.
    pub fn new_args(name: String, args: &[String]) -> (res: Result<PortRequest, MMMErr>)
        ensures
            match res {
                Ok(request) => input_arg(texts(args@)) matches Ok(index) && request@
                    == (PortRequestView::Input { index, name: name@ }),
                Err(e) => input_arg(texts(args@)) == Err::<usize, MMMErr>(e),
            },
    {
        if args.len() != 1 {
            Err(MMMErr::ArgError)
        } else {
            assert(texts(args@)[0] == args@[0]@);
            match parse_unsigned(args[0].as_str(), usize::MAX as u64) {
                None => Err(MMMErr::ParseError),
                Some(index) => Ok(PortRequest::Input { index: index as usize, name }),
            }
        }
    }

    /// Takes in one raw event from the port: what classification accepts is
    /// buffered for the next read, anything else is dropped.
    pub fn receive(&mut self, ts: u64, bytes: &[u8])
        requires
            bytes@.len() > 0,
        ensures
            final(self).model() == match classify(ts, bytes@) {
                Some(m) => old(self).model().after_arrival(m),
                None => old(self).model(),
            },
            old(self).wf() ==> final(self).wf(),
    {
        process_msg(ts, bytes, &mut self.buf)
    }

    /// An input can be read from.
    pub fn can_read(&self) -> (res: bool)
        ensures
            res == self.model().readable(),
            res,
    {
        true
    }

    /// An input cannot be written to.
    pub fn can_write(&self) -> (res: bool)
        ensures
            res == self.model().writable(),
            !res,
    {
        false
    }

    /// The configured name.
    pub fn get_name(&self) -> (res: String)
        ensures
            res@ == self.model().name,
    {
        self.name.clone()
    }

    /// The name shown to the operator: the port, then the configured name.
    pub fn get_display_name(&self) -> (res: String)
        ensures
            res@ == self.model().display_name(),
    {
        self.port_name.clone().concat(" -> ").concat(self.name.as_str()).concat(" (input)")
    }

    /// Renames the input. The name of its port stays.
    pub fn set_name(&mut self, name: &str)
        ensures
            final(self).model() == old(self).model().renamed(name@),
            old(self).wf() ==> final(self).wf(),
    {
        self.name = String::from_str(name);
    }

    /// The identifiers that messages read from the input are forwarded to.
    pub fn list_outputs(&self) -> (res: &[Id])
        ensures
            res@ == self.model().outputs,
    {
        self.outputs.as_slice()
    }

    /// Adds an output, unless it is already listed.
    pub fn add_output(&mut self, id: Id)
        ensures
            final(self).model() == old(self).model().connected(id),
            old(self).wf() ==> final(self).wf(),
    {
        add_to_outputs(&mut self.outputs, id)
    }

    /// Removes an output, if it is listed.
    pub fn rem_output(&mut self, id: Id)
        ensures
            final(self).model() == old(self).model().disconnected(id),
            old(self).wf() ==> final(self).wf(),
    {
        remove_from_outputs(&mut self.outputs, id)
    }

    /// An input has nothing to configure.
    pub fn cfg(&mut self, command: &[String]) -> (res: CfgReply)
        ensures
            res == old(self).model().cfg_reply(texts(command@)),
            res == CfgReply::NotApplicable,
            final(self).model() == old(self).model().configured(texts(command@)),
            final(self).model() == old(self).model(),
    {
        CfgReply::NotApplicable
    }

    /// Hands out everything that arrived since the last read, and empties
    /// the buffer.
    pub fn read(&mut self) -> (res: Vec<MidiMessage>)
        ensures
            forall|now: u64| models(res@) == #[trigger] old(self).model().read_batch(now),
            forall|now: u64| final(self).model() == #[trigger] old(self).model().after_read(now),
            old(self).wf() ==> final(self).wf(),
    {
        let mut res: Vec<MidiMessage> = Vec::new();
        std::mem::swap(&mut res, &mut self.buf);
        assert(models(self.buf@) =~= Seq::empty());
        res
    }

    /// Lets go of the input. Closing the port is up to whoever opened it.
    pub fn delete(self) {
    }
}

/// The node that messages leave through.
pub struct MidiOut {
    outbox: Vec<Vec<u8>>,
    name: String,
}

impl MidiOut {
    /// The model of the output.
    pub closed spec fn model(&self) -> Node {
        Node {
            kind: NodeKind::Output,
            name: self.name@,
            port_name: Seq::empty(),
            channel: 0,
            outputs: Seq::empty(),
            pending: Seq::empty(),
            outbox: payloads(self.outbox@),
            last_msg: 0,
        }
    }

    /// The invariant of the output: its model is a well-formed output.
    pub open spec fn wf(&self) -> bool {
        self.model().wf() && self.model().kind == NodeKind::Output
    }

    /// The output node for a virtual port that the transport has created.
    pub fn new(name: String) -> (res: MidiOut)
        ensures
            res.wf(),
            res.model() == Node::fresh(NodeKind::Output, name@, Seq::empty(), 0, 0),
    {
        let res = MidiOut { outbox: Vec::new(), name };
        assert(res.model().outbox =~= Seq::empty());
        res
    }

    /// Reads the arguments of the `new` command for an output, which takes
    /// none into account. The answer is the port to create.
    pub fn new_args(name: String, _args: &[String]) -> (res: Result<PortRequest, MMMErr>)
        ensures
            res matches Ok(request) && request@ == (PortRequestView::Output { name: name@ }),
    {
        Ok(PortRequest::Output { name })
    }

    /// An output cannot be read from.
    pub fn can_read(&self) -> (res: bool)
        ensures
            res == self.model().readable(),
            !res,
    {
        false
    }

    /// An output can be written to.
    pub fn can_write(&self) -> (res: bool)
        ensures
            res == self.model().writable(),
            res,
    {
        true
    }

    /// The configured name.
    pub fn get_name(&self) -> (res: String)
        ensures
            res@ == self.model().name,
    {
        self.name.clone()
    }

    /// The name shown to the operator.
    pub fn get_display_name(&self) -> (res: String)
        ensures
            res@ == self.model().display_name(),
    {
        self.name.clone().concat(" (output)")
    }

    /// Renames the output.
    pub fn set_name(&mut self, name: &str)
        ensures
            final(self).model() == old(self).model().renamed(name@),
            old(self).wf() ==> final(self).wf(),
    {
        self.name = String::from_str(name);
    }

    /// An output has nothing to configure.
    pub fn cfg(&mut self, command: &[String]) -> (res: CfgReply)
        ensures
            res == old(self).model().cfg_reply(texts(command@)),
            res == CfgReply::NotApplicable,
            final(self).model() == old(self).model().configured(texts(command@)),
            final(self).model() == old(self).model(),
    {
        CfgReply::NotApplicable
    }

    /// Encodes every message of the batch, in order, and queues the bytes
    /// for the transport.
    pub fn write(&mut self, messages: &[MidiMessage])
        ensures
            final(self).model() == old(self).model().after_write(models(messages@)),
            old(self).wf() ==> final(self).wf(),
    {
        let ghost batch = models(messages@);
        let mut i: usize = 0;
        assert(payloads(self.outbox@) =~= payloads(old(self).outbox@) + crate::message::encode_all(
            batch.take(0),
        ));
        while i < messages.len()
            invariant
                i <= messages@.len(),
                batch == models(messages@),
                self.name == old(self).name,
                payloads(self.outbox@) == payloads(old(self).outbox@)
                    + crate::message::encode_all(batch.take(i as int)),
            decreases messages@.len() - i,
        {
            let ghost before = self.outbox@;
            let encoded = messages[i].to_bytes();
            self.outbox.push(encoded);
            proof {
                assert(batch[i as int] == messages@[i as int]@);
                assert(payloads(self.outbox@) =~= payloads(before).push(encoded@));
                assert(crate::message::encode_all(batch.take(i + 1))
                    =~= crate::message::encode_all(batch.take(i as int)).push(encoded@));
                assert(payloads(self.outbox@) =~= payloads(old(self).outbox@)
                    + crate::message::encode_all(batch.take(i + 1)));
            }
            i += 1;
        }
        assert(batch.take(i as int) =~= batch);
    }

    /// Hands out the encoded messages that wait for the transport, in the
    /// order they were written, and empties the queue.
    pub fn take_outgoing(&mut self) -> (res: Vec<Vec<u8>>)
        ensures
            payloads(res@) == old(self).model().outbox,
            final(self).model() == old(self).model().after_flush(),
            old(self).wf() ==> final(self).wf(),
    {
        let mut res: Vec<Vec<u8>> = Vec::new();
        std::mem::swap(&mut res, &mut self.outbox);
        assert(payloads(self.outbox@) =~= Seq::empty());
        res
    }

    /// Lets go of the output. Closing the port is up to whoever opened it.
    pub fn delete(self) {
    }
}

} // verus!
