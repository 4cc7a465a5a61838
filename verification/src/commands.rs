//! The command interpreter: a line is split into words, the first word is
//! resolved to a command by abbreviation, and the command is applied to
//! the graph. What comes of it is told in a reply, which the caller shows
//! to the operator or acts upon.

use crate::consts::{
    command_words, processor_words, COMMANDS, IDX_CFG, IDX_CHANNELFILTER, IDX_CONNECT,
    IDX_DISCONNECT, IDX_EXIT, IDX_INIT, IDX_INPUT, IDX_INPUTS, IDX_LIST, IDX_LS, IDX_NEW,
    IDX_OUTPUT, IDX_OUTPUTS, IDX_REMOVE, IDX_RENAME, PROCESSORS,
};
use crate::manager::{Graph, MidiManager};
use crate::processors::channelfilter::ChannelFilter;
use crate::processors::channelmerge::ChannelMerge;
use crate::processors::connection::{input_arg, MidiIn, MidiOut, PortRequest, PortRequestView};
use crate::processors::{channel_arg, CfgReply, MidiIO, Node, NodeKind};
use crate::utils::{keyword_match, shortened_keyword_match, texts, Id, MMMErr};
use vstd::prelude::*;
use vstd::slice::slice_subrange;

verus! {

/// Why a command was not carried out. The graph is then as it was.
#[derive(Clone, Debug, PartialEq, Eq)]
pub enum Failure {
    /// The first word is no command, or abbreviates several.
    CommandNotFound,
    /// The command, given by its index, got the wrong number of arguments.
    WrongArity(usize),
    /// The word names no node, or abbreviates the names of several.
    NotFound(String),
    /// The source of a connection cannot be read from.
    SourceNotReadable,
    /// The destination of a connection cannot be written to.
    DestinationNotWritable,
    /// The word is no kind of node, or abbreviates several.
    UnknownKind(String),
    /// The arguments of a new node were refused.
    Rejected(MMMErr),
}

/// Mathematical model of a failure.
pub enum FailureView {
    CommandNotFound,
    WrongArity(usize),
    NotFound(Seq<char>),
    SourceNotReadable,
    DestinationNotWritable,
    UnknownKind(Seq<char>),
    Rejected(MMMErr),
}

impl View for Failure {
    type V = FailureView;

    open spec fn view(&self) -> FailureView {
        match self {
            Failure::CommandNotFound => FailureView::CommandNotFound,
            Failure::WrongArity(command) => FailureView::WrongArity(*command),
            Failure::NotFound(word) => FailureView::NotFound(word@),
            Failure::SourceNotReadable => FailureView::SourceNotReadable,
            Failure::DestinationNotWritable => FailureView::DestinationNotWritable,
            Failure::UnknownKind(word) => FailureView::UnknownKind(word@),
            Failure::Rejected(e) => FailureView::Rejected(*e),
        }
    }
}

/// What came of a command.
#[derive(Clone, Debug, PartialEq, Eq)]
pub enum Reply {
    /// The command was carried out and there is nothing to show. An empty
    /// line is answered so too.
    Done,
    /// The operator asked to leave.
    Exit,
    /// The live nodes, each with its identifier and display name.
    Listing(Vec<(Id, String)>),
    /// The outputs of a node.
    Outputs(Vec<Id>),
    /// The operator asked for the input ports of the transport.
    Inputs,
    /// A node was created under this identifier.
    Created(Id),
    /// A node needs its port opened before it can be put into the graph.
    Open(PortRequest),
    /// The node with this identifier was deleted.
    Removed(Id),
    /// A node answered a configuration command.
    Configured(CfgReply),
    /// The command was not carried out.
    Failed(Failure),
}

/// Mathematical model of a reply.
pub enum ReplyView {
    Done,
    Exit,
    Listing(Seq<(Id, Seq<char>)>),
    Outputs(Seq<Id>),
    Inputs,
    Created(Id),
    Open(PortRequestView),
    Removed(Id),
    Configured(CfgReply),
    Failed(FailureView),
}

/// The models of the entries of a listing.
pub open spec fn entries(listing: Seq<(Id, String)>) -> Seq<(Id, Seq<char>)> {
    listing.map_values(|e: (Id, String)| (e.0, e.1@))
}

impl View for Reply {
    type V = ReplyView;

    open spec fn view(&self) -> ReplyView {
        match self {
            Reply::Done => ReplyView::Done,
            Reply::Exit => ReplyView::Exit,
            Reply::Listing(listing) => ReplyView::Listing(entries(listing@)),
            Reply::Outputs(outputs) => ReplyView::Outputs(outputs@),
            Reply::Inputs => ReplyView::Inputs,
            Reply::Created(id) => ReplyView::Created(*id),
            Reply::Open(request) => ReplyView::Open(request@),
            Reply::Removed(id) => ReplyView::Removed(*id),
            Reply::Configured(reply) => ReplyView::Configured(*reply),
            Reply::Failed(failure) => ReplyView::Failed(failure@),
        }
    }
}

impl Graph {
    /// The listing of the graph: every live node with its identifier and
    /// display name, in the order of the identifiers.
    pub open spec fn listing(self) -> Seq<(Id, Seq<char>)> {
        self.live_ids().map_values(|id: Id| (id, self.nodes[id].display_name()))
    }

    /// What `rename <target> <new-name>` comes to.
    pub open spec fn rename_step(self, args: Seq<Seq<char>>) -> (Graph, ReplyView) {
        if args.len() != 2 {
            (self, ReplyView::Failed(FailureView::WrongArity(IDX_RENAME)))
        } else {
            match self.resolve(args[0]) {
                None => (self, ReplyView::Failed(FailureView::NotFound(args[0]))),
                Some(id) => (
                    self.updated(id, self.nodes[id].renamed(args[1])),
                    ReplyView::Done,
                ),
            }
        }
    }

    /// What `connect <src> <dst>` and `disconnect <src> <dst>` come to. An
    /// edge is made, or taken away, only between a source that can be read
    /// from and a destination that can be written to.
    pub open spec fn connect_step(self, args: Seq<Seq<char>>, disconnect: bool) -> (
        Graph,
        ReplyView,
    ) {
        if args.len() != 2 {
            (self, ReplyView::Failed(FailureView::WrongArity(IDX_CONNECT)))
        } else {
            match (self.resolve(args[0]), self.resolve(args[1])) {
                (None, _) => (self, ReplyView::Failed(FailureView::NotFound(args[0]))),
                (Some(_), None) => (self, ReplyView::Failed(FailureView::NotFound(args[1]))),
                (Some(src), Some(dst)) => if !self.nodes[dst].writable() {
                    (self, ReplyView::Failed(FailureView::DestinationNotWritable))
                } else if !self.nodes[src].readable() {
                    (self, ReplyView::Failed(FailureView::SourceNotReadable))
                } else if disconnect {
                    (self.updated(src, self.nodes[src].disconnected(dst)), ReplyView::Done)
                } else {
                    (self.updated(src, self.nodes[src].connected(dst)), ReplyView::Done)
                },
            }
        }
    }

    /// What `outputs <target>` comes to.
    pub open spec fn outputs_step(self, args: Seq<Seq<char>>) -> (Graph, ReplyView) {
        if args.len() != 1 {
            (self, ReplyView::Failed(FailureView::WrongArity(IDX_OUTPUTS)))
        } else {
            match self.resolve(args[0]) {
                None => (self, ReplyView::Failed(FailureView::NotFound(args[0]))),
                Some(id) => (
                    self,
                    ReplyView::Outputs(
                        if self.nodes[id].readable() {
                            self.nodes[id].outputs
                        } else {
                            Seq::empty()
                        },
                    ),
                ),
            }
        }
    }

    /// What `remove <target>` comes to.
    pub open spec fn remove_step(self, args: Seq<Seq<char>>) -> (Graph, ReplyView) {
        if args.len() != 1 {
            (self, ReplyView::Failed(FailureView::WrongArity(IDX_REMOVE)))
        } else {
            match self.resolve(args[0]) {
                None => (self, ReplyView::Failed(FailureView::NotFound(args[0]))),
                Some(id) => (self.deleted(id), ReplyView::Removed(id)),
            }
        }
    }

    /// What `cfg <target> <sub-args...>` comes to.
    pub open spec fn cfg_step(self, args: Seq<Seq<char>>) -> (Graph, ReplyView) {
        if args.len() < 1 {
            (self, ReplyView::Failed(FailureView::WrongArity(IDX_CFG)))
        } else {
            match self.resolve(args[0]) {
                None => (self, ReplyView::Failed(FailureView::NotFound(args[0]))),
                Some(id) => (
                    self.updated(id, self.nodes[id].configured(args.skip(1))),
                    ReplyView::Configured(self.nodes[id].cfg_reply(args.skip(1))),
                ),
            }
        }
    }

    /// What `new <kind> <name> [args...]` comes to. A filter or a merge is
    /// created at once; an input or an output first needs its port opened.
    /// Where the arguments are refused nothing is created and no
    /// identifier is issued.
    pub open spec fn new_step(self, args: Seq<Seq<char>>) -> (Graph, ReplyView) {
        if args.len() < 2 {
            (self, ReplyView::Failed(FailureView::Rejected(MMMErr::ArgError)))
        } else {
            let name = args[1];
            let rest = args.skip(2);
            match keyword_match(args[0], processor_words()) {
                None => (self, ReplyView::Failed(FailureView::UnknownKind(args[0]))),
                Some(idx) => if idx == IDX_INPUT {
                    match input_arg(rest) {
                        Ok(index) => (
                            self,
                            ReplyView::Open(PortRequestView::Input { index, name }),
                        ),
                        Err(e) => (self, ReplyView::Failed(FailureView::Rejected(e))),
                    }
                } else if idx == IDX_OUTPUT {
                    (self, ReplyView::Open(PortRequestView::Output { name }))
                } else {
                    let kind = if idx == IDX_CHANNELFILTER {
                        NodeKind::ChannelFilter
                    } else {
                        NodeKind::ChannelMerge
                    };
                    match channel_arg(rest) {
                        Ok(c) => (
                            self.inserted(Node::fresh(kind, name, Seq::empty(), c, 0)),
                            ReplyView::Created(self.allocation()),
                        ),
                        Err(e) => (self, ReplyView::Failed(FailureView::Rejected(e))),
                    }
                },
            }
        }
    }

    /// What a command, given as its words, comes to: the graph after it and
    /// the reply. The first word is resolved against the commands by
    /// abbreviation; the other words are the arguments.
    pub open spec fn step(self, tokens: Seq<Seq<char>>) -> (Graph, ReplyView) {
        if tokens.len() == 0 {
            (self, ReplyView::Done)
        } else {
            let args = tokens.skip(1);
            match keyword_match(tokens[0], command_words()) {
                None => (self, ReplyView::Failed(FailureView::CommandNotFound)),
                Some(idx) => if idx == IDX_EXIT {
                    (self, ReplyView::Exit)
                } else if idx == IDX_LIST || idx == IDX_LS {
                    (self, ReplyView::Listing(self.listing()))
                } else if idx == IDX_RENAME {
                    self.rename_step(args)
                } else if idx == IDX_CONNECT {
                    self.connect_step(args, false)
                } else if idx == IDX_DISCONNECT {
                    self.connect_step(args, true)
                } else if idx == IDX_CFG {
                    self.cfg_step(args)
                } else if idx == IDX_INIT || idx == IDX_NEW {
                    self.new_step(args)
                } else if idx == IDX_REMOVE {
                    self.remove_step(args)
                } else if idx == IDX_INPUTS {
                    (self, ReplyView::Inputs)
                } else {
                    self.outputs_step(args)
                },
            }
        }
    }
}

/// A connection between a source that cannot be read from, or a
/// destination that cannot be written to, is refused: the reply says which
/// of the two is at fault, and no edge is made or taken away.
pub proof fn lemma_connect_needs_capabilities(
    g: Graph,
    args: Seq<Seq<char>>,
    disconnect: bool,
    src: Id,
    dst: Id,
)
    requires
        args.len() == 2,
        g.resolve(args[0]) == Some(src),
        g.resolve(args[1]) == Some(dst),
        !g.nodes[src].readable() || !g.nodes[dst].writable(),
    ensures
        g.connect_step(args, disconnect).0 == g,
        g.connect_step(args, disconnect).1 == if !g.nodes[dst].writable() {
            ReplyView::Failed(FailureView::DestinationNotWritable)
        } else {
            ReplyView::Failed(FailureView::SourceNotReadable)
        },
{
}

/// A connection that is made changes the outputs of the source and
/// nothing else: the destination is listed there once.
pub proof fn lemma_connect_adds_one_edge(g: Graph, args: Seq<Seq<char>>, src: Id, dst: Id)
    requires
        g.wf(),
        args.len() == 2,
        g.resolve(args[0]) == Some(src),
        g.resolve(args[1]) == Some(dst),
        g.nodes[src].readable(),
        g.nodes[dst].writable(),
    ensures
        g.connect_step(args, false).1 == ReplyView::Done,
        g.connect_step(args, false).0 == g.updated(src, g.nodes[src].connected(dst)),
        g.connect_step(args, false).0.nodes[src].outputs.contains(dst),
        g.connect_step(args, false).0.nodes[src].outputs.no_duplicates(),
{
    crate::manager::lemma_resolve_is_live(g, args[0]);
    let before = g.nodes[src].outputs;
    let after = g.nodes[src].connected(dst).outputs;
    if before.contains(dst) {
        assert(after == before);
    } else {
        assert(after[before.len() as int] == dst);
        assert(after.no_duplicates());
    }
}

/// A command that fails leaves the graph as it was.
pub proof fn lemma_failed_command_changes_nothing(g: Graph, tokens: Seq<Seq<char>>)
    requires
        g.step(tokens).1 is Failed,
    ensures
        g.step(tokens).0 == g,
{
}

/// The words that `shell_words::split` makes of a line, or `None` where it
/// finds a quote that is not closed.
pub uninterp spec fn shell_split(line: Seq<char>) -> Option<Seq<Seq<char>>>;

/// The error of `shell_words::split`.
#[verifier::external_type_specification]
#[verifier::external_body]
pub struct ExParseError(shell_words::ParseError);

/// Splits a line into words as a Unix shell would, by `shell_words::split`.
/// The result depends on the line alone; it is the words that
/// `shell_split` names, or an error where `shell_split` gives none.
#[verifier::external_body]
pub(crate) fn split(line: &str) -> (res: Result<Vec<String>, shell_words::ParseError>)
    ensures
        match res {
            Ok(parts) => shell_split(line@) == Some(texts(parts@)),
            Err(_) => shell_split(line@) is None,
        },
{
    shell_words::split(line)
}

impl MidiManager {
    /// Lists the live nodes, each with its identifier and display name, in
    /// the order of the identifiers.
    pub fn list(&self) -> (res: Reply)
        requires
            self.wf(),
        ensures
            res@ == ReplyView::Listing(self@.listing()),
    {
        let ids = self.live_ids();
        let mut listing: Vec<(Id, String)> = Vec::new();
        let mut i: usize = 0;
        while i < ids.len()
            invariant
                i <= ids@.len(),
                ids@ == self@.live_ids(),
                forall|k: int| 0 <= k < ids@.len() ==> self@.nodes.contains_key(#[trigger] ids@[k]),
                listing@.len() == i,
                forall|k: int|
                    0 <= k < i ==> (#[trigger] listing@[k]).0 == ids@[k] && listing@[k].1@
                        == self@.nodes[ids@[k]].display_name(),
            decreases ids@.len() - i,
        {
            let name = self.display_name_of(ids[i]);
            listing.push((ids[i], name));
            i += 1;
        }
        assert(entries(listing@) =~= self@.listing());
        Reply::Listing(listing)
    }

    /// Carries out `rename <target> <new-name>`.
    pub fn rename(&mut self, args: &[String]) -> (res: Reply)
        requires
            old(self).wf(),
        ensures
            final(self).wf(),
            (final(self)@, res@) == old(self)@.rename_step(texts(args@)),
    {
        if args.len() != 2 {
            Reply::Failed(Failure::WrongArity(IDX_RENAME))
        } else {
            assert(texts(args@)[0] == args@[0]@ && texts(args@)[1] == args@[1]@);
            match self.find_by_id_or_name(args[0].as_str()) {
                Some(id) => {
                    self.set_name(id, args[1].as_str());
                    Reply::Done
                },
                None => Reply::Failed(Failure::NotFound(args[0].clone())),
            }
        }
    }

    /// Carries out `connect <src> <dst>`, or `disconnect <src> <dst>` where
    /// `disconnect` is set. The destination must be writable and the
    /// source readable, or the graph stays as it is.
    pub fn connect(&mut self, args: &[String], disconnect: bool) -> (res: Reply)
        requires
            old(self).wf(),
        ensures
            final(self).wf(),
            (final(self)@, res@) == old(self)@.connect_step(texts(args@), disconnect),
    {
        if args.len() != 2 {
            Reply::Failed(Failure::WrongArity(IDX_CONNECT))
        } else {
            assert(texts(args@)[0] == args@[0]@ && texts(args@)[1] == args@[1]@);
            let src = self.find_by_id_or_name(args[0].as_str());
            let dst = self.find_by_id_or_name(args[1].as_str());
            match (src, dst) {
                (None, _) => Reply::Failed(Failure::NotFound(args[0].clone())),
                (Some(_), None) => Reply::Failed(Failure::NotFound(args[1].clone())),
                (Some(id_src), Some(id_dst)) => {
                    if !self.can_write(id_dst) {
                        Reply::Failed(Failure::DestinationNotWritable)
                    } else if !self.can_read(id_src) {
                        Reply::Failed(Failure::SourceNotReadable)
                    } else {
                        if disconnect {
                            self.rem_output(id_src, id_dst)
                        } else {
                            self.add_output(id_src, id_dst)
                        }
                        Reply::Done
                    }
                },
            }
        }
    }

    /// Carries out `outputs <target>`.
    pub fn outputs(&self, args: &[String]) -> (res: Reply)
        requires
            self.wf(),
        ensures
            (self@, res@) == self@.outputs_step(texts(args@)),
    {
        if args.len() != 1 {
            Reply::Failed(Failure::WrongArity(IDX_OUTPUTS))
        } else {
            assert(texts(args@)[0] == args@[0]@);
            match self.find_by_id_or_name(args[0].as_str()) {
                Some(id) => {
                    if self.can_read(id) {
                        Reply::Outputs(self.outputs_of(id))
                    } else {
                        Reply::Outputs(Vec::new())
                    }
                },
                None => Reply::Failed(Failure::NotFound(args[0].clone())),
            }
        }
    }

    /// Carries out `remove <target>`. The outputs of the other nodes are
    /// not touched.
    pub fn remove(&mut self, args: &[String]) -> (res: Reply)
        requires
            old(self).wf(),
        ensures
            final(self).wf(),
            (final(self)@, res@) == old(self)@.remove_step(texts(args@)),
    {
        if args.len() != 1 {
            Reply::Failed(Failure::WrongArity(IDX_REMOVE))
        } else {
            assert(texts(args@)[0] == args@[0]@);
            match self.find_by_id_or_name(args[0].as_str()) {
                Some(id) => {
                    self.delete(id);
                    Reply::Removed(id)
                },
                None => Reply::Failed(Failure::NotFound(args[0].clone())),
            }
        }
    }

    /// Carries out `cfg <target> <sub-args...>`: the words after the
    /// target go to the node.
    pub fn cfg(&mut self, args: &[String]) -> (res: Reply)
        requires
            old(self).wf(),
        ensures
            final(self).wf(),
            (final(self)@, res@) == old(self)@.cfg_step(texts(args@)),
    {
        if args.len() < 1 {
            Reply::Failed(Failure::WrongArity(IDX_CFG))
        } else {
            assert(texts(args@)[0] == args@[0]@);
            match self.find_by_id_or_name(args[0].as_str()) {
                Some(id) => {
                    let rest = slice_subrange(args, 1, args.len());
                    assert(texts(rest@) =~= texts(args@).skip(1));
                    Reply::Configured(self.configure(id, rest))
                },
                None => Reply::Failed(Failure::NotFound(args[0].clone())),
            }
        }
    }

    /// Carries out `new <kind> <name> [args...]`. The kind may be
    /// abbreviated. A filter or a merge is created at once. For an input
    /// or an output the reply names the port to open; the node is put in
    /// with `insert` once the transport has opened it.
    pub fn new_vp(&mut self, args: &[String]) -> (res: Reply)
        requires
            old(self).wf(),
            old(self)@.can_allocate(),
        ensures
            final(self).wf(),
            (final(self)@, res@) == old(self)@.new_step(texts(args@)),
    {
        if args.len() < 2 {
            return Reply::Failed(Failure::Rejected(MMMErr::ArgError));
        }
        assert(texts(args@)[0] == args@[0]@ && texts(args@)[1] == args@[1]@);
        let rest = slice_subrange(args, 2, args.len());
        assert(texts(rest@) =~= texts(args@).skip(2));
        let name = args[1].clone();
        match shortened_keyword_match(args[0].as_str(), PROCESSORS.as_slice()) {
            None => Reply::Failed(Failure::UnknownKind(args[0].clone())),
            Some(idx) => {
                if idx == IDX_INPUT {
                    match MidiIn::new_args(name, rest) {
                        Ok(request) => Reply::Open(request),
                        Err(e) => Reply::Failed(Failure::Rejected(e)),
                    }
                } else if idx == IDX_OUTPUT {
                    match MidiOut::new_args(name, rest) {
                        Ok(request) => Reply::Open(request),
                        Err(e) => Reply::Failed(Failure::Rejected(e)),
                    }
                } else if idx == IDX_CHANNELFILTER {
                    match ChannelFilter::new_args(name, rest) {
                        Ok(node) => Reply::Created(self.insert(MidiIO::ChannelFilter(node))),
                        Err(e) => Reply::Failed(Failure::Rejected(e)),
                    }
                } else {
                    match ChannelMerge::new_args(name, rest) {
                        Ok(node) => Reply::Created(self.insert(MidiIO::ChannelMerge(node))),
                        Err(e) => Reply::Failed(Failure::Rejected(e)),
                    }
                }
            },
        }
    }

    /// Carries out a command given as its words. The first word is the
    /// command, which may be abbreviated; no words at all change nothing.
    pub fn do_tokens(&mut self, parts: &[String]) -> (res: Reply)
        requires
            old(self).wf(),
            old(self)@.can_allocate(),
        ensures
            final(self).wf(),
            (final(self)@, res@) == old(self)@.step(texts(parts@)),
    {
        if parts.len() == 0 {
            return Reply::Done;
        }
        assert(texts(parts@)[0] == parts@[0]@);
        let args = slice_subrange(parts, 1, parts.len());
        assert(texts(args@) =~= texts(parts@).skip(1));
        match shortened_keyword_match(parts[0].as_str(), COMMANDS.as_slice()) {
            None => Reply::Failed(Failure::CommandNotFound),
            Some(idx) => {
                if idx == IDX_EXIT {
                    Reply::Exit
                } else if idx == IDX_LIST || idx == IDX_LS {
                    self.list()
                } else if idx == IDX_RENAME {
                    self.rename(args)
                } else if idx == IDX_CONNECT {
                    self.connect(args, false)
                } else if idx == IDX_DISCONNECT {
                    self.connect(args, true)
                } else if idx == IDX_CFG {
                    self.cfg(args)
                } else if idx == IDX_INIT || idx == IDX_NEW {
                    self.new_vp(args)
                } else if idx == IDX_REMOVE {
                    self.remove(args)
                } else if idx == IDX_INPUTS {
                    Reply::Inputs
                } else {
                    self.outputs(args)
                }
            },
        }
    }

    /// Carries out one line of the operator: the line is split into words
    /// as a shell would, and the words are carried out as a command. A
    /// line with a quote that is not closed changes nothing.
    pub fn do_command(&mut self, command: &str) -> (res: Reply)
        requires
            old(self).wf(),
            old(self)@.can_allocate(),
        ensures
            final(self).wf(),
            match shell_split(command@) {
                Some(tokens) => (final(self)@, res@) == old(self)@.step(tokens),
                None => final(self)@ == old(self)@ && res@ == ReplyView::Done,
            },
    {
        match split(command) {
            Ok(parts) => self.do_tokens(parts.as_slice()),
            Err(_) => Reply::Done,
        }
    }
}

} // verus!
