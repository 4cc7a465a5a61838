//! The intake of lines from the operator, and the mailbox that hands one
//! line at a time to the routing loop.
//!
//! The intake reads lines, keeps the commands it understands itself (the
//! ones written after a dot) and queues the others. The mailbox holds at
//! most one line. The intake puts a line in only while the mailbox is not
//! busy; the routing loop takes the line out, carries it out, and then
//! marks the mailbox free again.

use crate::commands::{shell_split, split, Reply, ReplyView};
use crate::consts::{metacommand_words, IDX_LOAD, METACOMMANDS};
use crate::manager::MidiManager;
use crate::utils::{keyword_match, shortened_keyword_match, texts};
use std::collections::VecDeque;
use vstd::prelude::*;
use vstd::slice::slice_subrange;
use vstd::string::{StrSliceExecFns, StringExecFns};

verus! {

/// The mailbox between the intake and the routing loop.
pub struct Messenger {
    /// A line is pending or being carried out: the intake has to wait.
    pub shell_wait: bool,
    /// The intake was asked to stop.
    pub exiting: bool,
    command: Option<String>,
}

/// Mathematical model of the mailbox.
pub struct Mailbox {
    /// A line is pending or being carried out.
    pub busy: bool,
    /// The intake was asked to stop.
    pub exiting: bool,
    /// The line that waits in the mailbox, if there is one.
    pub pending: Option<Seq<char>>,
}

impl View for Messenger {
    type V = Mailbox;

    closed spec fn view(&self) -> Mailbox {
        Mailbox {
            busy: self.shell_wait,
            exiting: self.exiting,
            pending: match self.command {
                Some(line) => Some(line@),
                None => None,
            },
        }
    }
}

impl Messenger {

    /// An empty mailbox, neither busy nor asked to stop.
    pub fn new() -> (res: Messenger)
        ensures
            res@ == (Mailbox { busy: false, exiting: false, pending: None }),
    {
        Messenger { shell_wait: false, exiting: false, command: None }
    }

    /// Puts a line into the mailbox and marks the mailbox busy.
    pub fn set_message(&mut self, msg: String)
        ensures
            final(self)@ == (Mailbox { busy: true, pending: Some(msg@), ..old(self)@ }),
    {
        self.shell_wait = true;
        self.command = Some(msg)
    }

    /// Takes the pending line out of the mailbox, if there is one. The
    /// mailbox stays busy until the line has been carried out.
    pub fn read_message(&mut self) -> (res: Option<String>)
        ensures
            match res {
                Some(line) => old(self)@.pending == Some(line@),
                None => old(self)@.pending is None,
            },
            final(self)@ == (Mailbox { pending: None, ..old(self)@ }),
    {
        self.command.take()
    }
}

impl MidiManager {
    /// Serves the mailbox once: the pending line, if there is one, is taken
    /// out and carried out, and then the mailbox is marked free, whatever
    /// came of the line. Without a pending line nothing changes.
    pub fn serve(&mut self, msgr: &mut Messenger) -> (res: Option<Reply>)
        requires
            old(self).wf(),
            old(self)@.can_allocate(),
        ensures
            final(self).wf(),
            match old(msgr)@.pending {
                Some(line) => {
                    &&& final(msgr)@ == (Mailbox { busy: false, pending: None, ..old(msgr)@ })
                    &&& res matches Some(reply)
                    &&& match shell_split(line) {
                        Some(tokens) => (final(self)@, reply@) == old(self)@.step(tokens),
                        None => final(self)@ == old(self)@ && reply@ == ReplyView::Done,
                    }
                },
                None => {
                    &&& final(msgr)@ == old(msgr)@
                    &&& res is None
                    &&& final(self)@ == old(self)@
                },
            },
    {
        match msgr.read_message() {
            Some(cmd) => {
                let reply = self.do_command(cmd.as_str());
                msgr.shell_wait = false;
                Some(reply)
            },
            None => None,
        }
    }
}

/// Why a command of the intake was not carried out.
#[derive(Clone, Copy, Debug, PartialEq, Eq, Structural)]
pub enum MetaFailure {
    /// The word is no command of the intake, or abbreviates several.
    CommandNotFound,
    /// `load` takes exactly one argument.
    LoadArity,
    /// `run` takes at least one argument.
    RunArity,
}

/// What a command of the intake asks for.
#[derive(Clone, Debug, PartialEq, Eq)]
pub enum MetaCommand {
    /// There was no command: the text after the dot holds no word, or a
    /// quote that is not closed.
    Nothing,
    /// Read the file of this name and feed its text to the intake.
    Load(String),
    /// Run the program that the first word names, with the other words as
    /// its arguments, and feed what it prints to the intake.
    Run(Vec<String>),
    /// The command was not carried out.
    Failed(MetaFailure),
}

/// Mathematical model of a command of the intake.
pub enum MetaCommandView {
    Nothing,
    Load(Seq<char>),
    Run(Seq<Seq<char>>),
    Failed(MetaFailure),
}

impl View for MetaCommand {
    type V = MetaCommandView;

    open spec fn view(&self) -> MetaCommandView {
        match self {
            MetaCommand::Nothing => MetaCommandView::Nothing,
            MetaCommand::Load(path) => MetaCommandView::Load(path@),
            MetaCommand::Run(argv) => MetaCommandView::Run(texts(argv@)),
            MetaCommand::Failed(failure) => MetaCommandView::Failed(*failure),
        }
    }
}

/// What the intake did with a line.
#[derive(Clone, Debug, PartialEq, Eq)]
pub enum LineAction {
    /// The line was empty, or a dot with nothing behind it.
    Ignored,
    /// The line was queued for the routing loop.
    Queued,
    /// The line was a command of the intake.
    Meta(MetaCommand),
}

/// Mathematical model of what the intake did with a line.
pub enum LineActionView {
    Ignored,
    Queued,
    Meta(MetaCommandView),
}

impl View for LineAction {
    type V = LineActionView;

    open spec fn view(&self) -> LineActionView {
        match self {
            LineAction::Ignored => LineActionView::Ignored,
            LineAction::Queued => LineActionView::Queued,
            LineAction::Meta(meta) => LineActionView::Meta(meta@),
        }
    }
}

/// What the intake has to do next.
#[derive(Clone, Copy, Debug, PartialEq, Eq, Structural)]
pub enum Intake {
    /// The mailbox is busy: wait and ask again.
    Wait,
    /// The intake was asked to stop.
    Stop,
    /// Nothing is queued: read a line from the operator and hand it to
    /// `do_line`.
    ReadLine,
    /// The oldest queued line was put into the mailbox.
    Sent,
}

/// What a command of the intake, given as its words, asks for.
pub open spec fn meta_step(tokens: Seq<Seq<char>>) -> MetaCommandView {
    if tokens.len() == 0 {
        MetaCommandView::Nothing
    } else {
        let args = tokens.skip(1);
        match keyword_match(tokens[0], metacommand_words()) {
            None => MetaCommandView::Failed(MetaFailure::CommandNotFound),
            Some(idx) => if idx == IDX_LOAD {
                if args.len() != 1 {
                    MetaCommandView::Failed(MetaFailure::LoadArity)
                } else {
                    MetaCommandView::Load(args[0])
                }
            } else {
                if args.len() == 0 {
                    MetaCommandView::Failed(MetaFailure::RunArity)
                } else {
                    MetaCommandView::Run(args)
                }
            },
        }
    }
}

/// What the text after the dot of a line asks for.
pub open spec fn meta_of(command: Seq<char>) -> MetaCommandView {
    match shell_split(command) {
        Some(tokens) => meta_step(tokens),
        None => MetaCommandView::Nothing,
    }
}

/// What the intake does with a line, and the queue after it: an empty line
/// is ignored, a line that starts with a dot is a command of the intake,
/// and any other line is queued behind the lines that wait.
pub open spec fn line_step(queue: Seq<Seq<char>>, line: Seq<char>) -> (
    Seq<Seq<char>>,
    LineActionView,
) {
    if line.len() == 0 {
        (queue, LineActionView::Ignored)
    } else if line[0] == '.' {
        if line.len() > 1 {
            (queue, LineActionView::Meta(meta_of(line.skip(1))))
        } else {
            (queue, LineActionView::Ignored)
        }
    } else {
        (queue.push(line), LineActionView::Queued)
    }
}

/// The pieces of a text between its line feeds, in order. A text with `n`
/// line feeds has `n + 1` pieces, some of which may be empty.
pub open spec fn split_lines(text: Seq<char>) -> Seq<Seq<char>>
    decreases text.len(),
{
    if text.len() == 0 {
        seq![Seq::empty()]
    } else {
        let before = split_lines(text.drop_last());
        if text.last() == '\n' {
            before.push(Seq::empty())
        } else {
            before.drop_last().push(before.last().push(text.last()))
        }
    }
}

/// Cuts a text into the pieces between its line feeds.
pub fn lines_of(text: &str) -> (res: Vec<String>)
    ensures
        texts(res@) == split_lines(text@),
        res@.len() > 0,
{
    let n = text.unicode_len();
    let mut res: Vec<String> = Vec::new();
    let mut start: usize = 0;
    let mut i: usize = 0;
    assert(text@.take(0) =~= Seq::empty());
    assert(split_lines(text@.take(0)) =~= texts(res@).push(text@.subrange(0, 0)));
    while i < n
        invariant
            n == text@.len(),
            start <= i <= n,
            split_lines(text@.take(i as int)) == texts(res@).push(
                text@.subrange(start as int, i as int),
            ),
        decreases n - i,
    {
        let upto = Ghost(text@.take(i + 1));
        proof {
            assert(upto@.drop_last() =~= text@.take(i as int));
            assert(upto@.last() == text@[i as int]);
        }
        if text.get_char(i) == '\n' {
            let piece = String::from_str(text.substring_char(start, i));
            let ghost before = texts(res@);
            res.push(piece);
            start = i + 1;
            proof {
                assert(texts(res@) =~= before.push(piece@));
                assert(text@.subrange(start as int, i + 1) =~= Seq::empty());
            }
        } else {
            proof {
                let before = split_lines(text@.take(i as int));
                assert(before.drop_last() =~= texts(res@));
                assert(before.last().push(text@[i as int]) =~= text@.subrange(
                    start as int,
                    i + 1,
                ));
            }
        }
        i += 1;
    }
    let piece = String::from_str(text.substring_char(start, n));
    let ghost before = texts(res@);
    res.push(piece);
    proof {
        assert(text@.take(n as int) =~= text@);
        assert(texts(res@) =~= before.push(piece@));
    }
    res
}

/// The intake's side of the handoff: the lines that wait for the mailbox.
pub struct Shell {
    int_buf: VecDeque<String>,
}

impl View for Shell {
    type V = Seq<Seq<char>>;

    /// The queued lines, the oldest first.
    closed spec fn view(&self) -> Seq<Seq<char>> {
        texts(self.int_buf@)
    }
}

impl Shell {
    /// An intake with nothing queued.
    pub fn new() -> (res: Shell)
        ensures
            res@ == Seq::<Seq<char>>::empty(),
    {
        let res = Shell { int_buf: VecDeque::new() };
        assert(res@ =~= Seq::empty());
        res
    }

    /// Decides what the intake does next, and does it where that needs no
    /// reading. While the mailbox is busy the intake waits, so that no
    /// second line is put in before the first has been carried out. A
    /// free mailbox gets the oldest queued line; with nothing queued the
    /// intake has to read a line.
    pub fn poll(&mut self, msgr: &mut Messenger) -> (res: Intake)
        ensures
            res == if old(msgr)@.busy {
                Intake::Wait
            } else if old(msgr)@.exiting {
                Intake::Stop
            } else if old(self)@.len() == 0 {
                Intake::ReadLine
            } else {
                Intake::Sent
            },
            res != Intake::Sent ==> final(self)@ == old(self)@ && final(msgr)@ == old(msgr)@,
            res == Intake::Sent ==> {
                &&& final(self)@ == old(self)@.skip(1)
                &&& final(msgr)@ == (Mailbox {
                    busy: true,
                    pending: Some(old(self)@[0]),
                    ..old(msgr)@
                })
            },
    {
        if msgr.shell_wait {
            Intake::Wait
        } else if msgr.exiting {
            Intake::Stop
        } else if self.int_buf.len() == 0 {
            Intake::ReadLine
        } else {
            self.send_msg(msgr);
            Intake::Sent
        }
    }

    /// Takes in one line: an empty line is ignored, a line that starts
    /// with a dot is a command of the intake, and any other line is queued
    /// for the routing loop.
    pub fn do_line(&mut self, line: String) -> (res: LineAction)
        ensures
            (final(self)@, res@) == line_step(old(self)@, line@),
    {
        let n = line.as_str().unicode_len();
        if n == 0 {
            return LineAction::Ignored;
        }
        if line.as_str().get_char(0) == '.' {
            if n > 1 {
                let rest = line.as_str().substring_char(1, n);
                assert(rest@ =~= line@.skip(1));
                LineAction::Meta(Self::do_command(rest))
            } else {
                LineAction::Ignored
            }
        } else {
            let ghost before = self.int_buf@;
            self.int_buf.push_back(line);
            assert(texts(self.int_buf@) =~= texts(before).push(line@));
            LineAction::Queued
        }
    }

    /// Takes in a text of several lines, such as a file of commands, line
    /// by line. The answer tells what was done with each line.
    pub fn do_text(&mut self, text: &str) -> (res: Vec<LineAction>)
        ensures
            res@.len() == split_lines(text@).len(),
            (final(self)@, actions(res@)) == text_step(old(self)@, split_lines(text@)),
    {
        let lines = lines_of(text);
        let mut res: Vec<LineAction> = Vec::new();
        let mut i: usize = 0;
        let ghost all = texts(lines@);
        assert(all.take(0) =~= Seq::empty());
        assert(actions(res@) =~= Seq::empty());
        while i < lines.len()
            invariant
                i <= lines@.len(),
                all == texts(lines@),
                res@.len() == i,
                (self@, actions(res@)) == text_step(old(self)@, all.take(i as int)),
            decreases lines@.len() - i,
        {
            let ghost done = actions(res@);
            let action = self.do_line(lines[i].clone());
            res.push(action);
            proof {
                assert(all.take(i + 1).drop_last() =~= all.take(i as int));
                assert(all.take(i + 1).last() == lines@[i as int]@);
                assert(actions(res@) =~= done.push(action@));
            }
            i += 1;
        }
        assert(all.take(i as int) =~= all);
        res
    }

    /// Decides what a command of the intake, given as its words, asks for.
    /// The first word is `load` or `run`, which may be abbreviated.
    pub fn do_tokens(parts: &[String]) -> (res: MetaCommand)
        ensures
            res@ == meta_step(texts(parts@)),
    {
        if parts.len() == 0 {
            return MetaCommand::Nothing;
        }
        assert(texts(parts@)[0] == parts@[0]@);
        let args = slice_subrange(parts, 1, parts.len());
        assert(texts(args@) =~= texts(parts@).skip(1));
        match shortened_keyword_match(parts[0].as_str(), METACOMMANDS.as_slice()) {
            None => MetaCommand::Failed(MetaFailure::CommandNotFound),
            Some(idx) => {
                if idx == IDX_LOAD {
                    Self::load(args)
                } else {
                    Self::run_mc(args)
                }
            },
        }
    }

    /// Decides what the text after the dot of a line asks for: the text is
    /// split into words as a shell would, and the words are the command.
    pub fn do_command(command: &str) -> (res: MetaCommand)
        ensures
            res@ == meta_of(command@),
    {
        match split(command) {
            Ok(parts) => Self::do_tokens(parts.as_slice()),
            Err(_) => MetaCommand::Nothing,
        }
    }

    /// Puts the oldest queued line into the mailbox. With nothing queued
    /// nothing changes.
    fn send_msg(&mut self, msgr: &mut Messenger)
        ensures
            old(self)@.len() == 0 ==> final(self)@ == old(self)@ && final(msgr)@ == old(msgr)@,
            old(self)@.len() > 0 ==> {
                &&& final(self)@ == old(self)@.skip(1)
                &&& final(msgr)@ == (Mailbox {
                    busy: true,
                    pending: Some(old(self)@[0]),
                    ..old(msgr)@
                })
            },
    {
        let ghost before = self.int_buf@;
        if let Some(line) = self.int_buf.pop_front() {
            assert(texts(self.int_buf@) =~= texts(before).skip(1));
            assert(texts(before)[0] == line@);
            msgr.set_message(line);
        }
    }

    /// Checks the arguments of `run`: the program and its arguments, at
    /// least the program.
    pub fn run_mc(args: &[String]) -> (res: MetaCommand)
        ensures
            res@ == if args@.len() == 0 {
                MetaCommandView::Failed(MetaFailure::RunArity)
            } else {
                MetaCommandView::Run(texts(args@))
            },
    {
        if args.len() == 0 {
            MetaCommand::Failed(MetaFailure::RunArity)
        } else {
            let mut argv: Vec<String> = Vec::new();
            let mut i: usize = 0;
            while i < args.len()
                invariant
                    i <= args@.len(),
                    argv@.len() == i,
                    forall|k: int| 0 <= k < i ==> (#[trigger] argv@[k])@ == args@[k]@,
                decreases args@.len() - i,
            {
                argv.push(args[i].clone());
                i += 1;
            }
            assert(texts(argv@) =~= texts(args@));
            MetaCommand::Run(argv)
        }
    }

    /// Checks the arguments of `load`: exactly one, the name of the file.
    pub fn load(args: &[String]) -> (res: MetaCommand)
        ensures
            res@ == if args@.len() != 1 {
                MetaCommandView::Failed(MetaFailure::LoadArity)
            } else {
                MetaCommandView::Load(texts(args@)[0])
            },
    {
        if args.len() != 1 {
            MetaCommand::Failed(MetaFailure::LoadArity)
        } else {
            assert(texts(args@)[0] == args@[0]@);
            MetaCommand::Load(args[0].clone())
        }
    }
}

/// The models of what was done with a run of lines.
pub open spec fn actions(done: Seq<LineAction>) -> Seq<LineActionView> {
    done.map_values(|a: LineAction| a@)
}

/// What the intake does with a run of lines, one after the other, and
/// the queue after the last.
pub open spec fn text_step(queue: Seq<Seq<char>>, lines: Seq<Seq<char>>) -> (
    Seq<Seq<char>>,
    Seq<LineActionView>,
)
    decreases lines.len(),
{
    if lines.len() == 0 {
        (queue, Seq::empty())
    } else {
        let before = text_step(queue, lines.drop_last());
        let last = line_step(before.0, lines.last());
        (last.0, before.1.push(last.1))
    }
}

} // verus!
