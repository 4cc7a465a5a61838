use midi_mapping_manager::commands::{Failure, Reply};
use midi_mapping_manager::manager::MidiManager;
use midi_mapping_manager::shell::{
    lines_of, Intake, LineAction, Messenger, MetaCommand, MetaFailure, Shell,
};

fn args(words: &[&str]) -> Vec<String> {
    words.iter().map(|w| w.to_string()).collect()
}

#[test]
fn new_mailbox_is_free_and_empty() {
    let mut msgr = Messenger::new();
    assert!(!msgr.shell_wait);
    assert!(!msgr.exiting);
    assert_eq!(msgr.read_message(), None);
    assert!(!msgr.shell_wait);
}

#[test]
fn mailbox_holds_one_line_and_stays_busy() {
    let mut msgr = Messenger::new();
    msgr.set_message("list".to_string());
    assert!(msgr.shell_wait);
    assert!(!msgr.exiting);
    assert_eq!(msgr.read_message(), Some("list".to_string()));
    assert!(msgr.shell_wait);
    assert_eq!(msgr.read_message(), None);
    assert!(msgr.shell_wait);
    msgr.set_message("a".to_string());
    msgr.set_message("b".to_string());
    assert_eq!(msgr.read_message(), Some("b".to_string()));
}

#[test]
fn mailbox_keeps_the_exiting_flag() {
    let mut msgr = Messenger::new();
    msgr.exiting = true;
    msgr.set_message("x".to_string());
    assert!(msgr.exiting);
    assert_eq!(msgr.read_message(), Some("x".to_string()));
    assert!(msgr.exiting);
}

#[test]
fn serve_carries_out_the_pending_line_and_frees_the_mailbox() {
    let mut mm = MidiManager::new();
    let mut msgr = Messenger::new();
    assert_eq!(mm.serve(&mut msgr), None);
    assert!(!msgr.shell_wait);
    msgr.set_message("new channelfilter f 3".to_string());
    assert_eq!(mm.serve(&mut msgr), Some(Reply::Created(0)));
    assert!(!msgr.shell_wait);
    assert_eq!(msgr.read_message(), None);
    assert_eq!(mm.serve(&mut msgr), None);
    assert_eq!(mm.live_ids(), vec![0]);
}

#[test]
fn serve_frees_the_mailbox_after_an_invalid_line_too() {
    let mut mm = MidiManager::new();
    let mut msgr = Messenger::new();
    msgr.set_message("bogus".to_string());
    assert_eq!(mm.serve(&mut msgr), Some(Reply::Failed(Failure::CommandNotFound)));
    assert!(!msgr.shell_wait);
    msgr.set_message("rename \"unclosed".to_string());
    assert_eq!(mm.serve(&mut msgr), Some(Reply::Done));
    assert!(!msgr.shell_wait);
    msgr.set_message("".to_string());
    assert_eq!(mm.serve(&mut msgr), Some(Reply::Done));
    assert!(!msgr.shell_wait);
}

#[test]
fn serve_leaves_a_busy_mailbox_without_a_line_busy() {
    let mut mm = MidiManager::new();
    let mut msgr = Messenger::new();
    msgr.set_message("list".to_string());
    assert_eq!(msgr.read_message(), Some("list".to_string()));
    assert_eq!(mm.serve(&mut msgr), None);
    assert!(msgr.shell_wait);
}

#[test]
fn intake_reads_when_nothing_is_queued() {
    let mut shell = Shell::new();
    let mut msgr = Messenger::new();
    assert_eq!(shell.poll(&mut msgr), Intake::ReadLine);
    assert!(!msgr.shell_wait);
    assert_eq!(msgr.read_message(), None);
}

#[test]
fn intake_sends_queued_lines_one_at_a_time() {
    let mut shell = Shell::new();
    let mut msgr = Messenger::new();
    assert_eq!(shell.do_line("first".to_string()), LineAction::Queued);
    assert_eq!(shell.do_line("second".to_string()), LineAction::Queued);
    assert_eq!(shell.poll(&mut msgr), Intake::Sent);
    assert!(msgr.shell_wait);
    assert_eq!(shell.poll(&mut msgr), Intake::Wait);
    assert_eq!(shell.poll(&mut msgr), Intake::Wait);
    assert_eq!(msgr.read_message(), Some("first".to_string()));
    assert_eq!(shell.poll(&mut msgr), Intake::Wait);
    assert_eq!(msgr.read_message(), None);
    msgr.shell_wait = false;
    assert_eq!(shell.poll(&mut msgr), Intake::Sent);
    assert_eq!(msgr.read_message(), Some("second".to_string()));
    msgr.shell_wait = false;
    assert_eq!(shell.poll(&mut msgr), Intake::ReadLine);
}

#[test]
fn intake_stops_when_asked() {
    let mut shell = Shell::new();
    let mut msgr = Messenger::new();
    shell.do_line("queued".to_string());
    msgr.exiting = true;
    assert_eq!(shell.poll(&mut msgr), Intake::Stop);
    assert_eq!(msgr.read_message(), None);
    msgr.shell_wait = true;
    assert_eq!(shell.poll(&mut msgr), Intake::Wait);
}

#[test]
fn lines_are_ignored_queued_or_kept() {
    let mut shell = Shell::new();
    let mut msgr = Messenger::new();
    assert_eq!(shell.do_line("".to_string()), LineAction::Ignored);
    assert_eq!(shell.do_line(".".to_string()), LineAction::Ignored);
    assert_eq!(shell.do_line(". ".to_string()), LineAction::Meta(MetaCommand::Nothing));
    assert_eq!(
        shell.do_line(".load setup.txt".to_string()),
        LineAction::Meta(MetaCommand::Load("setup.txt".to_string()))
    );
    assert_eq!(shell.poll(&mut msgr), Intake::ReadLine);
    assert_eq!(shell.do_line(" ".to_string()), LineAction::Queued);
    assert_eq!(shell.do_line("list".to_string()), LineAction::Queued);
    assert_eq!(shell.poll(&mut msgr), Intake::Sent);
    assert_eq!(msgr.read_message(), Some(" ".to_string()));
}

#[test]
fn commands_of_the_intake() {
    assert_eq!(Shell::do_command("load a.txt"), MetaCommand::Load("a.txt".to_string()));
    assert_eq!(Shell::do_command("l 'my file'"), MetaCommand::Load("my file".to_string()));
    assert_eq!(Shell::do_command("load"), MetaCommand::Failed(MetaFailure::LoadArity));
    assert_eq!(Shell::do_command("load a b"), MetaCommand::Failed(MetaFailure::LoadArity));
    assert_eq!(
        Shell::do_command("run gen.py --fast 'two words'"),
        MetaCommand::Run(args(&["gen.py", "--fast", "two words"]))
    );
    assert_eq!(Shell::do_command("r prog"), MetaCommand::Run(args(&["prog"])));
    assert_eq!(Shell::do_command("run"), MetaCommand::Failed(MetaFailure::RunArity));
    assert_eq!(Shell::do_command("reload x"), MetaCommand::Failed(MetaFailure::CommandNotFound));
    assert_eq!(Shell::do_command("x"), MetaCommand::Failed(MetaFailure::CommandNotFound));
    assert_eq!(Shell::do_command(""), MetaCommand::Nothing);
    assert_eq!(Shell::do_command("   "), MetaCommand::Nothing);
    assert_eq!(Shell::do_command("load 'unclosed"), MetaCommand::Nothing);
    assert_eq!(Shell::do_tokens(&args(&["lo", "f"])), MetaCommand::Load("f".to_string()));
    assert_eq!(Shell::do_tokens(&[]), MetaCommand::Nothing);
    assert_eq!(Shell::load(&args(&["f"])), MetaCommand::Load("f".to_string()));
    assert_eq!(Shell::load(&[]), MetaCommand::Failed(MetaFailure::LoadArity));
    assert_eq!(Shell::run_mc(&args(&["p", "q"])), MetaCommand::Run(args(&["p", "q"])));
    assert_eq!(Shell::run_mc(&[]), MetaCommand::Failed(MetaFailure::RunArity));
}

#[test]
fn text_is_cut_at_line_feeds() {
    assert_eq!(lines_of(""), vec![""]);
    assert_eq!(lines_of("a"), vec!["a"]);
    assert_eq!(lines_of("a\nb"), vec!["a", "b"]);
    assert_eq!(lines_of("a\n"), vec!["a", ""]);
    assert_eq!(lines_of("\n"), vec!["", ""]);
    assert_eq!(lines_of("\n\na b\n c"), vec!["", "", "a b", " c"]);
    assert_eq!(lines_of("é\nü"), vec!["é", "ü"]);
    let text = "one\ntwo\n\nthree\n";
    let expected: Vec<&str> = text.split('\n').collect();
    assert_eq!(lines_of(text), expected);
}

#[test]
fn text_is_taken_in_line_by_line() {
    let mut shell = Shell::new();
    let mut msgr = Messenger::new();
    let done = shell.do_text("new channelfilter f 1\n\n.load more.txt\nlist\n.\n");
    assert_eq!(
        done,
        vec![
            LineAction::Queued,
            LineAction::Ignored,
            LineAction::Meta(MetaCommand::Load("more.txt".to_string())),
            LineAction::Queued,
            LineAction::Ignored,
            LineAction::Ignored,
        ]
    );
    assert_eq!(shell.poll(&mut msgr), Intake::Sent);
    assert_eq!(msgr.read_message(), Some("new channelfilter f 1".to_string()));
    msgr.shell_wait = false;
    assert_eq!(shell.poll(&mut msgr), Intake::Sent);
    assert_eq!(msgr.read_message(), Some("list".to_string()));
    msgr.shell_wait = false;
    assert_eq!(shell.poll(&mut msgr), Intake::ReadLine);
}

#[test]
fn intake_and_routing_loop_hand_lines_over() {
    let mut shell = Shell::new();
    let mut msgr = Messenger::new();
    let mut mm = MidiManager::new();
    shell.do_text("new channelfilter a 1\nnew channelmerge b 2\nconnect a b\nbogus\nls");
    let mut replies = Vec::new();
    for _ in 0..20 {
        shell.poll(&mut msgr);
        mm.update_map(0);
        if let Some(reply) = mm.serve(&mut msgr) {
            replies.push(reply);
        }
    }
    assert_eq!(
        replies,
        vec![
            Reply::Created(0),
            Reply::Created(1),
            Reply::Done,
            Reply::Failed(Failure::CommandNotFound),
            Reply::Listing(vec![
                (0, "a (channelfilter)".to_string()),
                (1, "b (channelmerge)".to_string())
            ]),
        ]
    );
    assert_eq!(mm.outputs_of(0), vec![1]);
    assert!(!msgr.shell_wait);
}
