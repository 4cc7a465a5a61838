use midi_mapping_manager::message::MidiMessage;
use midi_mapping_manager::processors::channelfilter::ChannelFilter;
use midi_mapping_manager::processors::channelmerge::ChannelMerge;
use midi_mapping_manager::processors::connection::{process_msg, MidiIn, MidiOut, PortRequest};
use midi_mapping_manager::processors::dummyplayer::DummyPlayer;
use midi_mapping_manager::processors::{
    parse_channel, parse_channel_change, CfgReply, MidiIO, NodeKind,
};
use midi_mapping_manager::utils::MMMErr;

fn args(words: &[&str]) -> Vec<String> {
    words.iter().map(|w| w.to_string()).collect()
}

fn note(channel: u8, key: u8) -> MidiMessage {
    MidiMessage::from_slice(0, &[0x90 | (channel - 1), key, 100]).unwrap()
}

fn bytes_of(batch: &[MidiMessage]) -> Vec<Vec<u8>> {
    batch.iter().map(|m| m.to_bytes()).collect()
}

#[test]
fn channel_argument() {
    assert_eq!(parse_channel(&args(&["1"])), Ok(1));
    assert_eq!(parse_channel(&args(&["16"])), Ok(16));
    assert_eq!(parse_channel(&args(&["+5"])), Ok(5));
    assert_eq!(parse_channel(&args(&["0"])), Err(MMMErr::ArgError));
    assert_eq!(parse_channel(&args(&["17"])), Err(MMMErr::ArgError));
    assert_eq!(parse_channel(&args(&["255"])), Err(MMMErr::ArgError));
    assert_eq!(parse_channel(&args(&["256"])), Err(MMMErr::ParseError));
    assert_eq!(parse_channel(&args(&["five"])), Err(MMMErr::ParseError));
    assert_eq!(parse_channel(&args(&[""])), Err(MMMErr::ParseError));
    assert_eq!(parse_channel(&args(&[])), Err(MMMErr::ArgError));
    assert_eq!(parse_channel(&args(&["1", "2"])), Err(MMMErr::ArgError));
}

#[test]
fn channel_change_request() {
    assert_eq!(parse_channel_change(&args(&[])), CfgReply::ChannelRequired);
    assert_eq!(parse_channel_change(&args(&["x"])), CfgReply::ChannelUnparsed);
    assert_eq!(parse_channel_change(&args(&["300"])), CfgReply::ChannelUnparsed);
    assert_eq!(parse_channel_change(&args(&["0"])), CfgReply::ChannelOutOfRange);
    assert_eq!(parse_channel_change(&args(&["17"])), CfgReply::ChannelOutOfRange);
    assert_eq!(parse_channel_change(&args(&["9"])), CfgReply::ChannelChanged(9));
    assert_eq!(parse_channel_change(&args(&["9", "rest"])), CfgReply::ChannelChanged(9));
}

#[test]
fn filter_rejects_bad_arguments() {
    assert_eq!(ChannelFilter::new_args("f".into(), &args(&[])).err(), Some(MMMErr::ArgError));
    assert_eq!(ChannelFilter::new_args("f".into(), &args(&["0"])).err(), Some(MMMErr::ArgError));
    assert_eq!(ChannelFilter::new_args("f".into(), &args(&["17"])).err(), Some(MMMErr::ArgError));
    assert_eq!(ChannelFilter::new_args("f".into(), &args(&["a"])).err(), Some(MMMErr::ParseError));
    assert_eq!(
        ChannelFilter::new_args("f".into(), &args(&["1", "2"])).err(),
        Some(MMMErr::ArgError)
    );
    assert!(ChannelFilter::new_args("f".into(), &args(&["1"])).is_ok());
    assert!(ChannelFilter::new_args("f".into(), &args(&["16"])).is_ok());
}

#[test]
fn filter_keeps_only_its_channel() {
    let mut filter = ChannelFilter::new_args("five".into(), &args(&["5"])).unwrap();
    let mut batch = Vec::new();
    for c in 1u8..=16 {
        batch.push(note(c, c));
        batch.push(MidiMessage::from_slice(0, &[0xc0 | (c - 1), c]).unwrap());
    }
    batch.push(MidiMessage::from_slice(0, &[0xf8]).unwrap());
    batch.push(MidiMessage::from_slice(0, &[0xf0, 4, 0xf7]).unwrap());
    batch.push(note(5, 99));
    filter.write(&batch);
    let out = filter.read();
    assert_eq!(bytes_of(&out), vec![vec![0x94, 5, 100], vec![0xc4, 5], vec![0x94, 99, 100]]);
    assert!(filter.read().is_empty());
}

#[test]
fn filter_keeps_forwarding_after_a_message_on_another_channel() {
    let mut filter = ChannelFilter::new_args("two".into(), &args(&["2"])).unwrap();
    filter.write(&[note(2, 1), note(3, 2), note(2, 3), note(1, 4), note(2, 5)]);
    let out = filter.read();
    assert_eq!(bytes_of(&out), vec![vec![0x91, 1, 100], vec![0x91, 3, 100], vec![0x91, 5, 100]]);
}

#[test]
fn filter_buffers_across_writes_until_read() {
    let mut filter = ChannelFilter::new_args("one".into(), &args(&["1"])).unwrap();
    filter.write(&[note(1, 1)]);
    filter.write(&[]);
    filter.write(&[note(2, 2), note(1, 3)]);
    assert_eq!(bytes_of(&filter.read()), vec![vec![0x90, 1, 100], vec![0x90, 3, 100]]);
    assert!(filter.read().is_empty());
}

#[test]
fn filter_names_and_capabilities() {
    let mut filter = ChannelFilter::new_args("flt".into(), &args(&["3"])).unwrap();
    assert!(filter.can_read());
    assert!(filter.can_write());
    assert_eq!(filter.get_name(), "flt");
    assert_eq!(filter.get_display_name(), "flt (channelfilter)");
    filter.set_name("other");
    assert_eq!(filter.get_name(), "other");
    assert_eq!(filter.get_display_name(), "other (channelfilter)");
}

#[test]
fn outputs_are_listed_once() {
    let mut filter = ChannelFilter::new_args("flt".into(), &args(&["3"])).unwrap();
    assert!(filter.list_outputs().is_empty());
    filter.add_output(4);
    filter.add_output(2);
    filter.add_output(4);
    assert_eq!(filter.list_outputs(), &[4, 2]);
    filter.rem_output(7);
    assert_eq!(filter.list_outputs(), &[4, 2]);
    filter.rem_output(4);
    assert_eq!(filter.list_outputs(), &[2]);
    filter.add_output(4);
    assert_eq!(filter.list_outputs(), &[2, 4]);
    filter.rem_output(2);
    filter.rem_output(4);
    assert!(filter.list_outputs().is_empty());
}

#[test]
fn filter_configuration() {
    let mut filter = ChannelFilter::new_args("flt".into(), &args(&["3"])).unwrap();
    assert_eq!(filter.cfg(&args(&[])), CfgReply::Channel(3));
    assert_eq!(filter.cfg(&args(&["channel", "7"])), CfgReply::ChannelChanged(7));
    assert_eq!(filter.cfg(&args(&[])), CfgReply::Channel(7));
    assert_eq!(filter.cfg(&args(&["c", "8"])), CfgReply::ChannelChanged(8));
    assert_eq!(filter.cfg(&args(&["chan"])), CfgReply::ChannelRequired);
    assert_eq!(filter.cfg(&args(&["channel", "x"])), CfgReply::ChannelUnparsed);
    assert_eq!(filter.cfg(&args(&["channel", "0"])), CfgReply::ChannelOutOfRange);
    assert_eq!(filter.cfg(&args(&["channel", "17"])), CfgReply::ChannelOutOfRange);
    assert_eq!(filter.cfg(&args(&["volume", "3"])), CfgReply::UnknownCommand);
    assert_eq!(filter.cfg(&args(&["channels", "3"])), CfgReply::UnknownCommand);
    assert_eq!(filter.cfg(&args(&[])), CfgReply::Channel(8));
    filter.write(&[note(7, 1), note(8, 2)]);
    assert_eq!(bytes_of(&filter.read()), vec![vec![0x97, 2, 100]]);
    assert_eq!(filter.change_channel(&args(&["2"])), CfgReply::ChannelChanged(2));
    assert_eq!(filter.change_channel(&args(&[])), CfgReply::ChannelRequired);
    assert_eq!(filter.cfg(&args(&[])), CfgReply::Channel(2));
}

#[test]
fn merge_moves_every_message_to_its_channel() {
    let mut merge = ChannelMerge::new_args("m".into(), &args(&["10"])).unwrap();
    let batch = vec![
        note(1, 1),
        MidiMessage::from_slice(0, &[0xcf, 3]).unwrap(),
        MidiMessage::from_slice(0, &[0xf8]).unwrap(),
        MidiMessage::from_slice(0, &[0xf0, 4, 0xf7]).unwrap(),
        note(10, 2),
    ];
    merge.write(&batch);
    let out = merge.read();
    assert_eq!(
        bytes_of(&out),
        vec![vec![0x99, 1, 100], vec![0xc9, 3], vec![0xf8], vec![0xf0, 4, 0xf7], vec![0x99, 2, 100]]
    );
    for m in &out[..2] {
        assert_eq!(m.channel(), Some(10));
    }
    assert!(merge.read().is_empty());
}

#[test]
fn merge_arguments_names_and_configuration() {
    assert_eq!(ChannelMerge::new_args("m".into(), &args(&[])).err(), Some(MMMErr::ArgError));
    assert_eq!(ChannelMerge::new_args("m".into(), &args(&["0"])).err(), Some(MMMErr::ArgError));
    assert_eq!(ChannelMerge::new_args("m".into(), &args(&["x"])).err(), Some(MMMErr::ParseError));
    let mut merge = ChannelMerge::new_args("m".into(), &args(&["16"])).unwrap();
    assert!(merge.can_read());
    assert!(merge.can_write());
    assert_eq!(merge.get_display_name(), "m (channelmerge)");
    assert_eq!(merge.cfg(&args(&["channel", "3"])), CfgReply::NotApplicable);
    merge.write(&[note(1, 1)]);
    assert_eq!(bytes_of(&merge.read()), vec![vec![0x9f, 1, 100]]);
    merge.add_output(1);
    merge.add_output(1);
    assert_eq!(merge.list_outputs(), &[1]);
}

#[test]
fn input_buffers_what_arrives() {
    let mut input = MidiIn::new("in".into(), "Port A".into());
    assert!(input.can_read());
    assert!(!input.can_write());
    assert_eq!(input.get_name(), "in");
    assert_eq!(input.get_display_name(), "Port A -> in (input)");
    input.receive(1, &[0x90, 60, 100]);
    input.receive(2, &[0x90]);
    input.receive(3, &[0xf8, 9]);
    input.receive(4, &[0xc0, 1]);
    let out = input.read();
    assert_eq!(bytes_of(&out), vec![vec![0x90, 60, 100], vec![0xf8], vec![0xc0, 1]]);
    assert_eq!(out[0].timestamp(), 1);
    assert_eq!(out[1].timestamp(), 3);
    assert_eq!(out[2].timestamp(), 4);
    assert!(input.read().is_empty());
    input.set_name("renamed");
    assert_eq!(input.get_display_name(), "Port A -> renamed (input)");
    assert_eq!(input.cfg(&args(&["channel", "1"])), CfgReply::NotApplicable);
}

#[test]
fn process_msg_appends_accepted_events() {
    let mut buf = Vec::new();
    process_msg(5, &[0x80, 1, 2], &mut buf);
    process_msg(6, &[0x80, 1, 2, 3], &mut buf);
    process_msg(7, &[0xf1], &mut buf);
    assert_eq!(bytes_of(&buf), vec![vec![0x80, 1, 2], vec![0xf1]]);
    assert_eq!(buf[1].timestamp(), 7);
}

#[test]
fn input_arguments() {
    assert_eq!(
        MidiIn::new_args("in".into(), &args(&["0"])),
        Ok(PortRequest::Input { index: 0, name: "in".into() })
    );
    assert_eq!(
        MidiIn::new_args("in".into(), &args(&["12"])),
        Ok(PortRequest::Input { index: 12, name: "in".into() })
    );
    assert_eq!(MidiIn::new_args("in".into(), &args(&[])), Err(MMMErr::ArgError));
    assert_eq!(MidiIn::new_args("in".into(), &args(&["0", "1"])), Err(MMMErr::ArgError));
    assert_eq!(MidiIn::new_args("in".into(), &args(&["zero"])), Err(MMMErr::ParseError));
    assert_eq!(MidiIn::new_args("in".into(), &args(&["-1"])), Err(MMMErr::ParseError));
    assert_eq!(
        MidiIn::new_args("in".into(), &args(&["99999999999999999999999"])),
        Err(MMMErr::ParseError)
    );
}

#[test]
fn output_encodes_for_the_transport() {
    assert_eq!(
        MidiOut::new_args("out".into(), &args(&["ignored", "too"])),
        Ok(PortRequest::Output { name: "out".into() })
    );
    let mut output = MidiOut::new("out".into());
    assert!(!output.can_read());
    assert!(output.can_write());
    assert_eq!(output.get_display_name(), "out (output)");
    assert!(output.take_outgoing().is_empty());
    output.write(&[note(3, 1), MidiMessage::from_slice(0, &[0xf8]).unwrap()]);
    output.write(&[note(4, 2)]);
    assert_eq!(
        output.take_outgoing(),
        vec![vec![0x92, 1, 100], vec![0xf8], vec![0x93, 2, 100]]
    );
    assert!(output.take_outgoing().is_empty());
    assert_eq!(output.cfg(&args(&[])), CfgReply::NotApplicable);
}

#[test]
fn dummy_player_emits_once_a_second() {
    let mut player = DummyPlayer::new_args("d".into(), &args(&["3"]), 100).unwrap();
    assert!(player.can_read());
    assert!(!player.can_write());
    assert_eq!(player.get_display_name(), "d (dummyplayer)");
    assert!(player.read(100).is_empty());
    assert!(player.read(99).is_empty());
    let out = player.read(101);
    assert_eq!(bytes_of(&out), vec![vec![0x92, 0x40, 0x40]]);
    assert_eq!(out[0].channel(), Some(3));
    assert!(player.read(101).is_empty());
    assert!(player.read(100).is_empty());
    assert_eq!(bytes_of(&player.read(105)), vec![vec![0x92, 0x40, 0x40]]);
    assert!(player.read(105).is_empty());
}

#[test]
fn dummy_player_on_every_channel() {
    for c in 1u8..=16 {
        let word = c.to_string();
        let mut player = DummyPlayer::new_args("d".into(), &args(&[word.as_str()]), 0).unwrap();
        let out = player.read(1);
        assert_eq!(out.len(), 1);
        assert_eq!(out[0].channel(), Some(c));
        assert_eq!(out[0].to_bytes(), vec![0x90 | (c - 1), 0x40, 0x40]);
    }
}

#[test]
fn dummy_player_arguments_and_configuration() {
    assert_eq!(DummyPlayer::new_args("d".into(), &args(&[]), 0).err(), Some(MMMErr::ArgError));
    assert_eq!(DummyPlayer::new_args("d".into(), &args(&["17"]), 0).err(), Some(MMMErr::ArgError));
    assert_eq!(DummyPlayer::new_args("d".into(), &args(&["x"]), 0).err(), Some(MMMErr::ParseError));
    let mut player = DummyPlayer::new_args("d".into(), &args(&["1"]), 0).unwrap();
    assert_eq!(player.cfg(&args(&[])), CfgReply::Channel(1));
    assert_eq!(player.cfg(&args(&["ch", "16"])), CfgReply::ChannelChanged(16));
    assert_eq!(player.change_channel(&args(&["99"])), CfgReply::ChannelOutOfRange);
    assert_eq!(bytes_of(&player.read(1)), vec![vec![0x9f, 0x40, 0x40]]);
    player.add_output(3);
    player.add_output(3);
    player.rem_output(9);
    assert_eq!(player.list_outputs(), &[3]);
}

#[test]
fn node_dispatches_by_kind() {
    let mut nodes = vec![
        MidiIO::Input(MidiIn::new("a".into(), "p".into())),
        MidiIO::Output(MidiOut::new("b".into())),
        MidiIO::ChannelFilter(ChannelFilter::new_args("c".into(), &args(&["1"])).unwrap()),
        MidiIO::ChannelMerge(ChannelMerge::new_args("d".into(), &args(&["2"])).unwrap()),
        MidiIO::DummyPlayer(DummyPlayer::new_args("e".into(), &args(&["3"]), 0).unwrap()),
    ];
    let kinds: Vec<NodeKind> = nodes.iter().map(|n| n.kind()).collect();
    assert_eq!(
        kinds,
        vec![
            NodeKind::Input,
            NodeKind::Output,
            NodeKind::ChannelFilter,
            NodeKind::ChannelMerge,
            NodeKind::DummyPlayer
        ]
    );
    let readable: Vec<bool> = nodes.iter().map(|n| n.can_read()).collect();
    assert_eq!(readable, vec![true, false, true, true, true]);
    let writable: Vec<bool> = nodes.iter().map(|n| n.can_write()).collect();
    assert_eq!(writable, vec![false, true, true, true, false]);
    let names: Vec<String> = nodes.iter().map(|n| n.get_display_name()).collect();
    assert_eq!(
        names,
        vec![
            "p -> a (input)",
            "b (output)",
            "c (channelfilter)",
            "d (channelmerge)",
            "e (dummyplayer)"
        ]
    );
    for node in nodes.iter_mut() {
        node.receive(0, &[0x90, 1, 2]);
        if node.can_write() {
            node.write(&[note(1, 7), note(2, 8)]);
        }
    }
    assert_eq!(bytes_of(&nodes[0].read(1)), vec![vec![0x90, 1, 2]]);
    assert_eq!(nodes[1].take_outgoing(), vec![vec![0x90, 7, 100], vec![0x91, 8, 100]]);
    assert_eq!(bytes_of(&nodes[2].read(1)), vec![vec![0x90, 7, 100]]);
    assert_eq!(bytes_of(&nodes[3].read(1)), vec![vec![0x91, 7, 100], vec![0x91, 8, 100]]);
    assert_eq!(bytes_of(&nodes[4].read(1)), vec![vec![0x92, 0x40, 0x40]]);
    assert!(nodes[0].take_outgoing().is_empty());
    for node in nodes.iter_mut() {
        node.set_name("x");
        assert_eq!(node.get_name(), "x");
        if node.can_read() {
            node.add_output(1);
            node.add_output(1);
            assert_eq!(node.list_outputs(), &[1]);
            node.rem_output(1);
            assert!(node.list_outputs().is_empty());
        }
    }
    assert_eq!(nodes[2].cfg(&args(&[])), CfgReply::Channel(1));
    assert_eq!(nodes[3].cfg(&args(&[])), CfgReply::NotApplicable);
    for node in nodes {
        node.delete();
    }
}
