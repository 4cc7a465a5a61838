use midi_mapping_manager::message::{MidiMessage, MidiMessageKind};

#[test]
fn channel_message_round_trip() {
    let raw = [0x93u8, 60, 100];
    let m = MidiMessage::from_slice(42, &raw).unwrap();
    assert_eq!(m.to_bytes(), raw.to_vec());
    assert_eq!(m.timestamp(), 42);
    assert_eq!(m.channel(), Some(4));
}

#[test]
fn small_channel_message_round_trip() {
    let raw = [0xc5u8, 17];
    let m = MidiMessage::from_slice(1, &raw).unwrap();
    assert_eq!(m.to_bytes(), raw.to_vec());
    assert_eq!(m.channel(), Some(6));
}

#[test]
fn system_common_round_trip() {
    let raw = [0xf0u8, 1, 2, 3, 4, 5, 0xf7];
    let m = MidiMessage::from_slice(7, &raw).unwrap();
    assert_eq!(m.to_bytes(), raw.to_vec());
    assert_eq!(m.channel(), None);
    let single = [0xf6u8];
    let m = MidiMessage::from_slice(7, &single).unwrap();
    assert_eq!(m.to_bytes(), single.to_vec());
    let edge = [0xf7u8, 9];
    let m = MidiMessage::from_slice(7, &edge).unwrap();
    assert_eq!(m.to_bytes(), edge.to_vec());
}

#[test]
fn realtime_round_trip() {
    for status in 0xf8u8..=0xff {
        let raw = [status];
        let m = MidiMessage::from_slice(0, &raw).unwrap();
        assert_eq!(m.to_bytes(), raw.to_vec());
        assert_eq!(m.channel(), None);
    }
}

#[test]
fn realtime_keeps_the_status_byte_only() {
    let m = MidiMessage::from_slice(0, &[0xf8, 1, 2]).unwrap();
    assert_eq!(m.to_bytes(), vec![0xf8]);
}

#[test]
fn channel_message_of_odd_length_is_rejected() {
    assert!(MidiMessage::from_slice(0, &[0x90]).is_none());
    assert!(MidiMessage::from_slice(0, &[0x90, 1, 2, 3]).is_none());
    assert!(MidiMessage::from_slice(0, &[0x00]).is_none());
    assert!(MidiMessage::from_slice(0, &[0xef, 1, 2, 3, 4]).is_none());
    assert!(MidiMessage::from_slice(0, &[0xef, 1, 2]).is_some());
    assert!(MidiMessage::from_slice(0, &[0xef, 1]).is_some());
}

#[test]
fn every_accepted_sequence_of_up_to_three_bytes_round_trips() {
    for status in 0u8..=0xff {
        for len in 1usize..=3 {
            let raw: Vec<u8> = (0..len).map(|i| if i == 0 { status } else { 0x11 * i as u8 }).collect();
            let accepted = MidiMessage::from_slice(5, &raw);
            if status < 0xf0 {
                assert_eq!(accepted.is_some(), len == 2 || len == 3);
            } else {
                assert!(accepted.is_some());
            }
            if let Some(m) = accepted {
                if status < 0xf8 || len == 1 {
                    assert_eq!(m.to_bytes(), raw);
                } else {
                    assert_eq!(m.to_bytes(), vec![status]);
                }
            }
        }
    }
}

#[test]
fn channel_is_low_nibble_plus_one() {
    for n in 0u8..16 {
        for high in [0x80u8, 0x90, 0xa0, 0xb0, 0xe0] {
            let m = MidiMessage::from_slice(0, &[high | n, 1, 2]).unwrap();
            assert_eq!(m.channel(), Some(n + 1));
        }
        for high in [0xc0u8, 0xd0] {
            let m = MidiMessage::from_slice(0, &[high | n, 1]).unwrap();
            assert_eq!(m.channel(), Some(n + 1));
        }
    }
}

#[test]
fn with_channel_sets_exactly_that_channel() {
    let three = MidiMessage::from_slice(9, &[0x9a, 64, 127]).unwrap();
    let two = MidiMessage::from_slice(9, &[0xc3, 5]).unwrap();
    for c in 1u8..=16 {
        let moved = three.with_channel(c);
        assert_eq!(moved.channel(), Some(c));
        assert_eq!(moved.to_bytes(), vec![0x90 | (c - 1), 64, 127]);
        assert_eq!(moved.timestamp(), 9);
        let moved = two.with_channel(c);
        assert_eq!(moved.channel(), Some(c));
        assert_eq!(moved.to_bytes(), vec![0xc0 | (c - 1), 5]);
    }
    assert_eq!(three.to_bytes(), vec![0x9a, 64, 127]);
}

#[test]
fn with_channel_leaves_other_kinds_alone() {
    let common = MidiMessage::from_slice(3, &[0xf2, 1, 2]).unwrap();
    let realtime = MidiMessage::from_slice(3, &[0xfe]).unwrap();
    for c in 1u8..=16 {
        assert_eq!(common.with_channel(c).to_bytes(), vec![0xf2, 1, 2]);
        assert_eq!(common.with_channel(c).channel(), None);
        assert_eq!(realtime.with_channel(c).to_bytes(), vec![0xfe]);
        assert_eq!(realtime.with_channel(c).channel(), None);
    }
}

#[test]
fn kind_with_channel() {
    match MidiMessageKind::Channel([0x85, 1, 2]).with_channel(16) {
        MidiMessageKind::Channel(b) => assert_eq!(b, [0x8f, 1, 2]),
        _ => panic!("kind changed"),
    }
    match MidiMessageKind::ChannelSmall([0xdf, 1]).with_channel(1) {
        MidiMessageKind::ChannelSmall(b) => assert_eq!(b, [0xd0, 1]),
        _ => panic!("kind changed"),
    }
    match MidiMessageKind::SystemCommon(vec![0xf1, 7]).with_channel(3) {
        MidiMessageKind::SystemCommon(v) => assert_eq!(v, vec![0xf1, 7]),
        _ => panic!("kind changed"),
    }
    match MidiMessageKind::SystemRealtime(0xf8).with_channel(3) {
        MidiMessageKind::SystemRealtime(b) => assert_eq!(b, 0xf8),
        _ => panic!("kind changed"),
    }
}

#[test]
fn clone_keeps_the_message() {
    let m = MidiMessage::from_slice(11, &[0xf0, 1, 2, 0xf7]).unwrap();
    let c = m.clone();
    assert_eq!(c.to_bytes(), m.to_bytes());
    assert_eq!(c.timestamp(), 11);
}
