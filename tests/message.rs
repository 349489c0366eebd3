use blink1::color::{names_equal, Color};
use blink1::message::Message;

#[test]
fn test_index_fade() {
    let red = Message::Fade(Color::from("red"), 1000, Some(1));
    assert_eq!(red.buffer()[7], 0x01);
}

#[test]
fn test_index_now() {
    let red = Message::Immediate(Color::from("red"), Some(10));
    assert_eq!(red.buffer()[7], 0x0A);
}

#[test]
fn test_noindex() {
    let red = Message::from("red");
    assert_eq!(red.buffer()[7], 0x00);
}

#[test]
fn test_red() {
    let red = Message::from("red");
    assert_eq!(red.buffer()[2..5], [0xff, 0x00, 0x00])
}

#[test]
fn test_green() {
    let red = Message::from("green");
    assert_eq!(red.buffer()[2..5], [0x00, 0xff, 0x00])
}

#[test]
fn test_blue() {
    let red = Message::from("blue");
    assert_eq!(red.buffer()[2..5], [0x00, 0x00, 0xff])
}

#[test]
fn test_off() {
    let red = Message::from("off");
    assert_eq!(red.buffer()[2..5], [0x00, 0x00, 0x00])
}

fn all_kinds() -> Vec<Message> {
    vec![
        Message::Off,
        Message::Fade(Color::Three(1, 2, 3), 12345, Some(4)),
        Message::Fade(Color::Green, 0, None),
        Message::Immediate(Color::Blue, Some(2)),
        Message::Immediate(Color::Red, None),
        Message::ReadRGB(3),
        Message::ServerTickle(true, 1, 2, 3),
        Message::PlayLoop(false, 1, 2, 3),
        Message::PlayStateRead,
        Message::SetColorPattern(Color::Red, 4, 5, 6),
        Message::SaveColorPatterns,
        Message::ReadColorPattern(7),
        Message::SetLedN(2),
        Message::ReadEEPROM(9),
        Message::WriteEEPROM(9, 10),
        Message::GetVersion,
        Message::TestCommand,
    ]
}

#[test]
fn every_buffer_starts_with_report_id() {
    for m in all_kinds() {
        let b = m.buffer();
        assert_eq!(b.len(), 8);
        assert_eq!(b[0], 0x01);
    }
}

#[test]
fn off_equals_black_immediate() {
    assert_eq!(
        Message::Off.buffer(),
        Message::Immediate(Color::Three(0, 0, 0), None).buffer()
    );
    assert_eq!(Message::Off.buffer(), [0x01, 0x6e, 0, 0, 0, 0, 0, 0]);
}

#[test]
fn indexed_immediate_is_zero_fade() {
    let c = Color::Three(10, 20, 30);
    let b = Message::Immediate(c, Some(5)).buffer();
    assert_eq!(b, Message::Fade(c, 0, Some(5)).buffer());
    assert_eq!(b, [0x01, 0x63, 10, 20, 30, 0, 0, 5]);
}

#[test]
fn unindexed_immediate_ends_in_zero() {
    let b = Message::Immediate(Color::Three(10, 20, 30), None).buffer();
    assert_eq!(b, [0x01, 0x6e, 10, 20, 30, 0, 0, 0]);
}

#[test]
fn read_rgb_carries_index_twice() {
    let b = Message::ReadRGB(7).buffer();
    assert_eq!(b, [0x01, 0x72, 7, 0, 0, 0, 0, 7]);
}

#[test]
fn fade_ticks_split_into_bytes() {
    let b = Message::Fade(Color::Red, 1000, None).buffer();
    assert_eq!(b, [0x01, 0x63, 0xff, 0, 0, 0, 100, 0]);
    let b = Message::Fade(Color::Red, 12345, Some(1)).buffer();
    assert_eq!((b[5], b[6]), (0x04, 0xd2));
}

#[test]
fn fade_low_byte_is_modulo_256() {
    // 2560 ms is 256 ticks: high byte 1, low byte 0 (a modulo-255 split would give 1).
    let b = Message::Fade(Color::Blue, 2560, None).buffer();
    assert_eq!((b[5], b[6]), (1, 0));
    let b = Message::Fade(Color::Blue, 2550, None).buffer();
    assert_eq!((b[5], b[6]), (0, 255));
}

#[test]
fn fade_ticks_kept_to_sixteen_bits() {
    let b = Message::Fade(Color::Blue, 655_360, None).buffer();
    assert_eq!((b[5], b[6]), (0, 0));
    let b = Message::Fade(Color::Blue, 655_359, None).buffer();
    assert_eq!((b[5], b[6]), (0xff, 0xff));
    let b = Message::Fade(Color::Blue, u64::MAX, None).buffer();
    let ticks = (u64::MAX / 10) % 0x10000;
    assert_eq!((b[5], b[6]), ((ticks >> 8) as u8, (ticks % 256) as u8));
}

#[test]
fn positional_layouts() {
    assert_eq!(Message::ServerTickle(true, 1, 2, 3).buffer(), [1, 0x44, 1, 1, 2, 3, 0, 0]);
    assert_eq!(Message::PlayLoop(false, 1, 2, 3).buffer(), [1, 0x70, 0, 1, 2, 3, 0, 0]);
    assert_eq!(Message::PlayStateRead.buffer(), [1, 0x53, 0, 0, 0, 0, 0, 0]);
    assert_eq!(Message::SetColorPattern(Color::Red, 4, 5, 6).buffer(), [1, 0x50, 255, 0, 0, 4, 5, 6]);
    assert_eq!(Message::SaveColorPatterns.buffer(), [1, 0x57, 0, 0, 0, 0, 0, 0]);
    assert_eq!(Message::ReadColorPattern(7).buffer(), [1, 0x52, 0, 0, 0, 0, 0, 7]);
    assert_eq!(Message::SetLedN(2).buffer(), [1, 0x6c, 2, 0, 0, 0, 0, 0]);
    assert_eq!(Message::ReadEEPROM(9).buffer(), [1, 0x65, 9, 0, 0, 0, 0, 0]);
    assert_eq!(Message::WriteEEPROM(9, 10).buffer(), [1, 0x45, 9, 10, 0, 0, 0, 0]);
    assert_eq!(Message::GetVersion.buffer(), [1, 0x76, 0, 0, 0, 0, 0, 0]);
    assert_eq!(Message::TestCommand.buffer(), [1, 0x21, 0, 0, 0, 0, 0, 0]);
}

#[test]
fn action_bytes_are_distinct() {
    let kinds = vec![
        Message::Fade(Color::Red, 0, None),
        Message::Immediate(Color::Red, None),
        Message::ReadRGB(0),
        Message::ServerTickle(false, 0, 0, 0),
        Message::PlayLoop(false, 0, 0, 0),
        Message::PlayStateRead,
        Message::SetColorPattern(Color::Red, 0, 0, 0),
        Message::SaveColorPatterns,
        Message::ReadColorPattern(0),
        Message::SetLedN(0),
        Message::ReadEEPROM(0),
        Message::WriteEEPROM(0, 0),
        Message::GetVersion,
        Message::TestCommand,
    ];
    for i in 0..kinds.len() {
        for j in (i + 1)..kinds.len() {
            assert_ne!(kinds[i].buffer()[1], kinds[j].buffer()[1]);
        }
    }
}

#[test]
fn default_is_off() {
    assert_eq!(Message::default(), Message::Off);
}

#[test]
fn named_colors() {
    assert_eq!(Color::from("red").rgb(), (255, 0, 0));
    assert_eq!(Color::from("green").rgb(), (0, 255, 0));
    assert_eq!(Color::from("blue").rgb(), (0, 0, 255));
    assert_eq!(Color::from("off").rgb(), (0, 0, 0));
    assert_eq!(Color::Three(1, 2, 3).rgb(), (1, 2, 3));
}

#[test]
fn names_ignore_case() {
    assert_eq!(Color::from("RED"), Color::Red);
    assert_eq!(Color::from("Green"), Color::Green);
    assert_eq!(Color::from("bLuE"), Color::Blue);
    assert!(names_equal("ReD", "rEd"));
    assert!(!names_equal("red", "reds"));
}

#[test]
fn unknown_name_is_black() {
    assert_eq!(Color::from("purple"), Color::Three(0, 0, 0));
    assert_eq!(Color::from(""), Color::Three(0, 0, 0));
    assert_eq!(Color::from("rouge"), Color::Three(0, 0, 0));
}
