use kiosk_serial::printer::{
    command_kind, command_writes, korean_writes, plan_print, qr_command, width_command,
    PrintCommand, PrintCommandKind, PrintError, QR_CAPACITY,
};

fn cmd(tag: &str, value: Option<&str>) -> PrintCommand {
    PrintCommand { command_type: tag.to_string(), value: value.map(|v| v.to_string()) }
}

fn width() -> Vec<u8> {
    vec![0x1D, 0x57, 54, 2]
}

#[test]
fn width_command_sets_566_dots() {
    assert_eq!(width_command(), width());
}

#[test]
fn qr_payload_over_capacity_is_refused_without_qr_write() {
    let payload = "q".repeat(231);
    let job = plan_print(&vec![cmd("qr_code", Some(&payload))]);
    assert!(matches!(job.error, Some(PrintError::QrTooLong)));
    assert_eq!(job.writes, vec![width()]);
}

#[test]
fn qr_payload_at_capacity_writes_one_block() {
    let payload = "q".repeat(QR_CAPACITY);
    let job = plan_print(&vec![cmd("qr_code", Some(&payload))]);
    assert!(job.error.is_none());
    assert_eq!(job.writes.len(), 2);
    let block = &job.writes[1];
    assert_eq!(&block[..12], &[0x1B, 0x61, 0x01, 0x1D, 0x4C, 0, 0, 0x1A, 0x42, 2, 230, 5]);
    assert_eq!(&block[12..242], payload.as_bytes());
    assert_eq!(&block[242..], &[0x00, 0x0A]);
}

#[test]
fn empty_qr_payload_writes_only_alignment_and_margin() {
    assert_eq!(qr_command(&[]), vec![0x1B, 0x61, 0x01, 0x1D, 0x4C, 0, 0]);
}

#[test]
fn missing_qr_payload_is_refused() {
    let r = command_writes(&cmd("qr_code", None));
    assert!(matches!(r, Err(PrintError::MissingValue(PrintCommandKind::QrCode))));
}

#[test]
fn fixed_commands_have_their_control_bytes() {
    let cases: Vec<(&str, Vec<u8>)> = vec![
        ("bold", vec![0x1B, 0x45, 0x01]),
        ("unbold", vec![0x1B, 0x45, 0x00]),
        ("normal_text", vec![0x1D, 0x21, 0x00]),
        ("small_text", vec![0x1D, 0x21, 0x01]),
        ("medium_text", vec![0x1D, 0x21, 0x11]),
        ("large_text", vec![0x1D, 0x21, 0x11]),
        ("blank_line", vec![0x0A]),
        ("full_cut", vec![0x1D, 0x56, 0x00]),
        ("clear_all", vec![0x1B, 0x40]),
    ];
    for (tag, bytes) in cases {
        assert_eq!(command_writes(&cmd(tag, None)).unwrap(), vec![bytes], "{}", tag);
    }
}

#[test]
fn alignment_words_select_their_code() {
    for (word, code) in [("left", 0u8), ("center", 1), ("right", 2)] {
        assert_eq!(command_writes(&cmd("alignment", Some(word))).unwrap(), vec![vec![0x1B, 0x61, code]]);
    }
}

#[test]
fn unknown_alignment_is_refused() {
    match command_writes(&cmd("alignment", Some("middle"))) {
        Err(PrintError::InvalidAlignment(v)) => assert_eq!(v, "middle"),
        other => panic!("unexpected {:?}", other),
    }
}

#[test]
fn missing_alignment_is_refused() {
    let r = command_writes(&cmd("alignment", None));
    assert!(matches!(r, Err(PrintError::MissingValue(PrintCommandKind::Alignment))));
}

#[test]
fn text_is_written_as_utf8() {
    assert_eq!(command_writes(&cmd("text", Some("Total: 5"))).unwrap(), vec![b"Total: 5".to_vec()]);
    let r = command_writes(&cmd("text", None));
    assert!(matches!(r, Err(PrintError::MissingValue(PrintCommandKind::Text))));
}

#[test]
fn korean_text_is_written_in_euc_kr_between_code_page_switches() {
    let w = command_writes(&cmd("korean_text", Some("안녕"))).unwrap();
    assert_eq!(w, vec![vec![0x1B, 0x74, 0x0B], vec![0xBE, 0xC8, 0xB3, 0xE7], vec![0x1B, 0x74, 0x00]]);
}

#[test]
fn korean_ascii_text_keeps_its_bytes() {
    let w = command_writes(&cmd("korean_text", Some("abc"))).unwrap();
    assert_eq!(w[1], b"abc".to_vec());
}

#[test]
fn korean_text_with_unmappable_character_is_refused() {
    let r = command_writes(&cmd("korean_text", Some("😀")));
    assert!(matches!(r, Err(PrintError::KoreanEncodingFailed)));
    let r = command_writes(&cmd("korean_text", None));
    assert!(matches!(r, Err(PrintError::MissingValue(PrintCommandKind::KoreanText))));
}

#[test]
fn korean_writes_refuses_encoding_with_errors() {
    assert!(matches!(korean_writes(vec![1, 2], true), Err(PrintError::KoreanEncodingFailed)));
    assert_eq!(korean_writes(vec![1, 2], false).unwrap()[1], vec![1, 2]);
}

#[test]
fn unsupported_command_is_refused() {
    match command_writes(&cmd("barcode", None)) {
        Err(PrintError::UnsupportedCommand(t)) => assert_eq!(t, "barcode"),
        other => panic!("unexpected {:?}", other),
    }
    assert_eq!(command_kind("Bold"), None);
    assert_eq!(command_kind("bold"), Some(PrintCommandKind::Bold));
}

#[test]
fn failing_command_ends_job_but_keeps_earlier_writes() {
    let job = plan_print(&vec![cmd("bold", None), cmd("nope", None), cmd("full_cut", None)]);
    assert!(matches!(job.error, Some(PrintError::UnsupportedCommand(_))));
    assert_eq!(job.writes, vec![width(), vec![0x1B, 0x45, 0x01]]);
}

#[test]
fn complete_job_writes_every_command_in_order() {
    let job = plan_print(&vec![
        cmd("clear_all", None),
        cmd("alignment", Some("center")),
        cmd("text", Some("Hi")),
        cmd("blank_line", None),
        cmd("full_cut", None),
    ]);
    assert!(job.error.is_none());
    assert_eq!(
        job.writes,
        vec![
            width(),
            vec![0x1B, 0x40],
            vec![0x1B, 0x61, 0x01],
            b"Hi".to_vec(),
            vec![0x0A],
            vec![0x1D, 0x56, 0x00]
        ]
    );
}

#[test]
fn empty_job_sets_width_only() {
    let job = plan_print(&Vec::new());
    assert!(job.error.is_none());
    assert_eq!(job.writes, vec![width()]);
}
