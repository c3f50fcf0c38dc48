use cavestory::probe_command::{decode_command, parse_number, split_words, ProbeCommand, ProbeRequest};

#[test]
fn words_split_on_any_white_space() {
    assert_eq!(split_words("  1 button\t3 1\n"), vec!["1", "button", "3", "1"]);
    assert_eq!(split_words(""), Vec::<String>::new());
    assert_eq!(split_words("a\u{3000}b"), vec!["a", "b"]);
}

#[test]
fn numbers_parse_as_the_standard_library_does() {
    assert_eq!(parse_number("42", false, 0, u64::MAX), Some(42));
    assert_eq!(parse_number("+7", false, 0, 255), Some(7));
    assert_eq!(parse_number("-1", false, 0, 255), None);
    assert_eq!(parse_number("-32768", true, -32768, 32767), Some(-32768));
    assert_eq!(parse_number("32768", true, -32768, 32767), None);
    assert_eq!(parse_number("256", false, 0, 255), None);
    assert_eq!(parse_number("18446744073709551615", false, 0, u64::MAX), Some(u64::MAX as i128));
    assert_eq!(parse_number("18446744073709551616", false, 0, u64::MAX), None);
    assert_eq!(parse_number("+", true, -5, 5), None);
    assert_eq!(parse_number("1x", true, -5, 5), None);
}

#[test]
fn commands_run_once_and_only_when_complete() {
    assert_eq!(
        decode_command("3 button 4 1\n", 2, true),
        ProbeCommand::Run { seq: 3, request: Some(ProbeRequest::Button { index: 4, value: 1 }) }
    );
    assert_eq!(decode_command("3 button 4 1\n", 3, true), ProbeCommand::Wait);
    assert_eq!(decode_command("3 button 4 1", 2, true), ProbeCommand::Wait);
    assert_eq!(decode_command("x button 4 1\n", 2, true), ProbeCommand::Wait);
    assert_eq!(decode_command("4 button 15 1\n", 3, true), ProbeCommand::Run { seq: 4, request: None });
    assert_eq!(decode_command("4 button 1 2\n", 3, true), ProbeCommand::Run { seq: 4, request: None });
    assert_eq!(
        decode_command("5 axis 5 -32768\n", 4, true),
        ProbeCommand::Run { seq: 5, request: Some(ProbeRequest::Axis { index: 5, value: -32768 }) }
    );
    assert_eq!(decode_command("6 axis 6 0\n", 5, true), ProbeCommand::Run { seq: 6, request: None });
    assert_eq!(decode_command("7 detach\n", 6, true), ProbeCommand::Run { seq: 7, request: Some(ProbeRequest::Detach) });
    assert_eq!(decode_command("8 detach\n", 7, false), ProbeCommand::Run { seq: 8, request: None });
    assert_eq!(decode_command("9 attach\n", 8, false), ProbeCommand::Run { seq: 9, request: Some(ProbeRequest::Attach) });
    assert_eq!(decode_command("10 button 1 1\n", 9, false), ProbeCommand::Run { seq: 10, request: None });
}
