use buildah_rs::buildah_error::BuildahError;
use buildah_rs::executor::{Outcome, ProcessOutput};
use buildah_rs::parsing::{
    acknowledge, interpret, interpret_outcome, parse_output_line, teardown_report, whole_output,
    Teardown,
};

fn succeeded(stdout: &str) -> ProcessOutput {
    ProcessOutput { success: true, stdout: stdout.as_bytes().to_vec(), stderr: Vec::new() }
}

fn failed(stderr: &str) -> ProcessOutput {
    ProcessOutput { success: false, stdout: Vec::new(), stderr: stderr.as_bytes().to_vec() }
}

fn not_started() -> Outcome {
    Err(std::io::Error::new(std::io::ErrorKind::NotFound, "no such program"))
}

#[test]
fn it_works() {
    assert_eq!(2 + 2, 4);
}

#[test]
fn line_feed_is_cut() {
    assert_eq!(parse_output_line(b"abc\n".to_vec()).unwrap(), "abc");
}

#[test]
fn carriage_return_and_line_feed_are_cut() {
    assert_eq!(parse_output_line(b"abc\r\n".to_vec()).unwrap(), "abc");
}

#[test]
fn line_without_terminator_is_kept() {
    assert_eq!(parse_output_line(b"abc".to_vec()).unwrap(), "abc");
}

#[test]
fn all_trailing_whitespace_is_cut() {
    assert_eq!(parse_output_line(b"abc \t \n\n".to_vec()).unwrap(), "abc");
}

#[test]
fn whitespace_before_the_end_is_kept() {
    assert_eq!(parse_output_line(b"  a b\tc\nd \n".to_vec()).unwrap(), "  a b\tc\nd");
}

#[test]
fn empty_and_blank_output_give_an_empty_line() {
    assert_eq!(parse_output_line(Vec::new()).unwrap(), "");
    assert_eq!(parse_output_line(b" \r\n\t".to_vec()).unwrap(), "");
}

#[test]
fn text_beyond_ascii_is_decoded() {
    let text = "/var/lib/conteneurs/h\u{e9}l\u{e8}ne/\u{1f980}\u{2003}\u{3000}\n";
    let line = parse_output_line(text.as_bytes().to_vec()).unwrap();
    assert_eq!(line, "/var/lib/conteneurs/h\u{e9}l\u{e8}ne/\u{1f980}");
}

#[test]
fn bytes_that_are_no_text_give_a_decoding_error() {
    let r = parse_output_line(vec![b'a', 0xff, b'\n']);
    assert!(matches!(r, Err(BuildahError::InvalidUTF8Output(_))));
    let r = parse_output_line(vec![0xc3]);
    assert!(matches!(r, Err(BuildahError::InvalidUTF8Output(_))));
    let r = parse_output_line(vec![0xed, 0xa0, 0x80]);
    assert!(matches!(r, Err(BuildahError::InvalidUTF8Output(_))));
}

#[test]
fn decoding_error_holds_the_bytes() {
    match parse_output_line(vec![b'o', b'k', 0x80]) {
        Err(BuildahError::InvalidUTF8Output(e)) => {
            assert_eq!(e.as_bytes(), &[b'o', b'k', 0x80]);
            assert_eq!(e.utf8_error().valid_up_to(), 2);
        }
        _ => panic!("expected a decoding error"),
    }
}

#[test]
fn trimming_agrees_with_std_on_every_character() {
    let mut c = '\0';
    loop {
        let mut text = String::from("a");
        text.push(c);
        let expected = text.trim_end().to_string();
        assert_eq!(parse_output_line(text.clone().into_bytes()).unwrap(), expected, "{:?}", c);
        text.push('b');
        assert_eq!(parse_output_line(text.clone().into_bytes()).unwrap(), text, "{:?}", c);
        if c == char::MAX {
            break;
        }
        c = match char::from_u32(c as u32 + 1) {
            Some(next) => next,
            None => '\u{e000}',
        };
    }
}

#[test]
fn success_is_routed_to_standard_output() {
    assert_eq!(interpret(succeeded("cid123\n")).unwrap(), "cid123");
}

#[test]
fn failure_is_routed_to_standard_error() {
    match interpret(failed("no such image\n")) {
        Err(BuildahError::Buildah(message)) => assert_eq!(message, "no such image"),
        _ => panic!("expected a tool error"),
    }
}

#[test]
fn only_the_stream_that_counts_is_read() {
    let output = ProcessOutput { success: true, stdout: b"id\n".to_vec(), stderr: vec![0xff] };
    assert_eq!(interpret(output).unwrap(), "id");
    let output = ProcessOutput { success: false, stdout: vec![0xff], stderr: b"bad\n".to_vec() };
    assert!(matches!(interpret(output), Err(BuildahError::Buildah(m)) if m == "bad"));
}

#[test]
fn unreadable_stream_is_a_decoding_error() {
    let output = ProcessOutput { success: true, stdout: vec![0xff], stderr: Vec::new() };
    assert!(matches!(interpret(output), Err(BuildahError::InvalidUTF8Output(_))));
    let output = ProcessOutput { success: false, stdout: Vec::new(), stderr: vec![0xff] };
    assert!(matches!(interpret(output), Err(BuildahError::InvalidUTF8Output(_))));
}

#[test]
fn launch_failure_is_handed_on() {
    match interpret_outcome(not_started()) {
        Err(BuildahError::IoError(e)) => {
            assert_eq!(e.kind(), std::io::ErrorKind::NotFound);
            assert_eq!(format!("{}", e), "no such program");
        }
        _ => panic!("expected a launch failure"),
    }
}

#[test]
fn outcome_of_a_run_is_interpreted() {
    assert_eq!(interpret_outcome(Ok(succeeded("cid123\n"))).unwrap(), "cid123");
    assert!(matches!(
        interpret_outcome(Ok(failed("no such image\n"))),
        Err(BuildahError::Buildah(m)) if m == "no such image"
    ));
}

#[test]
fn acknowledge_drops_the_line_and_keeps_the_error() {
    assert!(matches!(acknowledge(Ok(succeeded("0123abcd\n"))), Ok(())));
    assert!(matches!(acknowledge(Ok(succeeded(""))), Ok(())));
    assert!(matches!(
        acknowledge(Ok(failed("no such file\n"))),
        Err(BuildahError::Buildah(m)) if m == "no such file"
    ));
    assert!(matches!(acknowledge(not_started()), Err(BuildahError::IoError(_))));
    let unreadable = ProcessOutput { success: true, stdout: vec![0xfe], stderr: Vec::new() };
    assert!(matches!(acknowledge(Ok(unreadable)), Err(BuildahError::InvalidUTF8Output(_))));
}

#[test]
fn whole_output_is_handed_back_whatever_the_status() {
    let output =
        ProcessOutput { success: false, stdout: b"one\ntwo\n".to_vec(), stderr: vec![0xff, 0x00] };
    assert_eq!(whole_output(Ok(output.clone())).unwrap(), output);
    let output = succeeded("line 1\nline 2\n");
    assert_eq!(whole_output(Ok(output.clone())).unwrap(), output);
    assert!(matches!(whole_output(not_started()), Err(BuildahError::IoError(_))));
}

#[test]
fn teardown_never_fails() {
    assert!(matches!(teardown_report(Ok(succeeded("cid123\n"))), Teardown::Released));
    assert!(matches!(
        teardown_report(Ok(failed("container not known\n"))),
        Teardown::Leaked(BuildahError::Buildah(m)) if m == "container not known"
    ));
    assert!(matches!(
        teardown_report(not_started()),
        Teardown::Leaked(BuildahError::IoError(e)) if e.kind() == std::io::ErrorKind::NotFound
    ));
    let unreadable = ProcessOutput { success: false, stdout: Vec::new(), stderr: vec![0xff] };
    assert!(matches!(
        teardown_report(Ok(unreadable)),
        Teardown::Leaked(BuildahError::InvalidUTF8Output(_))
    ));
}

#[test]
fn errors_convert_from_the_errors_of_std() {
    let e = String::from_utf8(vec![0xff]).unwrap_err();
    assert!(matches!(BuildahError::from(e), BuildahError::InvalidUTF8Output(_)));
    let e = std::io::Error::new(std::io::ErrorKind::PermissionDenied, "denied");
    assert!(matches!(
        BuildahError::from(e),
        BuildahError::IoError(e) if e.kind() == std::io::ErrorKind::PermissionDenied
    ));
}
