use babelink::capture::{capture_result, CaptureRegion};
use babelink::errors::CmdError;
use babelink::ocr::{decode_image, ocr_text};
use babelink::tool::ToolRun;

fn done(success: bool, stdout: &[u8], stderr: &[u8]) -> ToolRun {
    ToolRun::Done { success, stdout: stdout.to_vec(), stderr: stderr.to_vec() }
}

#[test]
fn capture_encodes_image_as_base64() {
    let r = capture_result(done(true, b"", b""), Ok(vec![1u8, 2, 3]));
    assert_eq!(r, Ok("AQID".to_string()));
}

#[test]
fn capture_high_bytes_encode() {
    let r = capture_result(done(true, b"", b""), Ok(vec![255u8, 0, 128]));
    assert_eq!(r, Ok("/wCA".to_string()));
}

#[test]
fn capture_nonzero_exit_is_error() {
    let r = capture_result(done(false, b"", b"boom\n"), Ok(vec![1u8]));
    assert_eq!(r, Err(CmdError::NonZeroExit("boom\n".to_string())));
}

#[test]
fn capture_spawn_failure_is_error() {
    let r = capture_result(ToolRun::Failed("no such tool".to_string()), Ok(vec![]));
    assert_eq!(r, Err(CmdError::Spawn("no such tool".to_string())));
}

#[test]
fn capture_unreadable_image_is_error() {
    let r = capture_result(done(true, b"", b""), Err("no file".to_string()));
    assert_eq!(r, Err(CmdError::Io("no file".to_string())));
}

#[test]
fn decode_then_reencode_round_trips() {
    let bytes = decode_image("aGVsbG8=").unwrap();
    assert_eq!(bytes, b"hello".to_vec());
    let again = capture_result(done(true, b"", b""), Ok(bytes));
    assert_eq!(again, Ok("aGVsbG8=".to_string()));
}

#[test]
fn encode_then_decode_round_trips() {
    let encoded = match capture_result(done(true, b"", b""), Ok(vec![9u8, 250, 0, 77, 3])) {
        Ok(s) => s,
        Err(_) => panic!("encoding cannot fail"),
    };
    let back = decode_image(&encoded).unwrap();
    assert_eq!(back, vec![9u8, 250, 0, 77, 3]);
}

#[test]
fn decode_rejects_garbage() {
    assert!(matches!(decode_image("not base64!"), Err(CmdError::Decode(_))));
}

#[test]
fn decode_rejects_missing_padding() {
    assert!(matches!(decode_image("AQ"), Err(CmdError::Decode(_))));
}

#[test]
fn decode_rejects_set_trailing_bits() {
    assert!(matches!(decode_image("AR=="), Err(CmdError::Decode(_))));
}

#[test]
fn decode_accepts_empty() {
    assert_eq!(decode_image("").unwrap(), Vec::<u8>::new());
}

#[test]
fn ocr_trims_tool_output() {
    let r = ocr_text(done(true, b"  hello world \n\t", b""));
    assert_eq!(r, Ok("hello world".to_string()));
}

#[test]
fn ocr_whitespace_only_output_is_empty() {
    let r = ocr_text(done(true, b" \n\t ", b""));
    assert_eq!(r, Ok(String::new()));
}

#[test]
fn ocr_invalid_utf8_shows_replacement() {
    let r = ocr_text(done(true, &[0x61, 0xFF, 0x62][..], b""));
    assert_eq!(r, Ok("a\u{FFFD}b".to_string()));
}

#[test]
fn ocr_nonzero_exit_is_error_not_empty_success() {
    let r = ocr_text(done(false, b"", b"tesseract blew up"));
    assert_eq!(r, Err(CmdError::NonZeroExit("tesseract blew up".to_string())));
}

#[test]
fn ocr_spawn_failure_is_error() {
    let r = ocr_text(ToolRun::Failed("not installed".to_string()));
    assert_eq!(r, Err(CmdError::Spawn("not installed".to_string())));
}

#[test]
fn fallback_only_when_tool_never_started() {
    assert!(ToolRun::Failed("enoent".to_string()).spawn_failed());
    assert!(!done(false, b"", b"ran and failed").spawn_failed());
    assert!(!done(true, b"", b"").spawn_failed());
}

#[test]
fn region_argument_strings() {
    let region = CaptureRegion { x: 10, y: 20, width: 300, height: 4 };
    assert_eq!(region.comma_arg(), "10,20,300,4");
    assert_eq!(region.area_arg(), "300x4+10+20");
    assert_eq!(region.list_arg(), "10, 20, 300, 4");
}

#[test]
fn region_argument_large_numbers() {
    let region = CaptureRegion { x: 0, y: 1234567890, width: 1, height: 9223372036854775807 };
    assert_eq!(region.comma_arg(), "0,1234567890,1,9223372036854775807");
}

#[test]
fn region_argument_negative_coordinates() {
    let region = CaptureRegion { x: -1920, y: -5, width: 800, height: 600 };
    assert_eq!(region.comma_arg(), "-1920,-5,800,600");
    assert_eq!(region.area_arg(), "800x600+-1920+-5");
    let extreme = CaptureRegion { x: -9223372036854775808, y: 0, width: 1, height: 1 };
    assert_eq!(extreme.list_arg(), "-9223372036854775808, 0, 1, 1");
}

#[test]
fn ocr_trims_unicode_whitespace() {
    let r = ocr_text(done(true, "\u{00A0}hola\u{3000}\n".as_bytes(), b""));
    assert_eq!(r, Ok("hola".to_string()));
}
