use now_playing_to_file::error::{ErrorKind, NowPlayingError};

#[test]
fn api_unavailable_says_that_the_pointer_is_missing() {
    let error = NowPlayingError::api_unavailable();
    assert_eq!(error.kind, ErrorKind::ApiUnavailable);
    assert_eq!(error.message, "couldn't get plugin api pointer");
}

#[test]
fn encoding_error_keeps_its_reason() {
    let error = NowPlayingError::encoding(String::from("invalid utf-8 sequence of 1 bytes from index 0"));
    assert_eq!(error.kind, ErrorKind::Encoding);
    assert_eq!(error.message, "invalid utf-8 sequence of 1 bytes from index 0");
}

#[test]
fn io_error_keeps_its_reason() {
    let error = NowPlayingError::io(String::from("Permission denied (os error 13)"));
    assert_eq!(error.kind, ErrorKind::Io);
    assert_eq!(error.message, "Permission denied (os error 13)");
}

#[test]
fn diagnostic_line_is_prefix_message_line_feed() {
    assert_eq!(
        NowPlayingError::api_unavailable().diagnostic_line(),
        "now_playing_to_file: couldn't get plugin api pointer\n"
    );
    assert_eq!(
        NowPlayingError::io(String::from("No such file or directory (os error 2)")).diagnostic_line(),
        "now_playing_to_file: No such file or directory (os error 2)\n"
    );
}

#[test]
fn text_is_the_message() {
    assert_eq!(NowPlayingError::api_unavailable().text(), "couldn't get plugin api pointer");
    assert_eq!(NowPlayingError::io(String::from("disk full")).text(), "disk full");
    assert_eq!(NowPlayingError::encoding(String::new()).text(), "");
}

#[test]
fn diagnostic_line_of_an_empty_message() {
    assert_eq!(NowPlayingError::io(String::new()).diagnostic_line(), "now_playing_to_file: \n");
}
