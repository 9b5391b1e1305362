use file_reader::outcome::{outcome, read_outcome};

#[test]
fn read_outcome_reports_the_contents_of_a_text_file() {
    assert_eq!(read_outcome(Ok(b"hello".to_vec())), Ok(String::from("hello")));
}

#[test]
fn read_outcome_reports_a_missing_file() {
    let reported = read_outcome(Err(String::from("No such file or directory (os error 2)")));
    let message = reported.expect_err("a failed read is a failure");
    assert!(message.contains("Failed to read file:"));
    assert_eq!(message, "Failed to read file: No such file or directory (os error 2)");
}

#[test]
fn read_outcome_reports_a_directory_as_a_failure() {
    assert_eq!(
        read_outcome(Err(String::from("Is a directory (os error 21)"))),
        Err(String::from("Failed to read file: Is a directory (os error 21)"))
    );
}

#[test]
fn read_outcome_reports_a_refused_read() {
    assert_eq!(
        read_outcome(Err(String::from("Permission denied (os error 13)"))),
        Err(String::from("Failed to read file: Permission denied (os error 13)"))
    );
}

#[test]
fn read_outcome_reports_bytes_that_are_not_text_as_a_failure() {
    assert_eq!(
        read_outcome(Ok(vec![b'h', b'i', 0xff, b'!'])),
        Err(String::from("Failed to read file: stream did not contain valid UTF-8"))
    );
}

#[test]
fn read_outcome_reports_an_empty_file_as_empty_contents() {
    assert_eq!(read_outcome(Ok(Vec::new())), Ok(String::new()));
}

#[test]
fn read_outcome_reports_the_whole_contents() {
    let contents = String::from("first line\nsecond line \u{2014} with a dash\n\n\u{1f600}\n");
    assert_eq!(read_outcome(Ok(contents.clone().into_bytes())), Ok(contents));
}

#[test]
fn read_outcome_is_the_same_for_the_same_read() {
    let bytes = "unchanged \u{2713}".as_bytes().to_vec();
    let first = read_outcome(Ok(bytes.clone()));
    let second = read_outcome(Ok(bytes));
    assert_eq!(first, Ok(String::from("unchanged \u{2713}")));
    assert_eq!(first, second);

    let first = read_outcome(Err(String::from("gone")));
    let second = read_outcome(Err(String::from("gone")));
    assert_eq!(first, Err(String::from("Failed to read file: gone")));
    assert_eq!(first, second);
}

#[test]
fn read_outcome_failures_all_start_alike() {
    let reads: Vec<Result<Vec<u8>, String>> = vec![
        Err(String::new()),
        Err(String::from("No such file or directory (os error 2)")),
        Ok(vec![0x80]),
        Ok(vec![0xf0, 0x9f, 0x98]),
    ];
    for read in reads {
        let message = read_outcome(read).expect_err("none of these is text");
        assert!(message.starts_with("Failed to read file: "));
    }
}

#[test]
fn read_outcome_describes_an_error_of_the_standard_library() {
    let error = std::io::Error::from(std::io::ErrorKind::NotFound);
    let reason = error.to_string();
    assert_eq!(
        read_outcome(Err(reason.clone())),
        Err(format!("Failed to read file: {}", error))
    );
}

#[test]
fn outcome_passes_contents_through() {
    assert_eq!(outcome(Ok(String::from("hello"))), Ok(String::from("hello")));
    assert_eq!(outcome(Ok(String::new())), Ok(String::new()));
}

#[test]
fn outcome_wraps_the_reason_of_a_failure() {
    assert_eq!(
        outcome(Err(String::from("broken pipe"))),
        Err(String::from("Failed to read file: broken pipe"))
    );
}

#[test]
fn outcome_does_not_take_contents_for_a_message() {
    assert_eq!(
        outcome(Ok(String::from("Failed to read file: not really"))),
        Ok(String::from("Failed to read file: not really"))
    );
}
