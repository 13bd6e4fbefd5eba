use vitale_log::entry::encode_entry;
use vitale_log::log_file::LogFile;

#[test]
fn absent_file_holds_nothing() {
    let file = LogFile::absent();
    assert!(!file.is_present());
    assert_eq!(file.contents(), b"");
}

#[test]
fn holding_keeps_the_bytes_given() {
    let file = LogFile::holding(b"earlier\n".to_vec());
    assert!(file.is_present());
    assert_eq!(file.contents(), b"earlier\n");

    let empty = LogFile::holding(Vec::new());
    assert!(empty.is_present());
    assert_eq!(empty.contents(), b"");
}

#[test]
fn first_log_creates_the_file() {
    let mut file = LogFile::absent();
    file.log("hello");
    assert!(file.is_present());
    assert_eq!(file.contents(), b"hello\n");
}

#[test]
fn log_appends_exactly_the_entry() {
    let mut file = LogFile::holding(b"earlier\n".to_vec());
    file.log("hello");
    assert_eq!(file.contents(), b"earlier\nhello\n");
}

#[test]
fn logs_are_kept_in_call_order() {
    let mut file = LogFile::absent();
    let messages = ["m1", "m2", "", "m4 with spaces", "m5"];
    let mut expected: Vec<u8> = Vec::new();
    for message in messages {
        file.log(message);
        expected.extend_from_slice(message.as_bytes());
        expected.push(b'\n');
        assert_eq!(file.contents(), expected.as_slice());
    }
    assert_eq!(file.contents(), b"m1\nm2\n\nm4 with spaces\nm5\n");
}

#[test]
fn log_never_truncates() {
    let prior = b"no newline at the end".to_vec();
    let mut file = LogFile::holding(prior.clone());
    let mut length = file.contents().len();
    for message in ["a", "", "ccc"] {
        file.log(message);
        let now = file.contents();
        assert!(now.len() > length);
        assert_eq!(now.len(), length + encode_entry(message).len());
        assert_eq!(&now[..prior.len()], prior.as_slice());
        length = now.len();
    }
    assert_eq!(file.contents(), b"no newline at the enda\n\nccc\n");
}

#[test]
fn one_log_with_embedded_newline_adds_two_lines() {
    let mut file = LogFile::holding(b"first\n".to_vec());
    file.log("a\nb");
    assert_eq!(file.contents(), b"first\na\nb\n");
    let text = String::from_utf8(file.contents().to_vec()).expect("the log is text");
    let lines: Vec<&str> = text.lines().collect();
    assert_eq!(lines, vec!["first", "a", "b"]);
}

#[test]
fn log_of_the_same_message_twice_adds_it_twice() {
    let mut file = LogFile::absent();
    file.log("again");
    file.log("again");
    assert_eq!(file.contents(), b"again\nagain\n");
}

#[test]
fn log_file_clone_is_independent() {
    let mut file = LogFile::holding(b"x\n".to_vec());
    let copy = file.clone();
    file.log("y");
    assert_eq!(copy.contents(), b"x\n");
    assert_eq!(file.contents(), b"x\ny\n");
    assert_ne!(file, copy);
}
