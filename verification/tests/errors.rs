use osascript::ScriptError;
use serde_json::Value;
use std::io;

fn missing_interpreter() -> io::Error {
    io::Error::new(io::ErrorKind::NotFound, "osascript: no such file")
}

fn bad_json() -> serde_json::Error {
    serde_json::from_str::<Value>("[1,").unwrap_err()
}

#[test]
fn an_io_error_becomes_the_io_case() {
    match ScriptError::from(missing_interpreter()) {
        ScriptError::Io(error) => assert_eq!(error.kind(), io::ErrorKind::NotFound),
        other => panic!("expected an I/O error, got {:?}", other),
    }
}

#[test]
fn a_json_error_becomes_the_json_case() {
    match ScriptError::from(bad_json()) {
        ScriptError::Json(error) => assert!(error.is_eof()),
        other => panic!("expected a JSON error, got {:?}", other),
    }
}

#[test]
fn a_utf8_error_becomes_a_script_error_that_says_so() {
    let failure = String::from_utf8(vec![b'o', b'k', 0xc0]).unwrap_err();
    let expected = format!("UTF-8 Error: {}", failure);
    match ScriptError::from(failure) {
        ScriptError::Script(message) => {
            assert_eq!(message, expected);
            assert_eq!(message, "UTF-8 Error: invalid utf-8 sequence of 1 bytes from index 2");
        },
        other => panic!("expected a script error, got {:?}", other),
    }
}

#[test]
fn the_question_mark_converts_each_failure() {
    fn run(step: u8) -> Result<(), ScriptError> {
        match step {
            0 => Err(missing_interpreter())?,
            1 => Err(bad_json())?,
            _ => Err(String::from_utf8(vec![0xff]).unwrap_err())?,
        }
        Ok(())
    }
    assert!(matches!(run(0), Err(ScriptError::Io(_))));
    assert!(matches!(run(1), Err(ScriptError::Json(_))));
    assert!(matches!(run(2), Err(ScriptError::Script(_))));
}

#[test]
fn a_script_error_prints_its_message_after_the_label() {
    let error = ScriptError::Script("execution error: Error: boom (-2700)".to_string());
    assert_eq!(error.to_string(), "script error: execution error: Error: boom (-2700)");
    assert_eq!(ScriptError::Script(String::new()).to_string(), "script error: ");
}

#[test]
fn an_io_error_prints_itself_after_the_label() {
    let expected = format!("script io error: {}", missing_interpreter());
    let error = ScriptError::from(missing_interpreter());
    assert_eq!(error.to_string(), expected);
    assert_eq!(error.to_string(), "script io error: osascript: no such file");
}

#[test]
fn a_json_error_prints_itself_after_the_label() {
    let expected = format!("script json error: {}", bad_json());
    let error = ScriptError::from(bad_json());
    assert_eq!(error.to_string(), expected);
    assert_eq!(
        error.to_string(),
        "script json error: EOF while parsing a value at line 1 column 3"
    );
}

#[test]
fn a_script_error_is_described_as_such() {
    assert_eq!(ScriptError::Script("boom".to_string()).description(), "script error");
}

#[test]
#[allow(deprecated)]
fn the_other_errors_are_described_by_what_they_hold() {
    let expected = std::error::Error::description(&missing_interpreter()).to_string();
    assert_eq!(ScriptError::from(missing_interpreter()).description(), expected);
    let expected = std::error::Error::description(&bad_json()).to_string();
    assert_eq!(ScriptError::from(bad_json()).description(), expected);
}
