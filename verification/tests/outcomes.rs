use osascript::{parsed, Outcome, ScriptError};
use serde_json::Value;

fn ended_well(stdout: &[u8]) -> Outcome {
    Outcome { success: true, stdout: stdout.to_vec(), stderr: Vec::new() }
}

fn ended_badly(stderr: &[u8]) -> Outcome {
    Outcome { success: false, stdout: Vec::new(), stderr: stderr.to_vec() }
}

fn utf8_complaint(bytes: &[u8]) -> String {
    format!("UTF-8 Error: {}", String::from_utf8(bytes.to_vec()).unwrap_err())
}

#[test]
fn a_number_on_standard_output_is_decoded() {
    assert_eq!(ended_well(b"2\n").decode().unwrap(), Value::from(2));
    assert_eq!(ended_well(b"5\n").decode().unwrap(), Value::from(5));
}

#[test]
fn null_on_standard_output_is_a_result_and_no_error() {
    assert_eq!(ended_well(b"null\n").decode().unwrap(), Value::Null);
}

#[test]
fn an_object_on_standard_output_is_decoded() {
    let value = ended_well(b"{\"name\":\"disk\",\"sizes\":[1,2.5]}\n").decode().unwrap();
    assert_eq!(value["name"], Value::from("disk"));
    assert_eq!(value["sizes"][0], Value::from(1));
    assert_eq!(value["sizes"][1], Value::from(2.5));
}

#[test]
fn standard_error_of_a_good_run_is_ignored() {
    let outcome = Outcome { success: true, stdout: b"true".to_vec(), stderr: b"noise".to_vec() };
    assert_eq!(outcome.decode().unwrap(), Value::from(true));
}

#[test]
fn the_text_of_a_good_run_is_standard_output_as_it_is() {
    assert_eq!(ended_well(b"  \"caf\xc3\xa9\" \n").text().unwrap(), "  \"caf\u{e9}\" \n");
    assert_eq!(ended_well(b"").text().unwrap(), "");
}

#[test]
fn a_bad_run_is_a_script_error_with_standard_error_as_message() {
    let complaint = "execution error: Error: boom (-2700)\n";
    match ended_badly(complaint.as_bytes()).decode() {
        Err(ScriptError::Script(message)) => {
            assert_eq!(message, complaint);
            assert!(message.contains("boom"));
        },
        other => panic!("expected a script error, got {:?}", other),
    }
    match ended_badly(complaint.as_bytes()).text() {
        Err(ScriptError::Script(message)) => assert_eq!(message, complaint),
        other => panic!("expected a script error, got {:?}", other),
    }
}

#[test]
fn standard_output_of_a_bad_run_is_ignored() {
    let outcome = Outcome { success: false, stdout: b"2\n".to_vec(), stderr: b"no".to_vec() };
    match outcome.decode() {
        Err(ScriptError::Script(message)) => assert_eq!(message, "no"),
        other => panic!("expected a script error, got {:?}", other),
    }
}

#[test]
fn a_bad_run_that_wrote_nothing_has_an_empty_message() {
    match ended_badly(b"").decode() {
        Err(ScriptError::Script(message)) => assert_eq!(message, ""),
        other => panic!("expected a script error, got {:?}", other),
    }
}

#[test]
fn standard_error_that_is_not_utf8_is_a_script_error() {
    let bytes = b"bad \xff byte";
    match ended_badly(bytes).decode() {
        Err(ScriptError::Script(message)) => {
            assert_eq!(message, utf8_complaint(bytes));
            assert_eq!(message, "UTF-8 Error: invalid utf-8 sequence of 1 bytes from index 4");
        },
        other => panic!("expected a script error, got {:?}", other),
    }
}

#[test]
fn standard_output_that_is_not_utf8_is_a_script_error() {
    let bytes = b"\"\xc3\"";
    match ended_well(bytes).decode() {
        Err(ScriptError::Script(message)) => assert_eq!(message, utf8_complaint(bytes)),
        other => panic!("expected a script error, got {:?}", other),
    }
    match ended_well(b"abc\xe2\x82").text() {
        Err(ScriptError::Script(message)) => {
            assert_eq!(message, "UTF-8 Error: incomplete utf-8 byte sequence from index 3")
        },
        other => panic!("expected a script error, got {:?}", other),
    }
}

#[test]
fn standard_output_that_is_not_json_is_a_json_error() {
    let expected = serde_json::from_str::<Value>("hello\n").unwrap_err().to_string();
    match ended_well(b"hello\n").decode() {
        Err(ScriptError::Json(error)) => assert_eq!(error.to_string(), expected),
        other => panic!("expected a JSON error, got {:?}", other),
    }
}

#[test]
fn empty_standard_output_is_a_json_error() {
    match ended_well(b"").decode() {
        Err(ScriptError::Json(error)) => assert!(error.is_eof()),
        other => panic!("expected a JSON error, got {:?}", other),
    }
}

#[test]
fn two_documents_on_standard_output_are_a_json_error() {
    assert!(matches!(ended_well(b"1 2").decode(), Err(ScriptError::Json(_))));
}

#[test]
fn parsed_keeps_what_was_read() {
    let read = serde_json::from_str::<Vec<u8>>("[1,2,3]");
    assert_eq!(parsed(read).unwrap(), vec![1, 2, 3]);
}

#[test]
fn parsed_makes_a_json_error_of_a_failure_to_read() {
    let expected = serde_json::from_str::<u8>("300").unwrap_err().to_string();
    match parsed(serde_json::from_str::<u8>("300")) {
        Err(ScriptError::Json(error)) => assert_eq!(error.to_string(), expected),
        other => panic!("expected a JSON error, got {:?}", other),
    }
}
