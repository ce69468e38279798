use coreum_test_tube::envelope::{
    violation_in, Envelope, ForeignString, ProtocolViolation, RawResult, Status,
};
use coreum_test_tube::error::RunnerError;

fn wire(text: &str) -> ForeignString {
    ForeignString::new(text.as_bytes().to_vec())
}

#[test]
fn null_pointer_is_no_result() {
    assert!(RawResult::from_ptr(ForeignString::null()).is_none());
    assert!(matches!(RawResult::try_from_ptr(ForeignString::null()), Ok(None)));
}

#[test]
fn success_payload_comes_back_exactly() {
    let raw = RawResult::from_ptr(wire("AGhlbGxv")).unwrap();
    assert_eq!(raw.into_result(), Ok(b"hello".to_vec()));
}

#[test]
fn success_payload_keeps_every_byte() {
    let raw = RawResult::from_non_null_ptr(wire("AAD/EA=="));
    assert_eq!(raw.into_result(), Ok(vec![0x00, 0xff, 0x10]));
}

#[test]
fn success_with_empty_payload() {
    let raw = RawResult::from_non_null_ptr(wire("AA=="));
    assert_eq!(raw.into_result(), Ok(Vec::new()));
}

#[test]
fn query_error_carries_the_message() {
    let raw = RawResult::from_ptr(wire("AW5vdCBmb3VuZA==")).unwrap();
    assert_eq!(
        raw.into_result(),
        Err(RunnerError::QueryError { msg: "not found".to_string() })
    );
}

#[test]
fn execute_error_carries_the_message() {
    let raw = RawResult::from_ptr(wire("Am91dCBvZiBnYXMg4pu9")).unwrap();
    assert_eq!(
        raw.into_result(),
        Err(RunnerError::ExecuteError { msg: "out of gas \u{26fd}".to_string() })
    );
}

#[test]
fn error_with_empty_message() {
    let raw = RawResult::from_non_null_ptr(wire("Ag=="));
    assert_eq!(raw.into_result(), Err(RunnerError::ExecuteError { msg: String::new() }));
}

#[test]
fn framing_gives_the_expected_text() {
    let envelope = Envelope { status: Status::Success, payload: b"hello".to_vec() };
    assert_eq!(envelope.to_bytes(), b"\x00hello".to_vec());
    assert_eq!(envelope.to_wire(), b"AGhlbGxv".to_vec());
    let failure = Envelope { status: Status::QueryError, payload: b"not found".to_vec() };
    assert_eq!(failure.to_wire(), b"AW5vdCBmb3VuZA==".to_vec());
}

#[test]
fn framed_success_round_trips() {
    let payloads: Vec<Vec<u8>> = vec![
        vec![],
        vec![0],
        vec![1, 2],
        vec![255, 254, 253],
        (0..=255u8).collect(),
        vec![0; 1000],
    ];
    for payload in payloads {
        let envelope = Envelope { status: Status::Success, payload: payload.clone() };
        let raw = RawResult::from_ptr(ForeignString::new(envelope.to_wire())).unwrap();
        assert_eq!(raw.into_result(), Ok(payload));
    }
}

#[test]
fn framed_errors_round_trip() {
    for msg in ["", "a", "insufficient funds", "gr\u{fc}\u{df}e \u{4e16}\u{754c} \u{1f600}", "nul\0inside"] {
        let query = Envelope { status: Status::QueryError, payload: msg.as_bytes().to_vec() };
        let raw = RawResult::from_non_null_ptr(ForeignString::new(query.to_wire()));
        assert_eq!(raw.into_result(), Err(RunnerError::QueryError { msg: msg.to_string() }));
        let execute = Envelope { status: Status::ExecuteError, payload: msg.as_bytes().to_vec() };
        let raw = RawResult::from_non_null_ptr(ForeignString::new(execute.to_wire()));
        assert_eq!(raw.into_result(), Err(RunnerError::ExecuteError { msg: msg.to_string() }));
    }
}

#[test]
fn checked_decoding_accepts_answers() {
    let raw = RawResult::try_from_ptr(wire("AGhlbGxv")).unwrap().unwrap();
    assert_eq!(raw.into_result(), Ok(b"hello".to_vec()));
    let raw = RawResult::try_from_ptr(wire("AW5vdCBmb3VuZA==")).unwrap().unwrap();
    assert_eq!(
        raw.into_result(),
        Err(RunnerError::QueryError { msg: "not found".to_string() })
    );
}

#[test]
fn checked_decoding_reports_invalid_base64() {
    assert_eq!(
        RawResult::try_from_ptr(wire("not base64!")).err(),
        Some(ProtocolViolation::InvalidBase64)
    );
    assert_eq!(
        RawResult::try_from_ptr(wire("AGhlbGx")).err(),
        Some(ProtocolViolation::InvalidBase64)
    );
}

#[test]
fn checked_decoding_reports_missing_status() {
    assert_eq!(RawResult::try_from_ptr(wire("")).err(), Some(ProtocolViolation::MissingStatus));
}

#[test]
fn checked_decoding_reports_undefined_code() {
    assert_eq!(
        RawResult::try_from_ptr(wire("A3g=")).err(),
        Some(ProtocolViolation::UndefinedCode(3))
    );
}

#[test]
fn checked_decoding_reports_invalid_utf8() {
    assert_eq!(RawResult::try_from_ptr(wire("Af/+")).err(), Some(ProtocolViolation::InvalidUtf8));
}

#[test]
fn success_payload_need_not_be_text() {
    let envelope = Envelope { status: Status::Success, payload: vec![0xff, 0xfe] };
    let raw = RawResult::try_from_ptr(ForeignString::new(envelope.to_wire())).unwrap().unwrap();
    assert_eq!(raw.into_result(), Ok(vec![0xff, 0xfe]));
}

#[test]
fn status_tags() {
    assert_eq!(Status::from_tag(0), Status::Success);
    assert_eq!(Status::from_tag(1), Status::QueryError);
    assert_eq!(Status::from_tag(2), Status::ExecuteError);
    assert_eq!(Status::from_tag(3), Status::Reserved(3));
    assert_eq!(Status::from_tag(255), Status::Reserved(255));
    for tag in 0..=255u8 {
        assert_eq!(Status::from_tag(tag).tag(), tag);
    }
}

#[test]
fn envelope_splits_into_status_and_payload() {
    assert_eq!(Envelope::from_bytes(vec![]), None);
    assert_eq!(
        Envelope::from_bytes(vec![0]),
        Some(Envelope { status: Status::Success, payload: vec![] })
    );
    assert_eq!(
        Envelope::from_bytes(vec![2, 7, 8]),
        Some(Envelope { status: Status::ExecuteError, payload: vec![7, 8] })
    );
    assert_eq!(
        Envelope::from_bytes(vec![9, 1]),
        Some(Envelope { status: Status::Reserved(9), payload: vec![1] })
    );
    let envelope = Envelope { status: Status::Reserved(9), payload: vec![1, 2, 3] };
    assert_eq!(Envelope::from_bytes(envelope.to_bytes()), Some(envelope));
}

#[test]
fn classification_of_an_envelope() {
    let envelope = Envelope { status: Status::QueryError, payload: b"denied".to_vec() };
    assert_eq!(
        RawResult::from_envelope(envelope).into_result(),
        Err(RunnerError::QueryError { msg: "denied".to_string() })
    );
    let envelope = Envelope { status: Status::Success, payload: vec![1, 2, 3] };
    assert_eq!(RawResult::from_envelope(envelope).into_result(), Ok(vec![1, 2, 3]));
}

#[test]
fn violations_in_envelope_bytes() {
    assert_eq!(violation_in(&[]), Some(ProtocolViolation::MissingStatus));
    assert_eq!(violation_in(&[0]), None);
    assert_eq!(violation_in(&[0, 0xff]), None);
    assert_eq!(violation_in(&[1]), None);
    assert_eq!(violation_in(&[1, b'o', b'k']), None);
    assert_eq!(violation_in(&[2, 0xc3, 0xa9]), None);
    assert_eq!(violation_in(&[2, 0xc3]), Some(ProtocolViolation::InvalidUtf8));
    assert_eq!(violation_in(&[1, 0xed, 0xa0, 0x80]), Some(ProtocolViolation::InvalidUtf8));
    assert_eq!(violation_in(&[3]), Some(ProtocolViolation::UndefinedCode(3)));
    assert_eq!(violation_in(&[200, 1, 2]), Some(ProtocolViolation::UndefinedCode(200)));
}
