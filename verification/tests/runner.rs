use std::cell::RefCell;

use coreum_test_tube::envelope::{Envelope, ForeignString, RawResult, Status};
use coreum_test_tube::error::{DecodeError, EncodeError, RunnerError};
use coreum_test_tube::response::{Any, ExecuteResponse, GasInfo, TxCommitResponse, TxResult};
use coreum_test_tube::runner::{
    encode_messages, execute, execute_multiple, query, query_response, Runner,
};
use cosmrs::proto::cosmos::bank::v1beta1::{MsgSend, QueryBalanceRequest, QueryBalanceResponse};
use cosmrs::proto::cosmos::base::abci::v1beta1::TxMsgData;
use cosmrs::proto::cosmos::base::v1beta1::Coin;
use prost::Message;

/// A runner whose chain answers every transaction with its own messages as
/// message responses, and every query with the request as the payload.
struct Echo {
    seen: RefCell<Vec<String>>,
}

impl Echo {
    fn new() -> Echo {
        Echo { seen: RefCell::new(Vec::new()) }
    }
}

impl Runner for Echo {
    type Signer = String;

    fn execute_multiple_raw<R, D>(
        &self,
        msgs: Vec<Any>,
        signer: &String,
        decode: D,
    ) -> Result<ExecuteResponse<R>, RunnerError>
    where
        D: FnOnce(Vec<u8>) -> Result<R, prost::DecodeError>,
    {
        let urls: Vec<&str> = msgs.iter().map(|m| m.type_url.as_str()).collect();
        self.seen.borrow_mut().push(format!("execute {} by {}", urls.join(" "), signer));
        let mut container = TxMsgData::default();
        for m in &msgs {
            container
                .msg_responses
                .push(cosmrs::Any { type_url: m.type_url.clone(), value: m.value.clone() });
        }
        let res = TxCommitResponse {
            tx_result: TxResult {
                data: container.encode_to_vec(),
                log: String::new(),
                gas_wanted: 100,
                gas_used: 60,
                events: vec![],
            },
        };
        ExecuteResponse::try_from_commit(res, decode)
    }

    fn query_raw<R, D>(&self, path: &str, request: Vec<u8>, decode: D) -> Result<R, RunnerError>
    where
        D: FnOnce(Vec<u8>) -> Result<R, prost::DecodeError>,
    {
        self.seen.borrow_mut().push(format!("query {}", path));
        let envelope = Envelope { status: Status::Success, payload: request };
        let raw = RawResult::from_non_null_ptr(ForeignString::new(envelope.to_wire()));
        query_response(raw, decode)
    }
}

fn send(from: &str) -> MsgSend {
    MsgSend {
        from_address: from.to_string(),
        to_address: "core1receiver".to_string(),
        amount: vec![Coin { denom: "ucore".to_string(), amount: "5".to_string() }],
    }
}

fn encode_send(msg: &MsgSend) -> Result<Vec<u8>, prost::EncodeError> {
    Ok(msg.encode_to_vec())
}

fn decode_send(bytes: Vec<u8>) -> Result<MsgSend, prost::DecodeError> {
    MsgSend::decode(bytes.as_slice())
}

/// An encoder that has room for short messages only.
fn encode_short(msg: &MsgSend) -> Result<Vec<u8>, prost::EncodeError> {
    let mut room = [0u8; 40];
    let mut buf = &mut room[..];
    msg.encode(&mut buf)?;
    Ok(msg.encode_to_vec())
}

fn encode_failure(msg: &MsgSend) -> prost::EncodeError {
    encode_short(msg).unwrap_err()
}

#[test]
fn messages_are_encoded_in_order_under_their_type_urls() {
    let msgs = vec![
        (send("core1a"), "/cosmos.bank.v1beta1.MsgSend".to_string()),
        (send("core1b"), "/other.Url".to_string()),
    ];
    let wire = encode_messages(&msgs, encode_send).unwrap();
    assert_eq!(
        wire,
        vec![
            Any {
                type_url: "/cosmos.bank.v1beta1.MsgSend".to_string(),
                value: send("core1a").encode_to_vec(),
            },
            Any { type_url: "/other.Url".to_string(), value: send("core1b").encode_to_vec() },
        ]
    );
}

#[test]
fn no_messages_encode_to_nothing() {
    let msgs: Vec<(MsgSend, String)> = vec![];
    assert_eq!(encode_messages(&msgs, encode_send), Ok(vec![]));
}

#[test]
fn one_failing_message_fails_the_whole_encoding() {
    let long = send("core1averyveryveryveryveryveryverylongaddress");
    let msgs = vec![
        (send("a"), "/cosmos.bank.v1beta1.MsgSend".to_string()),
        (long.clone(), "/cosmos.bank.v1beta1.MsgSend".to_string()),
        (send("b"), "/cosmos.bank.v1beta1.MsgSend".to_string()),
    ];
    assert_eq!(
        encode_messages(&msgs, encode_short),
        Err(RunnerError::EncodeError(EncodeError::ProtoEncodeError(encode_failure(&long))))
    );
}

#[test]
fn query_response_passes_a_reported_error_on() {
    let envelope = Envelope { status: Status::QueryError, payload: b"unknown path".to_vec() };
    let raw = RawResult::from_non_null_ptr(ForeignString::new(envelope.to_wire()));
    assert_eq!(
        query_response(raw, decode_send),
        Err(RunnerError::QueryError { msg: "unknown path".to_string() })
    );
}

#[test]
fn query_response_decodes_the_payload() {
    let envelope = Envelope { status: Status::Success, payload: send("core1a").encode_to_vec() };
    let raw = RawResult::from_non_null_ptr(ForeignString::new(envelope.to_wire()));
    assert_eq!(query_response(raw, decode_send), Ok(send("core1a")));
}

#[test]
fn query_response_with_malformed_payload_is_a_decode_error() {
    let envelope = Envelope { status: Status::Success, payload: vec![0x0a, 0x05, 0x01] };
    let raw = RawResult::from_non_null_ptr(ForeignString::new(envelope.to_wire()));
    let failure = MsgSend::decode(&[0x0a, 0x05, 0x01][..]).unwrap_err();
    assert_eq!(
        query_response(raw, decode_send),
        Err(RunnerError::DecodeError(DecodeError::ProtoDecodeError(failure)))
    );
}

#[test]
fn execute_sends_one_message_under_its_type_url() {
    let runner = Echo::new();
    let signer = "alice".to_string();
    let out = execute(
        &runner,
        send("core1a"),
        "/cosmos.bank.v1beta1.MsgSend",
        &signer,
        encode_send,
        decode_send,
    )
    .unwrap();
    assert_eq!(out.data, send("core1a"));
    assert_eq!(out.gas_info, GasInfo { gas_wanted: 100, gas_used: 60 });
    assert_eq!(*runner.seen.borrow(), vec!["execute /cosmos.bank.v1beta1.MsgSend by alice"]);
}

#[test]
fn execute_fails_before_anything_is_sent() {
    let runner = Echo::new();
    let signer = "alice".to_string();
    let long = send("core1averyveryveryveryveryveryverylongaddress");
    let out = execute(&runner, long.clone(), "/x", &signer, encode_short, decode_send);
    assert_eq!(
        out,
        Err(RunnerError::EncodeError(EncodeError::ProtoEncodeError(encode_failure(&long))))
    );
    assert!(runner.seen.borrow().is_empty());
}

#[test]
fn execute_multiple_sends_all_messages_in_one_transaction() {
    let runner = Echo::new();
    let signer = "bob".to_string();
    let msgs = vec![(send("core1a"), "/first".to_string()), (send("core1b"), "/second".to_string())];
    let out = execute_multiple(&runner, &msgs, &signer, encode_send, decode_send).unwrap();
    assert_eq!(out.data, send("core1a"));
    assert_eq!(*runner.seen.borrow(), vec!["execute /first /second by bob"]);
}

#[test]
fn execute_multiple_fails_before_anything_is_sent() {
    let runner = Echo::new();
    let signer = "bob".to_string();
    let long = send("core1averyveryveryveryveryveryverylongaddress");
    let msgs = vec![(send("core1a"), "/first".to_string()), (long.clone(), "/second".to_string())];
    let out = execute_multiple(&runner, &msgs, &signer, encode_short, decode_send);
    assert_eq!(
        out,
        Err(RunnerError::EncodeError(EncodeError::ProtoEncodeError(encode_failure(&long))))
    );
    assert!(runner.seen.borrow().is_empty());
}

#[test]
fn execute_without_messages_is_an_execute_error() {
    let runner = Echo::new();
    let signer = "bob".to_string();
    let msgs: Vec<(MsgSend, String)> = vec![];
    let out = execute_multiple(&runner, &msgs, &signer, encode_send, decode_send);
    assert_eq!(out, Err(RunnerError::ExecuteError { msg: String::new() }));
}

#[test]
fn query_sends_the_request_to_its_path() {
    let runner = Echo::new();
    let request =
        QueryBalanceRequest { address: "core1a".to_string(), denom: "ucore".to_string() };
    let out = query(
        &runner,
        "/cosmos.bank.v1beta1.Query/Balance",
        &request,
        |q: &QueryBalanceRequest| Ok(q.encode_to_vec()),
        |bytes: Vec<u8>| QueryBalanceRequest::decode(bytes.as_slice()),
    );
    assert_eq!(out, Ok(request));
    assert_eq!(*runner.seen.borrow(), vec!["query /cosmos.bank.v1beta1.Query/Balance"]);
}

#[test]
fn query_with_a_response_of_another_shape_is_a_decode_error() {
    let runner = Echo::new();
    let request =
        QueryBalanceRequest { address: "core1a".to_string(), denom: "ucore".to_string() };
    let out = query(
        &runner,
        "/cosmos.bank.v1beta1.Query/Balance",
        &request,
        |q: &QueryBalanceRequest| Ok(q.encode_to_vec()),
        |bytes: Vec<u8>| QueryBalanceResponse::decode(bytes.as_slice()),
    );
    assert!(matches!(out, Err(RunnerError::DecodeError(DecodeError::ProtoDecodeError(_)))));
}
