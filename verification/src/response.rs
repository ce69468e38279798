//! The canonical result of an execution, and the two chain-native response
//! shapes that are normalized into it: the answer to a simulation and the
//! answer to a committed transaction.

use crate::envelope::utf8_text;
use crate::error::{DecodeError, RunnerError, RunnerErrorView};
use cosmrs::proto::cosmos::base::abci::v1beta1::TxMsgData;
use prost::DecodeError as ProstDecodeError;
use prost::Message;
use vstd::prelude::*;
use vstd::utf8::*;

verus! {

/// A message in its wire form: the bytes, tagged with the type-url that says
/// how to read them.
#[derive(Debug, Clone, PartialEq, Eq)]
pub struct Any {
    pub type_url: String,
    pub value: Vec<u8>,
}

/// A message in wire form, as contracts see it.
pub struct AnyView {
    pub type_url: Seq<char>,
    pub value: Seq<u8>,
}

impl View for Any {
    type V = AnyView;

    open spec fn view(&self) -> AnyView {
        AnyView { type_url: self.type_url@, value: self.value@ }
    }
}

impl Any {
    pub fn new(type_url: String, value: Vec<u8>) -> (any: Any)
        ensures
            any.type_url == type_url,
            any.value == value,
    {
        Any { type_url, value }
    }
}

/// One key and value of an event.
#[derive(Debug, Clone, PartialEq, Eq)]
pub struct Attribute {
    pub key: String,
    pub value: String,
}

/// An attribute, as contracts see it.
pub struct AttributeView {
    pub key: Seq<char>,
    pub value: Seq<char>,
}

impl View for Attribute {
    type V = AttributeView;

    open spec fn view(&self) -> AttributeView {
        AttributeView { key: self.key@, value: self.value@ }
    }
}

/// An event that the chain emitted while it executed a transaction. The order
/// of its attributes is part of what it says.
#[derive(Debug, Clone, PartialEq, Eq)]
pub struct Event {
    pub kind: String,
    pub attributes: Vec<Attribute>,
}

/// An event, as contracts see it.
pub struct EventView {
    pub kind: Seq<char>,
    pub attributes: Seq<AttributeView>,
}

impl View for Event {
    type V = EventView;

    open spec fn view(&self) -> EventView {
        EventView {
            kind: self.kind@,
            attributes: Seq::new(self.attributes@.len(), |i: int| self.attributes@[i]@),
        }
    }
}

/// Gas accounting of one execution: what was asked for and what was consumed.
#[derive(Debug, Clone, Copy, PartialEq, Eq, Structural)]
pub struct GasInfo {
    pub gas_wanted: u64,
    pub gas_used: u64,
}

/// The canonical outcome of an execute call.
#[derive(Debug, Clone, PartialEq)]
pub struct ExecuteResponse<R> {
    /// The response of the first message, decoded.
    pub data: R,
    /// The result data of the transaction as the chain returned it.
    pub raw_data: Vec<u8>,
    pub events: Vec<Event>,
    pub gas_info: GasInfo,
}

/// The outcome of an execute call, as contracts see it.
pub struct ExecuteResponseView<R> {
    pub data: R,
    pub raw_data: Seq<u8>,
    pub events: Seq<EventView>,
    pub gas_info: GasInfo,
}

impl<R> View for ExecuteResponse<R> {
    type V = ExecuteResponseView<R>;

    open spec fn view(&self) -> ExecuteResponseView<R> {
        ExecuteResponseView {
            data: self.data,
            raw_data: self.raw_data@,
            events: Seq::new(self.events@.len(), |i: int| self.events@[i]@),
            gas_info: self.gas_info,
        }
    }
}

/// What an execute call returns, as contracts see it.
pub open spec fn outcome_view<R>(out: Result<ExecuteResponse<R>, RunnerError>) -> Result<
    ExecuteResponseView<R>,
    RunnerErrorView,
> {
    match out {
        Ok(response) => Ok(response@),
        Err(e) => Err(e@),
    }
}

/// An attribute as a simulation reports it: key and value are raw bytes.
#[derive(Debug, Clone, PartialEq, Eq)]
pub struct RawAttribute {
    pub key: Vec<u8>,
    pub value: Vec<u8>,
    pub index: bool,
}

/// An event as a simulation reports it.
#[derive(Debug, Clone, PartialEq, Eq)]
pub struct RawEvent {
    pub kind: String,
    pub attributes: Vec<RawAttribute>,
}

/// The result section of a simulation response.
#[derive(Debug, Clone, PartialEq, Eq)]
pub struct SimulationResult {
    pub data: Vec<u8>,
    pub log: String,
    pub events: Vec<RawEvent>,
    pub msg_responses: Vec<Any>,
}

/// The answer of the chain to the dry run of a transaction.
#[derive(Debug, Clone, PartialEq, Eq)]
pub struct SimulationResponse {
    pub gas_info: Option<GasInfo>,
    pub result: Option<SimulationResult>,
}

/// An attribute as a committed transaction reports it: key and value are text.
#[derive(Debug, Clone, PartialEq, Eq)]
pub struct IndexedAttribute {
    pub key: String,
    pub value: String,
    pub index: bool,
}

/// An event as a committed transaction reports it.
#[derive(Debug, Clone, PartialEq, Eq)]
pub struct CommittedEvent {
    pub kind: String,
    pub attributes: Vec<IndexedAttribute>,
}

/// The result of executing a committed transaction.
#[derive(Debug, Clone, PartialEq, Eq)]
pub struct TxResult {
    /// The message-data container of the transaction, in protobuf form.
    pub data: Vec<u8>,
    pub log: String,
    pub gas_wanted: i64,
    pub gas_used: i64,
    pub events: Vec<CommittedEvent>,
}

/// The answer of the chain to a transaction that was broadcast and committed.
#[derive(Debug, Clone, PartialEq, Eq)]
pub struct TxCommitResponse {
    pub tx_result: TxResult,
}

/// The two shapes in which the chain answers an execution.
#[derive(Debug, Clone, PartialEq, Eq)]
pub enum ChainResponse {
    Simulated(SimulationResponse),
    Committed(TxCommitResponse),
}

/// The views of a sequence of messages, in order.
pub open spec fn any_views(msgs: Seq<Any>) -> Seq<AnyView> {
    Seq::new(msgs.len(), |i: int| msgs[i]@)
}

/// The message responses that a message-data container in protobuf form
/// holds, or the error for bytes that are no such container.
pub uninterp spec fn tx_msg_data_decoding(bytes: Seq<u8>) -> Result<Seq<AnyView>, ProstDecodeError>;

/// Calls `Message::decode` of `prost` for `TxMsgData` of `cosmrs`, and keeps
/// of the container its message responses. Trusted: the call is a function of
/// the bytes alone, which `tx_msg_data_decoding` names.
#[verifier::external_body]
fn decode_tx_msg_data(bytes: &[u8]) -> (msgs: Result<Vec<Any>, ProstDecodeError>)
    ensures
        match msgs {
            Ok(m) => tx_msg_data_decoding(bytes@) == Ok::<Seq<AnyView>, ProstDecodeError>(
                any_views(m@),
            ),
            Err(e) => tx_msg_data_decoding(bytes@) == Err::<Seq<AnyView>, ProstDecodeError>(e),
        },
{
    match TxMsgData::decode(bytes) {
        Ok(container) => Ok(
            container.msg_responses.into_iter().map(|m| Any::new(m.type_url, m.value)).collect(),
        ),
        Err(e) => Err(e),
    }
}

/// The bytes of the first message response of a decoded container, where it
/// decoded and holds one.
pub open spec fn first_response_value(container: Result<Seq<AnyView>, ProstDecodeError>) -> Option<
    Seq<u8>,
> {
    match container {
        Ok(msgs) => if msgs.len() > 0 {
            Some(msgs[0].value)
        } else {
            None
        },
        Err(_) => None,
    }
}

/// The text of a raw attribute, where both its key and its value are valid
/// UTF-8. Bytes that are not are never replaced by anything.
pub open spec fn attribute_text(a: RawAttribute) -> Option<AttributeView> {
    if valid_utf8(a.key@) && valid_utf8(a.value@) {
        Some(AttributeView { key: decode_utf8(a.key@), value: decode_utf8(a.value@) })
    } else {
        None
    }
}

/// The attributes of a raw event as text, one for one and in order, where
/// each of them is valid UTF-8.
pub open spec fn attributes_text(attrs: Seq<RawAttribute>) -> Option<Seq<AttributeView>> {
    if forall|i: int| 0 <= i < attrs.len() ==> (#[trigger] attribute_text(attrs[i])) is Some {
        Some(Seq::new(attrs.len(), |i: int| attribute_text(attrs[i]).unwrap()))
    } else {
        None
    }
}

/// A raw event in canonical shape, where all its attributes are valid UTF-8.
pub open spec fn event_text(e: RawEvent) -> Option<EventView> {
    match attributes_text(e.attributes@) {
        Some(attributes) => Some(EventView { kind: e.kind@, attributes }),
        None => None,
    }
}

/// The raw events of a simulation in canonical shape, one for one and in
/// order, where all of them are valid UTF-8.
pub open spec fn events_text(events: Seq<RawEvent>) -> Option<Seq<EventView>> {
    if forall|i: int| 0 <= i < events.len() ==> (#[trigger] event_text(events[i])) is Some {
        Some(Seq::new(events.len(), |i: int| event_text(events[i]).unwrap()))
    } else {
        None
    }
}

/// The attribute of a committed event in canonical shape.
pub open spec fn committed_attribute(a: IndexedAttribute) -> AttributeView {
    AttributeView { key: a.key@, value: a.value@ }
}

/// A committed event in canonical shape: its attributes one for one and in order.
pub open spec fn committed_event(e: CommittedEvent) -> EventView {
    EventView {
        kind: e.kind@,
        attributes: Seq::new(e.attributes@.len(), |i: int| committed_attribute(e.attributes@[i])),
    }
}

/// The events of a committed transaction in canonical shape, one for one and in order.
pub open spec fn committed_events(events: Seq<CommittedEvent>) -> Seq<EventView> {
    Seq::new(events.len(), |i: int| committed_event(events[i]))
}

/// A signed 64-bit gas figure read as an unsigned one: the same 64 bits.
pub open spec fn gas_figure(gas: i64) -> u64 {
    if gas >= 0 {
        gas as u64
    } else {
        (gas + 0x1_0000_0000_0000_0000) as u64
    }
}

/// What a simulation response normalizes to, given how the response of its
/// first message decoded. In order: no message response at all is an execute
/// error that carries the log; a response that did not decode is a decode
/// error; so is an event with bytes that are no UTF-8.
pub open spec fn simulated_outcome<R>(
    res: SimulationResponse,
    decoded: Result<R, ProstDecodeError>,
) -> Result<ExecuteResponseView<R>, RunnerErrorView>
    recommends
        res.result is Some,
{
    let result = res.result.unwrap();
    if result.msg_responses@.len() == 0 {
        Err(RunnerErrorView::ExecuteError { msg: result.log@ })
    } else {
        match decoded {
            Err(e) => Err(RunnerErrorView::DecodeError(DecodeError::ProtoDecodeError(e))),
            Ok(data) => match events_text(result.events@) {
                None => Err(RunnerErrorView::DecodeError(DecodeError::Utf8Error)),
                Some(events) => Ok(
                    ExecuteResponseView {
                        data,
                        raw_data: result.data@,
                        events,
                        gas_info: res.gas_info.unwrap(),
                    },
                ),
            },
        }
    }
}

/// What a committed-transaction response normalizes to, given what its
/// message-data container holds and how the response of its first message
/// decoded. In order: a container that did not decode is a decode error; no
/// message response at all is an execute error that carries the log; a
/// response that did not decode is a decode error.
pub open spec fn committed_outcome<R>(
    res: TxCommitResponse,
    container: Result<Seq<AnyView>, ProstDecodeError>,
    decoded: Result<R, ProstDecodeError>,
) -> Result<ExecuteResponseView<R>, RunnerErrorView> {
    match container {
        Err(e) => Err(RunnerErrorView::DecodeError(DecodeError::ProtoDecodeError(e))),
        Ok(msgs) => if msgs.len() == 0 {
            Err(RunnerErrorView::ExecuteError { msg: res.tx_result.log@ })
        } else {
            match decoded {
                Err(e) => Err(RunnerErrorView::DecodeError(DecodeError::ProtoDecodeError(e))),
                Ok(data) => Ok(
                    ExecuteResponseView {
                        data,
                        raw_data: res.tx_result.data@,
                        events: committed_events(res.tx_result.events@),
                        gas_info: GasInfo {
                            gas_wanted: gas_figure(res.tx_result.gas_wanted),
                            gas_used: gas_figure(res.tx_result.gas_used),
                        },
                    },
                ),
            }
        },
    }
}

/// Reads a signed gas figure as an unsigned one.
pub fn gas_from_signed(gas: i64) -> (figure: u64)
    ensures
        figure == gas_figure(gas),
{
    if gas >= 0 {
        gas as u64
    } else {
        u64::MAX - ((-(gas + 1)) as u64)
    }
}

/// Decodes the attributes of a raw event, in order. Fails on the first that
/// is no valid UTF-8.
fn decode_attributes(attrs: &Vec<RawAttribute>) -> (out: Option<Vec<Attribute>>)
    ensures
        match out {
            Some(v) => attributes_text(attrs@) == Some(
                Seq::new(v@.len(), |i: int| v@[i]@),
            ),
            None => attributes_text(attrs@) is None,
        },
{
    let mut out: Vec<Attribute> = Vec::new();
    let mut i: usize = 0;
    while i < attrs.len()
        invariant
            i <= attrs@.len(),
            out@.len() == i,
            forall|j: int| 0 <= j < i ==> (#[trigger] attribute_text(attrs@[j])) == Some(out@[j]@),
        decreases attrs@.len() - i,
    {
        let key = match utf8_text(attrs[i].key.as_slice()) {
            Some(s) => s.to_owned(),
            None => {
                assert(attribute_text(attrs@[i as int]) is None);
                return None;
            },
        };
        let value = match utf8_text(attrs[i].value.as_slice()) {
            Some(s) => s.to_owned(),
            None => {
                assert(attribute_text(attrs@[i as int]) is None);
                return None;
            },
        };
        out.push(Attribute { key, value });
        i = i + 1;
    }
    proof {
        assert(Seq::new(out@.len(), |i: int| out@[i]@) =~= Seq::new(
            attrs@.len(),
            |i: int| attribute_text(attrs@[i]).unwrap(),
        ));
    }
    Some(out)
}

/// Decodes the events of a simulation, in order. Fails on the first that
/// holds bytes that are no valid UTF-8.
pub fn decode_events(events: &Vec<RawEvent>) -> (out: Option<Vec<Event>>)
    ensures
        match out {
            Some(v) => events_text(events@) == Some(Seq::new(v@.len(), |i: int| v@[i]@)),
            None => events_text(events@) is None,
        },
{
    let mut out: Vec<Event> = Vec::new();
    let mut i: usize = 0;
    while i < events.len()
        invariant
            i <= events@.len(),
            out@.len() == i,
            forall|j: int| 0 <= j < i ==> (#[trigger] event_text(events@[j])) == Some(out@[j]@),
        decreases events@.len() - i,
    {
        let attributes = match decode_attributes(&events[i].attributes) {
            Some(a) => a,
            None => {
                assert(event_text(events@[i as int]) is None);
                return None;
            },
        };
        let kind = events[i].kind.clone();
        out.push(Event { kind, attributes });
        i = i + 1;
    }
    proof {
        assert(Seq::new(out@.len(), |i: int| out@[i]@) =~= Seq::new(
            events@.len(),
            |i: int| event_text(events@[i]).unwrap(),
        ));
    }
    Some(out)
}

/// Brings the attributes of a committed event into canonical shape, in order.
fn convert_attributes(attrs: &Vec<IndexedAttribute>) -> (out: Vec<Attribute>)
    ensures
        out@.len() == attrs@.len(),
        forall|j: int| 0 <= j < attrs@.len() ==> out@[j]@ == committed_attribute(attrs@[j]),
{
    let mut out: Vec<Attribute> = Vec::new();
    let mut i: usize = 0;
    while i < attrs.len()
        invariant
            i <= attrs@.len(),
            out@.len() == i,
            forall|j: int| 0 <= j < i ==> out@[j]@ == committed_attribute(attrs@[j]),
        decreases attrs@.len() - i,
    {
        out.push(Attribute { key: attrs[i].key.clone(), value: attrs[i].value.clone() });
        i = i + 1;
    }
    out
}

/// Brings the events of a committed transaction into canonical shape, in order.
pub fn convert_events(events: &Vec<CommittedEvent>) -> (out: Vec<Event>)
    ensures
        Seq::new(out@.len(), |i: int| out@[i]@) == committed_events(events@),
{
    let mut out: Vec<Event> = Vec::new();
    let mut i: usize = 0;
    while i < events.len()
        invariant
            i <= events@.len(),
            out@.len() == i,
            forall|j: int| 0 <= j < i ==> out@[j]@ == committed_event(events@[j]),
        decreases events@.len() - i,
    {
        let attributes = convert_attributes(&events[i].attributes);
        let kind = events[i].kind.clone();
        let event = Event { kind, attributes };
        proof {
            assert(event@.attributes =~= committed_event(events@[i as int]).attributes);
        }
        out.push(event);
        i = i + 1;
    }
    proof {
        assert(Seq::new(out@.len(), |i: int| out@[i]@) =~= committed_events(events@));
    }
    out
}

impl SimulationResponse {
    /// The bytes of the first message response, where there is one.
    pub open spec fn first_value(self) -> Option<Vec<u8>> {
        if self.result is Some && self.result.unwrap().msg_responses@.len() > 0 {
            Some(self.result.unwrap().msg_responses@[0].value)
        } else {
            None
        }
    }
}

impl<R> ExecuteResponse<R> {
    /// Normalizes a simulation response. `decode` reads the response of the
    /// first message as the type that the caller expects; it is called on
    /// the bytes of that response, and not at all where there is none.
    pub fn try_from_simulation<F>(res: SimulationResponse, decode: F) -> (out: Result<
        ExecuteResponse<R>,
        RunnerError,
    >) where F: FnOnce(Vec<u8>) -> Result<R, ProstDecodeError>
        requires
            res.result is Some,
            res.first_value() matches Some(value) ==> {
                &&& decode.requires((value,))
                &&& res.gas_info is None ==> forall|d: Result<R, ProstDecodeError>|
                    decode.ensures((value,), d) ==> simulated_outcome(res, d) is Err
            },
        ensures
            res.first_value() is None ==> outcome_view(out) == Err::<
                ExecuteResponseView<R>,
                RunnerErrorView,
            >(RunnerErrorView::ExecuteError { msg: res.result.unwrap().log@ }),
            res.first_value() matches Some(value) ==> exists|d: Result<R, ProstDecodeError>|
                decode.ensures((value,), d) && outcome_view(out) == simulated_outcome(res, d),
    {
        let result = res.result.unwrap();
        let mut msg_responses = result.msg_responses;
        if msg_responses.len() == 0 {
            return Err(RunnerError::ExecuteError { msg: result.log });
        }
        let first = msg_responses.swap_remove(0);
        let decoded = decode(first.value);
        let ghost d = decoded;
        let out = match decoded {
            Err(e) => Err(RunnerError::DecodeError(DecodeError::ProtoDecodeError(e))),
            Ok(data) => match decode_events(&result.events) {
                None => Err(RunnerError::DecodeError(DecodeError::Utf8Error)),
                Some(events) => {
                    let gas_info = res.gas_info.unwrap();
                    Ok(ExecuteResponse { data, raw_data: result.data, events, gas_info })
                },
            },
        };
        proof {
            assert(decode.ensures((res.first_value().unwrap(),), d));
            assert(outcome_view(out) == simulated_outcome(res, d));
        }
        out
    }

    /// Normalizes a simulation response, given how the response of its first
    /// message decoded. Where there is no message response, `decoded` is not
    /// looked at.
    pub fn from_simulation(res: SimulationResponse, decoded: Result<R, ProstDecodeError>) -> (out:
        Result<ExecuteResponse<R>, RunnerError>)
        requires
            res.result is Some,
            res.gas_info is None ==> simulated_outcome(res, decoded) is Err,
        ensures
            outcome_view(out) == simulated_outcome(res, decoded),
    {
        let hand_over = move |_value: Vec<u8>| -> (d: Result<R, ProstDecodeError>)
            ensures
                d == decoded,
            { decoded };
        ExecuteResponse::try_from_simulation(res, hand_over)
    }

    /// The normalization of a committed-transaction response whose
    /// message-data container has been decoded already.
    fn commit_with<F>(
        res: TxCommitResponse,
        container: Result<Vec<Any>, ProstDecodeError>,
        decode: F,
    ) -> (out: Result<ExecuteResponse<R>, RunnerError>) where
        F: FnOnce(Vec<u8>) -> Result<R, ProstDecodeError>,

        requires
            container matches Ok(msgs) ==> msgs@.len() > 0 ==> decode.requires((msgs@[0].value,)),
        ensures
            container matches Err(e) ==> outcome_view(out) == Err::<
                ExecuteResponseView<R>,
                RunnerErrorView,
            >(RunnerErrorView::DecodeError(DecodeError::ProtoDecodeError(e))),
            container matches Ok(msgs) ==> msgs@.len() == 0 ==> outcome_view(out) == Err::<
                ExecuteResponseView<R>,
                RunnerErrorView,
            >(RunnerErrorView::ExecuteError { msg: res.tx_result.log@ }),
            container matches Ok(msgs) ==> msgs@.len() > 0 ==> exists|d: Result<R, ProstDecodeError>|
                decode.ensures((msgs@[0].value,), d) && outcome_view(out) == committed_outcome(
                    res,
                    Ok(any_views(msgs@)),
                    d,
                ),
    {
        let mut msgs = match container {
            Ok(msgs) => msgs,
            Err(e) => {
                return Err(RunnerError::DecodeError(DecodeError::ProtoDecodeError(e)));
            },
        };
        let tx = res.tx_result;
        if msgs.len() == 0 {
            return Err(RunnerError::ExecuteError { msg: tx.log });
        }
        let ghost all = msgs@;
        let first = msgs.swap_remove(0);
        let decoded = decode(first.value);
        let ghost d = decoded;
        let out = match decoded {
            Err(e) => Err(RunnerError::DecodeError(DecodeError::ProtoDecodeError(e))),
            Ok(data) => {
                let events = convert_events(&tx.events);
                let gas_info = GasInfo {
                    gas_wanted: gas_from_signed(tx.gas_wanted),
                    gas_used: gas_from_signed(tx.gas_used),
                };
                Ok(ExecuteResponse { data, raw_data: tx.data, events, gas_info })
            },
        };
        proof {
            assert(decode.ensures((all[0].value,), d));
            assert(outcome_view(out) == committed_outcome(res, Ok(any_views(all)), d));
        }
        out
    }

    /// Normalizes a committed-transaction response. The result data of the
    /// transaction is decoded as a message-data container first. `decode`
    /// reads the response of the first message as the type that the caller
    /// expects; it is called on the bytes of that response, and not at all
    /// where there is none.
    pub fn try_from_commit<F>(res: TxCommitResponse, decode: F) -> (out: Result<
        ExecuteResponse<R>,
        RunnerError,
    >) where F: FnOnce(Vec<u8>) -> Result<R, ProstDecodeError>
        requires
            forall|value: Vec<u8>| decode.requires((value,)),
        ensures
            first_response_value(tx_msg_data_decoding(res.tx_result.data@)) is None
                ==> exists|d: Result<R, ProstDecodeError>|
                outcome_view(out) == committed_outcome(
                    res,
                    tx_msg_data_decoding(res.tx_result.data@),
                    d,
                ),
            first_response_value(tx_msg_data_decoding(res.tx_result.data@)) matches Some(bytes)
                ==> exists|value: Vec<u8>, d: Result<R, ProstDecodeError>|
                value@ == bytes && decode.ensures((value,), d) && outcome_view(out)
                    == committed_outcome(res, tx_msg_data_decoding(res.tx_result.data@), d),
    {
        let container = decode_tx_msg_data(res.tx_result.data.as_slice());
        let ghost decoded_container = container;
        let ghost first = match decoded_container {
            Ok(msgs) => if msgs@.len() > 0 {
                Some(msgs@[0].value)
            } else {
                None
            },
            Err(_) => None,
        };
        proof {
            if let Ok(msgs) = decoded_container {
                if msgs@.len() > 0 {
                    assert(any_views(msgs@)[0].value == msgs@[0].value@);
                }
            }
        }
        let out = ExecuteResponse::commit_with(res, container, decode);
        proof {
            let named = tx_msg_data_decoding(res.tx_result.data@);
            match first {
                Some(value) => {
                    let d = choose|d: Result<R, ProstDecodeError>|
                        decode.ensures((value,), d) && outcome_view(out) == committed_outcome(
                            res,
                            named,
                            d,
                        );
                    assert(value@ == first_response_value(named).unwrap() && decode.ensures(
                        (value,),
                        d,
                    ) && outcome_view(out) == committed_outcome(res, named, d));
                },
                None => {
                    let d: Result<R, ProstDecodeError> = arbitrary();
                    assert(outcome_view(out) == committed_outcome(res, named, d));
                },
            }
        }
        out
    }

    /// Normalizes a committed-transaction response, given what its
    /// message-data container decoded to and how the response of its first
    /// message decoded. Where there is no message response, `decoded` is not
    /// looked at.
    pub fn from_commit(
        res: TxCommitResponse,
        container: Result<Vec<Any>, ProstDecodeError>,
        decoded: Result<R, ProstDecodeError>,
    ) -> (out: Result<ExecuteResponse<R>, RunnerError>)
        ensures
            outcome_view(out) == committed_outcome(
                res,
                match container {
                    Ok(msgs) => Ok(any_views(msgs@)),
                    Err(e) => Err(e),
                },
                decoded,
            ),
    {
        let hand_over = move |_value: Vec<u8>| -> (d: Result<R, ProstDecodeError>)
            ensures
                d == decoded,
            { decoded };
        ExecuteResponse::commit_with(res, container, hand_over)
    }

    /// Normalizes the answer of the chain to an execution, whichever of the
    /// two shapes it has, so that no caller has to tell them apart.
    pub fn normalize<F>(response: ChainResponse, decode: F) -> (out: Result<
        ExecuteResponse<R>,
        RunnerError,
    >) where F: FnOnce(Vec<u8>) -> Result<R, ProstDecodeError>
        requires
            forall|value: Vec<u8>| decode.requires((value,)),
            response matches ChainResponse::Simulated(res) ==> {
                &&& res.result is Some
                &&& res.gas_info is None ==> forall|value: Vec<u8>, d: Result<R, ProstDecodeError>|
                    decode.ensures((value,), d) ==> simulated_outcome(res, d) is Err
            },
        ensures
            match response {
                ChainResponse::Simulated(res) => {
                    &&& res.first_value() is None ==> outcome_view(out) == Err::<
                        ExecuteResponseView<R>,
                        RunnerErrorView,
                    >(RunnerErrorView::ExecuteError { msg: res.result.unwrap().log@ })
                    &&& res.first_value() matches Some(value) ==> exists|
                        d: Result<R, ProstDecodeError>,
                    |
                        decode.ensures((value,), d) && outcome_view(out) == simulated_outcome(
                            res,
                            d,
                        )
                },
                ChainResponse::Committed(res) => {
                    let container = tx_msg_data_decoding(res.tx_result.data@);
                    &&& first_response_value(container) is None ==> exists|
                        d: Result<R, ProstDecodeError>,
                    | outcome_view(out) == committed_outcome(res, container, d)
                    &&& first_response_value(container) matches Some(bytes) ==> exists|
                        value: Vec<u8>,
                        d: Result<R, ProstDecodeError>,
                    |
                        value@ == bytes && decode.ensures((value,), d) && outcome_view(out)
                            == committed_outcome(res, container, d)
                },
            },
    {
        match response {
            ChainResponse::Simulated(res) => ExecuteResponse::try_from_simulation(res, decode),
            ChainResponse::Committed(res) => ExecuteResponse::try_from_commit(res, decode),
        }
    }
}

/// True where a simulation response and a committed-transaction response
/// carry the same execution: the same message responses, log and gas
/// figures, and events that say the same, one for one.
pub open spec fn same_execution(sim: SimulationResponse, com: TxCommitResponse) -> bool {
    &&& sim.result is Some
    &&& sim.gas_info is Some
    &&& tx_msg_data_decoding(com.tx_result.data@) == Ok::<Seq<AnyView>, ProstDecodeError>(
        any_views(sim.result.unwrap().msg_responses@),
    )
    &&& sim.result.unwrap().log@ == com.tx_result.log@
    &&& events_text(sim.result.unwrap().events@) == Some(committed_events(com.tx_result.events@))
    &&& sim.gas_info.unwrap().gas_wanted == gas_figure(com.tx_result.gas_wanted)
    &&& sim.gas_info.unwrap().gas_used == gas_figure(com.tx_result.gas_used)
}

/// The two shapes normalize alike: where a simulation response and a
/// committed-transaction response carry the same execution, and the response
/// of the first message decodes the same way, either both normalizations
/// fail with the same error, or both succeed with the same data, the same
/// events in the same order, and the same gas figures.
pub proof fn lemma_shapes_normalize_alike<R>(
    sim: SimulationResponse,
    com: TxCommitResponse,
    decoded: Result<R, ProstDecodeError>,
)
    requires
        same_execution(sim, com),
    ensures
        match (
            simulated_outcome(sim, decoded),
            committed_outcome(com, tx_msg_data_decoding(com.tx_result.data@), decoded),
        ) {
            (Ok(a), Ok(b)) => a.data == b.data && a.events == b.events && a.gas_info == b.gas_info,
            (Err(a), Err(b)) => a == b,
            _ => false,
        },
{
}

/// A simulation without any message response is an execute error that
/// carries the log, however anything might have decoded.
pub proof fn lemma_no_response_is_execute_error<R>(
    res: SimulationResponse,
    decoded: Result<R, ProstDecodeError>,
)
    requires
        res.result is Some,
        res.result.unwrap().msg_responses@.len() == 0,
    ensures
        simulated_outcome(res, decoded) == Err::<ExecuteResponseView<R>, RunnerErrorView>(
            RunnerErrorView::ExecuteError { msg: res.result.unwrap().log@ },
        ),
{
}

/// A committed transaction without any message response is an execute error
/// that carries the log, however anything might have decoded.
pub proof fn lemma_empty_container_is_execute_error<R>(
    res: TxCommitResponse,
    decoded: Result<R, ProstDecodeError>,
)
    ensures
        committed_outcome(
            res,
            Ok::<Seq<AnyView>, ProstDecodeError>(Seq::<AnyView>::empty()),
            decoded,
        ) == Err::<ExecuteResponseView<R>, RunnerErrorView>(
            RunnerErrorView::ExecuteError { msg: res.tx_result.log@ },
        ),
{
}

/// Decoding keeps every event and every attribute in its place: where the
/// events of a simulation decode, there are as many as before, each has as
/// many attributes as before, and the attribute at any place is the text of
/// the raw attribute at that place.
pub proof fn lemma_event_order_is_kept(events: Seq<RawEvent>, i: int, j: int)
    requires
        events_text(events) is Some,
        0 <= i < events.len(),
        0 <= j < events[i].attributes@.len(),
    ensures
        events_text(events).unwrap().len() == events.len(),
        events_text(events).unwrap()[i].kind == events[i].kind@,
        events_text(events).unwrap()[i].attributes.len() == events[i].attributes@.len(),
        valid_utf8(events[i].attributes@[j].key@),
        valid_utf8(events[i].attributes@[j].value@),
        events_text(events).unwrap()[i].attributes[j] == (AttributeView {
            key: decode_utf8(events[i].attributes@[j].key@),
            value: decode_utf8(events[i].attributes@[j].value@),
        }),
{
    assert(event_text(events[i]) is Some);
    assert(attribute_text(events[i].attributes@[j]) is Some);
}

/// The events of a committed transaction keep their order and that of their
/// attributes.
pub proof fn lemma_committed_order_is_kept(events: Seq<CommittedEvent>, i: int, j: int)
    requires
        0 <= i < events.len(),
        0 <= j < events[i].attributes@.len(),
    ensures
        committed_events(events).len() == events.len(),
        committed_events(events)[i].kind == events[i].kind@,
        committed_events(events)[i].attributes.len() == events[i].attributes@.len(),
        committed_events(events)[i].attributes[j] == (AttributeView {
            key: events[i].attributes@[j].key@,
            value: events[i].attributes@[j].value@,
        }),
{
}

} // verus!
