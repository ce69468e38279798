//! The steps of the two dispatch operations that are decided on this side of
//! the boundary: putting the messages of a transaction into wire form before
//! anything is sent, and reading the answer to a query.

use crate::envelope::RawResult;
use crate::error::{DecodeError, EncodeError, RunnerError, RunnerErrorView};
use crate::response::{any_views, Any, AnyView, ExecuteResponse};
use prost::DecodeError as ProstDecodeError;
use prost::EncodeError as ProstEncodeError;
use vstd::prelude::*;

verus! {

/// True where `encode` can have given these bytes for this message.
pub open spec fn encodes_to<M, F: Fn(&M) -> Result<Vec<u8>, ProstEncodeError>>(
    encode: F,
    msg: M,
    bytes: Seq<u8>,
) -> bool {
    exists|v: Vec<u8>| v@ == bytes && encode.ensures((&msg,), Ok(v))
}

/// True where `encode` can have succeeded on this message.
pub open spec fn encoded<M, F: Fn(&M) -> Result<Vec<u8>, ProstEncodeError>>(
    encode: F,
    msg: M,
) -> bool {
    exists|v: Vec<u8>| encode.ensures((&msg,), Ok(v))
}

/// Puts the messages of one transaction into wire form, each tagged with its
/// type-url, in order. The first message that `encode` fails on ends the
/// work: the caller gets that failure and none of the messages, so that
/// nothing is ever submitted in part.
pub fn encode_messages<M, F>(msgs: &Vec<(M, String)>, encode: F) -> (out: Result<
    Vec<Any>,
    RunnerError,
>) where F: Fn(&M) -> Result<Vec<u8>, ProstEncodeError>
    requires
        forall|m: &M| encode.requires((m,)),
    ensures
        match out {
            Ok(wire) => {
                &&& wire@.len() == msgs@.len()
                &&& forall|i: int|
                    0 <= i < msgs@.len() ==> {
                        &&& (#[trigger] wire@[i]).type_url@ == msgs@[i].1@
                        &&& encodes_to(encode, msgs@[i].0, wire@[i].value@)
                    }
            },
            Err(e) => exists|i: int, failure: ProstEncodeError|
                {
                    &&& 0 <= i < msgs@.len()
                    &&& encode.ensures((&msgs@[i].0,), Err(failure))
                    &&& e@ == RunnerErrorView::EncodeError(EncodeError::ProtoEncodeError(failure))
                    &&& forall|j: int| 0 <= j < i ==> encoded(encode, #[trigger] msgs@[j].0)
                },
        },
{
    let mut wire: Vec<Any> = Vec::new();
    let mut i: usize = 0;
    while i < msgs.len()
        invariant
            i <= msgs@.len(),
            wire@.len() == i,
            forall|m: &M| encode.requires((m,)),
            forall|j: int|
                0 <= j < i ==> {
                    &&& (#[trigger] wire@[j]).type_url@ == msgs@[j].1@
                    &&& encodes_to(encode, msgs@[j].0, wire@[j].value@)
                },
            forall|j: int| 0 <= j < i ==> encoded(encode, #[trigger] msgs@[j].0),
        decreases msgs@.len() - i,
    {
        let value = match encode(&msgs[i].0) {
            Ok(value) => value,
            Err(failure) => {
                let e = RunnerError::EncodeError(EncodeError::ProtoEncodeError(failure));
                proof {
                    assert(encode.ensures((&msgs@[i as int].0,), Err(failure)));
                }
                return Err(e);
            },
        };
        proof {
            assert(encode.ensures((&msgs@[i as int].0,), Ok(value)));
            assert(encodes_to(encode, msgs@[i as int].0, value@));
            assert(encoded(encode, msgs@[i as int].0));
        }
        wire.push(Any { type_url: msgs[i].1.clone(), value });
        i = i + 1;
    }
    Ok(wire)
}

/// Reads the answer to a query. An error that the boundary reported is
/// passed on as it is. The payload of a success is handed to `decode`, which
/// reads it as the response type that the caller expects.
pub fn query_response<R, F>(raw: RawResult, decode: F) -> (out: Result<R, RunnerError>) where
    F: FnOnce(Vec<u8>) -> Result<R, ProstDecodeError>,

    requires
        forall|payload: Vec<u8>| decode.requires((payload,)),
    ensures
        match raw@ {
            Err(e) => out matches Err(reported) && reported@ == e,
            Ok(bytes) => exists|payload: Vec<u8>, d: Result<R, ProstDecodeError>|
                {
                    &&& payload@ == bytes
                    &&& decode.ensures((payload,), d)
                    &&& match d {
                        Ok(response) => out == Ok::<R, RunnerError>(response),
                        Err(e) => out == Err::<R, RunnerError>(
                            RunnerError::DecodeError(DecodeError::ProtoDecodeError(e)),
                        ),
                    }
                },
        },
{
    let payload = match raw.into_result() {
        Ok(payload) => payload,
        Err(e) => {
            return Err(e);
        },
    };
    let ghost handed = payload;
    let decoded = decode(payload);
    let ghost d = decoded;
    let out = match decoded {
        Ok(response) => Ok(response),
        Err(e) => Err(RunnerError::DecodeError(DecodeError::ProtoDecodeError(e))),
    };
    proof {
        assert(handed@ == raw@->Ok_0 && decode.ensures((handed,), d));
    }
    out
}

/// The dispatch abstraction: whatever can carry a transaction or a query over
/// the boundary and bring the answer back. Every module operation is built on
/// these two methods.
pub trait Runner {
    /// The identity that authors and signs a transaction, with its fee policy.
    type Signer;

    /// What this runner may answer to a transaction with these messages.
    open spec fn executed<R>(
        &self,
        msgs: Seq<AnyView>,
        signer: &Self::Signer,
        out: Result<ExecuteResponse<R>, RunnerError>,
    ) -> bool {
        true
    }

    /// What this runner may answer to a query with this path and request.
    open spec fn queried<R>(
        &self,
        path: Seq<char>,
        request: Seq<u8>,
        out: Result<R, RunnerError>,
    ) -> bool {
        true
    }

    /// Signs the messages as one transaction of `signer`, broadcasts it, and
    /// normalizes the answer; `decode` reads the response of the first message.
    fn execute_multiple_raw<R, D>(&self, msgs: Vec<Any>, signer: &Self::Signer, decode: D) -> (out:
        Result<ExecuteResponse<R>, RunnerError>) where
        D: FnOnce(Vec<u8>) -> Result<R, ProstDecodeError>,

        requires
            forall|value: Vec<u8>| decode.requires((value,)),
        ensures
            self.executed(any_views(msgs@), signer, out),
    ;

    /// Sends the request to the query path and reads the answer with `decode`.
    fn query_raw<R, D>(&self, path: &str, request: Vec<u8>, decode: D) -> (out: Result<
        R,
        RunnerError,
    >) where D: FnOnce(Vec<u8>) -> Result<R, ProstDecodeError>
        requires
            forall|value: Vec<u8>| decode.requires((value,)),
        ensures
            self.queried(path@, request@, out),
    ;
}

/// What `execute` may return for one message under a type-url: the failure
/// to encode it, with nothing sent; or whatever the runner answers to the
/// transaction that holds exactly this message in wire form under that
/// type-url.
pub open spec fn executes_as<Rn: Runner, M, R, E: Fn(&M) -> Result<Vec<u8>, ProstEncodeError>>(
    runner: &Rn,
    type_url: Seq<char>,
    msg: M,
    signer: &Rn::Signer,
    encode: E,
    out: Result<ExecuteResponse<R>, RunnerError>,
) -> bool {
    ||| exists|failure: ProstEncodeError|
        {
            &&& encode.ensures((&msg,), Err(failure))
            &&& out matches Err(e)
            &&& e@ == RunnerErrorView::EncodeError(EncodeError::ProtoEncodeError(failure))
        }
    ||| exists|value: Vec<u8>|
        {
            &&& encode.ensures((&msg,), Ok(value))
            &&& runner.executed(seq![AnyView { type_url, value: value@ }], signer, out)
        }
}

/// What `query` may return for a request to a path: the failure to encode
/// the request, with nothing sent; or whatever the runner answers to the
/// request in wire form at that path.
pub open spec fn queries_as<Rn: Runner, Q, R, E: Fn(&Q) -> Result<Vec<u8>, ProstEncodeError>>(
    runner: &Rn,
    path: Seq<char>,
    request: Q,
    encode: E,
    out: Result<R, RunnerError>,
) -> bool {
    ||| exists|failure: ProstEncodeError|
        {
            &&& encode.ensures((&request,), Err(failure))
            &&& out matches Err(e)
            &&& e@ == RunnerErrorView::EncodeError(EncodeError::ProtoEncodeError(failure))
        }
    ||| exists|value: Vec<u8>|
        {
            &&& encode.ensures((&request,), Ok(value))
            &&& runner.queried(path, value@, out)
        }
}

/// Executes several messages as one transaction signed by `signer`. The
/// messages are put into wire form first; where one of them fails to encode,
/// that failure is returned and the runner is not called.
pub fn execute_multiple<Rn, M, R, E, D>(
    runner: &Rn,
    msgs: &Vec<(M, String)>,
    signer: &Rn::Signer,
    encode: E,
    decode: D,
) -> (out: Result<ExecuteResponse<R>, RunnerError>) where
    Rn: Runner,
    E: Fn(&M) -> Result<Vec<u8>, ProstEncodeError>,
    D: FnOnce(Vec<u8>) -> Result<R, ProstDecodeError>,

    requires
        forall|m: &M| encode.requires((m,)),
        forall|value: Vec<u8>| decode.requires((value,)),
    ensures
        ({
            ||| exists|i: int, failure: ProstEncodeError|
                {
                    &&& 0 <= i < msgs@.len()
                    &&& encode.ensures((&msgs@[i].0,), Err(failure))
                    &&& out matches Err(e)
                    &&& e@ == RunnerErrorView::EncodeError(EncodeError::ProtoEncodeError(failure))
                }
            ||| exists|wire: Seq<AnyView>|
                {
                    &&& wire.len() == msgs@.len()
                    &&& forall|i: int|
                        0 <= i < msgs@.len() ==> {
                            &&& (#[trigger] wire[i]).type_url == msgs@[i].1@
                            &&& encodes_to(encode, msgs@[i].0, wire[i].value)
                        }
                    &&& runner.executed(wire, signer, out)
                }
        }),
{
    match encode_messages(msgs, encode) {
        Err(e) => {
            proof {
                let (i, failure) = choose|i: int, failure: ProstEncodeError|
                    {
                        &&& 0 <= i < msgs@.len()
                        &&& encode.ensures((&msgs@[i].0,), Err(failure))
                        &&& e@ == RunnerErrorView::EncodeError(
                            EncodeError::ProtoEncodeError(failure),
                        )
                        &&& forall|j: int| 0 <= j < i ==> encoded(encode, #[trigger] msgs@[j].0)
                    };
                assert(0 <= i < msgs@.len() && encode.ensures((&msgs@[i].0,), Err(failure)));
            }
            Err(e)
        },
        Ok(wire) => {
            let ghost sent = any_views(wire@);
            proof {
                assert forall|i: int| 0 <= i < msgs@.len() implies {
                    &&& (#[trigger] sent[i]).type_url == msgs@[i].1@
                    &&& encodes_to(encode, msgs@[i].0, sent[i].value)
                } by {
                    assert(sent[i] == wire@[i]@);
                }
            }
            let out = runner.execute_multiple_raw(wire, signer, decode);
            proof {
                assert(sent.len() == msgs@.len() && runner.executed(sent, signer, out));
            }
            out
        },
    }
}

/// Executes one message, in wire form under the given type-url, as a
/// transaction signed by `signer`.
pub fn execute<Rn, M, R, E, D>(
    runner: &Rn,
    msg: M,
    type_url: &str,
    signer: &Rn::Signer,
    encode: E,
    decode: D,
) -> (out: Result<ExecuteResponse<R>, RunnerError>) where
    Rn: Runner,
    E: Fn(&M) -> Result<Vec<u8>, ProstEncodeError>,
    D: FnOnce(Vec<u8>) -> Result<R, ProstDecodeError>,

    requires
        forall|m: &M| encode.requires((m,)),
        forall|value: Vec<u8>| decode.requires((value,)),
    ensures
        executes_as(runner, type_url@, msg, signer, encode, out),
{
    match encode(&msg) {
        Err(failure) => Err(RunnerError::EncodeError(EncodeError::ProtoEncodeError(failure))),
        Ok(value) => {
            let mut wire: Vec<Any> = Vec::new();
            wire.push(Any { type_url: type_url.to_owned(), value });
            proof {
                assert(any_views(wire@) =~= seq![AnyView { type_url: type_url@, value: value@ }]);
            }
            runner.execute_multiple_raw(wire, signer, decode)
        },
    }
}

/// Sends one request to a query path and reads the answer as the response
/// type that the caller expects.
pub fn query<Rn, Q, R, E, D>(runner: &Rn, path: &str, request: &Q, encode: E, decode: D) -> (out:
    Result<R, RunnerError>) where
    Rn: Runner,
    E: Fn(&Q) -> Result<Vec<u8>, ProstEncodeError>,
    D: FnOnce(Vec<u8>) -> Result<R, ProstDecodeError>,

    requires
        forall|q: &Q| encode.requires((q,)),
        forall|value: Vec<u8>| decode.requires((value,)),
    ensures
        queries_as(runner, path@, *request, encode, out),
{
    match encode(request) {
        Err(failure) => Err(RunnerError::EncodeError(EncodeError::ProtoEncodeError(failure))),
        Ok(value) => runner.query_raw(path, value, decode),
    }
}

} // verus!
