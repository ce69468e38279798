//! The operations of the gov module: proposals and votes.
//!
//! Each operation binds one of the two dispatch operations to a fixed
//! type-url or query path, and adds nothing else.

use crate::error::RunnerError;
use crate::response::ExecuteResponse;
use crate::runner::{execute, executes_as, queries_as, query, Runner};
use prost::DecodeError as ProstDecodeError;
use prost::EncodeError as ProstEncodeError;
use vstd::prelude::*;

verus! {

pub struct Gov<'a, Rn: Runner> {
    runner: &'a Rn,
}

impl<'a, Rn: Runner> Gov<'a, Rn> {
    /// The runner that every operation of this module goes through.
    pub closed spec fn runner(&self) -> &'a Rn {
        self.runner
    }

    pub fn new(runner: &'a Rn) -> (module: Self)
        ensures
            module.runner() == runner,
    {
        Gov { runner }
    }

    /// Executes a `MsgSubmitProposal`, signed by `signer`; the response is a `MsgSubmitProposalResponse`.
    pub fn submit_proposal<M, R, E, D>(&self, msg: M, signer: &Rn::Signer, encode: E, decode: D) -> (out:
        Result<ExecuteResponse<R>, RunnerError>) where
        E: Fn(&M) -> Result<Vec<u8>, ProstEncodeError>,
        D: FnOnce(Vec<u8>) -> Result<R, ProstDecodeError>,

        requires
            forall|m: &M| encode.requires((m,)),
            forall|value: Vec<u8>| decode.requires((value,)),
        ensures
            executes_as(
                self.runner(),
                "/cosmos.gov.v1.MsgSubmitProposal"@,
                msg,
                signer,
                encode,
                out,
            ),
    {
        execute(self.runner, msg, "/cosmos.gov.v1.MsgSubmitProposal", signer, encode, decode)
    }

    /// Executes a `MsgVote`, signed by `signer`; the response is a `MsgVoteResponse`.
    pub fn vote<M, R, E, D>(&self, msg: M, signer: &Rn::Signer, encode: E, decode: D) -> (out:
        Result<ExecuteResponse<R>, RunnerError>) where
        E: Fn(&M) -> Result<Vec<u8>, ProstEncodeError>,
        D: FnOnce(Vec<u8>) -> Result<R, ProstDecodeError>,

        requires
            forall|m: &M| encode.requires((m,)),
            forall|value: Vec<u8>| decode.requires((value,)),
        ensures
            executes_as(
                self.runner(),
                "/cosmos.gov.v1.MsgVote"@,
                msg,
                signer,
                encode,
                out,
            ),
    {
        execute(self.runner, msg, "/cosmos.gov.v1.MsgVote", signer, encode, decode)
    }

    /// Asks with a `QueryProposalRequest`; the response is a `QueryProposalResponse`.
    pub fn query_proposal<Q, R, E, D>(&self, request: &Q, encode: E, decode: D) -> (out: Result<
        R,
        RunnerError,
    >) where
        E: Fn(&Q) -> Result<Vec<u8>, ProstEncodeError>,
        D: FnOnce(Vec<u8>) -> Result<R, ProstDecodeError>,

        requires
            forall|q: &Q| encode.requires((q,)),
            forall|value: Vec<u8>| decode.requires((value,)),
        ensures
            queries_as(
                self.runner(),
                "/cosmos.gov.v1.Query/Proposal"@,
                *request,
                encode,
                out,
            ),
    {
        query(self.runner, "/cosmos.gov.v1.Query/Proposal", request, encode, decode)
    }

    /// Asks with a `QueryParamsRequest`; the response is a `QueryParamsResponse`.
    pub fn query_params<Q, R, E, D>(&self, request: &Q, encode: E, decode: D) -> (out: Result<
        R,
        RunnerError,
    >) where
        E: Fn(&Q) -> Result<Vec<u8>, ProstEncodeError>,
        D: FnOnce(Vec<u8>) -> Result<R, ProstDecodeError>,

        requires
            forall|q: &Q| encode.requires((q,)),
            forall|value: Vec<u8>| decode.requires((value,)),
        ensures
            queries_as(
                self.runner(),
                "/cosmos.gov.v1.Query/Params"@,
                *request,
                encode,
                out,
            ),
    {
        query(self.runner, "/cosmos.gov.v1.Query/Params", request, encode, decode)
    }
}

} // verus!
