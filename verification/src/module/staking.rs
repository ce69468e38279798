//! The operations of the staking module: validators and delegations.
//!
//! Each operation binds one of the two dispatch operations to a fixed
//! type-url or query path, and adds nothing else.

use crate::error::RunnerError;
use crate::response::ExecuteResponse;
use crate::runner::{execute, executes_as, queries_as, query, Runner};
use prost::DecodeError as ProstDecodeError;
use prost::EncodeError as ProstEncodeError;
use vstd::prelude::*;

verus! {

pub struct Staking<'a, Rn: Runner> {
    runner: &'a Rn,
}

impl<'a, Rn: Runner> Staking<'a, Rn> {
    /// The runner that every operation of this module goes through.
    pub closed spec fn runner(&self) -> &'a Rn {
        self.runner
    }

    pub fn new(runner: &'a Rn) -> (module: Self)
        ensures
            module.runner() == runner,
    {
        Staking { runner }
    }

    /// Executes a `MsgDelegate`, signed by `signer`; the response is a `MsgDelegateResponse`.
    pub fn delegate<M, R, E, D>(&self, msg: M, signer: &Rn::Signer, encode: E, decode: D) -> (out:
        Result<ExecuteResponse<R>, RunnerError>) where
        E: Fn(&M) -> Result<Vec<u8>, ProstEncodeError>,
        D: FnOnce(Vec<u8>) -> Result<R, ProstDecodeError>,

        requires
            forall|m: &M| encode.requires((m,)),
            forall|value: Vec<u8>| decode.requires((value,)),
        ensures
            executes_as(
                self.runner(),
                "/cosmos.staking.v1beta1.MsgDelegate"@,
                msg,
                signer,
                encode,
                out,
            ),
    {
        execute(self.runner, msg, "/cosmos.staking.v1beta1.MsgDelegate", signer, encode, decode)
    }

    /// Executes a `MsgUndelegate`, signed by `signer`; the response is a `MsgUndelegateResponse`.
    pub fn undelegate<M, R, E, D>(&self, msg: M, signer: &Rn::Signer, encode: E, decode: D) -> (out:
        Result<ExecuteResponse<R>, RunnerError>) where
        E: Fn(&M) -> Result<Vec<u8>, ProstEncodeError>,
        D: FnOnce(Vec<u8>) -> Result<R, ProstDecodeError>,

        requires
            forall|m: &M| encode.requires((m,)),
            forall|value: Vec<u8>| decode.requires((value,)),
        ensures
            executes_as(
                self.runner(),
                "/cosmos.staking.v1beta1.MsgUndelegate"@,
                msg,
                signer,
                encode,
                out,
            ),
    {
        execute(self.runner, msg, "/cosmos.staking.v1beta1.MsgUndelegate", signer, encode, decode)
    }

    /// Executes a `MsgCreateValidator`, signed by `signer`; the response is a `MsgCreateValidatorResponse`.
    pub fn create_validator<M, R, E, D>(&self, msg: M, signer: &Rn::Signer, encode: E, decode: D) -> (out:
        Result<ExecuteResponse<R>, RunnerError>) where
        E: Fn(&M) -> Result<Vec<u8>, ProstEncodeError>,
        D: FnOnce(Vec<u8>) -> Result<R, ProstDecodeError>,

        requires
            forall|m: &M| encode.requires((m,)),
            forall|value: Vec<u8>| decode.requires((value,)),
        ensures
            executes_as(
                self.runner(),
                "/cosmos.staking.v1beta1.MsgCreateValidator"@,
                msg,
                signer,
                encode,
                out,
            ),
    {
        execute(self.runner, msg, "/cosmos.staking.v1beta1.MsgCreateValidator", signer, encode, decode)
    }

    /// Asks with a `QueryValidatorsRequest`; the response is a `QueryValidatorsResponse`.
    pub fn query_validators<Q, R, E, D>(&self, request: &Q, encode: E, decode: D) -> (out: Result<
        R,
        RunnerError,
    >) where
        E: Fn(&Q) -> Result<Vec<u8>, ProstEncodeError>,
        D: FnOnce(Vec<u8>) -> Result<R, ProstDecodeError>,

        requires
            forall|q: &Q| encode.requires((q,)),
            forall|value: Vec<u8>| decode.requires((value,)),
        ensures
            queries_as(
                self.runner(),
                "/cosmos.staking.v1beta1.Query/Validators"@,
                *request,
                encode,
                out,
            ),
    {
        query(self.runner, "/cosmos.staking.v1beta1.Query/Validators", request, encode, decode)
    }

    /// Asks with a `QueryDelegationRequest`; the response is a `QueryDelegationResponse`.
    pub fn query_delegation<Q, R, E, D>(&self, request: &Q, encode: E, decode: D) -> (out: Result<
        R,
        RunnerError,
    >) where
        E: Fn(&Q) -> Result<Vec<u8>, ProstEncodeError>,
        D: FnOnce(Vec<u8>) -> Result<R, ProstDecodeError>,

        requires
            forall|q: &Q| encode.requires((q,)),
            forall|value: Vec<u8>| decode.requires((value,)),
        ensures
            queries_as(
                self.runner(),
                "/cosmos.staking.v1beta1.Query/Delegation"@,
                *request,
                encode,
                out,
            ),
    {
        query(self.runner, "/cosmos.staking.v1beta1.Query/Delegation", request, encode, decode)
    }

    /// Asks with a `QueryUnbondingDelegationRequest`; the response is a `QueryUnbondingDelegationResponse`.
    pub fn query_unbonding_delegation<Q, R, E, D>(&self, request: &Q, encode: E, decode: D) -> (out: Result<
        R,
        RunnerError,
    >) where
        E: Fn(&Q) -> Result<Vec<u8>, ProstEncodeError>,
        D: FnOnce(Vec<u8>) -> Result<R, ProstDecodeError>,

        requires
            forall|q: &Q| encode.requires((q,)),
            forall|value: Vec<u8>| decode.requires((value,)),
        ensures
            queries_as(
                self.runner(),
                "/cosmos.staking.v1beta1.Query/UnbondingDelegation"@,
                *request,
                encode,
                out,
            ),
    {
        query(self.runner, "/cosmos.staking.v1beta1.Query/UnbondingDelegation", request, encode, decode)
    }

    /// Asks with a `QueryDelegatorDelegationsRequest`; the response is a `QueryDelegatorDelegationsResponse`.
    pub fn query_delegations<Q, R, E, D>(&self, request: &Q, encode: E, decode: D) -> (out: Result<
        R,
        RunnerError,
    >) where
        E: Fn(&Q) -> Result<Vec<u8>, ProstEncodeError>,
        D: FnOnce(Vec<u8>) -> Result<R, ProstDecodeError>,

        requires
            forall|q: &Q| encode.requires((q,)),
            forall|value: Vec<u8>| decode.requires((value,)),
        ensures
            queries_as(
                self.runner(),
                "/cosmos.staking.v1beta1.Query/DelegatorDelegations"@,
                *request,
                encode,
                out,
            ),
    {
        query(self.runner, "/cosmos.staking.v1beta1.Query/DelegatorDelegations", request, encode, decode)
    }

    /// Asks with a `QueryDelegatorUnbondingDelegationsRequest`; the response is a `QueryDelegatorUnbondingDelegationsResponse`.
    pub fn query_unbonding_delegations<Q, R, E, D>(&self, request: &Q, encode: E, decode: D) -> (out: Result<
        R,
        RunnerError,
    >) where
        E: Fn(&Q) -> Result<Vec<u8>, ProstEncodeError>,
        D: FnOnce(Vec<u8>) -> Result<R, ProstDecodeError>,

        requires
            forall|q: &Q| encode.requires((q,)),
            forall|value: Vec<u8>| decode.requires((value,)),
        ensures
            queries_as(
                self.runner(),
                "/cosmos.staking.v1beta1.Query/DelegatorUnbondingDelegations"@,
                *request,
                encode,
                out,
            ),
    {
        query(self.runner, "/cosmos.staking.v1beta1.Query/DelegatorUnbondingDelegations", request, encode, decode)
    }
}

} // verus!
