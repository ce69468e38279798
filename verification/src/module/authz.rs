//! The operations of the authz module: grants of authorization from one account to another.
//!
//! Each operation binds one of the two dispatch operations to a fixed
//! type-url or query path, and adds nothing else.

use crate::error::RunnerError;
use crate::response::ExecuteResponse;
use crate::runner::{execute, executes_as, queries_as, query, Runner};
use prost::DecodeError as ProstDecodeError;
use prost::EncodeError as ProstEncodeError;
use vstd::prelude::*;

verus! {

pub struct Authz<'a, Rn: Runner> {
    runner: &'a Rn,
}

impl<'a, Rn: Runner> Authz<'a, Rn> {
    /// The runner that every operation of this module goes through.
    pub closed spec fn runner(&self) -> &'a Rn {
        self.runner
    }

    pub fn new(runner: &'a Rn) -> (module: Self)
        ensures
            module.runner() == runner,
    {
        Authz { runner }
    }

    /// Executes a `MsgGrant`, signed by `signer`; the response is a `MsgGrantResponse`.
    pub fn grant<M, R, E, D>(&self, msg: M, signer: &Rn::Signer, encode: E, decode: D) -> (out:
        Result<ExecuteResponse<R>, RunnerError>) where
        E: Fn(&M) -> Result<Vec<u8>, ProstEncodeError>,
        D: FnOnce(Vec<u8>) -> Result<R, ProstDecodeError>,

        requires
            forall|m: &M| encode.requires((m,)),
            forall|value: Vec<u8>| decode.requires((value,)),
        ensures
            executes_as(
                self.runner(),
                "/cosmos.authz.v1beta1.MsgGrant"@,
                msg,
                signer,
                encode,
                out,
            ),
    {
        execute(self.runner, msg, "/cosmos.authz.v1beta1.MsgGrant", signer, encode, decode)
    }

    /// Executes a `MsgRevoke`, signed by `signer`; the response is a `MsgRevokeResponse`.
    pub fn revoke<M, R, E, D>(&self, msg: M, signer: &Rn::Signer, encode: E, decode: D) -> (out:
        Result<ExecuteResponse<R>, RunnerError>) where
        E: Fn(&M) -> Result<Vec<u8>, ProstEncodeError>,
        D: FnOnce(Vec<u8>) -> Result<R, ProstDecodeError>,

        requires
            forall|m: &M| encode.requires((m,)),
            forall|value: Vec<u8>| decode.requires((value,)),
        ensures
            executes_as(
                self.runner(),
                "/cosmos.authz.v1beta1.MsgRevoke"@,
                msg,
                signer,
                encode,
                out,
            ),
    {
        execute(self.runner, msg, "/cosmos.authz.v1beta1.MsgRevoke", signer, encode, decode)
    }

    /// Executes a `MsgExec`, signed by `signer`; the response is a `MsgExecResponse`.
    pub fn exec<M, R, E, D>(&self, msg: M, signer: &Rn::Signer, encode: E, decode: D) -> (out:
        Result<ExecuteResponse<R>, RunnerError>) where
        E: Fn(&M) -> Result<Vec<u8>, ProstEncodeError>,
        D: FnOnce(Vec<u8>) -> Result<R, ProstDecodeError>,

        requires
            forall|m: &M| encode.requires((m,)),
            forall|value: Vec<u8>| decode.requires((value,)),
        ensures
            executes_as(
                self.runner(),
                "/cosmos.authz.v1beta1.MsgExec"@,
                msg,
                signer,
                encode,
                out,
            ),
    {
        execute(self.runner, msg, "/cosmos.authz.v1beta1.MsgExec", signer, encode, decode)
    }

    /// Asks with a `QueryGrantsRequest`; the response is a `QueryGrantsResponse`.
    pub fn query_grants<Q, R, E, D>(&self, request: &Q, encode: E, decode: D) -> (out: Result<
        R,
        RunnerError,
    >) where
        E: Fn(&Q) -> Result<Vec<u8>, ProstEncodeError>,
        D: FnOnce(Vec<u8>) -> Result<R, ProstDecodeError>,

        requires
            forall|q: &Q| encode.requires((q,)),
            forall|value: Vec<u8>| decode.requires((value,)),
        ensures
            queries_as(
                self.runner(),
                "/cosmos.authz.v1beta1.Query/Grants"@,
                *request,
                encode,
                out,
            ),
    {
        query(self.runner, "/cosmos.authz.v1beta1.Query/Grants", request, encode, decode)
    }

    /// Asks with a `QueryGranterGrantsRequest`; the response is a `QueryGranterGrantsResponse`.
    pub fn query_granter_grants<Q, R, E, D>(&self, request: &Q, encode: E, decode: D) -> (out: Result<
        R,
        RunnerError,
    >) where
        E: Fn(&Q) -> Result<Vec<u8>, ProstEncodeError>,
        D: FnOnce(Vec<u8>) -> Result<R, ProstDecodeError>,

        requires
            forall|q: &Q| encode.requires((q,)),
            forall|value: Vec<u8>| decode.requires((value,)),
        ensures
            queries_as(
                self.runner(),
                "/cosmos.authz.v1beta1.Query/GranterGrants"@,
                *request,
                encode,
                out,
            ),
    {
        query(self.runner, "/cosmos.authz.v1beta1.Query/GranterGrants", request, encode, decode)
    }

    /// Asks with a `QueryGranteeGrantsRequest`; the response is a `QueryGranteeGrantsResponse`.
    pub fn query_grantee_grants<Q, R, E, D>(&self, request: &Q, encode: E, decode: D) -> (out: Result<
        R,
        RunnerError,
    >) where
        E: Fn(&Q) -> Result<Vec<u8>, ProstEncodeError>,
        D: FnOnce(Vec<u8>) -> Result<R, ProstDecodeError>,

        requires
            forall|q: &Q| encode.requires((q,)),
            forall|value: Vec<u8>| decode.requires((value,)),
        ensures
            queries_as(
                self.runner(),
                "/cosmos.authz.v1beta1.Query/GranteeGrants"@,
                *request,
                encode,
                out,
            ),
    {
        query(self.runner, "/cosmos.authz.v1beta1.Query/GranteeGrants", request, encode, decode)
    }
}

} // verus!
