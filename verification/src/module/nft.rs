//! The operations of the nft module: non-fungible tokens and their classes.
//!
//! Each operation binds one of the two dispatch operations to a fixed
//! type-url or query path, and adds nothing else.

use crate::error::RunnerError;
use crate::response::ExecuteResponse;
use crate::runner::{execute, executes_as, queries_as, query, Runner};
use prost::DecodeError as ProstDecodeError;
use prost::EncodeError as ProstEncodeError;
use vstd::prelude::*;

verus! {

pub struct NFT<'a, Rn: Runner> {
    runner: &'a Rn,
}

impl<'a, Rn: Runner> NFT<'a, Rn> {
    /// The runner that every operation of this module goes through.
    pub closed spec fn runner(&self) -> &'a Rn {
        self.runner
    }

    pub fn new(runner: &'a Rn) -> (module: Self)
        ensures
            module.runner() == runner,
    {
        NFT { runner }
    }

    /// Executes a `MsgSend`, signed by `signer`; the response is a `MsgSendResponse`.
    pub fn send<M, R, E, D>(&self, msg: M, signer: &Rn::Signer, encode: E, decode: D) -> (out:
        Result<ExecuteResponse<R>, RunnerError>) where
        E: Fn(&M) -> Result<Vec<u8>, ProstEncodeError>,
        D: FnOnce(Vec<u8>) -> Result<R, ProstDecodeError>,

        requires
            forall|m: &M| encode.requires((m,)),
            forall|value: Vec<u8>| decode.requires((value,)),
        ensures
            executes_as(
                self.runner(),
                "/cosmos.nft.v1beta1.MsgSend"@,
                msg,
                signer,
                encode,
                out,
            ),
    {
        execute(self.runner, msg, "/cosmos.nft.v1beta1.MsgSend", signer, encode, decode)
    }

    /// Asks with a `QueryBalanceRequest`; the response is a `QueryBalanceResponse`.
    pub fn query_balance<Q, R, E, D>(&self, request: &Q, encode: E, decode: D) -> (out: Result<
        R,
        RunnerError,
    >) where
        E: Fn(&Q) -> Result<Vec<u8>, ProstEncodeError>,
        D: FnOnce(Vec<u8>) -> Result<R, ProstDecodeError>,

        requires
            forall|q: &Q| encode.requires((q,)),
            forall|value: Vec<u8>| decode.requires((value,)),
        ensures
            queries_as(
                self.runner(),
                "/cosmos.nft.v1beta1.Query/Balance"@,
                *request,
                encode,
                out,
            ),
    {
        query(self.runner, "/cosmos.nft.v1beta1.Query/Balance", request, encode, decode)
    }

    /// Asks with a `QueryOwnerRequest`; the response is a `QueryOwnerResponse`.
    pub fn query_owner<Q, R, E, D>(&self, request: &Q, encode: E, decode: D) -> (out: Result<
        R,
        RunnerError,
    >) where
        E: Fn(&Q) -> Result<Vec<u8>, ProstEncodeError>,
        D: FnOnce(Vec<u8>) -> Result<R, ProstDecodeError>,

        requires
            forall|q: &Q| encode.requires((q,)),
            forall|value: Vec<u8>| decode.requires((value,)),
        ensures
            queries_as(
                self.runner(),
                "/cosmos.nft.v1beta1.Query/Owner"@,
                *request,
                encode,
                out,
            ),
    {
        query(self.runner, "/cosmos.nft.v1beta1.Query/Owner", request, encode, decode)
    }

    /// Asks with a `QuerySupplyRequest`; the response is a `QuerySupplyResponse`.
    pub fn query_supply<Q, R, E, D>(&self, request: &Q, encode: E, decode: D) -> (out: Result<
        R,
        RunnerError,
    >) where
        E: Fn(&Q) -> Result<Vec<u8>, ProstEncodeError>,
        D: FnOnce(Vec<u8>) -> Result<R, ProstDecodeError>,

        requires
            forall|q: &Q| encode.requires((q,)),
            forall|value: Vec<u8>| decode.requires((value,)),
        ensures
            queries_as(
                self.runner(),
                "/cosmos.nft.v1beta1.Query/Supply"@,
                *request,
                encode,
                out,
            ),
    {
        query(self.runner, "/cosmos.nft.v1beta1.Query/Supply", request, encode, decode)
    }

    /// Asks with a `QueryNfTsRequest`; the response is a `QueryNfTsResponse`.
    pub fn query_nfts<Q, R, E, D>(&self, request: &Q, encode: E, decode: D) -> (out: Result<
        R,
        RunnerError,
    >) where
        E: Fn(&Q) -> Result<Vec<u8>, ProstEncodeError>,
        D: FnOnce(Vec<u8>) -> Result<R, ProstDecodeError>,

        requires
            forall|q: &Q| encode.requires((q,)),
            forall|value: Vec<u8>| decode.requires((value,)),
        ensures
            queries_as(
                self.runner(),
                "/cosmos.nft.v1beta1.Query/NFTs"@,
                *request,
                encode,
                out,
            ),
    {
        query(self.runner, "/cosmos.nft.v1beta1.Query/NFTs", request, encode, decode)
    }

    /// Asks with a `QueryNftRequest`; the response is a `QueryNftResponse`.
    pub fn query_nft<Q, R, E, D>(&self, request: &Q, encode: E, decode: D) -> (out: Result<
        R,
        RunnerError,
    >) where
        E: Fn(&Q) -> Result<Vec<u8>, ProstEncodeError>,
        D: FnOnce(Vec<u8>) -> Result<R, ProstDecodeError>,

        requires
            forall|q: &Q| encode.requires((q,)),
            forall|value: Vec<u8>| decode.requires((value,)),
        ensures
            queries_as(
                self.runner(),
                "/cosmos.nft.v1beta1.Query/NFT"@,
                *request,
                encode,
                out,
            ),
    {
        query(self.runner, "/cosmos.nft.v1beta1.Query/NFT", request, encode, decode)
    }

    /// Asks with a `QueryClassRequest`; the response is a `QueryClassResponse`.
    pub fn query_class<Q, R, E, D>(&self, request: &Q, encode: E, decode: D) -> (out: Result<
        R,
        RunnerError,
    >) where
        E: Fn(&Q) -> Result<Vec<u8>, ProstEncodeError>,
        D: FnOnce(Vec<u8>) -> Result<R, ProstDecodeError>,

        requires
            forall|q: &Q| encode.requires((q,)),
            forall|value: Vec<u8>| decode.requires((value,)),
        ensures
            queries_as(
                self.runner(),
                "/cosmos.nft.v1beta1.Query/Class"@,
                *request,
                encode,
                out,
            ),
    {
        query(self.runner, "/cosmos.nft.v1beta1.Query/Class", request, encode, decode)
    }

    /// Asks with a `QueryClassesRequest`; the response is a `QueryClassesResponse`.
    pub fn query_classes<Q, R, E, D>(&self, request: &Q, encode: E, decode: D) -> (out: Result<
        R,
        RunnerError,
    >) where
        E: Fn(&Q) -> Result<Vec<u8>, ProstEncodeError>,
        D: FnOnce(Vec<u8>) -> Result<R, ProstDecodeError>,

        requires
            forall|q: &Q| encode.requires((q,)),
            forall|value: Vec<u8>| decode.requires((value,)),
        ensures
            queries_as(
                self.runner(),
                "/cosmos.nft.v1beta1.Query/Classes"@,
                *request,
                encode,
                out,
            ),
    {
        query(self.runner, "/cosmos.nft.v1beta1.Query/Classes", request, encode, decode)
    }
}

} // verus!
