//! The operations of the dex module: the order books of the decentralized exchange.
//!
//! Each operation binds one of the two dispatch operations to a fixed
//! type-url or query path, and adds nothing else.

use crate::error::RunnerError;
use crate::response::ExecuteResponse;
use crate::runner::{execute, executes_as, queries_as, query, Runner};
use prost::DecodeError as ProstDecodeError;
use prost::EncodeError as ProstEncodeError;
use vstd::prelude::*;

verus! {

pub struct Dex<'a, Rn: Runner> {
    runner: &'a Rn,
}

impl<'a, Rn: Runner> Dex<'a, Rn> {
    /// The runner that every operation of this module goes through.
    pub closed spec fn runner(&self) -> &'a Rn {
        self.runner
    }

    pub fn new(runner: &'a Rn) -> (module: Self)
        ensures
            module.runner() == runner,
    {
        Dex { runner }
    }

    /// Executes a `MsgPlaceOrder`, signed by `signer`; the response is a `EmptyResponse`.
    pub fn place_order<M, R, E, D>(&self, msg: M, signer: &Rn::Signer, encode: E, decode: D) -> (out:
        Result<ExecuteResponse<R>, RunnerError>) where
        E: Fn(&M) -> Result<Vec<u8>, ProstEncodeError>,
        D: FnOnce(Vec<u8>) -> Result<R, ProstDecodeError>,

        requires
            forall|m: &M| encode.requires((m,)),
            forall|value: Vec<u8>| decode.requires((value,)),
        ensures
            executes_as(
                self.runner(),
                "/coreum.dex.v1.MsgPlaceOrder"@,
                msg,
                signer,
                encode,
                out,
            ),
    {
        execute(self.runner, msg, "/coreum.dex.v1.MsgPlaceOrder", signer, encode, decode)
    }

    /// Executes a `MsgCancelOrder`, signed by `signer`; the response is a `EmptyResponse`.
    pub fn cancel_order<M, R, E, D>(&self, msg: M, signer: &Rn::Signer, encode: E, decode: D) -> (out:
        Result<ExecuteResponse<R>, RunnerError>) where
        E: Fn(&M) -> Result<Vec<u8>, ProstEncodeError>,
        D: FnOnce(Vec<u8>) -> Result<R, ProstDecodeError>,

        requires
            forall|m: &M| encode.requires((m,)),
            forall|value: Vec<u8>| decode.requires((value,)),
        ensures
            executes_as(
                self.runner(),
                "/coreum.dex.v1.MsgCancelOrder"@,
                msg,
                signer,
                encode,
                out,
            ),
    {
        execute(self.runner, msg, "/coreum.dex.v1.MsgCancelOrder", signer, encode, decode)
    }

    /// Executes a `MsgCancelOrdersByDenom`, signed by `signer`; the response is a `EmptyResponse`.
    pub fn cancel_orders_by_denom<M, R, E, D>(&self, msg: M, signer: &Rn::Signer, encode: E, decode: D) -> (out:
        Result<ExecuteResponse<R>, RunnerError>) where
        E: Fn(&M) -> Result<Vec<u8>, ProstEncodeError>,
        D: FnOnce(Vec<u8>) -> Result<R, ProstDecodeError>,

        requires
            forall|m: &M| encode.requires((m,)),
            forall|value: Vec<u8>| decode.requires((value,)),
        ensures
            executes_as(
                self.runner(),
                "/coreum.dex.v1.MsgCancelOrdersByDenom"@,
                msg,
                signer,
                encode,
                out,
            ),
    {
        execute(self.runner, msg, "/coreum.dex.v1.MsgCancelOrdersByDenom", signer, encode, decode)
    }

    /// Asks with a `QueryParamsRequest`; the response is a `QueryParamsResponse`.
    pub fn query_params<Q, R, E, D>(&self, request: &Q, encode: E, decode: D) -> (out: Result<
        R,
        RunnerError,
    >) where
        E: Fn(&Q) -> Result<Vec<u8>, ProstEncodeError>,
        D: FnOnce(Vec<u8>) -> Result<R, ProstDecodeError>,

        requires
            forall|q: &Q| encode.requires((q,)),
            forall|value: Vec<u8>| decode.requires((value,)),
        ensures
            queries_as(
                self.runner(),
                "/coreum.dex.v1.Query/Params"@,
                *request,
                encode,
                out,
            ),
    {
        query(self.runner, "/coreum.dex.v1.Query/Params", request, encode, decode)
    }

    /// Asks with a `QueryOrderBookParamsRequest`; the response is a `QueryOrderBookParamsResponse`.
    pub fn query_order_book_params<Q, R, E, D>(&self, request: &Q, encode: E, decode: D) -> (out: Result<
        R,
        RunnerError,
    >) where
        E: Fn(&Q) -> Result<Vec<u8>, ProstEncodeError>,
        D: FnOnce(Vec<u8>) -> Result<R, ProstDecodeError>,

        requires
            forall|q: &Q| encode.requires((q,)),
            forall|value: Vec<u8>| decode.requires((value,)),
        ensures
            queries_as(
                self.runner(),
                "/coreum.dex.v1.Query/OrderBookParams"@,
                *request,
                encode,
                out,
            ),
    {
        query(self.runner, "/coreum.dex.v1.Query/OrderBookParams", request, encode, decode)
    }

    /// Asks with a `QueryAccountDenomOrdersCountRequest`; the response is a `QueryAccountDenomOrdersCountResponse`.
    pub fn query_account_denom_orders_count<Q, R, E, D>(&self, request: &Q, encode: E, decode: D) -> (out: Result<
        R,
        RunnerError,
    >) where
        E: Fn(&Q) -> Result<Vec<u8>, ProstEncodeError>,
        D: FnOnce(Vec<u8>) -> Result<R, ProstDecodeError>,

        requires
            forall|q: &Q| encode.requires((q,)),
            forall|value: Vec<u8>| decode.requires((value,)),
        ensures
            queries_as(
                self.runner(),
                "/coreum.dex.v1.Query/AccountDenomOrdersCount"@,
                *request,
                encode,
                out,
            ),
    {
        query(self.runner, "/coreum.dex.v1.Query/AccountDenomOrdersCount", request, encode, decode)
    }

    /// Asks with a `QueryOrderBookOrdersRequest`; the response is a `QueryOrderBookOrdersResponse`.
    pub fn query_order_book_orders<Q, R, E, D>(&self, request: &Q, encode: E, decode: D) -> (out: Result<
        R,
        RunnerError,
    >) where
        E: Fn(&Q) -> Result<Vec<u8>, ProstEncodeError>,
        D: FnOnce(Vec<u8>) -> Result<R, ProstDecodeError>,

        requires
            forall|q: &Q| encode.requires((q,)),
            forall|value: Vec<u8>| decode.requires((value,)),
        ensures
            queries_as(
                self.runner(),
                "/coreum.dex.v1.Query/OrderBookOrders"@,
                *request,
                encode,
                out,
            ),
    {
        query(self.runner, "/coreum.dex.v1.Query/OrderBookOrders", request, encode, decode)
    }

    /// Asks with a `QueryOrderBooksRequest`; the response is a `QueryOrderBooksResponse`.
    pub fn query_order_books<Q, R, E, D>(&self, request: &Q, encode: E, decode: D) -> (out: Result<
        R,
        RunnerError,
    >) where
        E: Fn(&Q) -> Result<Vec<u8>, ProstEncodeError>,
        D: FnOnce(Vec<u8>) -> Result<R, ProstDecodeError>,

        requires
            forall|q: &Q| encode.requires((q,)),
            forall|value: Vec<u8>| decode.requires((value,)),
        ensures
            queries_as(
                self.runner(),
                "/coreum.dex.v1.Query/OrderBooks"@,
                *request,
                encode,
                out,
            ),
    {
        query(self.runner, "/coreum.dex.v1.Query/OrderBooks", request, encode, decode)
    }

    /// Asks with a `QueryOrderRequest`; the response is a `QueryOrderResponse`.
    pub fn query_order<Q, R, E, D>(&self, request: &Q, encode: E, decode: D) -> (out: Result<
        R,
        RunnerError,
    >) where
        E: Fn(&Q) -> Result<Vec<u8>, ProstEncodeError>,
        D: FnOnce(Vec<u8>) -> Result<R, ProstDecodeError>,

        requires
            forall|q: &Q| encode.requires((q,)),
            forall|value: Vec<u8>| decode.requires((value,)),
        ensures
            queries_as(
                self.runner(),
                "/coreum.dex.v1.Query/Order"@,
                *request,
                encode,
                out,
            ),
    {
        query(self.runner, "/coreum.dex.v1.Query/Order", request, encode, decode)
    }

    /// Asks with a `QueryOrdersRequest`; the response is a `QueryOrdersResponse`.
    pub fn query_orders<Q, R, E, D>(&self, request: &Q, encode: E, decode: D) -> (out: Result<
        R,
        RunnerError,
    >) where
        E: Fn(&Q) -> Result<Vec<u8>, ProstEncodeError>,
        D: FnOnce(Vec<u8>) -> Result<R, ProstDecodeError>,

        requires
            forall|q: &Q| encode.requires((q,)),
            forall|value: Vec<u8>| decode.requires((value,)),
        ensures
            queries_as(
                self.runner(),
                "/coreum.dex.v1.Query/Orders"@,
                *request,
                encode,
                out,
            ),
    {
        query(self.runner, "/coreum.dex.v1.Query/Orders", request, encode, decode)
    }
}

} // verus!
