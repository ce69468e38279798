//! The operations of the distribution module: the rewards of delegators.
//!
//! Each operation binds one of the two dispatch operations to a fixed
//! type-url or query path, and adds nothing else.

use crate::error::RunnerError;
use crate::runner::{queries_as, query, Runner};
use prost::DecodeError as ProstDecodeError;
use prost::EncodeError as ProstEncodeError;
use vstd::prelude::*;

verus! {

pub struct Distribution<'a, Rn: Runner> {
    runner: &'a Rn,
}

impl<'a, Rn: Runner> Distribution<'a, Rn> {
    /// The runner that every operation of this module goes through.
    pub closed spec fn runner(&self) -> &'a Rn {
        self.runner
    }

    pub fn new(runner: &'a Rn) -> (module: Self)
        ensures
            module.runner() == runner,
    {
        Distribution { runner }
    }

    /// Asks with a `QueryDelegationRewardsRequest`; the response is a `QueryDelegationRewardsResponse`.
    pub fn query_delegation_rewards<Q, R, E, D>(&self, request: &Q, encode: E, decode: D) -> (out: Result<
        R,
        RunnerError,
    >) where
        E: Fn(&Q) -> Result<Vec<u8>, ProstEncodeError>,
        D: FnOnce(Vec<u8>) -> Result<R, ProstDecodeError>,

        requires
            forall|q: &Q| encode.requires((q,)),
            forall|value: Vec<u8>| decode.requires((value,)),
        ensures
            queries_as(
                self.runner(),
                "/cosmos.distribution.v1beta1.Query/DelegationRewards"@,
                *request,
                encode,
                out,
            ),
    {
        query(self.runner, "/cosmos.distribution.v1beta1.Query/DelegationRewards", request, encode, decode)
    }

    /// Asks with a `QueryDelegationTotalRewardsRequest`; the response is a `QueryDelegationTotalRewardsResponse`.
    pub fn query_delegation_total_rewards<Q, R, E, D>(&self, request: &Q, encode: E, decode: D) -> (out: Result<
        R,
        RunnerError,
    >) where
        E: Fn(&Q) -> Result<Vec<u8>, ProstEncodeError>,
        D: FnOnce(Vec<u8>) -> Result<R, ProstDecodeError>,

        requires
            forall|q: &Q| encode.requires((q,)),
            forall|value: Vec<u8>| decode.requires((value,)),
        ensures
            queries_as(
                self.runner(),
                "/cosmos.distribution.v1beta1.Query/DelegationTotalRewards"@,
                *request,
                encode,
                out,
            ),
    {
        query(self.runner, "/cosmos.distribution.v1beta1.Query/DelegationTotalRewards", request, encode, decode)
    }
}

} // verus!
