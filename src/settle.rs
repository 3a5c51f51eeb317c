use vstd::prelude::*;

use crate::contract::{
    reply, reply_error, reply_response, reply_store, CallResult, Reply, Response,
    EXEC_HOGEHOGE_CALLBACK_ID_4,
};
use crate::error::ContractError;
use crate::state::{with_context, Addresses, Context, Store};

verus! {

impl Addresses {
    /// An equal copy of the address book.
    pub fn duplicate(&self) -> (r: Addresses)
        ensures
            r == *self,
    {
        Addresses {
            contract_1: self.contract_1.clone(),
            contract_2: self.contract_2.clone(),
            contract_3: self.contract_3.clone(),
            contract_4: self.contract_4.clone(),
            contract_5: self.contract_5.clone(),
        }
    }
}

impl Store {
    /// An equal copy of the store, to restore when an invocation fails.
    pub fn snapshot(&self) -> (r: Store)
        ensures
            r == *self,
    {
        let addresses = match &self.addresses {
            Some(a) => Some(a.duplicate()),
            None => None,
        };
        Store { addresses, context: self.context }
    }
}

/// The store after delivering `rps` in order on `s`, or the first error.
pub open spec fn settle_spec(s: Store, rps: Seq<Reply>) -> Result<Store, ContractError>
    decreases rps.len(),
{
    if rps.len() == 0 {
        Ok(s)
    } else {
        match settle_spec(s, rps.drop_last()) {
            Ok(s1) => match reply_error(s1, rps.last()) {
                Some(e) => Err(e),
                None => Ok(reply_store(s1, rps.last())),
            },
            Err(e) => Err(e),
        }
    }
}

/// Delivers the continuations `replies` one at a time, in order, as one
/// atomic invocation: on the first failure every change made by the earlier
/// ones is undone and the error is returned.
pub fn settle_in_order(storage: &mut Store, replies: &Vec<Reply>) -> (r: Result<
    Vec<Response>,
    ContractError,
>)
    ensures
        match settle_spec(*old(storage), replies@) {
            Ok(s2) => r matches Ok(rs) && *final(storage) == s2 && rs@.len() == replies@.len()
                && forall|i: int|
                0 <= i < rs@.len() ==> reply_response(
                    settle_spec(*old(storage), replies@.take(i))->Ok_0,
                    replies@[i],
                    #[trigger] rs@[i],
                ),
            Err(e) => r == Err::<Vec<Response>, ContractError>(e) && *final(storage) == *old(
                storage,
            ),
        },
{
    let before = storage.snapshot();
    let mut out: Vec<Response> = Vec::new();
    let mut i: usize = 0;
    while i < replies.len()
        invariant
            before == *old(storage),
            i <= replies@.len(),
            out@.len() == i,
            settle_spec(before, replies@.take(i as int)) == Ok::<Store, ContractError>(*storage),
            forall|j: int|
                0 <= j < i ==> reply_response(
                    settle_spec(before, replies@.take(j))->Ok_0,
                    replies@[j],
                    #[trigger] out@[j],
                ),
        decreases replies@.len() - i,
    {
        let ghost s1 = *storage;
        assert(replies@.take(i + 1).drop_last() =~= replies@.take(i as int));
        assert(replies@.take(i + 1).last() == replies@[i as int]);
        match reply(storage, &replies[i]) {
            Ok(resp) => {
                out.push(resp);
            },
            Err(e) => {
                proof {
                    lemma_settle_stays_failed(before, replies@, i as int + 1);
                }
                assert(replies@.take(replies@.len() as int) =~= replies@);
                *storage = before;
                return Err(e);
            },
        }
        i = i + 1;
    }
    assert(replies@.take(replies@.len() as int) =~= replies@);
    Ok(out)
}

/// Once a prefix of the deliveries fails, the whole sequence fails with the same error.
proof fn lemma_settle_stays_failed(s: Store, rps: Seq<Reply>, n: int)
    requires
        0 <= n <= rps.len(),
        settle_spec(s, rps.take(n)) is Err,
    ensures
        settle_spec(s, rps) == settle_spec(s, rps.take(n)),
    decreases rps.len() - n,
{
    if n < rps.len() {
        assert(rps.take(n + 1).drop_last() =~= rps.take(n));
        lemma_settle_stays_failed(s, rps, n + 1);
    } else {
        assert(rps.take(n) =~= rps);
    }
}

/// A call that the environment reports as failed aborts the invocation that
/// delivers it: whatever the continuations before it changed (the recorded
/// first-stage result, the loop index) is not kept, since `settle_in_order`
/// then leaves the store as it was.
pub proof fn lemma_failed_call_aborts(s: Store, rps: Seq<Reply>, i: int)
    requires
        0 <= i < rps.len(),
        rps[i].result is Failed,
    ensures
        settle_spec(s, rps) is Err,
    decreases rps.len(),
{
    if i == rps.len() - 1 {
    } else {
        lemma_failed_call_aborts(s, rps.drop_last(), i);
    }
}

/// A settled fourth-stage continuation with a decodable payload.
pub open spec fn is_fan_out_reply(rp: Reply) -> bool {
    &&& rp.id == EXEC_HOGEHOGE_CALLBACK_ID_4
    &&& rp.result matches CallResult::Settled(p) && p is Decoded
}

/// `s` with its loop index advanced by `k`.
pub open spec fn advanced(s: Store, k: int) -> Store {
    let c = s.context->Some_0;
    with_context(s, Context { loop_index: (c.loop_index + k) as u8, ..c })
}

/// After `k` fourth-stage continuations settle in order, the loop index is its
/// value before them plus `k`, and the `i`-th of them ran with the value
/// before plus `i`: one step per continuation, in delivery order.
pub proof fn lemma_loop_index_advances(s: Store, rps: Seq<Reply>)
    requires
        s.context is Some,
        s.context->Some_0.loop_index + rps.len() <= 255,
        forall|i: int| 0 <= i < rps.len() ==> is_fan_out_reply(#[trigger] rps[i]),
    ensures
        settle_spec(s, rps) == Ok::<Store, ContractError>(advanced(s, rps.len() as int)),
        forall|i: int|
            0 <= i <= rps.len() ==> #[trigger] settle_spec(s, rps.take(i)) == Ok::<
                Store,
                ContractError,
            >(advanced(s, i)),
    decreases rps.len(),
{
    if rps.len() > 0 {
        let prefix = rps.drop_last();
        assert forall|i: int| 0 <= i < prefix.len() implies is_fan_out_reply(#[trigger] prefix[i]) by {
            assert(is_fan_out_reply(rps[i]));
        }
        lemma_loop_index_advances(s, prefix);
        assert(is_fan_out_reply(rps[rps.len() - 1]));
        assert(advanced(advanced(s, prefix.len() as int), 1) == advanced(s, rps.len() as int));
    }
    assert forall|i: int| 0 <= i <= rps.len() implies #[trigger] settle_spec(s, rps.take(i)) == Ok::<
        Store,
        ContractError,
    >(advanced(s, i)) by {
        if i < rps.len() {
            assert(rps.take(i) =~= rps.drop_last().take(i));
        } else {
            assert(rps.take(i) =~= rps);
        }
    }
}

} // verus!
