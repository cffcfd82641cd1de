use vstd::prelude::*;

use crate::contract::{
    committed, handle_reset_outcome, handle_store, has_qualifying_funds, init_outcome, query_outcome,
    reset_outcome, tokensend_outcome, Conversions,
};
use crate::error::ContractError;
use crate::msg::{HandleMsg, ReceiverResponse};
use crate::state::State;
use crate::types::Coin;

verus! {

/// After instantiation with receiver `R` by caller `O`, a query answers with the
/// converter's human-readable form of the stored receiver (that is `R` again, the
/// conversion being lossless); a later reset by `O` succeeds, and one by any other
/// caller fails as unauthorized.
pub proof fn lemma_init_then_query(
    before: Option<State>,
    conv: Conversions,
    stored_receiver: String,
    caller: Vec<u8>,
    new_receiver: Vec<u8>,
)
    requires
        conv.sender is Ok,
        conv.receiver is Ok,
    ensures
        ({
            let after = committed(before, init_outcome(conv.sender, conv.receiver));
            &&& after == Some(State { owner: conv.sender->Ok_0, receiver: conv.receiver->Ok_0 })
            &&& query_outcome(after, Ok(stored_receiver)) == Ok::<ReceiverResponse, ContractError>(
                ReceiverResponse { receiver: stored_receiver },
            )
            &&& caller@ == conv.sender->Ok_0@ ==> reset_outcome(after, Ok(caller), new_receiver) == Ok::<
                State,
                ContractError,
            >(State { owner: conv.sender->Ok_0, receiver: new_receiver })
            &&& caller@ != conv.sender->Ok_0@ ==> reset_outcome(after, Ok(caller), new_receiver) == Err::<
                State,
                ContractError,
            >(ContractError::Unauthorized)
        }),
{
}

/// With a state stored and a positive amount of the stable denomination among the
/// attached funds, a send succeeds and goes to the stored receiver.
pub proof fn lemma_send_with_stable_funds(store: Option<State>, funds: Seq<Coin>, stored_receiver: String)
    requires
        store is Some,
        has_qualifying_funds(funds),
    ensures
        tokensend_outcome(store, funds, Ok(stored_receiver)) == Ok::<String, ContractError>(stored_receiver),
{
}

/// Without a positive amount of the stable denomination a send fails validation,
/// whatever is stored, and the stored record stays as it was.
pub proof fn lemma_send_without_stable_funds(
    store: Option<State>,
    funds: Seq<Coin>,
    stored_receiver: Result<String, ContractError>,
    conv: Conversions,
)
    requires
        !has_qualifying_funds(funds),
    ensures
        tokensend_outcome(store, funds, stored_receiver) == Err::<String, ContractError>(
            ContractError::Validation,
        ),
        handle_store(store, HandleMsg::TokenSend {  }, conv) == store,
{
}

/// A reset by anyone but the owner fails as unauthorized and leaves the record
/// unchanged; a reset by the owner succeeds, and the next query answers with the
/// human-readable form of the new receiver.
pub proof fn lemma_reset_authorization(
    s: State,
    receiver: String,
    conv: Conversions,
    new_receiver_human: String,
)
    requires
        conv.sender is Ok,
        conv.receiver is Ok,
    ensures
        conv.sender->Ok_0@ != s.owner@ ==> {
            &&& handle_reset_outcome(Some(s), conv) == Err::<State, ContractError>(ContractError::Unauthorized)
            &&& handle_store(Some(s), HandleMsg::ResetReceiver { receiver }, conv) == Some(s)
        },
        conv.sender->Ok_0@ == s.owner@ ==> {
            let after = handle_store(Some(s), HandleMsg::ResetReceiver { receiver }, conv);
            &&& after == Some(State { owner: s.owner, receiver: conv.receiver->Ok_0 })
            &&& query_outcome(after, Ok(new_receiver_human)) == Ok::<ReceiverResponse, ContractError>(
                ReceiverResponse { receiver: new_receiver_human },
            )
        },
{
}

/// With no reset in between, two queries answer alike: a send leaves the record,
/// and so the query's answer, as it was.
pub proof fn lemma_query_repeatable(
    store: Option<State>,
    stored_receiver: Result<String, ContractError>,
    conv: Conversions,
)
    ensures
        query_outcome(handle_store(store, HandleMsg::TokenSend {  }, conv), stored_receiver) == query_outcome(
            store,
            stored_receiver,
        ),
{
}

/// A call that fails leaves the stored record exactly as it was.
pub proof fn lemma_failure_keeps_state(store: Option<State>, msg: HandleMsg, conv: Conversions)
    ensures
        init_outcome(conv.sender, conv.receiver) is Err ==> committed(
            store,
            init_outcome(conv.sender, conv.receiver),
        ) == store,
        msg is ResetReceiver && handle_reset_outcome(store, conv) is Err ==> handle_store(store, msg, conv)
            == store,
        msg is TokenSend ==> handle_store(store, msg, conv) == store,
{
}

} // verus!
