use vstd::prelude::*;

use crate::chain::{chain_actions, chain_end, chain_of, is_outcome_of, ChainEnd, NextAction, Outcome};
use crate::config::{resolves, CliNextAction, CliPublicKeyMode, CliSelectAction, ResolveState};
use crate::transaction::{Action, UnsignedTransaction};

verus! {

/// The chain built from a chosen list of actions appends exactly those
/// actions, in the chosen order, and ends as chosen.
pub proof fn law_chain_of_chosen_actions(chosen: Seq<Action>, end: ChainEnd)
    ensures
        chain_actions(chain_of(chosen, end)) == chosen,
        chain_end(chain_of(chosen, end)) == end,
    decreases chosen.len(),
{
    if chosen.len() > 0 {
        law_chain_of_chosen_actions(chosen.drop_first(), end);
        assert(chosen =~= seq![chosen[0]] + chosen.drop_first());
    }
}

/// Running the chain of `n` chosen builders on a transaction leaves it with
/// exactly `n` more actions: its earlier actions first, untouched, then the
/// chosen ones in the chosen order. The action appended at each step is the
/// one chosen for that step, whatever comes after it.
pub proof fn law_actions_appended_in_order(
    chosen: Seq<Action>,
    end: ChainEnd,
    transaction: UnsignedTransaction,
    server_url: Option<url::Url>,
    r: Outcome,
)
    requires
        is_outcome_of(r, chain_of(chosen, end), transaction, server_url),
    ensures
        r.transaction.actions@.len() == transaction.actions@.len() + chosen.len(),
        r.transaction.actions@.subrange(0, transaction.actions@.len() as int)
            == transaction.actions@,
        forall|i: int|
            0 <= i < chosen.len() ==> r.transaction.actions@[transaction.actions@.len() + i]
                == chosen[i],
        r.end == end,
{
    law_chain_of_chosen_actions(chosen, end);
    assert(r.transaction.actions@.subrange(0, transaction.actions@.len() as int)
        =~= transaction.actions@);
}

/// No builder and no step of the chain changes the sender, the receiver or
/// the nonce: the transaction the chain ends with has those of the one it
/// started from.
pub proof fn law_header_kept(
    n: NextAction,
    transaction: UnsignedTransaction,
    server_url: Option<url::Url>,
    r: Outcome,
)
    requires
        is_outcome_of(r, n, transaction, server_url),
    ensures
        r.transaction.signer_id@ == transaction.signer_id@,
        r.transaction.receiver_id@ == transaction.receiver_id@,
        r.transaction.nonce == transaction.nonce,
        r.transaction.public_key == transaction.public_key,
        r.transaction.block_hash@ == transaction.block_hash@,
{
}

/// Choosing key-pair generation appends nothing: a chain that reaches it
/// appends the same actions as the chain that stops at that point instead.
pub proof fn law_generate_keypair_appends_nothing(chosen: Seq<Action>)
    ensures
        chain_actions(chain_of(chosen, ChainEnd::KeyPairUnavailable)) == chain_actions(
            chain_of(chosen, ChainEnd::Finalize),
        ),
        chain_actions(chain_of(chosen, ChainEnd::KeyPairUnavailable)) == chosen,
{
    law_chain_of_chosen_actions(chosen, ChainEnd::KeyPairUnavailable);
    law_chain_of_chosen_actions(chosen, ChainEnd::Finalize);
}

/// Resolving pre-supplied configuration only appends: the actions gathered
/// before stay first, unchanged and in their order.
pub proof fn law_resolution_only_appends(
    before: Seq<Action>,
    next: Option<CliNextAction>,
    after: Seq<Action>,
    state: ResolveState,
)
    requires
        resolves(before, next, after, state),
    ensures
        before.len() <= after.len(),
        after.subrange(0, before.len() as int) == before,
    decreases next,
{
    match next {
        Some(CliNextAction::AddAction(select)) => match *select {
            CliSelectAction::CreateAccount(c) => {
                law_resolution_only_appends(before.push(Action::CreateAccount), c.next_action, after, state);
                assert(after.subrange(0, before.len() as int) =~= after.subrange(
                    0,
                    before.len() + 1 as int,
                ).subrange(0, before.len() as int));
            },
            CliSelectAction::DeleteAccessKey(d) => {
                if d.public_key is Some && crate::key::is_public_key_text(d.public_key->0@) {
                    let k = choose|k: near_crypto::PublicKey|
                        resolves(
                            before.push(Action::DeleteKey { public_key: k }),
                            d.next_action,
                            after,
                            state,
                        );
                    law_resolution_only_appends(
                        before.push(Action::DeleteKey { public_key: k }),
                        d.next_action,
                        after,
                        state,
                    );
                    assert(after.subrange(0, before.len() as int) =~= after.subrange(
                        0,
                        before.len() + 1 as int,
                    ).subrange(0, before.len() as int));
                } else {
                    assert(after.subrange(0, before.len() as int) =~= before);
                }
            },
            CliSelectAction::AddAccessKey(mode) => match mode {
                CliPublicKeyMode::PublicKey(a) => {
                    if a.public_key is Some && crate::key::is_public_key_text(a.public_key->0@) {
                        let k = choose|k: near_crypto::PublicKey|
                            resolves(
                                before.push(Action::AddKey { public_key: k, permission: a.permission }),
                                a.next_action,
                                after,
                                state,
                            );
                        law_resolution_only_appends(
                            before.push(Action::AddKey { public_key: k, permission: a.permission }),
                            a.next_action,
                            after,
                            state,
                        );
                        assert(after.subrange(0, before.len() as int) =~= after.subrange(
                            0,
                            before.len() + 1 as int,
                        ).subrange(0, before.len() as int));
                    } else {
                        assert(after.subrange(0, before.len() as int) =~= before);
                    }
                },
                CliPublicKeyMode::GenerateKeypair => {
                    assert(after.subrange(0, before.len() as int) =~= before);
                },
            },
        },
        _ => {
            assert(after.subrange(0, before.len() as int) =~= before);
        },
    }
}

} // verus!
