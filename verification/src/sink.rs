//! The distribution sink: turning a set of asset balances into transfer
//! actions addressed to the distribution address.  Zero balances are
//! dropped, never transferred.

use vstd::prelude::*;

use crate::msg::Action;

verus! {

/// The transfer actions for the balances of `assets` (paired by index with
/// `balances`), addressed to `recipient`: one transfer per non-zero
/// balance, in asset order; zero balances are dropped.
pub open spec fn spec_transfer_actions(
    assets: Seq<String>,
    balances: Seq<u128>,
    recipient: String,
) -> Seq<Action>
    recommends
        assets.len() == balances.len(),
    decreases assets.len(),
{
    if assets.len() == 0 {
        Seq::empty()
    } else {
        let prefix = spec_transfer_actions(assets.drop_last(), balances.drop_last(), recipient);
        if balances.last() > 0 {
            prefix.push(
                Action::Transfer {
                    asset: assets.last(),
                    amount: balances.last(),
                    recipient,
                },
            )
        } else {
            prefix
        }
    }
}

/// The total amount moved by the transfer actions in `acts` (other actions
/// move nothing).
pub open spec fn spec_total_transferred(acts: Seq<Action>) -> int
    decreases acts.len(),
{
    if acts.len() == 0 {
        0
    } else {
        spec_total_transferred(acts.drop_last()) + match acts.last() {
            Action::Transfer { asset: _, amount, recipient: _ } => amount as int,
            _ => 0,
        }
    }
}

/// The sum of a sequence of balances.
pub open spec fn spec_sum(balances: Seq<u128>) -> int
    decreases balances.len(),
{
    if balances.len() == 0 {
        0
    } else {
        spec_sum(balances.drop_last()) + balances.last()
    }
}

/// Nothing is lost at the sink: the transfers for a set of balances move
/// exactly their sum, dropped zero entries contributing nothing.
pub proof fn lemma_transfer_actions_total(
    assets: Seq<String>,
    balances: Seq<u128>,
    recipient: String,
)
    requires
        assets.len() == balances.len(),
    ensures
        spec_total_transferred(spec_transfer_actions(assets, balances, recipient)) == spec_sum(
            balances,
        ),
    decreases assets.len(),
{
    if assets.len() > 0 {
        lemma_transfer_actions_total(assets.drop_last(), balances.drop_last(), recipient);
        let prefix = spec_transfer_actions(assets.drop_last(), balances.drop_last(), recipient);
        if balances.last() > 0 {
            let whole = prefix.push(
                Action::Transfer {
                    asset: assets.last(),
                    amount: balances.last(),
                    recipient,
                },
            );
            assert(whole.drop_last() =~= prefix);
        }
    }
}

/// Builds the transfer actions for the balances of `assets`, exactly as
/// [`spec_transfer_actions`] states them.
pub fn transfer_actions(assets: &Vec<String>, balances: &Vec<u128>, recipient: &String) -> (r: Vec<
    Action,
>)
    requires
        assets@.len() == balances@.len(),
    ensures
        r@ == spec_transfer_actions(assets@, balances@, *recipient),
{
    let mut r: Vec<Action> = Vec::new();
    let mut i: usize = 0;
    while i < assets.len()
        invariant
            i <= assets@.len(),
            assets@.len() == balances@.len(),
            r@ == spec_transfer_actions(assets@.take(i as int), balances@.take(i as int), *recipient),
        decreases assets@.len() - i,
    {
        let amount = balances[i];
        if amount > 0 {
            r.push(
                Action::Transfer {
                    asset: assets[i].clone(),
                    amount,
                    recipient: recipient.clone(),
                },
            );
        }
        proof {
            let j = i + 1;
            assert(assets@.take(j as int).drop_last() =~= assets@.take(i as int));
            assert(balances@.take(j as int).drop_last() =~= balances@.take(i as int));
            assert(assets@.take(j as int).last() == assets@[i as int]);
            assert(balances@.take(j as int).last() == balances@[i as int]);
        }
        i = i + 1;
    }
    proof {
        assert(assets@.take(assets@.len() as int) =~= assets@);
        assert(balances@.take(balances@.len() as int) =~= balances@);
    }
    r
}

} // verus!
