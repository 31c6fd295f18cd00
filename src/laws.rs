use vstd::prelude::*;
use crate::contract::{provision_result, resolve_result, resolved, ProvisionError, StageOutcome};
use crate::market_id::derived_id;
use crate::registry::{is_claimed, single_owner, RegistryView};

verus! {

/// A confirmation handed to the factory: owner, marketplace id, outcome.
pub type Confirmation = (Seq<char>, Seq<char>, StageOutcome);

/// The registry after the confirmations in `events`, in order, starting from
/// an empty one. Requests record nothing, so this is every reachable registry.
pub open spec fn replay(events: Seq<Confirmation>) -> RegistryView
    decreases events.len(),
{
    if events.len() == 0 {
        Set::empty()
    } else {
        let e = events.last();
        resolved(replay(events.drop_last()), e.0, e.1, e.2)
    }
}

/// An owner holds a marketplace only after a confirmation of it for that
/// owner that reported success and was committed.
pub proof fn lemma_held_only_after_confirmation(
    events: Seq<Confirmation>,
    owner: Seq<char>,
    id: Seq<char>,
)
    requires
        replay(events).contains((owner, id)),
    ensures
        exists|i: int|
            0 <= i < events.len() && #[trigger] events[i] == (owner, id, StageOutcome::Succeeded)
                && resolve_result(replay(events.take(i)), owner, id, StageOutcome::Succeeded) is Ok,
    decreases events.len(),
{
    let n = events.len() - 1;
    let prev = events.drop_last();
    let e = events.last();
    assert(events.take(n) =~= prev);
    if replay(prev).contains((owner, id)) {
        lemma_held_only_after_confirmation(prev, owner, id);
        let i = choose|i: int|
            0 <= i < prev.len() && #[trigger] prev[i] == (owner, id, StageOutcome::Succeeded)
                && resolve_result(replay(prev.take(i)), owner, id, StageOutcome::Succeeded) is Ok;
        assert(prev.take(i) =~= events.take(i));
        assert(events[i] == prev[i]);
    } else {
        assert(events[n] == e);
    }
}

/// Every reachable registry gives each marketplace one owner at most.
pub proof fn lemma_replay_single_owner(events: Seq<Confirmation>)
    ensures
        single_owner(replay(events)),
    decreases events.len(),
{
    if events.len() > 0 {
        let e = events.last();
        lemma_replay_single_owner(events.drop_last());
        lemma_resolve_keeps_single_owner(replay(events.drop_last()), e.0, e.1, e.2);
    }
}

/// A confirmation keeps each marketplace with one owner at most.
pub proof fn lemma_resolve_keeps_single_owner(
    reg: RegistryView,
    creator: Seq<char>,
    id: Seq<char>,
    outcome: StageOutcome,
)
    requires
        single_owner(reg),
    ensures
        single_owner(resolved(reg, creator, id, outcome)),
{
    let after = resolved(reg, creator, id, outcome);
    assert forall|o1: Seq<char>, o2: Seq<char>, x: Seq<char>|
        #[trigger] after.contains((o1, x)) && #[trigger] after.contains((o2, x)) implies o1
        == o2 by {
        if resolve_result(reg, creator, id, outcome) is Ok && x == id {
            if o1 != creator {
                assert(reg.contains((o1, x)));
            }
            if o2 != creator {
                assert(reg.contains((o2, x)));
            }
        }
    }
}

/// Once a marketplace is confirmed for its owner, the same request from that
/// owner is refused as a duplicate, whatever deposit comes with it.
pub proof fn lemma_confirmed_request_is_duplicate(
    reg: RegistryView,
    prefix: Seq<char>,
    factory: Seq<char>,
    creator: Seq<char>,
    deposit: u128,
)
    requires
        derived_id(prefix, factory) is Some,
        resolve_result(reg, creator, derived_id(prefix, factory)->0, StageOutcome::Succeeded) is Ok,
    ensures
        provision_result(
            resolved(reg, creator, derived_id(prefix, factory)->0, StageOutcome::Succeeded),
            prefix,
            factory,
            creator,
            deposit,
        ) == Err::<Seq<char>, ProvisionError>(ProvisionError::MarketExists),
{
    let id = derived_id(prefix, factory)->0;
    assert(resolved(reg, creator, id, StageOutcome::Succeeded).contains((creator, id)));
}

/// Of two confirmations of one unclaimed marketplace, whoever they are for,
/// at most one is committed.
pub proof fn lemma_at_most_one_commit(
    reg: RegistryView,
    creator1: Seq<char>,
    creator2: Seq<char>,
    id: Seq<char>,
    outcome1: StageOutcome,
    outcome2: StageOutcome,
)
    ensures
        !(resolve_result(reg, creator1, id, outcome1) is Ok && resolve_result(
            resolved(reg, creator1, id, outcome1),
            creator2,
            id,
            outcome2,
        ) is Ok),
{
    if resolve_result(reg, creator1, id, outcome1) is Ok {
        let after = resolved(reg, creator1, id, outcome1);
        assert(after.contains((creator1, id)));
        assert(is_claimed(after, id));
    }
}

/// A failed pipeline leaves the registry as it was: the marketplace is not
/// recorded for its owner.
pub proof fn lemma_failed_pipeline_records_nothing(
    reg: RegistryView,
    creator: Seq<char>,
    id: Seq<char>,
)
    ensures
        resolved(reg, creator, id, StageOutcome::Failed) == reg,
        !reg.contains((creator, id)) ==> !resolved(reg, creator, id, StageOutcome::Failed).contains(
            (creator, id),
        ),
{
}

} // verus!
