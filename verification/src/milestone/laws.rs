use vstd::prelude::*;

use crate::common::{lemma_net_inflow_small, net_inflow, TokenTransfer};
use crate::milestone::spec::{
    approval_overflows, initialize_spec, is_arbiter, lemma_prefix_sum_bounded, milestone_call_spec, pending_milestone,
    resolution_overflows, sum_amounts, MilestoneCall,
};
use crate::milestone::types::{Milestone, MilestoneEscrow, MilestoneInit, MilestoneStatus};
use crate::common::Address;

verus! {

/// What is stored after a call that writes `written` over `before`.
pub open spec fn stored_after<T>(written: Option<T>, before: Option<T>) -> Option<T> {
    match written {
        Some(v) => Some(v),
        None => before,
    }
}

/// The principal the agreement has taken in: its total once funded.
pub open spec fn funded_total(stored: Option<MilestoneEscrow>) -> int {
    match stored {
        Some(c) => if c.is_funded {
            c.total_amount as int
        } else {
            0
        },
        None => 0,
    }
}

/// The part of the principal a milestone has paid out: its amount once it
/// is released to the contractor or cancelled back to the client.
pub open spec fn settled_amount(milestone: Option<Milestone>) -> int {
    match milestone {
        Some(m) => if m.status == MilestoneStatus::Released || m.status
            == MilestoneStatus::Cancelled {
            m.amount as int
        } else {
            0
        },
        None => 0,
    }
}

/// The part of a milestone paid to the contractor.
pub open spec fn released_part(milestone: Option<Milestone>) -> int {
    match milestone {
        Some(m) => if m.status == MilestoneStatus::Released {
            m.amount as int
        } else {
            0
        },
        None => 0,
    }
}

/// The call reaches an addition that overflows, where the contract traps.
pub open spec fn milestone_call_traps(
    stored: Option<MilestoneEscrow>,
    milestone: Option<Milestone>,
    call: MilestoneCall,
) -> bool {
    match call {
        MilestoneCall::ApproveAndRelease { caller, .. } => approval_overflows(
            stored,
            milestone,
            caller,
        ),
        MilestoneCall::Resolve { caller, release_to_contractor, .. } => resolution_overflows(
            stored,
            milestone,
            caller,
            release_to_contractor,
        ),
        _ => false,
    }
}

/// The steps a milestone may take: pending to submitted; submitted to
/// released or disputed; disputed to released or cancelled.
pub open spec fn allowed_milestone_step(from: MilestoneStatus, to: MilestoneStatus) -> bool {
    match from {
        MilestoneStatus::Pending => to == MilestoneStatus::Submitted,
        MilestoneStatus::Submitted => to == MilestoneStatus::Released || to
            == MilestoneStatus::Disputed,
        MilestoneStatus::Disputed => to == MilestoneStatus::Released || to
            == MilestoneStatus::Cancelled,
        _ => false,
    }
}

/// Conservation: the token balance every accepted call moves into the
/// contract equals the principal it takes in (the total, when funding)
/// minus the principal it pays out (a milestone's amount, when the milestone
/// is settled). Summed over the calls, the contract holds the funded total
/// less every settled milestone.
pub proof fn milestone_conservation(
    stored: Option<MilestoneEscrow>,
    milestone: Option<Milestone>,
    call: MilestoneCall,
    now: u64,
)
    ensures
        milestone_call_spec(stored, milestone, call, now) matches Ok(t) ==> net_inflow(t.2) == (
        funded_total(stored_after(t.0, stored)) - funded_total(stored)) - (settled_amount(
            stored_after(t.1, milestone),
        ) - settled_amount(milestone)),
{
    if let Ok(t) = milestone_call_spec(stored, milestone, call, now) {
        let x = TokenTransfer::Inbound { from: stored.unwrap().client, amount: 0 };
        lemma_net_inflow_small(x, x);
        if t.2.len() == 1 {
            lemma_net_inflow_small(t.2[0], x);
            assert(t.2 =~= seq![t.2[0]]);
        }
    }
}

/// Only the named parties act on a milestone: the contractor submits, the
/// client or the arbiter approves, the client or the contractor disputes,
/// and only the arbiter resolves.
pub proof fn milestone_calls_need_authority(
    c: MilestoneEscrow,
    milestone: Option<Milestone>,
    call: MilestoneCall,
    now: u64,
)
    ensures
        milestone_call_spec(Some(c), milestone, call, now) is Ok ==> match call {
            MilestoneCall::Submit { caller, .. } => caller == c.contractor,
            MilestoneCall::ApproveAndRelease { caller, .. } => caller == c.client || is_arbiter(
                c,
                caller,
            ),
            MilestoneCall::Dispute { caller, .. } => caller == c.client || caller == c.contractor,
            MilestoneCall::Resolve { caller, .. } => is_arbiter(c, caller),
            MilestoneCall::Deposit { .. } => true,
        },
{
}

/// The released total grows by exactly the amounts paid to the contractor.
pub proof fn milestone_released_accounting(
    stored: Option<MilestoneEscrow>,
    milestone: Option<Milestone>,
    call: MilestoneCall,
    now: u64,
)
    requires
        !milestone_call_traps(stored, milestone, call),
    ensures
        milestone_call_spec(stored, milestone, call, now) matches Ok(t) ==> (t.0 matches Some(
            c,
        ) ==> c.released_amount == stored.unwrap().released_amount + released_part(
            stored_after(t.1, milestone),
        ) - released_part(milestone)),
{
}

/// Milestones move only along the allowed steps, and a released or
/// cancelled milestone is never written again.
pub proof fn milestone_steps_follow_model(
    stored: Option<MilestoneEscrow>,
    milestone: Option<Milestone>,
    call: MilestoneCall,
    now: u64,
)
    ensures
        milestone_call_spec(stored, milestone, call, now) matches Ok(t) ==> (t.1 matches Some(
            m2,
        ) ==> milestone matches Some(m) && allowed_milestone_step(m.status, m2.status)),
        (milestone matches Some(m) && (m.status == MilestoneStatus::Released || m.status
            == MilestoneStatus::Cancelled)) ==> (milestone_call_spec(
            stored,
            milestone,
            call,
            now,
        ) matches Ok(t) ==> t.1 is None),
{
}

/// The terms never change: a call keeps the parties, token, total and count
/// of the agreement, and the id, description and amount of the milestone.
pub proof fn milestone_terms_are_fixed(
    stored: Option<MilestoneEscrow>,
    milestone: Option<Milestone>,
    call: MilestoneCall,
    now: u64,
)
    ensures
        milestone_call_spec(stored, milestone, call, now) matches Ok(t) ==> {
            &&& t.0 matches Some(c2) ==> stored matches Some(c) && c2.client == c.client
                && c2.contractor == c.contractor && c2.arbiter == c.arbiter && c2.token == c.token
                && c2.total_amount == c.total_amount && c2.milestone_count == c.milestone_count
            &&& t.1 matches Some(m2) ==> milestone matches Some(m) && m2.id == m.id
                && m2.description_hash == m.description_hash && m2.amount == m.amount
        },
{
}

/// The sum of the amounts of stored milestones.
pub open spec fn sum_milestone_amounts(ms: Seq<Milestone>) -> int
    decreases ms.len(),
{
    if ms.len() == 0 {
        0
    } else {
        sum_milestone_amounts(ms.drop_last()) + ms.last().amount
    }
}

proof fn lemma_sum_pending(inits: Seq<MilestoneInit>)
    ensures
        sum_milestone_amounts(inits.map_values(|m: MilestoneInit| pending_milestone(m)))
            == sum_amounts(inits),
    decreases inits.len(),
{
    let ms = inits.map_values(|m: MilestoneInit| pending_milestone(m));
    if inits.len() > 0 {
        lemma_sum_pending(inits.drop_last());
        assert(ms.drop_last() =~= inits.drop_last().map_values(
            |m: MilestoneInit| pending_milestone(m),
        ));
    }
}

/// `initialize` stores one pending milestone per given one, no two with the
/// same id; the agreement's total is the sum of their amounts, and nothing
/// is funded or released yet.
pub proof fn milestone_setup_totals(
    configured: bool,
    client: Address,
    contractor: Address,
    arbiter: Option<Address>,
    token: Address,
    inits: Seq<MilestoneInit>,
)
    requires
        inits.len() <= u32::MAX,
    ensures
        initialize_spec(configured, client, contractor, arbiter, token, inits) matches Ok(t) ==> {
            &&& t.0.total_amount == sum_milestone_amounts(t.1)
            &&& t.0.milestone_count == t.1.len()
            &&& t.0.released_amount == 0
            &&& !t.0.is_funded
            &&& forall|i: int| 0 <= i < t.1.len() ==> (#[trigger] t.1[i]).status
                == MilestoneStatus::Pending && t.1[i].amount > 0
            &&& forall|i: int, j: int|
                #![trigger t.1[i], t.1[j]]
                0 <= i < j < t.1.len() ==> t.1[i].id != t.1[j].id
        },
{
    lemma_sum_pending(inits);
    if let Ok(t) = initialize_spec(configured, client, contractor, arbiter, token, inits) {
        lemma_prefix_sum_bounded(inits, 0);
        assert(inits.take(0) =~= Seq::<MilestoneInit>::empty());
        assert forall|i: int| 0 <= i < t.1.len() implies (#[trigger] t.1[i]).status
            == MilestoneStatus::Pending && t.1[i].amount > 0 by {
            assert(t.1[i] == pending_milestone(inits[i]));
            assert(inits[i].amount > 0);
        }
        assert forall|i: int, j: int|
            #![trigger t.1[i], t.1[j]]
            0 <= i < j < t.1.len() implies t.1[i].id != t.1[j].id by {
            assert(t.1[i] == pending_milestone(inits[i]));
            assert(t.1[j] == pending_milestone(inits[j]));
            assert(inits[i].id != inits[j].id);
        }
    }
}

/// The agreement in instance storage and the milestones in persistent
/// storage, by id.
pub type MilestoneStore = (Option<MilestoneEscrow>, Map<u32, Milestone>);

/// The milestone id a call works on.
pub open spec fn call_milestone_id(call: MilestoneCall) -> u32 {
    match call {
        MilestoneCall::Deposit { .. } => 0,
        MilestoneCall::Submit { milestone_id, .. } => milestone_id,
        MilestoneCall::ApproveAndRelease { milestone_id, .. } => milestone_id,
        MilestoneCall::Dispute { milestone_id, .. } => milestone_id,
        MilestoneCall::Resolve { milestone_id, .. } => milestone_id,
    }
}

/// The storage after one call at ledger time `now`, and the token balance
/// the call moved into the contract. A refused call, or one that traps on
/// an overflow, changes and moves nothing.
pub open spec fn milestone_step(s: MilestoneStore, call: MilestoneCall, now: u64) -> (
    MilestoneStore,
    int,
) {
    let id = call_milestone_id(call);
    let m = s.1.get(id);
    if milestone_call_traps(s.0, m, call) {
        (s, 0)
    } else {
        match milestone_call_spec(s.0, m, call, now) {
            Ok(t) => (
                (
                    stored_after(t.0, s.0),
                    match t.1 {
                        Some(m2) => s.1.insert(id, m2),
                        None => s.1,
                    },
                ),
                net_inflow(t.2),
            ),
            Err(_) => (s, 0),
        }
    }
}

/// The storage after a sequence of calls, and the total balance they moved
/// into the contract.
pub open spec fn run_milestone_calls(s: MilestoneStore, calls: Seq<(MilestoneCall, u64)>) -> (
    MilestoneStore,
    int,
)
    decreases calls.len(),
{
    if calls.len() == 0 {
        (s, 0)
    } else {
        let (before, moved) = run_milestone_calls(s, calls.drop_last());
        let (after, step_moved) = milestone_step(before, calls.last().0, calls.last().1);
        (after, moved + step_moved)
    }
}

/// The sum of `weight` over the milestones stored under `ids`.
pub open spec fn total_over(
    store: Map<u32, Milestone>,
    ids: Seq<u32>,
    weight: spec_fn(Option<Milestone>) -> int,
) -> int
    decreases ids.len(),
{
    if ids.len() == 0 {
        0
    } else {
        total_over(store, ids.drop_last(), weight) + weight(store.get(ids.last()))
    }
}

proof fn lemma_total_over_other_key(
    store: Map<u32, Milestone>,
    ids: Seq<u32>,
    weight: spec_fn(Option<Milestone>) -> int,
    k: u32,
    v: Milestone,
)
    requires
        !ids.contains(k),
    ensures
        total_over(store.insert(k, v), ids, weight) == total_over(store, ids, weight),
    decreases ids.len(),
{
    if ids.len() > 0 {
        assert(!ids.drop_last().contains(k)) by {
            if ids.drop_last().contains(k) {
                let j = choose|j: int| 0 <= j < ids.drop_last().len() && ids.drop_last()[j] == k;
                assert(ids[j] == k);
            }
        }
        lemma_total_over_other_key(store, ids.drop_last(), weight, k, v);
        assert(ids.last() != k) by {
            assert(ids[ids.len() - 1] == ids.last());
        }
    }
}

proof fn lemma_total_over_update(
    store: Map<u32, Milestone>,
    ids: Seq<u32>,
    weight: spec_fn(Option<Milestone>) -> int,
    k: u32,
    v: Milestone,
)
    requires
        ids.no_duplicates(),
        ids.contains(k),
    ensures
        total_over(store.insert(k, v), ids, weight) == total_over(store, ids, weight) - weight(
            store.get(k),
        ) + weight(Some(v)),
    decreases ids.len(),
{
    let rest = ids.drop_last();
    assert(rest.no_duplicates());
    if ids.last() == k {
        assert(!rest.contains(k)) by {
            if rest.contains(k) {
                let j = choose|j: int| 0 <= j < rest.len() && rest[j] == k;
                assert(ids[j] == ids[ids.len() - 1]);
            }
        }
        lemma_total_over_other_key(store, rest, weight, k, v);
    } else {
        assert(rest.contains(k)) by {
            let j = choose|j: int| 0 <= j < ids.len() && ids[j] == k;
            assert(j != ids.len() - 1);
            assert(rest[j] == k);
        }
        lemma_total_over_update(store, rest, weight, k, v);
    }
}

proof fn lemma_total_over_pending(
    store: Map<u32, Milestone>,
    ids: Seq<u32>,
    weight: spec_fn(Option<Milestone>) -> int,
)
    requires
        forall|id: u32| #[trigger] ids.contains(id) ==> store.contains_key(id)
            && store[id].status == MilestoneStatus::Pending,
        forall|m: Milestone| m.status == MilestoneStatus::Pending ==> #[trigger] weight(Some(m))
            == 0,
    ensures
        total_over(store, ids, weight) == 0,
    decreases ids.len(),
{
    if ids.len() > 0 {
        assert forall|id: u32| #[trigger] ids.drop_last().contains(id) implies store.contains_key(
            id,
        ) && store[id].status == MilestoneStatus::Pending by {
            let j = choose|j: int| 0 <= j < ids.drop_last().len() && ids.drop_last()[j] == id;
            assert(ids[j] == id);
            assert(ids.contains(id));
        }
        lemma_total_over_pending(store, ids.drop_last(), weight);
        assert(ids.contains(ids.last())) by {
            assert(ids[ids.len() - 1] == ids.last());
        }
    }
}

/// The amount of a stored milestone.
pub open spec fn amount_of(milestone: Option<Milestone>) -> int {
    match milestone {
        Some(m) => m.amount as int,
        None => 0,
    }
}

proof fn lemma_total_over_bounded(
    store: Map<u32, Milestone>,
    ids: Seq<u32>,
    lower: spec_fn(Option<Milestone>) -> int,
    upper: spec_fn(Option<Milestone>) -> int,
)
    requires
        forall|id: u32| #[trigger] ids.contains(id) ==> 0 <= lower(store.get(id)) <= upper(
            store.get(id),
        ),
    ensures
        0 <= total_over(store, ids, lower) <= total_over(store, ids, upper),
    decreases ids.len(),
{
    if ids.len() > 0 {
        assert forall|id: u32| #[trigger] ids.drop_last().contains(id) implies 0 <= lower(
            store.get(id),
        ) <= upper(store.get(id)) by {
            let j = choose|j: int| 0 <= j < ids.drop_last().len() && ids.drop_last()[j] == id;
            assert(ids[j] == id);
            assert(ids.contains(id));
        }
        lemma_total_over_bounded(store, ids.drop_last(), lower, upper);
        assert(ids.contains(ids.last())) by {
            assert(ids[ids.len() - 1] == ids.last());
        }
    }
}

/// What stays true of an agreement set up with milestone ids `ids`: the
/// milestones stored are exactly those ids, with positive amounts adding up
/// to the agreement's total; nothing moves past pending before funding; the
/// balance moved into the contract equals the funded total less the settled
/// milestones; and the released total is the sum of the milestones released
/// to the contractor.
pub open spec fn milestone_store_invariant(s: MilestoneStore, ids: Seq<u32>, moved: int) -> bool {
    &&& s.0 is Some
    &&& s.1.dom() == ids.to_set()
    &&& forall|id: u32| #[trigger] s.1.contains_key(id) ==> s.1[id].amount > 0
    &&& !s.0.unwrap().is_funded ==> forall|id: u32| #[trigger] s.1.contains_key(id)
        ==> s.1[id].status == MilestoneStatus::Pending
    &&& s.0.unwrap().total_amount == total_over(s.1, ids, |m: Option<Milestone>| amount_of(m))
    &&& moved == funded_total(s.0) - total_over(s.1, ids, |m: Option<Milestone>| settled_amount(m))
    &&& s.0.unwrap().released_amount == total_over(
        s.1,
        ids,
        |m: Option<Milestone>| released_part(m),
    )
}

/// One call keeps the balance rule: if the contract's balance `moved`
/// equals the funded total less the settled milestones (and the rest of the
/// invariant holds) before a call, then after the call, whatever its result
/// (a refused or trapping call changes nothing), the same holds of the new
/// balance, and the released total and the settled amounts stay between zero
/// and the funded total.
pub proof fn milestone_call_keeps_invariant(
    s: MilestoneStore,
    ids: Seq<u32>,
    moved: int,
    call: MilestoneCall,
    now: u64,
)
    requires
        ids.no_duplicates(),
        milestone_store_invariant(s, ids, moved),
    ensures
        milestone_store_invariant(
            milestone_step(s, call, now).0,
            ids,
            moved + milestone_step(s, call, now).1,
        ),
        ({
            let (after, step_moved) = milestone_step(s, call, now);
            &&& 0 <= after.0.unwrap().released_amount <= total_over(
                after.1,
                ids,
                |m: Option<Milestone>| settled_amount(m),
            ) <= funded_total(after.0) <= after.0.unwrap().total_amount
            &&& 0 <= moved + step_moved <= after.0.unwrap().total_amount
        }),
{
    lemma_milestone_step_keeps_invariant(s, ids, moved, call, now);
    let (after, step_moved) = milestone_step(s, call, now);
    milestone_payouts_within_funds(after, ids, moved + step_moved);
}

proof fn lemma_milestone_step_keeps_invariant(
    s: MilestoneStore,
    ids: Seq<u32>,
    moved: int,
    call: MilestoneCall,
    now: u64,
)
    requires
        ids.no_duplicates(),
        milestone_store_invariant(s, ids, moved),
    ensures
        milestone_store_invariant(
            milestone_step(s, call, now).0,
            ids,
            moved + milestone_step(s, call, now).1,
        ),
{
    let id = call_milestone_id(call);
    let m = s.1.get(id);
    let settled = |m: Option<Milestone>| settled_amount(m);
    let released = |m: Option<Milestone>| released_part(m);
    let amount = |m: Option<Milestone>| amount_of(m);
    if !milestone_call_traps(s.0, m, call) {
        if let Ok(t) = milestone_call_spec(s.0, m, call, now) {
            milestone_conservation(s.0, m, call, now);
            milestone_released_accounting(s.0, m, call, now);
            milestone_steps_follow_model(s.0, m, call, now);
            milestone_terms_are_fixed(s.0, m, call, now);
            let after = milestone_step(s, call, now).0;
            if let Some(m2) = t.1 {
                assert(s.1.dom().contains(id));
                assert(ids.contains(id));
                lemma_total_over_update(s.1, ids, settled, id, m2);
                lemma_total_over_update(s.1, ids, released, id, m2);
                lemma_total_over_update(s.1, ids, amount, id, m2);
                assert(s.1.insert(id, m2).dom() =~= s.1.dom());
                assert(s.0.unwrap().is_funded);
                assert(after.0.unwrap().is_funded);
            }
            assert(s.0.unwrap().is_funded ==> after.0.unwrap().is_funded);
            assert forall|k: u32| #[trigger] after.1.contains_key(k) implies after.1[k].amount
                > 0 by {
                assert(s.1.contains_key(k));
            }
        }
    }
}

/// The conservation rule over whole histories: after any calls on a freshly
/// set-up agreement (nothing funded or released, every milestone pending,
/// the total the sum of the positive milestone amounts), the tokens the
/// contract has taken in minus those it has paid out equal the funded total
/// less the amounts of the settled milestones, and the released total is
/// the sum of the milestones released to the contractor.
pub proof fn milestone_holds_unpaid_principal(
    config: MilestoneEscrow,
    store: Map<u32, Milestone>,
    ids: Seq<u32>,
    calls: Seq<(MilestoneCall, u64)>,
)
    requires
        !config.is_funded,
        config.released_amount == 0,
        ids.no_duplicates(),
        store.dom() == ids.to_set(),
        forall|id: u32| #[trigger] store.contains_key(id) ==> store[id].status
            == MilestoneStatus::Pending && store[id].amount > 0,
        config.total_amount == total_over(store, ids, |m: Option<Milestone>| amount_of(m)),
    ensures
        milestone_store_invariant(
            run_milestone_calls((Some(config), store), calls).0,
            ids,
            run_milestone_calls((Some(config), store), calls).1,
        ),
    decreases calls.len(),
{
    if calls.len() == 0 {
        assert forall|id: u32| #[trigger] ids.contains(id) implies store.contains_key(id)
            && store[id].status == MilestoneStatus::Pending by {
            assert(ids.to_set().contains(id));
        }
        lemma_total_over_pending(store, ids, |m: Option<Milestone>| settled_amount(m));
        lemma_total_over_pending(store, ids, |m: Option<Milestone>| released_part(m));
    } else {
        milestone_holds_unpaid_principal(config, store, ids, calls.drop_last());
        let (before, moved) = run_milestone_calls((Some(config), store), calls.drop_last());
        lemma_milestone_step_keeps_invariant(before, ids, moved, calls.last().0, calls.last().1);
    }
}

/// The contract never pays out more than it took in: wherever the invariant
/// holds, the released total and the amounts settled (released or cancelled
/// back) are non-negative and at most the funded total, which is at most
/// the agreement's total, so the balance moved into the contract stays
/// between zero and the total.
pub proof fn milestone_payouts_within_funds(s: MilestoneStore, ids: Seq<u32>, moved: int)
    requires
        milestone_store_invariant(s, ids, moved),
    ensures
        0 <= s.0.unwrap().released_amount <= total_over(
            s.1,
            ids,
            |m: Option<Milestone>| settled_amount(m),
        ) <= funded_total(s.0) <= s.0.unwrap().total_amount,
        0 <= moved <= s.0.unwrap().total_amount,
{
    let settled = |m: Option<Milestone>| settled_amount(m);
    let released = |m: Option<Milestone>| released_part(m);
    let amount = |m: Option<Milestone>| amount_of(m);
    assert forall|id: u32| #[trigger] ids.contains(id) implies 0 <= released(s.1.get(id)) <= settled(
        s.1.get(id),
    ) && 0 <= settled(s.1.get(id)) <= amount(s.1.get(id)) by {
        assert(ids.to_set().contains(id));
        assert(s.1.contains_key(id));
    }
    lemma_total_over_bounded(s.1, ids, released, settled);
    lemma_total_over_bounded(s.1, ids, settled, amount);
    if !s.0.unwrap().is_funded {
        assert forall|id: u32| #[trigger] ids.contains(id) implies s.1.contains_key(id)
            && s.1[id].status == MilestoneStatus::Pending by {
            assert(ids.to_set().contains(id));
        }
        lemma_total_over_pending(s.1, ids, settled);
    }
}

/// Persistent storage after storing `ms` one after the other into `store`,
/// each under its id.
pub open spec fn store_milestones(store: Map<u32, Milestone>, ms: Seq<Milestone>) -> Map<
    u32,
    Milestone,
>
    decreases ms.len(),
{
    if ms.len() == 0 {
        store
    } else {
        store_milestones(store, ms.drop_last()).insert(ms.last().id, ms.last())
    }
}

/// The ids of `ms`, in order.
pub open spec fn milestone_ids(ms: Seq<Milestone>) -> Seq<u32> {
    ms.map_values(|m: Milestone| m.id)
}

proof fn lemma_stored_milestones(ms: Seq<Milestone>)
    requires
        forall|i: int, j: int|
            #![trigger ms[i], ms[j]]
            0 <= i < j < ms.len() ==> ms[i].id != ms[j].id,
    ensures
        milestone_ids(ms).no_duplicates(),
        store_milestones(Map::empty(), ms).dom() == milestone_ids(ms).to_set(),
        forall|id: u32| #[trigger] store_milestones(Map::empty(), ms).contains_key(id)
            ==> ms.contains(store_milestones(Map::empty(), ms)[id]),
        total_over(
            store_milestones(Map::empty(), ms),
            milestone_ids(ms),
            |m: Option<Milestone>| amount_of(m),
        ) == sum_milestone_amounts(ms),
    decreases ms.len(),
{
    if ms.len() > 0 {
        let rest = ms.drop_last();
        assert forall|i: int, j: int|
            #![trigger rest[i], rest[j]]
            0 <= i < j < rest.len() implies rest[i].id != rest[j].id by {
            assert(rest[i] == ms[i] && rest[j] == ms[j]);
        }
        lemma_stored_milestones(rest);
        let earlier = milestone_ids(rest);
        let m = ms.last();
        assert(ms[ms.len() - 1] == m);
        assert(milestone_ids(ms) =~= earlier.push(m.id));
        assert(!earlier.contains(m.id)) by {
            if earlier.contains(m.id) {
                let k = choose|k: int| 0 <= k < earlier.len() && earlier[k] == m.id;
                assert(rest[k] == ms[k]);
                assert(ms[k].id != ms[ms.len() - 1].id);
            }
        }
        assert(earlier.push(m.id).no_duplicates()) by {
            assert forall|i: int, j: int|
                0 <= i < earlier.push(m.id).len() && 0 <= j < earlier.push(m.id).len() && i
                    != j implies earlier.push(m.id)[i] != earlier.push(m.id)[j] by {
                if i < earlier.len() && j < earlier.len() {
                } else if i < earlier.len() {
                    assert(earlier.contains(earlier[i]));
                } else {
                    assert(earlier.contains(earlier[j]));
                }
            }
        }
        earlier.lemma_push_to_set_commute(m.id);
        let prev = store_milestones(Map::empty(), rest);
        let store = store_milestones(Map::empty(), ms);
        assert(store.dom() =~= milestone_ids(ms).to_set());
        assert forall|id: u32| #[trigger] store.contains_key(id) implies ms.contains(store[id]) by {
            if id != m.id {
                assert(prev.contains_key(id));
                let k = choose|k: int| 0 <= k < rest.len() && rest[k] == prev[id];
                assert(ms[k] == rest[k]);
            }
        }
        let amount = |m: Option<Milestone>| amount_of(m);
        lemma_total_over_other_key(prev, earlier, amount, m.id, m);
        assert(milestone_ids(ms).drop_last() =~= earlier);
        assert(store.get(m.id) == Some(m));
    }
}

/// The conservation rule from `initialize` on: once an agreement is set up
/// and its milestones stored, then after any calls the tokens the contract
/// has taken in minus those it has paid out equal the funded total less the
/// amounts of the settled milestones, the released total is the sum of the
/// milestones released to the contractor, and the contract never pays out
/// more than it took in nor takes in more than the agreement's total.
pub proof fn milestone_agreement_holds_unpaid_principal(
    configured: bool,
    client: Address,
    contractor: Address,
    arbiter: Option<Address>,
    token: Address,
    inits: Seq<MilestoneInit>,
    calls: Seq<(MilestoneCall, u64)>,
)
    requires
        inits.len() <= u32::MAX,
    ensures
        initialize_spec(configured, client, contractor, arbiter, token, inits) matches Ok(t) ==> {
            let start = (Some(t.0), store_milestones(Map::empty(), t.1));
            let (end, moved) = run_milestone_calls(start, calls);
            &&& milestone_store_invariant(end, milestone_ids(t.1), moved)
            &&& 0 <= end.0.unwrap().released_amount <= total_over(
                end.1,
                milestone_ids(t.1),
                |m: Option<Milestone>| settled_amount(m),
            ) <= funded_total(end.0) <= end.0.unwrap().total_amount
            &&& 0 <= moved <= end.0.unwrap().total_amount
        },
{
    if let Ok(t) = initialize_spec(configured, client, contractor, arbiter, token, inits) {
        milestone_setup_totals(configured, client, contractor, arbiter, token, inits);
        lemma_stored_milestones(t.1);
        let store = store_milestones(Map::empty(), t.1);
        assert forall|id: u32| #[trigger] store.contains_key(id) implies store[id].status
            == MilestoneStatus::Pending && store[id].amount > 0 by {
            let k = choose|k: int| 0 <= k < t.1.len() && t.1[k] == store[id];
        }
        milestone_holds_unpaid_principal(t.0, store, milestone_ids(t.1), calls);
        let start = (Some(t.0), store);
        let (end, moved) = run_milestone_calls(start, calls);
        milestone_payouts_within_funds(end, milestone_ids(t.1), moved);
    }
}

} // verus!
