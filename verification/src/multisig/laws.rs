use vstd::prelude::*;

use crate::common::Address;
use crate::multisig::spec::{
    approval_count_overflows, approve_proposal_spec, execute_proposal_spec, is_signer_of,
    proposal_count_overflows, initialize_spec, next_proposal_id,
    submit_proposal_spec,
};
use crate::multisig::types::{Approval, MultisigAction, MultisigConfig, Proposal};

verus! {

/// A configuration is consistent: its threshold is between one and the
/// number of signers.
pub open spec fn config_valid(c: MultisigConfig) -> bool {
    1 <= c.threshold <= c.signers.len()
}

/// The threshold stays consistent: `initialize` stores a consistent
/// configuration, and executing a proposal only ever stores a consistent one
/// with the same signers and token.
pub proof fn multisig_threshold_stays_valid(
    configured: bool,
    signers: Vec<Address>,
    threshold: u32,
    token: Address,
    stored: Option<MultisigConfig>,
    proposal: Option<Proposal>,
    proposal_id: u32,
)
    ensures
        initialize_spec(configured, signers, threshold, token) matches Ok(t) ==> config_valid(t.0),
        execute_proposal_spec(stored, proposal, proposal_id) matches Ok(t) ==> (t.0 matches Some(
            c2,
        ) ==> config_valid(c2) && c2.signers == stored.unwrap().signers && c2.token
            == stored.unwrap().token),
{
}

/// Only configured signers propose or approve.
pub proof fn multisig_proposals_need_signers(
    stored: Option<MultisigConfig>,
    count: Option<u32>,
    caller: Address,
    action: MultisigAction,
    now: u64,
    proposal: Option<Proposal>,
    already_approved: bool,
    proposal_id: u32,
)
    ensures
        submit_proposal_spec(stored, count, caller, action, now) is Ok ==> is_signer_of(
            stored.unwrap(),
            caller,
        ),
        approve_proposal_spec(stored, proposal, already_approved, caller, proposal_id) is Ok
            ==> is_signer_of(stored.unwrap(), caller),
{
}

/// Executed proposals are final: approving or executing them again is
/// refused.
pub proof fn multisig_executed_is_final(
    stored: Option<MultisigConfig>,
    p: Proposal,
    already_approved: bool,
    signer: Address,
    proposal_id: u32,
)
    requires
        p.executed,
    ensures
        approve_proposal_spec(stored, Some(p), already_approved, signer, proposal_id) is Err,
        execute_proposal_spec(stored, Some(p), proposal_id) is Err,
{
}

/// Quorum: a proposal is carried out only with at least the threshold of
/// approvals, and carrying it out marks it executed and pays exactly what
/// its action says.
pub proof fn multisig_execution_needs_quorum(
    stored: Option<MultisigConfig>,
    proposal: Option<Proposal>,
    proposal_id: u32,
)
    ensures
        execute_proposal_spec(stored, proposal, proposal_id) matches Ok(t) ==> {
            &&& proposal matches Some(p)
            &&& p.approvals_count >= stored.unwrap().threshold
            &&& t.2 == Some(Proposal { executed: true, ..p })
            &&& match p.action {
                MultisigAction::UpdateThreshold { .. } => t.4.len() == 0,
                _ => t.4.len() == 1,
            }
        },
{
}

/// The approvals recorded for proposal `id`.
pub open spec fn approvals_of(approved: Set<Approval>, id: u32) -> Set<Approval> {
    approved.filter(|a: Approval| a.proposal_id == id)
}

/// Proposal ids are handed out in sequence, and the approval count of every
/// proposal stays equal to the number of approvals recorded for it: a new
/// proposal starts with its proposer's approval alone, and each accepted
/// approval adds one recorded approval and one to the count.
pub proof fn multisig_approval_accounting(
    approved: Set<Approval>,
    stored: Option<MultisigConfig>,
    count: Option<u32>,
    caller: Address,
    action: MultisigAction,
    now: u64,
    proposal: Option<Proposal>,
    signer: Address,
    proposal_id: u32,
)
    requires
        approved.finite(),
        forall|a: Approval| #[trigger] approved.contains(a) ==> a.proposal_id <= match count {
            Some(n) => n,
            None => 0,
        },
        proposal matches Some(p) ==> p.approvals_count == approvals_of(approved, proposal_id).len(),
        !proposal_count_overflows(stored, count, caller),
        !approval_count_overflows(
            stored,
            proposal,
            approved.contains(Approval { proposal_id, signer }),
            signer,
        ),
    ensures
        submit_proposal_spec(stored, count, caller, action, now) matches Ok(t) ==> {
            let id = next_proposal_id(count);
            &&& t.1 == Some(id)
            &&& t.2.unwrap().id == id
            &&& id as int == (match count {
                Some(n) => n as int,
                None => 0,
            }) + 1
            &&& approvals_of(approved.insert(t.3.unwrap()), id).len() == t.2.unwrap().approvals_count
            &&& forall|a: Approval| #[trigger] approved.insert(t.3.unwrap()).contains(a)
                ==> a.proposal_id <= id
        },
        approve_proposal_spec(
            stored,
            proposal,
            approved.contains(Approval { proposal_id, signer }),
            signer,
            proposal_id,
        ) matches Ok(t) ==> approvals_of(approved.insert(t.3.unwrap()), proposal_id).len()
            == t.2.unwrap().approvals_count,
{
    approved.lemma_len_filter(|a: Approval| a.proposal_id == proposal_id);
    let sub = submit_proposal_spec(stored, count, caller, action, now);
    if let Ok(t) = sub {
        let id = next_proposal_id(count);
        let x = t.3.unwrap();
        assert(approvals_of(approved.insert(x), id) =~= Set::empty().insert(x)) by {
            assert forall|a: Approval| approvals_of(approved.insert(x), id).contains(a) implies a
                == x by {
                if a != x {
                    assert(approved.contains(a));
                }
            }
        }
        assert(Set::<Approval>::empty().insert(x).len() == 1);
    }
    let ap = approve_proposal_spec(
        stored,
        proposal,
        approved.contains(Approval { proposal_id, signer }),
        signer,
        proposal_id,
    );
    if let Ok(t) = ap {
        let x = t.3.unwrap();
        let before = approvals_of(approved, proposal_id);
        assert(approvals_of(approved.insert(x), proposal_id) =~= before.insert(x));
        assert(!before.contains(x));
    }
}

/// The vault's storage: configuration, proposal count, proposals by id and
/// recorded approvals.
pub type MultisigStore = (Option<MultisigConfig>, Option<u32>, Map<u32, Proposal>, Set<Approval>);

/// A call on an initialized vault, with its arguments.
pub enum MultisigCall {
    Submit { caller: Address, action: MultisigAction, now: u64 },
    Approve { signer: Address, proposal_id: u32 },
    Execute { proposal_id: u32 },
}

/// The storage after one call. A refused call, or one that traps on an
/// overflow, changes nothing.
pub open spec fn multisig_step(s: MultisigStore, call: MultisigCall) -> MultisigStore {
    match call {
        MultisigCall::Submit { caller, action, now } => if proposal_count_overflows(
            s.0,
            s.1,
            caller,
        ) {
            s
        } else {
            match submit_proposal_spec(s.0, s.1, caller, action, now) {
                Ok(t) => {
                    let p = t.2.unwrap();
                    (s.0, t.1, s.2.insert(p.id, p), s.3.insert(t.3.unwrap()))
                },
                Err(_) => s,
            }
        },
        MultisigCall::Approve { signer, proposal_id } => {
            let already = s.3.contains(Approval { proposal_id, signer });
            if approval_count_overflows(s.0, s.2.get(proposal_id), already, signer) {
                s
            } else {
                match approve_proposal_spec(s.0, s.2.get(proposal_id), already, signer, proposal_id) {
                    Ok(t) => (s.0, s.1, s.2.insert(proposal_id, t.2.unwrap()), s.3.insert(t.3.unwrap())),
                    Err(_) => s,
                }
            }
        },
        MultisigCall::Execute { proposal_id } => match execute_proposal_spec(
            s.0,
            s.2.get(proposal_id),
            proposal_id,
        ) {
            Ok(t) => (
                match t.0 {
                    Some(c) => Some(c),
                    None => s.0,
                },
                s.1,
                s.2.insert(proposal_id, t.2.unwrap()),
                s.3,
            ),
            Err(_) => s,
        },
    }
}

/// The storage after a sequence of calls.
pub open spec fn run_multisig_calls(s: MultisigStore, calls: Seq<MultisigCall>) -> MultisigStore
    decreases calls.len(),
{
    if calls.len() == 0 {
        s
    } else {
        multisig_step(run_multisig_calls(s, calls.drop_last()), calls.last())
    }
}

/// The storage right after `initialize` stored `config`.
pub open spec fn fresh_vault(config: MultisigConfig) -> MultisigStore {
    (Some(config), Some(0), Map::empty(), Set::empty())
}

/// What stays true of a vault initialized with `config`: the signers and
/// token are those of `config` and the threshold is consistent; every
/// recorded approval is a signer's, for a proposal id handed out so far;
/// and every stored proposal counts exactly the approvals recorded for it.
pub open spec fn multisig_store_invariant(config: MultisigConfig, s: MultisigStore) -> bool {
    &&& s.0 matches Some(c)
    &&& c.signers == config.signers
    &&& c.token == config.token
    &&& config_valid(c)
    &&& s.1 matches Some(n)
    &&& s.3.finite()
    &&& forall|a: Approval| #[trigger] s.3.contains(a) ==> 1 <= a.proposal_id <= n
        && config.signers@.contains(a.signer)
    &&& forall|id: u32| #[trigger] s.2.contains_key(id) ==> 1 <= id <= n
        && s.2[id].approvals_count == approvals_of(s.3, id).len()
}

proof fn lemma_step_keeps_invariant(config: MultisigConfig, s: MultisigStore, call: MultisigCall)
    requires
        multisig_store_invariant(config, s),
    ensures
        multisig_store_invariant(config, multisig_step(s, call)),
{
    let t2 = multisig_step(s, call);
    let n = s.1.unwrap();
    match call {
        MultisigCall::Submit { caller, action, now } => {
            if !proposal_count_overflows(s.0, s.1, caller) {
                if let Ok(t) = submit_proposal_spec(s.0, s.1, caller, action, now) {
                    let x = t.3.unwrap();
                    let id = (n + 1) as u32;
                    assert(approvals_of(s.3, id) =~= Set::empty()) by {
                        assert forall|a: Approval| !approvals_of(s.3, id).contains(a) by {
                            if s.3.contains(a) {
                            }
                        }
                    }
                    assert(approvals_of(t2.3, id) =~= Set::empty().insert(x));
                    assert(Set::<Approval>::empty().insert(x).len() == 1);
                    assert forall|k: u32| #[trigger] t2.2.contains_key(k) implies 1 <= k <= n + 1
                        && t2.2[k].approvals_count == approvals_of(t2.3, k).len() by {
                        if k != id {
                            assert(approvals_of(t2.3, k) =~= approvals_of(s.3, k));
                        }
                    }
                }
            }
        },
        MultisigCall::Approve { signer, proposal_id } => {
            let already = s.3.contains(Approval { proposal_id, signer });
            if !approval_count_overflows(s.0, s.2.get(proposal_id), already, signer) {
                if let Ok(t) = approve_proposal_spec(
                    s.0,
                    s.2.get(proposal_id),
                    already,
                    signer,
                    proposal_id,
                ) {
                    let x = t.3.unwrap();
                    s.3.lemma_len_filter(|a: Approval| a.proposal_id == proposal_id);
                    let before = approvals_of(s.3, proposal_id);
                    assert(approvals_of(t2.3, proposal_id) =~= before.insert(x));
                    assert(!before.contains(x));
                    assert forall|k: u32| #[trigger] t2.2.contains_key(k) implies 1 <= k <= n
                        && t2.2[k].approvals_count == approvals_of(t2.3, k).len() by {
                        if k != proposal_id {
                            assert(approvals_of(t2.3, k) =~= approvals_of(s.3, k));
                        }
                    }
                }
            }
        },
        MultisigCall::Execute { proposal_id } => {
            assert forall|k: u32| #[trigger] t2.2.contains_key(k) implies 1 <= k <= n
                && t2.2[k].approvals_count == approvals_of(t2.3, k).len() by {
                if k != proposal_id {
                    assert(s.2.contains_key(k));
                }
            }
        },
    }
}

proof fn lemma_approvals_bounded(config: MultisigConfig, s: MultisigStore, id: u32)
    requires
        multisig_store_invariant(config, s),
    ensures
        approvals_of(s.3, id).len() <= config.signers.len(),
{
    let approvals = approvals_of(s.3, id);
    let signer_of = |a: Approval| a.signer;
    let signers = config.signers@.to_set();
    s.3.lemma_len_filter(|a: Approval| a.proposal_id == id);
    assert(vstd::relations::injective_on(signer_of, approvals)) by {
        assert forall|a1: Approval, a2: Approval|
            approvals.contains(a1) && approvals.contains(a2) && #[trigger] signer_of(a1)
                == #[trigger] signer_of(a2) implies a1 == a2 by {
        }
    }
    let image = approvals.map(signer_of);
    vstd::set_lib::lemma_map_size(approvals, image, signer_of);
    vstd::seq_lib::seq_to_set_is_finite(config.signers@);
    assert(image.subset_of(signers)) by {
        assert forall|x: Address| image.contains(x) implies signers.contains(x) by {
            let a = choose|a: Approval| approvals.contains(a) && signer_of(a) == x;
            assert(s.3.contains(a));
        }
    }
    vstd::set_lib::lemma_len_subset(image, signers);
    config.signers@.lemma_cardinality_of_set();
}

/// One call keeps the approval accounting: if before a call every stored
/// proposal counts exactly the approvals recorded for it, all by configured
/// signers (and the rest of the invariant holds), then after the call,
/// whatever its result (a refused or trapping call changes nothing), the
/// same holds. So a proposal's approval count never exceeds the number of
/// signers, and a count of at least `t` means at least `t` distinct signers
/// approved it.
pub proof fn multisig_call_keeps_invariant(config: MultisigConfig, s: MultisigStore, call: MultisigCall)
    requires
        multisig_store_invariant(config, s),
    ensures
        multisig_store_invariant(config, multisig_step(s, call)),
        forall|id: u32| #[trigger] multisig_step(s, call).2.contains_key(id) ==> {
            let after = multisig_step(s, call);
            &&& after.2[id].approvals_count == approvals_of(after.3, id).len()
            &&& after.2[id].approvals_count <= config.signers.len()
            &&& forall|a: Approval| #[trigger] approvals_of(after.3, id).contains(a)
                ==> config.signers@.contains(a.signer)
        },
{
    lemma_step_keeps_invariant(config, s, call);
    let after = multisig_step(s, call);
    assert forall|id: u32| #[trigger] after.2.contains_key(id) implies {
        &&& after.2[id].approvals_count == approvals_of(after.3, id).len()
        &&& after.2[id].approvals_count <= config.signers.len()
        &&& forall|a: Approval| #[trigger] approvals_of(after.3, id).contains(a)
            ==> config.signers@.contains(a.signer)
    } by {
        lemma_approvals_bounded(config, after, id);
    }
}

/// Every vault history keeps the invariant.
pub proof fn multisig_history_keeps_invariant(config: MultisigConfig, calls: Seq<MultisigCall>)
    requires
        config_valid(config),
    ensures
        multisig_store_invariant(config, run_multisig_calls(fresh_vault(config), calls)),
    decreases calls.len(),
{
    if calls.len() == 0 {
        assert(approvals_of(Set::<Approval>::empty(), 0) =~= Set::empty());
    } else {
        multisig_history_keeps_invariant(config, calls.drop_last());
        lemma_step_keeps_invariant(
            config,
            run_multisig_calls(fresh_vault(config), calls.drop_last()),
            calls.last(),
        );
    }
}

/// M-of-N: after any history of calls on a vault initialized with a
/// consistent `config`, a proposal can be executed only when at least
/// `threshold` distinct configured signers have recorded their approval of
/// it.
pub proof fn multisig_execution_needs_threshold_signers(
    config: MultisigConfig,
    calls: Seq<MultisigCall>,
    proposal_id: u32,
)
    requires
        config_valid(config),
    ensures
        ({
            let s = run_multisig_calls(fresh_vault(config), calls);
            execute_proposal_spec(s.0, s.2.get(proposal_id), proposal_id) is Ok ==> {
                &&& approvals_of(s.3, proposal_id).len() >= s.0.unwrap().threshold
                &&& forall|a: Approval| #[trigger] approvals_of(s.3, proposal_id).contains(a)
                    ==> config.signers@.contains(a.signer)
            }
        }),
{
    multisig_history_keeps_invariant(config, calls);
}

} // verus!
