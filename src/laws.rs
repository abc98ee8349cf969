//! Properties of the intent lifecycle that hold over several operations.
use vstd::prelude::*;
use crate::intent::{lemma_voted_wf, GatewayOutcome, IntentError, IntentView, StatusKind};
use crate::signer::{lemma_with_signer, lemma_without_signer};
use crate::store::{
    intents_wf, store_begin_result, store_begun, store_finish_result, store_finished,
    store_reject_result, store_rejected, store_vote_result, store_voted,
};

verus! {

/// The store after `n` further execution requests for intent `id` under `threshold`.
pub open spec fn store_begun_times(s: Seq<IntentView>, id: u64, threshold: u64, n: nat) -> Seq<
    IntentView,
>
    decreases n,
{
    if n == 0 {
        s
    } else {
        store_begun(store_begun_times(s, id, threshold, (n - 1) as nat), id, threshold)
    }
}

/// Recording the same vote a second time changes nothing: the store is the one left by
/// the first recording.
pub proof fn lemma_vote_idempotent(s: Seq<IntentView>, id: u64, signer: Seq<u8>, approve: bool)
    requires
        intents_wf(s),
    ensures
        store_voted(store_voted(s, id, signer, approve), id, signer, approve) == store_voted(
            s,
            id,
            signer,
            approve,
        ),
{
    if id < s.len() {
        let i = s[id as int];
        assert(i.wf());
        lemma_with_signer(i.approvals, signer);
        lemma_without_signer(i.approvals, signer);
        lemma_with_signer(i.rejections, signer);
        lemma_without_signer(i.rejections, signer);
        let v = i.voted(signer, approve);
        lemma_without_signer(v.approvals, signer);
        lemma_without_signer(v.rejections, signer);
        assert(v.voted(signer, approve) == v);
        assert(store_voted(s, id, signer, approve).update(id as int, v) =~= store_voted(
            s,
            id,
            signer,
            approve,
        ));
    }
}

/// The votes of two different signers lead to the same approval and rejection sets in
/// either order.
pub proof fn lemma_votes_commute(
    s: Seq<IntentView>,
    id: u64,
    a: Seq<u8>,
    approve_a: bool,
    b: Seq<u8>,
    approve_b: bool,
)
    requires
        intents_wf(s),
        a != b,
    ensures
        ({
            let ab = store_voted(store_voted(s, id, a, approve_a), id, b, approve_b);
            let ba = store_voted(store_voted(s, id, b, approve_b), id, a, approve_a);
            &&& ab.len() == ba.len()
            &&& forall|k: int|
                0 <= k < ab.len() ==> {
                    &&& (#[trigger] ab[k]).approvals.to_set() == ba[k].approvals.to_set()
                    &&& ab[k].rejections.to_set() == ba[k].rejections.to_set()
                    &&& ab[k].status == ba[k].status
                }
        }),
{
    if id < s.len() {
        let i = s[id as int];
        assert(i.wf());
        let ia = i.voted(a, approve_a);
        let ib = i.voted(b, approve_b);
        lemma_voted_wf(i, a, approve_a);
        lemma_voted_wf(i, b, approve_b);
        lemma_voted_wf(ia, b, approve_b);
        lemma_voted_wf(ib, a, approve_a);
        let iab = ia.voted(b, approve_b);
        let iba = ib.voted(a, approve_a);
        if !i.status.terminal() {
            assert(iab.approvals.to_set() =~= iba.approvals.to_set());
            assert(iab.rejections.to_set() =~= iba.rejections.to_set());
        }
    }
}

/// After a signer approves and then rejects, the signer counts among the rejections and
/// not among the approvals: the last vote wins.
pub proof fn lemma_last_vote_wins(s: Seq<IntentView>, id: u64, signer: Seq<u8>)
    requires
        intents_wf(s),
        id < s.len(),
        !s[id as int].status.terminal(),
    ensures
        ({
            let after = store_voted(store_voted(s, id, signer, true), id, signer, false);
            &&& after[id as int].rejections.contains(signer)
            &&& !after[id as int].approvals.contains(signer)
        }),
{
    let i = s[id as int];
    assert(i.wf());
    lemma_voted_wf(i, signer, true);
    let v = i.voted(signer, true);
    lemma_with_signer(v.rejections, signer);
    lemma_without_signer(v.approvals, signer);
}

/// A terminal intent admits no change: votes, execution requests, gateway outcomes and
/// rejections all leave the store as it is and report the terminal status.
pub proof fn lemma_terminal_is_final(
    s: Seq<IntentView>,
    id: u64,
    signer: Seq<u8>,
    approve: bool,
    threshold: u64,
    outcome: GatewayOutcome,
    reason: Seq<char>,
)
    requires
        id < s.len(),
        s[id as int].status.terminal(),
    ensures
        store_voted(s, id, signer, approve) == s,
        store_vote_result(s, id) == Err::<(), IntentError>(
            IntentError::AlreadyTerminal(s[id as int].status),
        ),
        store_begun(s, id, threshold) == s,
        store_begin_result(s, id, threshold) == Err::<(), IntentError>(
            IntentError::AlreadyTerminal(s[id as int].status),
        ),
        store_finished(s, id, outcome) == s,
        store_finish_result(s, id) == Err::<(), IntentError>(
            IntentError::AlreadyTerminal(s[id as int].status),
        ),
        store_rejected(s, id, reason) == s,
        store_reject_result(s, id) == Err::<(), IntentError>(
            IntentError::AlreadyTerminal(s[id as int].status),
        ),
{
    assert(s.update(id as int, s[id as int]) =~= s);
}

/// While a submission is in flight, a further execution request is refused and starts
/// no second submission.
pub proof fn lemma_one_submission_in_flight(s: Seq<IntentView>, id: u64, threshold: u64)
    requires
        id < s.len(),
        s[id as int].status is InProgress,
    ensures
        store_begun(s, id, threshold) == s,
        store_begin_result(s, id, threshold) == Err::<(), IntentError>(
            IntentError::AlreadyInProgress,
        ),
{
    assert(s.update(id as int, s[id as int]) =~= s);
}

/// An execution request on a pending intent whose approvals fall short of the threshold
/// is refused for want of quorum and leaves the store as it is.
pub proof fn lemma_quorum_not_met(s: Seq<IntentView>, id: u64, threshold: u64)
    requires
        id < s.len(),
        s[id as int].status is Pending,
        s[id as int].approvals.len() < threshold,
    ensures
        store_begun(s, id, threshold) == s,
        store_begin_result(s, id, threshold) == Err::<(), IntentError>(IntentError::QuorumNotMet),
{
    assert(s.update(id as int, s[id as int]) =~= s);
}

/// Execution happens at most once: when a request starts a submission and the gateway
/// reports a definitive outcome, the intent is terminal after exactly one more
/// submission, and any number of later requests leave the store unchanged.
pub proof fn lemma_execute_at_most_once(
    s: Seq<IntentView>,
    id: u64,
    threshold: u64,
    outcome: GatewayOutcome,
    later_threshold: u64,
    n: nat,
)
    requires
        id < s.len(),
        store_begin_result(s, id, threshold) is Ok,
        !(outcome is StillPending),
    ensures
        ({
            let done = store_finished(store_begun(s, id, threshold), id, outcome);
            &&& done[id as int].status.terminal()
            &&& done[id as int].status == outcome.resulting_kind()
            &&& done[id as int].submissions == s[id as int].submissions + 1
            &&& store_begun_times(done, id, later_threshold, n) == done
        }),
    decreases n,
{
    let done = store_finished(store_begun(s, id, threshold), id, outcome);
    if n > 0 {
        lemma_execute_at_most_once(s, id, threshold, outcome, later_threshold, (n - 1) as nat);
        lemma_terminal_is_final(
            done,
            id,
            Seq::empty(),
            true,
            later_threshold,
            outcome,
            Seq::empty(),
        );
    }
}

} // verus!
