//! The store that owns every intent, assigns identifiers and applies the lifecycle.
use vstd::prelude::*;
use crate::intent::{
    GatewayOutcome, IntentError, IntentStatus, IntentView, StatusKind, SupportedNetwork,
    TransactionIntent, TransactionType,
};
use crate::signer::Signer;

verus! {

/// Every intent is well formed and sits at the index of its identifier.
pub open spec fn intents_wf(s: Seq<IntentView>) -> bool {
    forall|i: int| 0 <= i < s.len() ==> (#[trigger] s[i]).id == i && s[i].wf()
}

/// Why a proposal is refused, if it is.
pub open spec fn proposal_error(recipient: Seq<char>, amount: int) -> Option<IntentError> {
    if amount <= 0 {
        Some(IntentError::InvalidAmount)
    } else if recipient.len() == 0 {
        Some(IntentError::InvalidRecipient)
    } else {
        None
    }
}

/// The store after `signer` voted on intent `id`.
pub open spec fn store_voted(s: Seq<IntentView>, id: u64, signer: Seq<u8>, approve: bool) -> Seq<IntentView> {
    if id < s.len() {
        s.update(id as int, s[id as int].voted(signer, approve))
    } else {
        s
    }
}

pub open spec fn store_vote_result(s: Seq<IntentView>, id: u64) -> Result<(), IntentError> {
    if id < s.len() {
        s[id as int].vote_result()
    } else {
        Err(IntentError::NotFound)
    }
}

/// The store after an execution request for intent `id` under `threshold`.
pub open spec fn store_begun(s: Seq<IntentView>, id: u64, threshold: u64) -> Seq<IntentView> {
    if id < s.len() {
        s.update(id as int, s[id as int].begun(threshold))
    } else {
        s
    }
}

pub open spec fn store_begin_result(s: Seq<IntentView>, id: u64, threshold: u64) -> Result<(), IntentError> {
    if id < s.len() {
        s[id as int].begin_result(threshold)
    } else {
        Err(IntentError::NotFound)
    }
}

/// The store after the gateway reported `outcome` for intent `id`.
pub open spec fn store_finished(s: Seq<IntentView>, id: u64, outcome: GatewayOutcome) -> Seq<IntentView> {
    if id < s.len() {
        s.update(id as int, s[id as int].finished(outcome))
    } else {
        s
    }
}

pub open spec fn store_finish_result(s: Seq<IntentView>, id: u64) -> Result<(), IntentError> {
    if id < s.len() {
        s[id as int].finish_result()
    } else {
        Err(IntentError::NotFound)
    }
}

/// The store after an explicit rejection of intent `id` for `reason`.
pub open spec fn store_rejected(s: Seq<IntentView>, id: u64, reason: Seq<char>) -> Seq<IntentView> {
    if id < s.len() {
        s.update(id as int, s[id as int].rejected(reason))
    } else {
        s
    }
}

pub open spec fn store_reject_result(s: Seq<IntentView>, id: u64) -> Result<(), IntentError> {
    if id < s.len() {
        s[id as int].reject_result()
    } else {
        Err(IntentError::NotFound)
    }
}

/// The canonical collection of intents; the intent with identifier `i` is the `i`-th proposed.
pub struct IntentStore {
    intents: Vec<TransactionIntent>,
}

impl View for IntentStore {
    type V = Seq<IntentView>;

    closed spec fn view(&self) -> Seq<IntentView> {
        self.intents@.map_values(|t: TransactionIntent| t@)
    }
}

impl IntentStore {
    pub open spec fn wf(self) -> bool {
        intents_wf(self@)
    }

    pub fn new() -> (r: IntentStore)
        ensures
            r.wf(),
            r@ == Seq::<IntentView>::empty(),
    {
        let r = IntentStore { intents: Vec::new() };
        assert(r@ =~= Seq::<IntentView>::empty());
        r
    }

    /// The number of intents proposed so far.
    pub fn len(&self) -> (r: usize)
        ensures
            r == self@.len(),
    {
        self.intents.len()
    }

    /// Records a new transfer intent under the next identifier. The amount is in the
    /// smallest unit of the asset and must be positive; the recipient must not be empty.
    pub fn propose(
        &mut self,
        recipient: String,
        asset: String,
        network: SupportedNetwork,
        kind: TransactionType,
        amount: i64,
    ) -> (r: Result<TransactionIntent, IntentError>)
        requires
            old(self).wf(),
            old(self)@.len() < u64::MAX,
        ensures
            final(self).wf(),
            match r {
                Ok(t) => {
                    &&& proposal_error(recipient@, amount as int) is None
                    &&& t@ == IntentView::proposed(
                        old(self)@.len() as u64,
                        recipient@,
                        asset@,
                        network,
                        kind,
                        amount as u64,
                    )
                    &&& final(self)@ == old(self)@.push(t@)
                },
                Err(e) => {
                    &&& proposal_error(recipient@, amount as int) == Some(e)
                    &&& final(self)@ == old(self)@
                },
            },
    {
        if amount <= 0 {
            return Err(IntentError::InvalidAmount);
        }
        if recipient.as_str().is_empty() {
            return Err(IntentError::InvalidRecipient);
        }
        let id = self.intents.len() as u64;
        let t = TransactionIntent::create(id, recipient, asset, network, kind, amount as u64);
        let r = t.snapshot();
        self.intents.push(t);
        assert(self@ =~= old(self)@.push(r@));
        Ok(r)
    }

    /// The intent with identifier `id`.
    pub fn get(&self, id: u64) -> (r: Result<&TransactionIntent, IntentError>)
        ensures
            id < self@.len() ==> r is Ok && r->Ok_0@ == self@[id as int],
            id >= self@.len() ==> r == Err::<&TransactionIntent, IntentError>(IntentError::NotFound),
    {
        if id < self.intents.len() as u64 {
            Ok(&self.intents[id as usize])
        } else {
            Err(IntentError::NotFound)
        }
    }

    /// Records the vote of `signer` on intent `id` and returns the updated record.
    /// A signer may change their vote; voting the same way twice changes nothing.
    pub fn record_vote(&mut self, id: u64, signer: &Signer, approve: bool) -> (r: Result<
        TransactionIntent,
        IntentError,
    >)
        requires
            old(self).wf(),
        ensures
            final(self).wf(),
            final(self)@ == store_voted(old(self)@, id, signer@, approve),
            match r {
                Ok(t) => store_vote_result(old(self)@, id) is Ok && t@ == final(self)@[id as int],
                Err(e) => store_vote_result(old(self)@, id) == Err::<(), IntentError>(e),
            },
    {
        if id >= self.intents.len() as u64 {
            return Err(IntentError::NotFound);
        }
        let i = id as usize;
        let res = self.intents[i].record_vote(signer, approve);
        assert(self@ =~= store_voted(old(self)@, id, signer@, approve));
        match res {
            Ok(()) => Ok(self.intents[i].snapshot()),
            Err(e) => Err(e),
        }
    }

    /// Asks to execute intent `id` under the account's current `threshold`. On `Ok` the
    /// intent is in progress and exactly one submission to the gateway is owed; its
    /// outcome is then handed to `finish_execute`.
    pub fn begin_execute(&mut self, id: u64, threshold: u64) -> (r: Result<(), IntentError>)
        requires
            old(self).wf(),
        ensures
            final(self).wf(),
            final(self)@ == store_begun(old(self)@, id, threshold),
            r == store_begin_result(old(self)@, id, threshold),
    {
        if id >= self.intents.len() as u64 {
            return Err(IntentError::NotFound);
        }
        let i = id as usize;
        let res = self.intents[i].begin_execute(threshold);
        assert(self@ =~= store_begun(old(self)@, id, threshold));
        res
    }

    /// Records what the gateway reported for the submission of intent `id`, and returns
    /// the status the intent takes.
    pub fn finish_execute(&mut self, id: u64, outcome: GatewayOutcome) -> (r: Result<
        IntentStatus,
        IntentError,
    >)
        requires
            old(self).wf(),
        ensures
            final(self).wf(),
            final(self)@ == store_finished(old(self)@, id, outcome),
            match r {
                Ok(st) => {
                    &&& store_finish_result(old(self)@, id) is Ok
                    &&& st.kind_of() == outcome.resulting_kind()
                    &&& st.detail_of() == outcome.message()
                },
                Err(e) => store_finish_result(old(self)@, id) == Err::<(), IntentError>(e),
            },
    {
        if id >= self.intents.len() as u64 {
            return Err(IntentError::NotFound);
        }
        let i = id as usize;
        let res = self.intents[i].finish_execute(outcome);
        assert(self@ =~= store_finished(old(self)@, id, outcome));
        match res {
            Ok(()) => Ok(self.intents[i].status()),
            Err(e) => Err(e),
        }
    }

    /// Marks the pending intent `id` rejected for `reason`; no submission follows.
    pub fn mark_rejected(&mut self, id: u64, reason: String) -> (r: Result<IntentStatus, IntentError>)
        requires
            old(self).wf(),
        ensures
            final(self).wf(),
            final(self)@ == store_rejected(old(self)@, id, reason@),
            match r {
                Ok(st) => {
                    &&& store_reject_result(old(self)@, id) is Ok
                    &&& st.kind_of() == StatusKind::Rejected
                    &&& st.detail_of() == reason@
                },
                Err(e) => store_reject_result(old(self)@, id) == Err::<(), IntentError>(e),
            },
    {
        if id >= self.intents.len() as u64 {
            return Err(IntentError::NotFound);
        }
        let i = id as usize;
        let ghost reason_view = reason@;
        let res = self.intents[i].reject(reason);
        assert(self@ =~= store_rejected(old(self)@, id, reason_view));
        match res {
            Ok(()) => Ok(self.intents[i].status()),
            Err(e) => Err(e),
        }
    }
}

} // verus!
