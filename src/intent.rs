//! A single transaction intent and the legal moves of its status.
use vstd::prelude::*;
use crate::quorum::{decision_of, evaluate, Decision};
use crate::signer::{
    add_signer, holds_signer, lemma_views_push, lemma_with_signer, lemma_without_signer, remove_signer, signer_views,
    with_signer, without_signer, Signer,
};

verus! {

/// The kind of transaction an intent proposes.
#[derive(Clone, Copy, Debug, PartialEq, Eq, Structural)]
pub enum TransactionType {
    Transfer,
}

/// The network the transfer is made on.
#[derive(Clone, Copy, Debug, PartialEq, Eq, Structural)]
pub enum SupportedNetwork {
    ICP,
}

/// Where an intent stands in its lifecycle.
#[derive(Clone, Copy, Debug, PartialEq, Eq, Structural)]
pub enum StatusKind {
    Pending,
    InProgress,
    Completed,
    Rejected,
    Failed,
}

impl StatusKind {
    /// Completed, rejected and failed intents admit no further change.
    pub open spec fn terminal(self) -> bool {
        self is Completed || self is Rejected || self is Failed
    }

    pub fn is_terminal(&self) -> (r: bool)
        ensures
            r == self.terminal(),
    {
        match self {
            StatusKind::Completed | StatusKind::Rejected | StatusKind::Failed => true,
            _ => false,
        }
    }
}

/// The status of an intent together with its human-readable detail.
#[derive(Clone, Debug, PartialEq, Eq)]
pub enum IntentStatus {
    Pending(String),
    InProgress(String),
    Completed(String),
    Rejected(String),
    Failed(String),
}

impl IntentStatus {
    pub open spec fn kind_of(self) -> StatusKind {
        match self {
            IntentStatus::Pending(_) => StatusKind::Pending,
            IntentStatus::InProgress(_) => StatusKind::InProgress,
            IntentStatus::Completed(_) => StatusKind::Completed,
            IntentStatus::Rejected(_) => StatusKind::Rejected,
            IntentStatus::Failed(_) => StatusKind::Failed,
        }
    }

    pub open spec fn detail_of(self) -> Seq<char> {
        match self {
            IntentStatus::Pending(d) => d@,
            IntentStatus::InProgress(d) => d@,
            IntentStatus::Completed(d) => d@,
            IntentStatus::Rejected(d) => d@,
            IntentStatus::Failed(d) => d@,
        }
    }

    pub fn from_parts(kind: StatusKind, detail: String) -> (r: IntentStatus)
        ensures
            r.kind_of() == kind,
            r.detail_of() == detail@,
    {
        match kind {
            StatusKind::Pending => IntentStatus::Pending(detail),
            StatusKind::InProgress => IntentStatus::InProgress(detail),
            StatusKind::Completed => IntentStatus::Completed(detail),
            StatusKind::Rejected => IntentStatus::Rejected(detail),
            StatusKind::Failed => IntentStatus::Failed(detail),
        }
    }

    pub fn kind(&self) -> (r: StatusKind)
        ensures
            r == self.kind_of(),
    {
        match self {
            IntentStatus::Pending(_) => StatusKind::Pending,
            IntentStatus::InProgress(_) => StatusKind::InProgress,
            IntentStatus::Completed(_) => StatusKind::Completed,
            IntentStatus::Rejected(_) => StatusKind::Rejected,
            IntentStatus::Failed(_) => StatusKind::Failed,
        }
    }

    /// The detail text, whatever the status.
    pub fn detail(&self) -> (r: String)
        ensures
            r@ == self.detail_of(),
    {
        match self {
            IntentStatus::Pending(d) => d.clone(),
            IntentStatus::InProgress(d) => d.clone(),
            IntentStatus::Completed(d) => d.clone(),
            IntentStatus::Rejected(d) => d.clone(),
            IntentStatus::Failed(d) => d.clone(),
        }
    }
}

/// Why an operation on intents was refused.
#[derive(Clone, Copy, Debug, PartialEq, Eq, Structural)]
pub enum IntentError {
    InvalidAmount,
    InvalidRecipient,
    NotFound,
    /// The intent has reached this terminal status and admits no change.
    AlreadyTerminal(StatusKind),
    /// A submission for the intent is already in flight.
    AlreadyInProgress,
    /// The approvals do not reach the threshold.
    QuorumNotMet,
    /// An execution outcome arrived for an intent with no submission in flight.
    NotInProgress,
}

/// What the execution gateway reported for a submission, with its message.
#[derive(Clone, Debug, PartialEq, Eq)]
pub enum GatewayOutcome {
    Completed(String),
    Failed(String),
    /// The remote side has not finalized yet; the intent goes back to pending.
    StillPending(String),
}

impl GatewayOutcome {
    /// The status an in-flight intent takes on this outcome.
    pub open spec fn resulting_kind(self) -> StatusKind {
        match self {
            GatewayOutcome::Completed(_) => StatusKind::Completed,
            GatewayOutcome::Failed(_) => StatusKind::Failed,
            GatewayOutcome::StillPending(_) => StatusKind::Pending,
        }
    }

    pub open spec fn message(self) -> Seq<char> {
        match self {
            GatewayOutcome::Completed(d) => d@,
            GatewayOutcome::Failed(d) => d@,
            GatewayOutcome::StillPending(d) => d@,
        }
    }

    /// The outcome that a status reported by the remote account stands for: completion,
    /// a definitive failure where the remote side failed or rejected the transfer, and no
    /// final answer while it is still pending or in progress there.
    pub open spec fn reported_kind(status: StatusKind) -> StatusKind {
        match status {
            StatusKind::Completed => StatusKind::Completed,
            StatusKind::Failed | StatusKind::Rejected => StatusKind::Failed,
            StatusKind::Pending | StatusKind::InProgress => StatusKind::Pending,
        }
    }

    pub fn from_reported(status: IntentStatus) -> (r: GatewayOutcome)
        ensures
            r.resulting_kind() == Self::reported_kind(status.kind_of()),
            r.message() == status.detail_of(),
    {
        match status {
            IntentStatus::Completed(d) => GatewayOutcome::Completed(d),
            IntentStatus::Failed(d) => GatewayOutcome::Failed(d),
            IntentStatus::Rejected(d) => GatewayOutcome::Failed(d),
            IntentStatus::Pending(d) => GatewayOutcome::StillPending(d),
            IntentStatus::InProgress(d) => GatewayOutcome::StillPending(d),
        }
    }
}

/// The abstract content of an intent.
pub struct IntentView {
    pub id: u64,
    pub recipient: Seq<char>,
    pub asset: Seq<char>,
    pub network: SupportedNetwork,
    pub kind: TransactionType,
    /// In the smallest unit of the asset.
    pub amount: u64,
    /// The approving signers, each once, in the order of their votes.
    pub approvals: Seq<Seq<u8>>,
    /// The rejecting signers, each once, in the order of their votes.
    pub rejections: Seq<Seq<u8>>,
    pub status: StatusKind,
    pub detail: Seq<char>,
    /// How many submissions to the execution gateway were started for the intent.
    pub submissions: nat,
}

impl IntentView {
    pub open spec fn wf(self) -> bool {
        &&& self.amount > 0
        &&& self.recipient.len() > 0
        &&& self.approvals.no_duplicates()
        &&& self.rejections.no_duplicates()
        &&& forall|s: Seq<u8>| #[trigger] self.approvals.contains(s) ==> !self.rejections.contains(s)
        &&& (self.status is InProgress || self.status is Completed || self.status is Failed)
            ==> self.submissions >= 1
    }

    /// A freshly proposed intent.
    pub open spec fn proposed(
        id: u64,
        recipient: Seq<char>,
        asset: Seq<char>,
        network: SupportedNetwork,
        kind: TransactionType,
        amount: u64,
    ) -> IntentView {
        IntentView {
            id,
            recipient,
            asset,
            network,
            kind,
            amount,
            approvals: Seq::empty(),
            rejections: Seq::empty(),
            status: StatusKind::Pending,
            detail: Seq::empty(),
            submissions: 0,
        }
    }

    /// The intent after `signer` voted: the vote moves the signer into one set and out of the other.
    pub open spec fn voted(self, signer: Seq<u8>, approve: bool) -> IntentView {
        if self.status.terminal() {
            self
        } else if approve {
            IntentView {
                approvals: with_signer(self.approvals, signer),
                rejections: without_signer(self.rejections, signer),
                ..self
            }
        } else {
            IntentView {
                approvals: without_signer(self.approvals, signer),
                rejections: with_signer(self.rejections, signer),
                ..self
            }
        }
    }

    pub open spec fn vote_result(self) -> Result<(), IntentError> {
        if self.status.terminal() {
            Err(IntentError::AlreadyTerminal(self.status))
        } else {
            Ok(())
        }
    }

    /// Whether an execution request under `threshold` starts a submission, or why not.
    pub open spec fn begin_result(self, threshold: u64) -> Result<(), IntentError> {
        if self.status.terminal() {
            Err(IntentError::AlreadyTerminal(self.status))
        } else if self.status is InProgress {
            Err(IntentError::AlreadyInProgress)
        } else if decision_of(self.approvals.len() as int, threshold as int) != Decision::Approved {
            Err(IntentError::QuorumNotMet)
        } else {
            Ok(())
        }
    }

    /// The intent after an execution request under `threshold`.
    pub open spec fn begun(self, threshold: u64) -> IntentView {
        if self.begin_result(threshold) is Ok {
            IntentView {
                status: StatusKind::InProgress,
                submissions: self.submissions + 1,
                ..self
            }
        } else {
            self
        }
    }

    pub open spec fn finish_result(self) -> Result<(), IntentError> {
        if self.status.terminal() {
            Err(IntentError::AlreadyTerminal(self.status))
        } else if self.status is Pending {
            Err(IntentError::NotInProgress)
        } else {
            Ok(())
        }
    }

    /// The intent after the gateway reported `outcome` for it.
    pub open spec fn finished(self, outcome: GatewayOutcome) -> IntentView {
        if self.finish_result() is Ok {
            IntentView { status: outcome.resulting_kind(), detail: outcome.message(), ..self }
        } else {
            self
        }
    }

    pub open spec fn reject_result(self) -> Result<(), IntentError> {
        if self.status.terminal() {
            Err(IntentError::AlreadyTerminal(self.status))
        } else if self.status is InProgress {
            Err(IntentError::AlreadyInProgress)
        } else {
            Ok(())
        }
    }

    /// The intent after an explicit rejection for `reason`.
    pub open spec fn rejected(self, reason: Seq<char>) -> IntentView {
        if self.reject_result() is Ok {
            IntentView { status: StatusKind::Rejected, detail: reason, ..self }
        } else {
            self
        }
    }
}

/// A vote keeps an intent well formed, and moves exactly that signer between the vote sets.
pub proof fn lemma_voted_wf(i: IntentView, signer: Seq<u8>, approve: bool)
    requires
        i.wf(),
    ensures
        i.voted(signer, approve).wf(),
        !i.status.terminal() && approve ==> {
            &&& i.voted(signer, approve).approvals.to_set() == i.approvals.to_set().insert(signer)
            &&& i.voted(signer, approve).rejections.to_set() == i.rejections.to_set().remove(signer)
        },
        !i.status.terminal() && !approve ==> {
            &&& i.voted(signer, approve).approvals.to_set() == i.approvals.to_set().remove(signer)
            &&& i.voted(signer, approve).rejections.to_set() == i.rejections.to_set().insert(signer)
        },
{
    lemma_with_signer(i.approvals, signer);
    lemma_without_signer(i.approvals, signer);
    lemma_with_signer(i.rejections, signer);
    lemma_without_signer(i.rejections, signer);
}

/// A proposed transfer, the votes on it, and where it stands.
pub struct TransactionIntent {
    id: u64,
    recipient: String,
    asset: String,
    network: SupportedNetwork,
    kind: TransactionType,
    amount: u64,
    approvals: Vec<Signer>,
    rejections: Vec<Signer>,
    status: StatusKind,
    detail: String,
    submissions: Ghost<nat>,
}

impl View for TransactionIntent {
    type V = IntentView;

    closed spec fn view(&self) -> IntentView {
        IntentView {
            id: self.id,
            recipient: self.recipient@,
            asset: self.asset@,
            network: self.network,
            kind: self.kind,
            amount: self.amount,
            approvals: signer_views(self.approvals@),
            rejections: signer_views(self.rejections@),
            status: self.status,
            detail: self.detail@,
            submissions: self.submissions@,
        }
    }
}

fn copy_signers(v: &Vec<Signer>) -> (r: Vec<Signer>)
    ensures
        signer_views(r@) == signer_views(v@),
{
    let mut out: Vec<Signer> = Vec::with_capacity(v.len());
    let mut i: usize = 0;
    while i < v.len()
        invariant
            i <= v@.len(),
            signer_views(out@) =~= signer_views(v@).take(i as int),
        decreases v@.len() - i,
    {
        let c = v[i].duplicate();
        proof {
            lemma_views_push(out@, c);
        }
        out.push(c);
        i = i + 1;
    }
    assert(signer_views(v@).take(i as int) =~= signer_views(v@));
    out
}

impl TransactionIntent {
    pub(crate) fn create(
        id: u64,
        recipient: String,
        asset: String,
        network: SupportedNetwork,
        kind: TransactionType,
        amount: u64,
    ) -> (r: TransactionIntent)
        ensures
            r@ == IntentView::proposed(id, recipient@, asset@, network, kind, amount),
    {
        let r = TransactionIntent {
            id,
            recipient,
            asset,
            network,
            kind,
            amount,
            approvals: Vec::new(),
            rejections: Vec::new(),
            status: StatusKind::Pending,
            detail: String::new(),
            submissions: Ghost(0),
        };
        assert(r@.approvals =~= Seq::empty());
        assert(r@.rejections =~= Seq::empty());
        r
    }

    pub fn id(&self) -> (r: u64)
        ensures
            r == self@.id,
    {
        self.id
    }

    pub fn recipient(&self) -> (r: &str)
        ensures
            r@ == self@.recipient,
    {
        self.recipient.as_str()
    }

    pub fn asset(&self) -> (r: &str)
        ensures
            r@ == self@.asset,
    {
        self.asset.as_str()
    }

    pub fn network(&self) -> (r: SupportedNetwork)
        ensures
            r == self@.network,
    {
        self.network
    }

    pub fn kind(&self) -> (r: TransactionType)
        ensures
            r == self@.kind,
    {
        self.kind
    }

    /// The amount, in the smallest unit of the asset.
    pub fn amount(&self) -> (r: u64)
        ensures
            r == self@.amount,
    {
        self.amount
    }

    /// The number of distinct signers that approve.
    pub fn approvals_count(&self) -> (r: usize)
        ensures
            r == self@.approvals.len(),
    {
        self.approvals.len()
    }

    /// The number of distinct signers that reject.
    pub fn rejections_count(&self) -> (r: usize)
        ensures
            r == self@.rejections.len(),
    {
        self.rejections.len()
    }

    pub fn has_approved(&self, signer: &Signer) -> (r: bool)
        ensures
            r == self@.approvals.contains(signer@),
    {
        holds_signer(&self.approvals, signer)
    }

    pub fn has_rejected(&self, signer: &Signer) -> (r: bool)
        ensures
            r == self@.rejections.contains(signer@),
    {
        holds_signer(&self.rejections, signer)
    }

    pub fn status_kind(&self) -> (r: StatusKind)
        ensures
            r == self@.status,
    {
        self.status
    }

    /// The status with its detail text.
    pub fn status(&self) -> (r: IntentStatus)
        ensures
            r.kind_of() == self@.status,
            r.detail_of() == self@.detail,
    {
        IntentStatus::from_parts(self.status, self.detail.clone())
    }

    /// A copy of the record as it stands.
    pub fn snapshot(&self) -> (r: TransactionIntent)
        ensures
            r@ == self@,
    {
        TransactionIntent {
            id: self.id,
            recipient: self.recipient.clone(),
            asset: self.asset.clone(),
            network: self.network,
            kind: self.kind,
            amount: self.amount,
            approvals: copy_signers(&self.approvals),
            rejections: copy_signers(&self.rejections),
            status: self.status,
            detail: self.detail.clone(),
            submissions: Ghost(self.submissions@),
        }
    }

    /// Records the vote of `signer`, unless the intent is terminal.
    pub(crate) fn record_vote(&mut self, signer: &Signer, approve: bool) -> (r: Result<(), IntentError>)
        requires
            old(self)@.wf(),
        ensures
            final(self)@ == old(self)@.voted(signer@, approve),
            r == old(self)@.vote_result(),
            final(self)@.wf(),
    {
        if self.status.is_terminal() {
            return Err(IntentError::AlreadyTerminal(self.status));
        }
        proof {
            lemma_voted_wf(self@, signer@, approve);
        }
        if approve {
            remove_signer(&mut self.rejections, signer);
            add_signer(&mut self.approvals, signer);
        } else {
            remove_signer(&mut self.approvals, signer);
            add_signer(&mut self.rejections, signer);
        }
        Ok(())
    }

    /// Starts a submission when the approvals reach `threshold` and none is in flight.
    pub(crate) fn begin_execute(&mut self, threshold: u64) -> (r: Result<(), IntentError>)
        requires
            old(self)@.wf(),
        ensures
            final(self)@ == old(self)@.begun(threshold),
            r == old(self)@.begin_result(threshold),
            final(self)@.wf(),
    {
        if self.status.is_terminal() {
            return Err(IntentError::AlreadyTerminal(self.status));
        }
        if self.status == StatusKind::InProgress {
            return Err(IntentError::AlreadyInProgress);
        }
        let approvals_count = self.approvals.len() as u64;
        let rejections_count = self.rejections.len() as u64;
        if evaluate(approvals_count, rejections_count, threshold) != Decision::Approved {
            return Err(IntentError::QuorumNotMet);
        }
        self.status = StatusKind::InProgress;
        self.submissions = Ghost(self.submissions@ + 1);
        Ok(())
    }

    /// Records what the gateway reported for the submission in flight.
    pub(crate) fn finish_execute(&mut self, outcome: GatewayOutcome) -> (r: Result<(), IntentError>)
        requires
            old(self)@.wf(),
        ensures
            final(self)@ == old(self)@.finished(outcome),
            r == old(self)@.finish_result(),
            final(self)@.wf(),
    {
        if self.status.is_terminal() {
            return Err(IntentError::AlreadyTerminal(self.status));
        }
        if self.status == StatusKind::Pending {
            return Err(IntentError::NotInProgress);
        }
        match outcome {
            GatewayOutcome::Completed(d) => {
                self.status = StatusKind::Completed;
                self.detail = d;
            },
            GatewayOutcome::Failed(d) => {
                self.status = StatusKind::Failed;
                self.detail = d;
            },
            GatewayOutcome::StillPending(d) => {
                self.status = StatusKind::Pending;
                self.detail = d;
            },
        }
        Ok(())
    }

    /// Marks a pending intent rejected for `reason`.
    pub(crate) fn reject(&mut self, reason: String) -> (r: Result<(), IntentError>)
        requires
            old(self)@.wf(),
        ensures
            final(self)@ == old(self)@.rejected(reason@),
            r == old(self)@.reject_result(),
            final(self)@.wf(),
    {
        if self.status.is_terminal() {
            return Err(IntentError::AlreadyTerminal(self.status));
        }
        if self.status == StatusKind::InProgress {
            return Err(IntentError::AlreadyInProgress);
        }
        self.status = StatusKind::Rejected;
        self.detail = reason;
        Ok(())
    }
}

} // verus!
