//! Threshold multisig guarding contract upgrades.
//!
//! Signers are identified by the strkeys of their accounts. A proposal binds
//! one concrete action and takes a snapshot of the signer set and threshold
//! in force when it is made; approvals are counted against that snapshot
//! only, so later configuration changes cannot validate a proposal after the
//! fact. A proposal executes at most once, and only with as many distinct
//! approvals as its threshold and for the very action it was made for.
use std::collections::HashMap;
use vstd::prelude::*;

verus! {

broadcast use vstd::std_specs::hash::group_hash_axioms, vstd::array::group_array_axioms;

/// Why a multisig operation was refused.
#[derive(Clone, Copy, Debug, PartialEq, Eq, Structural)]
pub enum MultiSigError {
    /// The account is not among the relevant signers.
    NotSigner,
    /// The signer approved this proposal already.
    AlreadyApproved,
    /// No proposal has that id.
    ProposalNotFound,
    /// The proposal was executed already.
    AlreadyExecuted,
    /// The proposal has fewer approvals than its threshold.
    ThresholdNotMet,
    /// The threshold is zero or above the number of signers.
    InvalidThreshold,
    /// The action to execute is not the one the proposal was made for.
    ActionMismatch,
    /// Removing the signer would leave fewer signers than the configured
    /// threshold, making the multisig permanently un-executable.
    RemovalWouldBreakThreshold,
}

/// Signer set and threshold in force for new proposals.
#[derive(Clone, Debug, PartialEq, Eq)]
pub struct MultiSigConfig {
    pub signers: Vec<String>,
    pub threshold: u32,
}

/// The action a proposal is bound to.
#[derive(Clone, Copy, Debug, PartialEq, Eq)]
pub enum ProposalAction {
    /// Upgrade the contract to the wasm with this hash.
    Upgrade([u8; 32]),
}

/// A proposal with its approvals and its snapshot of signers and threshold.
#[derive(Clone, Debug, PartialEq, Eq)]
pub struct Proposal {
    pub action: ProposalAction,
    pub approvals: Vec<String>,
    pub executed: bool,
    pub signers: Vec<String>,
    pub threshold: u32,
}

/// The multisig's stored state. A fresh value stands for an empty ledger.
pub struct MultiSig {
    /// The configuration; `None` until `init`.
    pub config: Option<MultiSigConfig>,
    /// Id of the latest proposal; `init` sets it to 0.
    pub proposal_counter: Option<u64>,
    /// Proposals by id.
    pub proposals: HashMap<u64, Proposal>,
}

/// Model of a `MultiSigConfig`.
pub struct ConfigModel {
    pub signers: Seq<String>,
    pub threshold: u32,
}

/// Model of a `Proposal`.
pub struct ProposalModel {
    pub action: ProposalAction,
    pub approvals: Seq<String>,
    pub executed: bool,
    pub signers: Seq<String>,
    pub threshold: u32,
}

/// Model of a `MultiSig`.
pub struct MultiSigModel {
    pub config: Option<ConfigModel>,
    pub proposal_counter: Option<u64>,
    pub proposals: Map<u64, ProposalModel>,
}

impl View for MultiSigConfig {
    type V = ConfigModel;

    open spec fn view(&self) -> ConfigModel {
        ConfigModel { signers: self.signers@, threshold: self.threshold }
    }
}

impl View for Proposal {
    type V = ProposalModel;

    open spec fn view(&self) -> ProposalModel {
        ProposalModel {
            action: self.action,
            approvals: self.approvals@,
            executed: self.executed,
            signers: self.signers@,
            threshold: self.threshold,
        }
    }
}

/// The model of the proposals of `m`.
pub open spec fn proposal_models(m: Map<u64, Proposal>) -> Map<u64, ProposalModel> {
    m.map_values(|p: Proposal| p@)
}

impl View for MultiSig {
    type V = MultiSigModel;

    open spec fn view(&self) -> MultiSigModel {
        MultiSigModel {
            config: match self.config {
                Some(c) => Some(c@),
                None => None,
            },
            proposal_counter: self.proposal_counter,
            proposals: proposal_models(self.proposals@),
        }
    }
}

/// Whether some account of `accounts` has the strkey `id`.
pub open spec fn holds_id(accounts: Seq<String>, id: Seq<char>) -> bool {
    exists|i: int| 0 <= i < accounts.len() && #[trigger] accounts[i]@ == id
}

/// Whether no strkey occurs twice in `accounts`.
pub open spec fn distinct_ids(accounts: Seq<String>) -> bool {
    forall|i: int, j: int|
        0 <= i < j < accounts.len() ==> #[trigger] accounts[i]@ != #[trigger] accounts[j]@
}

/// `accounts` without every account whose strkey is `id`.
pub open spec fn without_id(accounts: Seq<String>, id: Seq<char>) -> Seq<String> {
    accounts.filter(|s: String| s@ != id)
}

/// Whether a proposal may execute: not yet executed, with at least as many
/// approvals as its threshold.
pub open spec fn executable(p: ProposalModel) -> bool {
    !p.executed && p.approvals.len() >= p.threshold
}

/// Effect of `init`.
pub open spec fn after_init(m: MultiSigModel, signers: Seq<String>, threshold: u32) -> (Result<
    (),
    MultiSigError,
>, MultiSigModel) {
    if threshold == 0 || threshold > signers.len() {
        (Err(MultiSigError::InvalidThreshold), m)
    } else {
        (
            Ok(()),
            MultiSigModel {
                config: Some(ConfigModel { signers, threshold }),
                proposal_counter: Some(0),
                ..m
            },
        )
    }
}

/// Id the next proposal receives.
pub open spec fn next_id(m: MultiSigModel) -> int {
    match m.proposal_counter {
        Some(c) => c + 1,
        None => 1,
    }
}

/// Effect of `propose` (for an initialised multisig).
pub open spec fn after_propose(m: MultiSigModel, proposer: String, action: ProposalAction) -> (Result<
    u64,
    MultiSigError,
>, MultiSigModel) {
    let c = m.config.unwrap();
    if !holds_id(c.signers, proposer@) {
        (Err(MultiSigError::NotSigner), m)
    } else {
        let id = next_id(m) as u64;
        (
            Ok(id),
            MultiSigModel {
                proposal_counter: Some(id),
                proposals: m.proposals.insert(
                    id,
                    ProposalModel {
                        action,
                        approvals: Seq::empty(),
                        executed: false,
                        signers: c.signers,
                        threshold: c.threshold,
                    },
                ),
                ..m
            },
        )
    }
}

/// Effect of `approve`.
pub open spec fn after_approve(m: MultiSigModel, proposal_id: u64, signer: String) -> (Result<
    (),
    MultiSigError,
>, MultiSigModel) {
    if !m.proposals.contains_key(proposal_id) {
        (Err(MultiSigError::ProposalNotFound), m)
    } else {
        let p = m.proposals[proposal_id];
        if !holds_id(p.signers, signer@) {
            (Err(MultiSigError::NotSigner), m)
        } else if p.executed {
            (Err(MultiSigError::AlreadyExecuted), m)
        } else if holds_id(p.approvals, signer@) {
            (Err(MultiSigError::AlreadyApproved), m)
        } else {
            (
                Ok(()),
                MultiSigModel {
                    proposals: m.proposals.insert(
                        proposal_id,
                        ProposalModel { approvals: p.approvals.push(signer), ..p },
                    ),
                    ..m
                },
            )
        }
    }
}

/// Effect of `execute`; when it succeeds the bound action has run once.
pub open spec fn after_execute(m: MultiSigModel, proposal_id: u64, expected: ProposalAction) -> (Result<
    (),
    MultiSigError,
>, MultiSigModel) {
    if !m.proposals.contains_key(proposal_id) {
        (Err(MultiSigError::ProposalNotFound), m)
    } else {
        let p = m.proposals[proposal_id];
        if p.executed {
            (Err(MultiSigError::AlreadyExecuted), m)
        } else if p.action != expected {
            (Err(MultiSigError::ActionMismatch), m)
        } else if !executable(p) {
            (Err(MultiSigError::ThresholdNotMet), m)
        } else {
            (
                Ok(()),
                MultiSigModel {
                    proposals: m.proposals.insert(proposal_id, ProposalModel { executed: true, ..p }),
                    ..m
                },
            )
        }
    }
}

/// Effect of `remove_signer` (for an initialised multisig).
pub open spec fn after_remove_signer(m: MultiSigModel, signer: String) -> (Result<
    (),
    MultiSigError,
>, MultiSigModel) {
    let c = m.config.unwrap();
    if !holds_id(c.signers, signer@) {
        (Err(MultiSigError::NotSigner), m)
    } else if c.signers.len() - 1 < c.threshold {
        (Err(MultiSigError::RemovalWouldBreakThreshold), m)
    } else {
        (
            Ok(()),
            MultiSigModel {
                config: Some(
                    ConfigModel { signers: without_id(c.signers, signer@), threshold: c.threshold },
                ),
                ..m
            },
        )
    }
}

/// Whether an account with strkey `id` is in `accounts`.
fn contains_id(accounts: &Vec<String>, id: &String) -> (found: bool)
    ensures
        found == holds_id(accounts@, id@),
{
    let mut i: usize = 0;
    while i < accounts.len()
        invariant
            i <= accounts.len(),
            forall|k: int| 0 <= k < i ==> #[trigger] accounts@[k]@ != id@,
        decreases accounts.len() - i,
    {
        if accounts[i] == *id {
            return true;
        }
        i = i + 1;
    }
    false
}

/// Whether two actions are the same.
fn same_action(a: &ProposalAction, b: &ProposalAction) -> (same: bool)
    ensures
        same == (*a == *b),
{
    let x: [u8; 32] = match *a {
        ProposalAction::Upgrade(h) => h,
    };
    let y: [u8; 32] = match *b {
        ProposalAction::Upgrade(h) => h,
    };
    let mut i: usize = 0;
    while i < 32
        invariant
            i <= 32,
            *a == ProposalAction::Upgrade(x),
            *b == ProposalAction::Upgrade(y),
            forall|k: int| 0 <= k < i ==> x@[k] == y@[k],
        decreases 32 - i,
    {
        if x[i] != y[i] {
            assert(x@[i as int] != y@[i as int]);
            return false;
        }
        i = i + 1;
    }
    assert(x =~= y);
    true
}

/// Copy of the strkeys in `accounts`.
fn copy_ids(accounts: &Vec<String>) -> (copy: Vec<String>)
    ensures
        copy@ == accounts@,
{
    let mut copy: Vec<String> = Vec::new();
    let mut i: usize = 0;
    while i < accounts.len()
        invariant
            i <= accounts.len(),
            copy@ == accounts@.take(i as int),
        decreases accounts.len() - i,
    {
        copy.push(accounts[i].clone());
        assert(accounts@.take(i + 1) == accounts@.take(i as int).push(accounts@[i as int]));
        i = i + 1;
    }
    assert(accounts@.take(accounts.len() as int) == accounts@);
    copy
}

proof fn lemma_models_insert(m: Map<u64, Proposal>, id: u64, p: Proposal)
    ensures
        proposal_models(m.insert(id, p)) == proposal_models(m).insert(id, p@),
{
    assert(proposal_models(m.insert(id, p)) =~= proposal_models(m).insert(id, p@));
}

impl MultiSig {
    /// The multisig of an empty ledger.
    pub fn new() -> (ms: Self)
        ensures
            ms@ == (MultiSigModel {
                config: None,
                proposal_counter: None,
                proposals: Map::empty(),
            }),
    {
        let ms = MultiSig { config: None, proposal_counter: None, proposals: HashMap::new() };
        assert(ms@.proposals =~= Map::empty());
        ms
    }

    /// Stores the signer set and threshold and resets the proposal counter.
    /// The threshold must be between one and the number of signers.
    pub fn init(&mut self, signers: Vec<String>, threshold: u32) -> (result: Result<
        (),
        MultiSigError,
    >)
        requires
            old(self).config is None,
        ensures
            (result, final(self)@) == after_init(old(self)@, signers@, threshold),
    {
        if threshold == 0 || threshold as usize > signers.len() {
            return Err(MultiSigError::InvalidThreshold);
        }
        self.config = Some(MultiSigConfig { signers, threshold });
        self.proposal_counter = Some(0);
        Ok(())
    }

    /// The configuration in force.
    pub fn get_config(&self) -> (config: &MultiSigConfig)
        requires
            self.config is Some,
        ensures
            *config == self.config.unwrap(),
    {
        match &self.config {
            Some(c) => c,
            None => vstd::pervasive::unreached(),
        }
    }

    /// The proposal with id `proposal_id`.
    pub fn get_proposal(&self, proposal_id: u64) -> (proposal: Result<&Proposal, MultiSigError>)
        ensures
            self.proposals@.contains_key(proposal_id) ==> (proposal matches Ok(p) && *p
                == self.proposals@[proposal_id]),
            !self.proposals@.contains_key(proposal_id) ==> (proposal matches Err(e) && e
                == MultiSigError::ProposalNotFound),
    {
        match self.proposals.get(&proposal_id) {
            Some(p) => Ok(p),
            None => Err(MultiSigError::ProposalNotFound),
        }
    }
    /// Creates a proposal bound to `action`, snapshotting the signers and
    /// threshold in force, and returns its id: one more than the latest id.
    /// Only a signer may propose.
    pub fn propose(&mut self, proposer: String, action: ProposalAction) -> (result: Result<
        u64,
        MultiSigError,
    >)
        requires
            old(self).config is Some,
            holds_id(old(self)@.config.unwrap().signers, proposer@) ==> next_id(old(self)@)
                <= u64::MAX,
        ensures
            (result, final(self)@) == after_propose(old(self)@, proposer, action),
    {
        let config = self.get_config();
        if !contains_id(&config.signers, &proposer) {
            return Err(MultiSigError::NotSigner);
        }
        let latest: u64 = match self.proposal_counter {
            Some(c) => c,
            None => 0,
        };
        let counter = latest + 1;
        let proposal = Proposal {
            action,
            approvals: Vec::new(),
            executed: false,
            signers: copy_ids(&config.signers),
            threshold: config.threshold,
        };
        proof {
            lemma_models_insert(self.proposals@, counter, proposal);
        }
        self.proposals.insert(counter, proposal);
        self.proposal_counter = Some(counter);
        Ok(counter)
    }

    /// Adds `signer`'s approval to a pending proposal. The signer must be in
    /// the proposal's snapshot and may approve once.
    pub fn approve(&mut self, proposal_id: u64, signer: String) -> (result: Result<
        (),
        MultiSigError,
    >)
        ensures
            (result, final(self)@) == after_approve(old(self)@, proposal_id, signer),
    {
        let proposal = self.get_proposal(proposal_id)?;
        if !contains_id(&proposal.signers, &signer) {
            return Err(MultiSigError::NotSigner);
        }
        if proposal.executed {
            return Err(MultiSigError::AlreadyExecuted);
        }
        if contains_id(&proposal.approvals, &signer) {
            return Err(MultiSigError::AlreadyApproved);
        }
        let ghost before = self.proposals@;
        let mut proposal = match self.proposals.remove(&proposal_id) {
            Some(p) => p,
            None => return Err(MultiSigError::ProposalNotFound),
        };
        proposal.approvals.push(signer);
        self.proposals.insert(proposal_id, proposal);
        proof {
            assert(self.proposals@ == before.insert(proposal_id, proposal));
            lemma_models_insert(before, proposal_id, proposal);
        }
        Ok(())
    }

    /// Whether the proposal may execute: not executed and with at least as
    /// many approvals as its snapshot threshold.
    pub fn can_execute(&self, proposal_id: u64) -> (result: Result<bool, MultiSigError>)
        ensures
            self@.proposals.contains_key(proposal_id) ==> result == Ok::<bool, MultiSigError>(
                executable(self@.proposals[proposal_id]),
            ),
            !self@.proposals.contains_key(proposal_id) ==> result == Err::<bool, MultiSigError>(
                MultiSigError::ProposalNotFound,
            ),
    {
        let proposal = self.get_proposal(proposal_id)?;
        Ok(!proposal.executed && proposal.approvals.len() >= proposal.threshold as usize)
    }

    /// Runs the proposal's bound action and marks the proposal executed, once
    /// the proposal is pending, bound to `expected_action` and approved by
    /// its threshold of signers; on success the action has run. The action
    /// runs only after every check passed, and the proposal is marked only
    /// after the action returned, so an aborting action leaves it pending.
    pub fn execute<F: FnOnce()>(
        &mut self,
        proposal_id: u64,
        expected_action: ProposalAction,
        action: F,
    ) -> (result: Result<(), MultiSigError>)
        requires
            action.requires(()),
        ensures
            (result, final(self)@) == after_execute(old(self)@, proposal_id, expected_action),
            result is Ok ==> action.ensures((), ()),
    {
        let proposal = self.get_proposal(proposal_id)?;
        if proposal.executed {
            return Err(MultiSigError::AlreadyExecuted);
        }
        if !same_action(&proposal.action, &expected_action) {
            return Err(MultiSigError::ActionMismatch);
        }
        if !self.can_execute(proposal_id)? {
            return Err(MultiSigError::ThresholdNotMet);
        }
        action();
        self.mark_executed(proposal_id);
        Ok(())
    }

    fn mark_executed(&mut self, proposal_id: u64)
        requires
            old(self)@.proposals.contains_key(proposal_id),
            executable(old(self)@.proposals[proposal_id]),
        ensures
            final(self)@ == (MultiSigModel {
                proposals: old(self)@.proposals.insert(
                    proposal_id,
                    ProposalModel { executed: true, ..old(self)@.proposals[proposal_id] },
                ),
                ..old(self)@
            }),
    {
        let ghost before = self.proposals@;
        let mut proposal = match self.proposals.remove(&proposal_id) {
            Some(p) => p,
            None => return ,
        };
        proposal.executed = true;
        self.proposals.insert(proposal_id, proposal);
        proof {
            assert(self.proposals@ == before.insert(proposal_id, proposal));
            lemma_models_insert(before, proposal_id, proposal);
        }
    }

    /// The action the proposal is bound to.
    pub fn get_action(&self, proposal_id: u64) -> (result: Result<ProposalAction, MultiSigError>)
        ensures
            self@.proposals.contains_key(proposal_id) ==> result == Ok::<
                ProposalAction,
                MultiSigError,
            >(self@.proposals[proposal_id].action),
            !self@.proposals.contains_key(proposal_id) ==> result == Err::<
                ProposalAction,
                MultiSigError,
            >(MultiSigError::ProposalNotFound),
    {
        let proposal = self.get_proposal(proposal_id)?;
        Ok(proposal.action)
    }

    /// Removes every occurrence of `signer_to_remove` from the signers in
    /// force for new proposals. The account must be a signer, and one fewer
    /// signer must still reach the threshold. Existing proposals keep their
    /// snapshots.
    pub fn remove_signer(&mut self, signer_to_remove: String) -> (result: Result<
        (),
        MultiSigError,
    >)
        requires
            old(self).config is Some,
        ensures
            (result, final(self)@) == after_remove_signer(old(self)@, signer_to_remove),
    {
        let config = self.get_config();
        if !contains_id(&config.signers, &signer_to_remove) {
            return Err(MultiSigError::NotSigner);
        }
        let remaining = config.signers.len() - 1;
        if remaining < config.threshold as usize {
            return Err(MultiSigError::RemovalWouldBreakThreshold);
        }
        let ghost all = config.signers@;
        let mut new_signers: Vec<String> = Vec::new();
        let mut i: usize = 0;
        while i < config.signers.len()
            invariant
                all == config.signers@,
                i <= all.len(),
                new_signers@ == without_id(all.take(i as int), signer_to_remove@),
            decreases all.len() - i,
        {
            proof {
                reveal(Seq::filter);
                assert(all.take(i + 1).drop_last() == all.take(i as int));
                assert(all.take(i + 1).last() == all[i as int]);
            }
            if config.signers[i] != signer_to_remove {
                new_signers.push(config.signers[i].clone());
            }
            i = i + 1;
        }
        assert(all.take(all.len() as int) == all);
        let threshold = config.threshold;
        self.config = Some(MultiSigConfig { signers: new_signers, threshold });
        Ok(())
    }
}

/// Whether every approval of `p` comes from its snapshot of signers and no
/// signer approved twice.
pub open spec fn approvals_valid(p: ProposalModel) -> bool {
    &&& distinct_ids(p.approvals)
    &&& forall|i: int| 0 <= i < p.approvals.len() ==> holds_id(p.signers, #[trigger] p.approvals[i]@)
}

/// Whether every stored proposal has valid approvals.
pub open spec fn proposals_valid(m: MultiSigModel) -> bool {
    forall|id: u64| #[trigger] m.proposals.contains_key(id) ==> approvals_valid(m.proposals[id])
}

/// A multisig is only ever initialised with a reachable threshold: between
/// one and the number of signers.
pub proof fn law_init_threshold_reachable(m: MultiSigModel, signers: Seq<String>, threshold: u32)
    ensures
        after_init(m, signers, threshold).0 is Ok <==> 1 <= threshold <= signers.len(),
        after_init(m, signers, threshold).1.proposals == m.proposals,
{
}

/// Every operation keeps all approvals valid: approvals come only from a
/// proposal's snapshot of signers, and never twice from the same signer.
pub proof fn law_approvals_stay_valid(
    m: MultiSigModel,
    account: String,
    proposal_id: u64,
    action: ProposalAction,
    signers: Seq<String>,
    threshold: u32,
)
    requires
        proposals_valid(m),
    ensures
        proposals_valid(after_init(m, signers, threshold).1),
        m.config is Some ==> proposals_valid(after_propose(m, account, action).1),
        proposals_valid(after_approve(m, proposal_id, account).1),
        proposals_valid(after_execute(m, proposal_id, action).1),
        m.config is Some ==> proposals_valid(after_remove_signer(m, account).1),
{
    if m.config is Some {
        let after = after_propose(m, account, action).1;
        assert forall|id: u64| #[trigger] after.proposals.contains_key(id) implies approvals_valid(
            after.proposals[id],
        ) by {
            if after_propose(m, account, action).0 is Ok && id == next_id(m) as u64 {
            } else {
                assert(m.proposals.contains_key(id));
            }
        }
    }
    let approved = after_approve(m, proposal_id, account);
    if approved.0 is Ok {
        let p = m.proposals[proposal_id];
        let q = approved.1.proposals[proposal_id];
        assert(q.approvals == p.approvals.push(account));
        assert(distinct_ids(q.approvals)) by {
            assert forall|i: int, j: int| 0 <= i < j < q.approvals.len() implies #[trigger] q.approvals[i]@
                != #[trigger] q.approvals[j]@ by {
                if j == p.approvals.len() {
                    assert(q.approvals[i] == p.approvals[i]);
                } else {
                    assert(q.approvals[i] == p.approvals[i]);
                    assert(q.approvals[j] == p.approvals[j]);
                }
            }
        }
        assert forall|i: int| 0 <= i < q.approvals.len() implies holds_id(
            q.signers,
            #[trigger] q.approvals[i]@,
        ) by {
            if i < p.approvals.len() {
                assert(q.approvals[i] == p.approvals[i]);
            }
        }
        assert forall|id: u64| #[trigger] approved.1.proposals.contains_key(id) implies approvals_valid(
            approved.1.proposals[id],
        ) by {
            if id != proposal_id {
                assert(m.proposals.contains_key(id));
            }
        }
    }
    let executed = after_execute(m, proposal_id, action);
    if executed.0 is Ok {
        assert forall|id: u64| #[trigger] executed.1.proposals.contains_key(id) implies approvals_valid(
            executed.1.proposals[id],
        ) by {
            assert(m.proposals.contains_key(id));
        }
    }
}

/// A proposal executes only when it is pending, bound to the expected action
/// and approved by at least its threshold of signers; after that it can be
/// neither executed nor approved again.
pub proof fn law_execute_at_most_once(
    m: MultiSigModel,
    proposal_id: u64,
    action: ProposalAction,
    signer: String,
    again: ProposalAction,
)
    ensures
        after_execute(m, proposal_id, action).0 is Ok ==> {
            let p = m.proposals[proposal_id];
            let after = after_execute(m, proposal_id, action).1;
            &&& m.proposals.contains_key(proposal_id)
            &&& !p.executed
            &&& p.action == action
            &&& p.approvals.len() >= p.threshold
            &&& after.proposals[proposal_id].executed
            &&& after_execute(after, proposal_id, again).0 == Err::<(), MultiSigError>(
                MultiSigError::AlreadyExecuted,
            )
            &&& holds_id(p.signers, signer@) ==> after_approve(after, proposal_id, signer).0
                == Err::<(), MultiSigError>(MultiSigError::AlreadyExecuted)
        },
{
}

/// Each accepted approval adds exactly one approval, so a proposal with
/// threshold `t` becomes executable at its `t`-th approval and not before.
pub proof fn law_approval_counts_once(m: MultiSigModel, proposal_id: u64, signer: String)
    ensures
        after_approve(m, proposal_id, signer).0 is Ok ==> {
            let p = m.proposals[proposal_id];
            let q = after_approve(m, proposal_id, signer).1.proposals[proposal_id];
            &&& q.approvals.len() == p.approvals.len() + 1
            &&& executable(q) <==> p.approvals.len() + 1 >= p.threshold
        },
        after_approve(m, proposal_id, signer).0 is Err ==> after_approve(
            m,
            proposal_id,
            signer,
        ).1 == m,
{
}

/// Changing the signers in force never touches existing proposals: their
/// snapshots, approvals and executability stay as they were.
pub proof fn law_snapshot_survives_config_change(m: MultiSigModel, signer: String, config: ConfigModel)
    requires
        m.config is Some,
    ensures
        after_remove_signer(m, signer).1.proposals == m.proposals,
        (MultiSigModel { config: Some(config), ..m }).proposals == m.proposals,
{
}

proof fn lemma_without_distinct_len(s: Seq<String>, t: Seq<char>)
    requires
        distinct_ids(s),
    ensures
        without_id(s, t).len() == (if holds_id(s, t) {
            s.len() - 1
        } else {
            s.len() as int
        }),
    decreases s.len(),
{
    reveal(Seq::filter);
    if s.len() > 0 {
        let init = s.drop_last();
        assert(distinct_ids(init)) by {
            assert forall|i: int, j: int| 0 <= i < j < init.len() implies #[trigger] init[i]@
                != #[trigger] init[j]@ by {
                assert(init[i] == s[i] && init[j] == s[j]);
            }
        }
        lemma_without_distinct_len(init, t);
        if s.last()@ == t {
            assert(!holds_id(init, t)) by {
                if holds_id(init, t) {
                    let i = choose|i: int| 0 <= i < init.len() && #[trigger] init[i]@ == t;
                    assert(s[i]@ == s[s.len() - 1]@);
                }
            }
            assert(holds_id(s, t)) by {
                assert(s[s.len() - 1]@ == t);
            }
        } else {
            if holds_id(s, t) {
                let i = choose|i: int| 0 <= i < s.len() && #[trigger] s[i]@ == t;
                assert(init[i]@ == t);
            }
            if holds_id(init, t) {
                let i = choose|i: int| 0 <= i < init.len() && #[trigger] init[i]@ == t;
                assert(s[i]@ == t);
            }
        }
    }
}

/// With no signer listed twice, a successful removal leaves exactly one
/// signer fewer, still at least the threshold: the multisig stays executable.
pub proof fn law_removal_keeps_threshold_reachable(m: MultiSigModel, signer: String)
    requires
        m.config is Some,
        distinct_ids(m.config.unwrap().signers),
    ensures
        after_remove_signer(m, signer).0 is Ok ==> {
            let c = after_remove_signer(m, signer).1.config.unwrap();
            &&& c.signers.len() == m.config.unwrap().signers.len() - 1
            &&& c.signers.len() >= c.threshold
            &&& c.threshold == m.config.unwrap().threshold
            &&& !holds_id(c.signers, signer@)
        },
{
    let c = m.config.unwrap();
    lemma_without_distinct_len(c.signers, signer@);
    if after_remove_signer(m, signer).0 is Ok {
        let kept = without_id(c.signers, signer@);
        if holds_id(kept, signer@) {
            let i = choose|i: int| 0 <= i < kept.len() && #[trigger] kept[i]@ == signer@;
            broadcast use Seq::lemma_filter_pred;
            assert(c.signers.filter(|s: String| s@ != signer@)[i]@ != signer@);
        }
    }
}

/// Only signers may propose, and a refused proposal changes nothing.
/// Proposal ids are handed out in sequence: a new proposal gets the id after
/// the latest one, is pending without approvals, and leaves every other
/// proposal as it was.
pub proof fn law_propose_sequential(m: MultiSigModel, proposer: String, action: ProposalAction, other: u64)
    requires
        m.config is Some,
        holds_id(m.config.unwrap().signers, proposer@) ==> next_id(m) <= u64::MAX,
    ensures
        !holds_id(m.config.unwrap().signers, proposer@) ==> after_propose(m, proposer, action)
            == (Err::<u64, MultiSigError>(MultiSigError::NotSigner), m),
        after_propose(m, proposer, action).0 matches Ok(id) ==> {
            let after = after_propose(m, proposer, action).1;
            &&& id == next_id(m)
            &&& after.proposal_counter == Some(id)
            &&& after.proposals[id].approvals.len() == 0
            &&& !after.proposals[id].executed
            &&& after.proposals[id].action == action
            &&& (other != id && m.proposals.contains_key(other) ==> after.proposals[other]
                == m.proposals[other])
        },
{
}

/// `execute` succeeds exactly when the proposal exists, is pending, is bound
/// to the expected action and has at least its threshold of approvals; then
/// it only marks that proposal executed. Any refusal changes nothing.
pub proof fn law_execute_succeeds_exactly_when_approved(
    m: MultiSigModel,
    proposal_id: u64,
    action: ProposalAction,
)
    ensures
        after_execute(m, proposal_id, action).0 is Ok <==> (m.proposals.contains_key(proposal_id)
            && !m.proposals[proposal_id].executed && m.proposals[proposal_id].action == action
            && m.proposals[proposal_id].approvals.len() >= m.proposals[proposal_id].threshold),
        after_execute(m, proposal_id, action).0 is Ok ==> {
            let p = m.proposals[proposal_id];
            let after = after_execute(m, proposal_id, action).1;
            &&& after.config == m.config
            &&& after.proposal_counter == m.proposal_counter
            &&& after.proposals.dom() == m.proposals.dom()
            &&& after.proposals[proposal_id].executed
            &&& after.proposals[proposal_id].approvals == p.approvals
            &&& after.proposals[proposal_id].signers == p.signers
            &&& after.proposals[proposal_id].threshold == p.threshold
            &&& after.proposals[proposal_id].action == p.action
            &&& forall|other: u64|
                other != proposal_id && #[trigger] m.proposals.contains_key(other)
                    ==> after.proposals[other] == m.proposals[other]
        },
        after_execute(m, proposal_id, action).0 is Err ==> after_execute(m, proposal_id, action).1
            == m,
{
    let after = after_execute(m, proposal_id, action).1;
    if after_execute(m, proposal_id, action).0 is Ok {
        assert(after.proposals.dom() =~= m.proposals.dom());
    }
}

/// `approve` succeeds exactly for a signer of a pending proposal's snapshot
/// who has not approved it yet, however many approvals it already has; the
/// signer is then appended to the approvals and nothing else changes.
pub proof fn law_approve_accepts_every_fresh_snapshot_signer(
    m: MultiSigModel,
    proposal_id: u64,
    signer: String,
)
    ensures
        after_approve(m, proposal_id, signer).0 is Ok <==> (m.proposals.contains_key(proposal_id)
            && holds_id(m.proposals[proposal_id].signers, signer@)
            && !m.proposals[proposal_id].executed
            && !holds_id(m.proposals[proposal_id].approvals, signer@)),
        after_approve(m, proposal_id, signer).0 is Ok ==> {
            let p = m.proposals[proposal_id];
            let after = after_approve(m, proposal_id, signer).1;
            &&& after.config == m.config
            &&& after.proposal_counter == m.proposal_counter
            &&& after.proposals.dom() == m.proposals.dom()
            &&& after.proposals[proposal_id].approvals == p.approvals.push(signer)
            &&& after.proposals[proposal_id].executed == p.executed
            &&& after.proposals[proposal_id].signers == p.signers
            &&& after.proposals[proposal_id].threshold == p.threshold
            &&& after.proposals[proposal_id].action == p.action
            &&& forall|other: u64|
                other != proposal_id && #[trigger] m.proposals.contains_key(other)
                    ==> after.proposals[other] == m.proposals[other]
        },
        after_approve(m, proposal_id, signer).0 is Err ==> after_approve(m, proposal_id, signer).1
            == m,
{
    let after = after_approve(m, proposal_id, signer).1;
    if after_approve(m, proposal_id, signer).0 is Ok {
        assert(after.proposals.dom() =~= m.proposals.dom());
    }
}

/// Removing a signer succeeds exactly when the account is a current signer
/// and one fewer signer still reaches the threshold. The new signer list
/// keeps the threshold, holds no account with that strkey, keeps every other
/// signer, and holds nothing that was not a signer before; the proposals are
/// untouched. A refusal changes nothing.
pub proof fn law_removal_accepted_exactly_when_viable(m: MultiSigModel, signer: String)
    requires
        m.config is Some,
    ensures
        ({
            let c = m.config.unwrap();
            after_remove_signer(m, signer).0 is Ok <==> (holds_id(c.signers, signer@)
                && c.signers.len() - 1 >= c.threshold)
        }),
        after_remove_signer(m, signer).0 is Ok ==> {
            let c = m.config.unwrap();
            let after = after_remove_signer(m, signer).1;
            let kept = after.config.unwrap().signers;
            &&& after.config is Some
            &&& after.config.unwrap().threshold == c.threshold
            &&& after.proposals == m.proposals
            &&& after.proposal_counter == m.proposal_counter
            &&& !holds_id(kept, signer@)
            &&& kept.len() < c.signers.len()
            &&& forall|i: int|
                0 <= i < c.signers.len() && #[trigger] c.signers[i]@ != signer@ ==> kept.contains(
                    c.signers[i],
                )
            &&& forall|i: int| 0 <= i < kept.len() ==> c.signers.contains(#[trigger] kept[i])
        },
        after_remove_signer(m, signer).0 is Err ==> after_remove_signer(m, signer).1 == m,
{
    let c = m.config.unwrap();
    if after_remove_signer(m, signer).0 is Ok {
        let pred = |s: String| s@ != signer@;
        let kept = c.signers.filter(pred);
        broadcast use Seq::lemma_filter_pred, Seq::lemma_filter_contains, Seq::lemma_filter_len;
        assert(!holds_id(kept, signer@)) by {
            if holds_id(kept, signer@) {
                let i = choose|i: int| 0 <= i < kept.len() && #[trigger] kept[i]@ == signer@;
                assert(pred(kept[i]));
            }
        }
        let j = choose|j: int| 0 <= j < c.signers.len() && #[trigger] c.signers[j]@ == signer@;
        lemma_filter_drops(c.signers, pred, j);
        assert forall|i: int| 0 <= i < kept.len() implies c.signers.contains(#[trigger] kept[i]) by {
            lemma_filter_from(c.signers, pred, i);
        }
    }
}

proof fn lemma_filter_drops(s: Seq<String>, pred: spec_fn(String) -> bool, j: int)
    requires
        0 <= j < s.len(),
        !pred(s[j]),
    ensures
        s.filter(pred).len() < s.len(),
    decreases s.len(),
{
    reveal(Seq::filter);
    broadcast use Seq::lemma_filter_len;
    if j < s.len() - 1 {
        assert(s.drop_last()[j] == s[j]);
        lemma_filter_drops(s.drop_last(), pred, j);
    } else {
        s.drop_last().lemma_filter_len(pred);
    }
}

proof fn lemma_filter_from(s: Seq<String>, pred: spec_fn(String) -> bool, i: int)
    requires
        0 <= i < s.filter(pred).len(),
    ensures
        s.contains(s.filter(pred)[i]),
    decreases s.len(),
{
    reveal(Seq::filter);
    broadcast use Seq::lemma_filter_len;
    let rest = s.drop_last().filter(pred);
    rest.lemma_filter_len(pred);
    s.drop_last().lemma_filter_len(pred);
    if i < rest.len() {
        lemma_filter_from(s.drop_last(), pred, i);
        let k = choose|k: int| 0 <= k < s.drop_last().len() && s.drop_last()[k] == rest[i];
        assert(s[k] == s.filter(pred)[i]);
    } else {
        assert(s[s.len() - 1] == s.filter(pred)[i]);
    }
}

} // verus!
