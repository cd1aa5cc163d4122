//! The governance pallet: its configuration, its storage, and the calls that change
//! it. A call either succeeds, changing storage and depositing events, or fails with
//! an error and leaves storage and the event record exactly as they were.
use vstd::prelude::*;
use crate::hashing::{
    bytes_equal, debug_string, debug_text, hash_encoded, hash_of,
};
use crate::scale::{
    enc_appeal, enc_discipline, enc_emergency, enc_integration, enc_referral, enc_transition,
    encode_appeal, encode_discipline, encode_emergency, encode_integration, encode_referral,
    encode_transition, target_encodable,
};
use crate::storage::{ConflictKey, ConflictStore, Table};
use crate::types::{
    conflict_is_critical, rule_permits, AccountId, AppealDecision, AppealDetails, AppealStatus,
    BlockNumber, ConflictRegistration, ConflictType, DisciplineDetails, DisciplineLevel,
    DispatchError, DispatchResult, EmergencyDetails, EmergencyRole, EmergencySeverity,
    EmergencyType, Error, Event, GovernanceHealthMetrics, IntegrationDetails,
    IntegrationMechanism, IsConflictCritical, OnChainRemark, OriginRule, ProfessionalServiceType,
    Rank, RawOrigin, RemarkCategory, ServiceProviderDetails, ServiceReferral, TargetCollective,
    TransitionDetails, TransitionType, H256,
};

verus! {

/// Verifies whether an account holds a verified identity.
pub trait IdentityVerifier<AccountId> {
    spec fn is_verified(&self, who: AccountId) -> bool;

    /// Returns true if the account has a verified identity.
    fn has_identity(&self, who: &AccountId) -> (r: bool)
        ensures
            r == self.is_verified(*who),
    ;
}

/// Checks whether an account holds at least a given rank.
pub trait RankChecker<AccountId> {
    spec fn rank_at_least(&self, who: AccountId, min_rank: u16) -> bool;

    /// Returns true if the account has at least the specified minimum rank.
    fn has_minimum_rank(&self, who: &AccountId, min_rank: u16) -> (r: bool)
        ensures
            r == self.rank_at_least(*who, min_rank),
    ;
}

/// Runtime configuration of the pallet: which origins its privileged calls accept, the
/// bounds of its byte strings and lists, and the minimum ranks its calls demand.
#[derive(Clone, Copy, Debug, PartialEq, Eq)]
pub struct Config {
    pub emergency_origin: OriginRule,
    pub committee_formation_origin: OriginRule,
    pub emergency_resolution_origin: OriginRule,
    pub appeal_submission_origin: OriginRule,
    pub appeal_committee_origin: OriginRule,
    pub appeal_decision_origin: OriginRule,
    pub integration_origin: OriginRule,
    pub max_justification_length: u32,
    pub max_description_length: u32,
    pub max_resolution_length: u32,
    pub max_remark_content_length: u32,
    pub max_appeal_committee_members: u32,
    pub max_emergency_committee_members: u32,
    pub max_source_participants: u32,
    pub max_target_participants: u32,
    pub max_service_types: u32,
    pub max_compensation_details_length: u32,
    pub max_evidence_info_length: u32,
    pub min_rank_for_provider_registry: u16,
    pub min_rank_for_referral: u16,
    pub min_rank_to_activate_emergency_protocol: u16,
    pub min_rank_to_form_emergency_committee: u16,
    pub min_rank_to_submit_appeal: u16,
    pub min_rank_to_form_appeal_committee: u16,
    pub min_rank_to_establish_integration: u16,
    pub min_rank_for_participation_metric_monitoring: u16,
    pub min_rank_for_parameter_adjustment_triggers: u16,
    pub min_rank_for_governance_parameter_registry: u16,
    pub min_rank_for_emergency_classification: u16,
    pub min_rank_for_emergency_response_authority: u16,
    pub min_rank_for_governance_participation_requirements: u16,
    pub min_rank_for_decide_appeal: u16,
    pub min_rank_for_disciplinary_action_enforcement: u16,
    pub min_rank_to_set_conflict_of_interest: u16,
    pub min_rank_for_coordination_mechanisms: u16,
    pub min_rank_for_joint_decision_making: u16,
    pub min_rank_for_knowledge_sharing: u16,
    pub min_rank_for_boundary_management: u16,
    pub min_rank_for_role_fulfillment_contingency: u16,
    pub min_rank_to_set_remark: u16,
    pub max_conflict_of_interest_checks: u32,
}

/// Abstract state of the pallet: its storage maps, the current block number and the
/// events deposited so far.
pub struct PalletState {
    pub config: Config,
    pub block_number: BlockNumber,
    pub emergencies: Map<H256, EmergencyDetails>,
    pub emergency_committees: Map<H256, Vec<(AccountId, EmergencyRole)>>,
    pub appeals: Map<H256, AppealDetails>,
    pub appeal_committees: Map<H256, Vec<AccountId>>,
    pub integrations: Map<H256, IntegrationDetails>,
    pub disciplines: Map<H256, DisciplineDetails>,
    pub transitions: Map<H256, TransitionDetails>,
    pub conflicts: Map<ConflictKey, ConflictRegistration>,
    pub conflict_order: Seq<ConflictKey>,
    pub conflict_nonces: Map<(AccountId, ConflictType), u32>,
    pub remarks: Map<(AccountId, RemarkCategory, u32), OnChainRemark>,
    pub remark_nonces: Map<(AccountId, RemarkCategory), u32>,
    pub service_providers: Map<AccountId, ServiceProviderDetails>,
    pub service_referrals: Map<H256, ServiceReferral>,
    pub governance_health: Option<GovernanceHealthMetrics>,
    pub events: Seq<Event>,
}

/// The governance pallet with its storage.
pub struct Pallet {
    config: Config,
    block_number: BlockNumber,
    emergencies: Table<H256, EmergencyDetails>,
    emergency_committees: Table<H256, Vec<(AccountId, EmergencyRole)>>,
    appeals: Table<H256, AppealDetails>,
    appeal_committees: Table<H256, Vec<AccountId>>,
    integrations: Table<H256, IntegrationDetails>,
    disciplines: Table<H256, DisciplineDetails>,
    transitions: Table<H256, TransitionDetails>,
    conflicts: ConflictStore,
    conflict_nonces: Table<(AccountId, ConflictType), u32>,
    remarks: Table<(AccountId, RemarkCategory, u32), OnChainRemark>,
    remark_nonces: Table<(AccountId, RemarkCategory), u32>,
    service_providers: Table<AccountId, ServiceProviderDetails>,
    service_referrals: Table<H256, ServiceReferral>,
    governance_health: Option<GovernanceHealthMetrics>,
    events: Vec<Event>,
}

/// The account that signed an origin, if any.
pub open spec fn signer(origin: RawOrigin) -> Option<AccountId> {
    match origin {
        RawOrigin::Signed(who) => Some(who),
        _ => None,
    }
}

/// The checks that open every call, in order: the configured origin (if the call has
/// one), a signed origin, a verified identity of the signer, and (if the call demands
/// one) a minimum rank.
pub open spec fn caller_check<I: IdentityVerifier<AccountId>, R: RankChecker<AccountId>>(
    ids: I,
    ranks: R,
    gate: Option<OriginRule>,
    origin: RawOrigin,
    min_rank: Option<u16>,
) -> DispatchResult {
    if gate matches Some(rule) && !rule_permits(rule, origin) {
        Err(DispatchError::BadOrigin)
    } else {
        match origin {
            RawOrigin::Signed(who) => {
                if !ids.is_verified(who) {
                    Err(DispatchError::Module(Error::IdentityNotVerified))
                } else if min_rank matches Some(m) && !ranks.rank_at_least(who, m) {
                    Err(DispatchError::Module(Error::InsufficientRank))
                } else {
                    Ok(())
                }
            },
            _ => Err(DispatchError::BadOrigin),
        }
    }
}

/// Whether a conflict's related matter is exactly the given text.
pub open spec fn relates_to_text(relates_to: Option<Vec<u8>>, text: Seq<u8>) -> bool {
    match relates_to {
        Some(v) => v@ == text,
        None => false,
    }
}

/// The conflict-of-interest check run before a committee or integration is set up.
/// For each member in turn, every registration is visited in storage iteration order
/// and counted; once the count exceeds `max` the check fails. A registration of the
/// member whose related matter is `text` fails the check if its type is critical, and
/// otherwise adds a warning. Returns the warnings, in the order they arose.
pub open spec fn conflict_scan(
    members: Seq<AccountId>,
    keys: Seq<ConflictKey>,
    regs: Map<ConflictKey, ConflictRegistration>,
    text: Seq<u8>,
    max: nat,
    i: nat,
    j: nat,
    count: nat,
    warnings: Seq<(AccountId, ConflictType)>,
) -> Result<Seq<(AccountId, ConflictType)>, Error>
    decreases members.len() - i, keys.len() - j,
{
    if i >= members.len() {
        Ok(warnings)
    } else if j >= keys.len() {
        conflict_scan(members, keys, regs, text, max, i + 1, 0, count, warnings)
    } else if count + 1 > max {
        Err(Error::TooManyConflictOfInterestChecks)
    } else if keys[j as int].0 == members[i as int] && relates_to_text(
        regs[keys[j as int]].relates_to,
        text,
    ) {
        if conflict_is_critical(keys[j as int].1) {
            Err(Error::ConflictOfInterestDetected)
        } else {
            conflict_scan(
                members,
                keys,
                regs,
                text,
                max,
                i,
                j + 1,
                count + 1,
                warnings.push((keys[j as int].0, keys[j as int].1)),
            )
        }
    } else {
        conflict_scan(members, keys, regs, text, max, i, j + 1, count + 1, warnings)
    }
}

/// Outcome of the conflict-of-interest check of `members` against a record whose
/// identifier is `id`, in the given state.
pub open spec fn conflicts_outcome(
    s: PalletState,
    max: u32,
    members: Seq<AccountId>,
    id: H256,
) -> Result<Seq<(AccountId, ConflictType)>, Error> {
    conflict_scan(
        members,
        s.conflict_order,
        s.conflicts,
        debug_text(id),
        max as nat,
        0,
        0,
        0,
        Seq::empty(),
    )
}

/// Whether a committee has a member in the given role.
pub open spec fn has_role(members: Seq<(AccountId, EmergencyRole)>, role: EmergencyRole) -> bool {
    exists|i: int| 0 <= i < members.len() && members[i].1 == role
}

/// Whether two events are the same, comparing lists and byte strings by content.
pub open spec fn same_event(a: Event, b: Event) -> bool {
    match (a, b) {
        (
            Event::EmergencyCommitteeFormed { emergency_id: i1, members: m1 },
            Event::EmergencyCommitteeFormed { emergency_id: i2, members: m2 },
        ) => i1 == i2 && m1@ == m2@,
        (
            Event::AppealSubmitted { appeal_id: i1, appellant: a1, original_decision: d1 },
            Event::AppealSubmitted { appeal_id: i2, appellant: a2, original_decision: d2 },
        ) => i1 == i2 && a1 == a2 && d1@ == d2@,
        (
            Event::AppealCommitteeFormed { appeal_id: i1, members: m1 },
            Event::AppealCommitteeFormed { appeal_id: i2, members: m2 },
        ) => i1 == i2 && m1@ == m2@,
        (
            Event::AppealDecided {
                appeal_id: i1,
                decider: a1,
                decision: d1,
                justification: j1,
                evidence_hash: h1,
            },
            Event::AppealDecided {
                appeal_id: i2,
                decider: a2,
                decision: d2,
                justification: j2,
                evidence_hash: h2,
            },
        ) => i1 == i2 && a1 == a2 && d1 == d2 && j1@ == j2@ && h1 == h2,
        (
            Event::IntegrationEstablished {
                integration_id: i1,
                mechanism: m1,
                target_collective: t1,
                description: d1,
                ambassador_participants: a1,
                target_participants: p1,
                evidence_hash: h1,
                last_updated: l1,
            },
            Event::IntegrationEstablished {
                integration_id: i2,
                mechanism: m2,
                target_collective: t2,
                description: d2,
                ambassador_participants: a2,
                target_participants: p2,
                evidence_hash: h2,
                last_updated: l2,
            },
        ) => i1 == i2 && m1 == m2 && same_target(t1, t2) && d1@ == d2@ && a1@ == a2@ && p1@
            == p2@ && h1 == h2 && l1 == l2,
        (
            Event::DisciplinaryActionRegistered {
                discipline_id: i1,
                subject: s1,
                level: l1,
                reason: r1,
            },
            Event::DisciplinaryActionRegistered {
                discipline_id: i2,
                subject: s2,
                level: l2,
                reason: r2,
            },
        ) => i1 == i2 && s1 == s2 && l1 == l2 && r1@ == r2@,
        (
            Event::ConflictOfInterestSet {
                member: m1,
                conflict_type: c1,
                description: d1,
                relates_to: r1,
                start_block: s1,
                end_block: e1,
                evidence_hash: h1,
                nonce: n1,
                last_updated: l1,
            },
            Event::ConflictOfInterestSet {
                member: m2,
                conflict_type: c2,
                description: d2,
                relates_to: r2,
                start_block: s2,
                end_block: e2,
                evidence_hash: h2,
                nonce: n2,
                last_updated: l2,
            },
        ) => m1 == m2 && c1 == c2 && d1@ == d2@ && same_opt_bytes(r1, r2) && s1 == s2 && e1 == e2
            && h1 == h2 && n1 == n2 && l1 == l2,
        (
            Event::RemarkSet {
                author: a1,
                category: c1,
                content: t1,
                evidence_hash: h1,
                nonce: n1,
                last_updated: l1,
            },
            Event::RemarkSet {
                author: a2,
                category: c2,
                content: t2,
                evidence_hash: h2,
                nonce: n2,
                last_updated: l2,
            },
        ) => a1 == a2 && c1 == c2 && t1@ == t2@ && h1 == h2 && n1 == n2 && l1 == l2,
        (
            Event::GovernanceHealthMetricsSet {
                participation_rate: p1,
                vote_concentration: v1,
                avg_response_time: r1,
                start_block: s1,
                end_block: e1,
                evidence_info: i1,
                evidence_hash: h1,
                last_updated: l1,
            },
            Event::GovernanceHealthMetricsSet {
                participation_rate: p2,
                vote_concentration: v2,
                avg_response_time: r2,
                start_block: s2,
                end_block: e2,
                evidence_info: i2,
                evidence_hash: h2,
                last_updated: l2,
            },
        ) => p1 == p2 && v1 == v2 && r1 == r2 && s1 == s2 && e1 == e2 && i1@ == i2@ && h1 == h2
            && l1 == l2,
        (
            Event::ServiceProviderSet {
                provider_account: a1,
                service_types: t1,
                evidence_info: i1,
                evidence_hash: h1,
                last_updated: l1,
            },
            Event::ServiceProviderSet {
                provider_account: a2,
                service_types: t2,
                evidence_info: i2,
                evidence_hash: h2,
                last_updated: l2,
            },
        ) => a1 == a2 && t1@ == t2@ && i1@ == i2@ && h1 == h2 && l1 == l2,
        (
            Event::ServiceReferralSet {
                referral_id: i1,
                referrer: r1,
                provider_account: p1,
                service_types: t1,
                description: d1,
                compensation_disclosed: c1,
                compensation_details: cd1,
                evidence_hash: h1,
                last_updated: l1,
            },
            Event::ServiceReferralSet {
                referral_id: i2,
                referrer: r2,
                provider_account: p2,
                service_types: t2,
                description: d2,
                compensation_disclosed: c2,
                compensation_details: cd2,
                evidence_hash: h2,
                last_updated: l2,
            },
        ) => i1 == i2 && r1 == r2 && p1 == p2 && t1@ == t2@ && d1@ == d2@ && c1 == c2
            && same_opt_bytes(cd1, cd2) && h1 == h2 && l1 == l2,
        _ => a == b,
    }
}

/// Whether two target collectives are the same, comparing custom names by content.
pub open spec fn same_target(a: TargetCollective, b: TargetCollective) -> bool {
    match (a, b) {
        (TargetCollective::Other(x), TargetCollective::Other(y)) => x@ == y@,
        _ => a == b,
    }
}

/// Whether two optional byte strings are the same, comparing by content.
pub open spec fn same_opt_bytes(a: Option<Vec<u8>>, b: Option<Vec<u8>>) -> bool {
    match (a, b) {
        (Some(x), Some(y)) => x@ == y@,
        (None, None) => true,
        _ => false,
    }
}

/// The event record `after` is `before`, then `middle`, then an event that is the same
/// as `last`.
pub open spec fn events_appended(
    before: Seq<Event>,
    middle: Seq<Event>,
    last: Event,
    after: Seq<Event>,
) -> bool {
    &&& after.len() == before.len() + middle.len() + 1
    &&& after.drop_last() == before + middle
    &&& same_event(after.last(), last)
}

/// Copies a list.
pub fn copy_vec<T: Copy>(v: &Vec<T>) -> (r: Vec<T>)
    ensures
        r@ == v@,
{
    let mut r: Vec<T> = Vec::new();
    let mut i: usize = 0;
    while i < v.len()
        invariant
            i <= v@.len(),
            r@ == v@.take(i as int),
        decreases v@.len() - i,
    {
        proof {
            assert(v@.take(i + 1) =~= v@.take(i as int).push(v@[i as int]));
        }
        r.push(v[i]);
        i = i + 1;
    }
    assert(v@.take(v@.len() as int) =~= v@);
    r
}

/// Copies an optional byte string.
pub fn copy_opt_bytes(o: &Option<Vec<u8>>) -> (r: Option<Vec<u8>>)
    ensures
        same_opt_bytes(r, *o),
{
    match o {
        Some(v) => Some(copy_vec(v)),
        None => None,
    }
}

/// Copies a target collective.
pub fn copy_target(t: &TargetCollective) -> (r: TargetCollective)
    ensures
        same_target(r, *t),
{
    match t {
        TargetCollective::TechnicalFellowship => TargetCollective::TechnicalFellowship,
        TargetCollective::SecretaryCollective => TargetCollective::SecretaryCollective,
        TargetCollective::AllianceCollective => TargetCollective::AllianceCollective,
        TargetCollective::Other(name) => TargetCollective::Other(copy_vec(name)),
    }
}

impl View for Pallet {
    type V = PalletState;

    closed spec fn view(&self) -> PalletState {
        PalletState {
            config: self.config,
            block_number: self.block_number,
            emergencies: self.emergencies@,
            emergency_committees: self.emergency_committees@,
            appeals: self.appeals@,
            appeal_committees: self.appeal_committees@,
            integrations: self.integrations@,
            disciplines: self.disciplines@,
            transitions: self.transitions@,
            conflicts: self.conflicts@,
            conflict_order: self.conflicts.keys(),
            conflict_nonces: self.conflict_nonces@,
            remarks: self.remarks@,
            remark_nonces: self.remark_nonces@,
            service_providers: self.service_providers@,
            service_referrals: self.service_referrals@,
            governance_health: self.governance_health,
            events: self.events@,
        }
    }
}

impl Pallet {
    /// Every storage map is well formed.
    pub closed spec fn wf(&self) -> bool {
        &&& self.emergencies.wf()
        &&& self.emergency_committees.wf()
        &&& self.appeals.wf()
        &&& self.appeal_committees.wf()
        &&& self.integrations.wf()
        &&& self.disciplines.wf()
        &&& self.transitions.wf()
        &&& self.conflicts.wf()
        &&& self.conflict_nonces.wf()
        &&& self.remarks.wf()
        &&& self.remark_nonces.wf()
        &&& self.service_providers.wf()
        &&& self.service_referrals.wf()
    }

    /// The conflict-of-interest map lists each stored key once, in storage iteration
    /// order.
    pub proof fn lemma_conflict_order(&self)
        requires
            self.wf(),
        ensures
            forall|k: ConflictKey|
                self@.conflicts.contains_key(k) <==> self@.conflict_order.contains(k),
            forall|i: int, j: int|
                0 <= i < j < self@.conflict_order.len() ==> self@.conflict_order[i]
                    != self@.conflict_order[j],
            forall|i: int, j: int|
                0 <= i < j < self@.conflict_order.len() ==> crate::storage::position_le(
                    crate::storage::storage_position(#[trigger] self@.conflict_order[i]),
                    crate::storage::storage_position(#[trigger] self@.conflict_order[j]),
                ),
    {
        self.conflicts.lemma_keys();
    }

    /// A pallet with empty storage at the given block.
    pub fn new(config: Config, block_number: BlockNumber) -> (r: Pallet)
        ensures
            r.wf(),
            r@ == (PalletState {
                config,
                block_number,
                emergencies: Map::empty(),
                emergency_committees: Map::empty(),
                appeals: Map::empty(),
                appeal_committees: Map::empty(),
                integrations: Map::empty(),
                disciplines: Map::empty(),
                transitions: Map::empty(),
                conflicts: Map::empty(),
                conflict_order: Seq::empty(),
                conflict_nonces: Map::empty(),
                remarks: Map::empty(),
                remark_nonces: Map::empty(),
                service_providers: Map::empty(),
                service_referrals: Map::empty(),
                governance_health: None,
                events: Seq::empty(),
            }),
    {
        let r = Pallet {
            config,
            block_number,
            emergencies: Table::new(),
            emergency_committees: Table::new(),
            appeals: Table::new(),
            appeal_committees: Table::new(),
            integrations: Table::new(),
            disciplines: Table::new(),
            transitions: Table::new(),
            conflicts: ConflictStore::new(),
            conflict_nonces: Table::new(),
            remarks: Table::new(),
            remark_nonces: Table::new(),
            service_providers: Table::new(),
            service_referrals: Table::new(),
            governance_health: None,
            events: Vec::new(),
        };
        assert(r@.events =~= Seq::<Event>::empty());
        r
    }

    /// Runs the opening checks of a call and returns the signer.
    fn check_caller<I: IdentityVerifier<AccountId>, R: RankChecker<AccountId>>(
        ids: &I,
        ranks: &R,
        gate: Option<OriginRule>,
        origin: &RawOrigin,
        min_rank: Option<u16>,
    ) -> (r: Result<AccountId, DispatchError>)
        ensures
            match r {
                Ok(who) => caller_check(*ids, *ranks, gate, *origin, min_rank) == Ok::<
                    (),
                    DispatchError,
                >(()) && *origin == RawOrigin::Signed(who),
                Err(e) => caller_check(*ids, *ranks, gate, *origin, min_rank) == Err::<
                    (),
                    DispatchError,
                >(e),
            },
    {
        if let Some(rule) = gate {
            if !rule.permits(origin) {
                return Err(DispatchError::BadOrigin);
            }
        }
        match origin {
            RawOrigin::Signed(who) => {
                if !ids.has_identity(who) {
                    return Err(DispatchError::Module(Error::IdentityNotVerified));
                }
                if let Some(m) = min_rank {
                    if !ranks.has_minimum_rank(who, m) {
                        return Err(DispatchError::Module(Error::InsufficientRank));
                    }
                }
                Ok(*who)
            },
            _ => Err(DispatchError::BadOrigin),
        }
    }

    /// Runs the conflict-of-interest check of `members` against the record `id`.
    fn scan_conflicts(&self, members: &Vec<AccountId>, id: &H256) -> (r: Result<
        Vec<(AccountId, ConflictType)>,
        Error,
    >)
        requires
            self.wf(),
        ensures
            match r {
                Ok(w) => conflicts_outcome(
                    self@,
                    self@.config.max_conflict_of_interest_checks,
                    members@,
                    *id,
                ) == Ok::<Seq<(AccountId, ConflictType)>, Error>(w@),
                Err(e) => conflicts_outcome(
                    self@,
                    self@.config.max_conflict_of_interest_checks,
                    members@,
                    *id,
                ) == Err::<Seq<(AccountId, ConflictType)>, Error>(e),
            },
    {
        let text = debug_string(id);
        let max: u64 = self.config.max_conflict_of_interest_checks as u64;
        let n = self.conflicts.len();
        let ghost keys = self@.conflict_order;
        let ghost regs = self@.conflicts;
        let ghost total = conflicts_outcome(
            self@,
            self.config.max_conflict_of_interest_checks,
            members@,
            *id,
        );
        let mut warnings: Vec<(AccountId, ConflictType)> = Vec::new();
        let mut count: u64 = 0;
        let mut i: usize = 0;
        while i < members.len()
            invariant
                self.wf(),
                keys == self@.conflict_order,
                regs == self@.conflicts,
                n == keys.len(),
                text@ == debug_text(*id),
                max == self.config.max_conflict_of_interest_checks as u64,
                total == conflicts_outcome(
                    self@,
                    self@.config.max_conflict_of_interest_checks,
                    members@,
                    *id,
                ),
                i <= members@.len(),
                count <= max,
                conflict_scan(
                    members@,
                    keys,
                    regs,
                    text@,
                    max as nat,
                    i as nat,
                    0,
                    count as nat,
                    warnings@,
                ) == total,
            decreases members@.len() - i,
        {
            let member = members[i];
            let mut j: usize = 0;
            while j < n
                invariant
                    self.wf(),
                    keys == self@.conflict_order,
                    regs == self@.conflicts,
                    n == keys.len(),
                    text@ == debug_text(*id),
                    max == self.config.max_conflict_of_interest_checks as u64,
                    total == conflicts_outcome(
                        self@,
                        self@.config.max_conflict_of_interest_checks,
                        members@,
                        *id,
                    ),
                    i < members@.len(),
                    member == members@[i as int],
                    j <= n,
                    count <= max,
                    conflict_scan(
                        members@,
                        keys,
                        regs,
                        text@,
                        max as nat,
                        i as nat,
                        j as nat,
                        count as nat,
                        warnings@,
                    ) == total,
                decreases n - j,
            {
                if count + 1 > max {
                    assert(conflict_scan(
                        members@,
                        keys,
                        regs,
                        text@,
                        max as nat,
                        i as nat,
                        j as nat,
                        count as nat,
                        warnings@,
                    ) == Err::<Seq<(AccountId, ConflictType)>, Error>(
                        Error::TooManyConflictOfInterestChecks,
                    ));
                    return Err(Error::TooManyConflictOfInterestChecks);
                }
                let key = self.conflicts.key_at(j);
                let reg = self.conflicts.registration_at(j);
                let related = match &reg.relates_to {
                    Some(v) => bytes_equal(v, &text),
                    None => false,
                };
                if key.0 == member && related {
                    if key.1.is_critical() {
                        return Err(Error::ConflictOfInterestDetected);
                    }
                    warnings.push((key.0, key.1));
                }
                count = count + 1;
                j = j + 1;
            }
            i = i + 1;
        }
        Ok(warnings)
    }
}


/// A call's result, forgetting what a successful check returned.
pub open spec fn unit_result<T>(o: Result<T, DispatchError>) -> DispatchResult {
    match o {
        Ok(_) => Ok(()),
        Err(e) => Err(e),
    }
}

/// Whether `who` sits on an emergency committee, in any role.
pub open spec fn in_emergency_committee(members: Seq<(AccountId, EmergencyRole)>, who: AccountId) -> bool {
    exists|i: int| 0 <= i < members.len() && members[i].0 == who
}

/// The warning events for non-critical conflicts found while forming an emergency
/// committee.
pub open spec fn emergency_warnings(id: H256, w: Seq<(AccountId, ConflictType)>) -> Seq<Event> {
    w.map_values(
        |p: (AccountId, ConflictType)|
            Event::NonCriticalEmergencyConflictOfInterestWarning {
                emergency_id: id,
                member: p.0,
                conflict_type: p.1,
            },
    )
}

/// The warning events for non-critical conflicts found while forming an appeal
/// committee.
pub open spec fn appeal_warnings(id: H256, w: Seq<(AccountId, ConflictType)>) -> Seq<Event> {
    w.map_values(
        |p: (AccountId, ConflictType)|
            Event::NonCriticalAppealConflictWarning { appeal_id: id, member: p.0, conflict_type: p.1 },
    )
}

/// The warning events for non-critical conflicts found while establishing an
/// integration.
pub open spec fn integration_warnings(id: H256, w: Seq<(AccountId, ConflictType)>) -> Seq<Event> {
    w.map_values(
        |p: (AccountId, ConflictType)|
            Event::NonCriticalIntegrationConflictWarning {
                integration_id: id,
                member: p.0,
                conflict_type: p.1,
            },
    )
}

/// Outcome of forming an emergency committee: the warnings raised, or the error.
pub open spec fn emergency_committee_outcome<
    I: IdentityVerifier<AccountId>,
    R: RankChecker<AccountId>,
>(
    s: PalletState,
    ids: I,
    ranks: R,
    origin: RawOrigin,
    id: H256,
    members: Seq<(AccountId, EmergencyRole)>,
) -> Result<Seq<(AccountId, ConflictType)>, DispatchError> {
    match caller_check(
        ids,
        ranks,
        Some(s.config.committee_formation_origin),
        origin,
        Some(s.config.min_rank_to_form_emergency_committee),
    ) {
        Err(e) => Err(e),
        Ok(_) => if !s.emergencies.contains_key(id) {
            Err(DispatchError::Module(Error::EmergencyNotFound))
        } else if s.emergency_committees.contains_key(id) {
            Err(DispatchError::Module(Error::CommitteeAlreadyFormed))
        } else {
            match conflicts_outcome(
                s,
                s.config.max_conflict_of_interest_checks,
                members.map_values(|p: (AccountId, EmergencyRole)| p.0),
                id,
            ) {
                Err(e) => Err(DispatchError::Module(e)),
                Ok(w) => if has_role(members, EmergencyRole::TechnicalLead) && has_role(
                    members,
                    EmergencyRole::GovernanceRepresentative,
                ) && has_role(members, EmergencyRole::IndependentExpert) {
                    Ok(w)
                } else {
                    Err(DispatchError::Module(Error::MissingRequiredRole))
                },
            }
        },
    }
}

/// Outcome of resolving an emergency.
pub open spec fn resolve_emergency_outcome<
    I: IdentityVerifier<AccountId>,
    R: RankChecker<AccountId>,
>(s: PalletState, ids: I, ranks: R, origin: RawOrigin, id: H256) -> DispatchResult {
    match caller_check(
        ids,
        ranks,
        None,
        origin,
        Some(s.config.min_rank_for_emergency_response_authority),
    ) {
        Err(e) => Err(e),
        Ok(_) => if !s.emergencies.contains_key(id) {
            Err(DispatchError::Module(Error::EmergencyNotFound))
        } else if s.emergencies[id].resolved_at is Some {
            Err(DispatchError::Module(Error::EmergencyAlreadyResolved))
        } else if !rule_permits(s.config.emergency_resolution_origin, origin) {
            Err(DispatchError::Module(Error::NotAuthorizedOrigin))
        } else if !(s.emergency_committees.contains_key(id) && in_emergency_committee(
            s.emergency_committees[id]@,
            origin->Signed_0,
        )) {
            Err(DispatchError::Module(Error::NotCommitteeMember))
        } else {
            Ok(())
        },
    }
}

/// The state after the emergency `id` is resolved in state `s`.
pub open spec fn emergency_resolved(
    s: PalletState,
    id: H256,
    abuse_detected: bool,
    resolution_summary: Vec<u8>,
    evidence_hash: Option<H256>,
) -> PalletState {
    PalletState {
        emergencies: s.emergencies.insert(
            id,
            EmergencyDetails {
                resolved_at: Some(s.block_number),
                abuse_detected,
                evidence_hash,
                ..s.emergencies[id]
            },
        ),
        events: s.events.push(
            Event::EmergencyResolved { emergency_id: id, abuse_detected, resolution_summary },
        ),
        ..s
    }
}

/// The state after the committee `members` of the emergency `id` is formed in state
/// `s`, with the event record `events`.
pub open spec fn emergency_committee_formed(
    s: PalletState,
    id: H256,
    members: Vec<(AccountId, EmergencyRole)>,
    events: Seq<Event>,
) -> PalletState {
    PalletState { emergency_committees: s.emergency_committees.insert(id, members), events, ..s }
}

impl Pallet {
    /// The pallet's configuration.
    pub fn config(&self) -> (r: Config)
        ensures
            r == self@.config,
    {
        self.config
    }

    /// The current block number.
    pub fn block_number(&self) -> (r: BlockNumber)
        ensures
            r == self@.block_number,
    {
        self.block_number
    }

    /// Moves to another block.
    pub fn set_block_number(&mut self, n: BlockNumber)
        requires
            old(self).wf(),
        ensures
            final(self).wf(),
            final(self)@ == (PalletState { block_number: n, ..old(self)@ }),
    {
        self.block_number = n;
    }

    /// The events deposited so far.
    pub fn events(&self) -> (r: &Vec<Event>)
        ensures
            r@ == self@.events,
    {
        &self.events
    }

    /// Clears the event record.
    pub fn reset_events(&mut self)
        requires
            old(self).wf(),
        ensures
            final(self).wf(),
            final(self)@ == (PalletState { events: Seq::empty(), ..old(self)@ }),
    {
        self.events = Vec::new();
    }

    /// Emergencies that have been declared.
    pub fn emergencies(&self, id: &H256) -> (r: Option<&EmergencyDetails>)
        requires
            self.wf(),
        ensures
            r == (if self@.emergencies.contains_key(*id) {
                Some(&self@.emergencies[*id])
            } else {
                None
            }),
    {
        self.emergencies.get(id)
    }

    /// Emergency committee of each emergency.
    pub fn emergency_committees(&self, id: &H256) -> (r: Option<&Vec<(AccountId, EmergencyRole)>>)
        requires
            self.wf(),
        ensures
            r == (if self@.emergency_committees.contains_key(*id) {
                Some(&self@.emergency_committees[*id])
            } else {
                None
            }),
    {
        self.emergency_committees.get(id)
    }

    /// Records a declared emergency under its identifier.
    pub fn record_emergency(&mut self, emergency_id: H256, details: EmergencyDetails)
        requires
            old(self).wf(),
        ensures
            final(self).wf(),
            final(self)@ == (PalletState {
                emergencies: old(self)@.emergencies.insert(emergency_id, details),
                events: old(self)@.events.push(
                    Event::EmergencyActivated {
                        emergency_id,
                        emergency_type: details.emergency_type,
                        severity: details.severity,
                        initiator: details.initiator,
                    },
                ),
                ..old(self)@
            }),
    {
        let emergency_type = details.emergency_type;
        let severity = details.severity;
        let initiator = details.initiator;
        self.emergencies.insert(emergency_id, details);
        self.events.push(Event::EmergencyActivated { emergency_id, emergency_type, severity, initiator });
    }

    /// Activates the emergency protocol: declares an emergency, identified by the hash of
    /// its details, and emits `EmergencyActivated`.
    pub fn activate_emergency_protocol<I: IdentityVerifier<AccountId>, R: RankChecker<AccountId>>(
        &mut self,
        ids: &I,
        ranks: &R,
        origin: RawOrigin,
        emergency_type: EmergencyType,
        severity: EmergencySeverity,
        justification: Vec<u8>,
        evidence_hash: Option<H256>,
    ) -> (r: DispatchResult)
        requires
            old(self).wf(),
            justification@.len() <= old(self)@.config.max_justification_length,
        ensures
            final(self).wf(),
            r == caller_check(
                *ids,
                *ranks,
                Some(old(self)@.config.emergency_origin),
                origin,
                Some(old(self)@.config.min_rank_to_activate_emergency_protocol),
            ),
            r is Err ==> final(self)@ == old(self)@,
            r is Ok ==> ({
                let details = EmergencyDetails {
                    emergency_type,
                    severity,
                    initiator: origin->Signed_0,
                    justification,
                    declared_at: old(self)@.block_number,
                    resolved_at: None,
                    evidence_hash,
                    abuse_detected: false,
                };
                let id = hash_of(enc_emergency(details));
                final(self)@ == (PalletState {
                    emergencies: old(self)@.emergencies.insert(id, details),
                    events: old(self)@.events.push(
                        Event::EmergencyActivated {
                            emergency_id: id,
                            emergency_type,
                            severity,
                            initiator: origin->Signed_0,
                        },
                    ),
                    ..old(self)@
                })
            }),
    {
        let who = match Self::check_caller(
            ids,
            ranks,
            Some(self.config.emergency_origin),
            &origin,
            Some(self.config.min_rank_to_activate_emergency_protocol),
        ) {
            Ok(who) => who,
            Err(e) => return Err(e),
        };
        let details = EmergencyDetails {
            emergency_type,
            severity,
            initiator: who,
            justification,
            declared_at: self.block_number,
            resolved_at: None,
            evidence_hash,
            abuse_detected: false,
        };
        let encoded = encode_emergency(&details);
        let id = hash_encoded(&encoded);
        self.record_emergency(id, details);
        Ok(())
    }

    /// Deposits one warning event per non-critical conflict.
    fn deposit_emergency_warnings(&mut self, id: H256, w: &Vec<(AccountId, ConflictType)>)
        requires
            old(self).wf(),
        ensures
            final(self).wf(),
            final(self)@ == (PalletState {
                events: old(self)@.events + emergency_warnings(id, w@),
                ..old(self)@
            }),
    {
        let ghost start = self@.events;
        let mut i: usize = 0;
        assert(start + emergency_warnings(id, w@.take(0)) =~= start);
        while i < w.len()
            invariant
                self.wf(),
                i <= w@.len(),
                self@ == (PalletState {
                    events: start + emergency_warnings(id, w@.take(i as int)),
                    ..old(self)@
                }),
            decreases w@.len() - i,
        {
            let (member, conflict_type) = w[i];
            self.events.push(
                Event::NonCriticalEmergencyConflictOfInterestWarning {
                    emergency_id: id,
                    member,
                    conflict_type,
                },
            );
            proof {
                assert(w@.take(i + 1) =~= w@.take(i as int).push(w@[i as int]));
                assert(self@.events =~= start + emergency_warnings(id, w@.take(i + 1)));
            }
            i = i + 1;
        }
        assert(w@.take(w@.len() as int) =~= w@);
    }

    /// Forms the emergency committee of an emergency, after checking its members for
    /// conflicts of interest related to the emergency and checking that it has a
    /// technical lead, a governance representative and an independent expert. Emits a
    /// warning per non-critical conflict, then `EmergencyCommitteeFormed`.
    pub fn form_emergency_committee<I: IdentityVerifier<AccountId>, R: RankChecker<AccountId>>(
        &mut self,
        ids: &I,
        ranks: &R,
        origin: RawOrigin,
        emergency_id: H256,
        members: Vec<(AccountId, EmergencyRole)>,
    ) -> (r: DispatchResult)
        requires
            old(self).wf(),
            members@.len() <= old(self)@.config.max_emergency_committee_members,
        ensures
            final(self).wf(),
            r == unit_result(
                emergency_committee_outcome(old(self)@, *ids, *ranks, origin, emergency_id, members@),
            ),
            r is Err ==> final(self)@ == old(self)@,
            emergency_committee_outcome(
                old(self)@,
                *ids,
                *ranks,
                origin,
                emergency_id,
                members@,
            ) matches Ok(w) ==> {
                &&& final(self)@ == emergency_committee_formed(
                    old(self)@,
                    emergency_id,
                    members,
                    final(self)@.events,
                )
                &&& events_appended(
                    old(self)@.events,
                    emergency_warnings(emergency_id, w),
                    Event::EmergencyCommitteeFormed { emergency_id, members },
                    final(self)@.events,
                )
            },
    {
        if let Err(e) = Self::check_caller(
            ids,
            ranks,
            Some(self.config.committee_formation_origin),
            &origin,
            Some(self.config.min_rank_to_form_emergency_committee),
        ) {
            return Err(e);
        }
        if !self.emergencies.contains_key(&emergency_id) {
            return Err(DispatchError::Module(Error::EmergencyNotFound));
        }
        if self.emergency_committees.contains_key(&emergency_id) {
            return Err(DispatchError::Module(Error::CommitteeAlreadyFormed));
        }
        let mut accounts: Vec<AccountId> = Vec::new();
        let mut has_technical_lead = false;
        let mut has_governance_rep = false;
        let mut has_independent_expert = false;
        let mut i: usize = 0;
        while i < members.len()
            invariant
                i <= members@.len(),
                accounts@ == members@.take(i as int).map_values(
                    |p: (AccountId, EmergencyRole)| p.0,
                ),
                has_technical_lead == has_role(members@.take(i as int), EmergencyRole::TechnicalLead),
                has_governance_rep == has_role(
                    members@.take(i as int),
                    EmergencyRole::GovernanceRepresentative,
                ),
                has_independent_expert == has_role(
                    members@.take(i as int),
                    EmergencyRole::IndependentExpert,
                ),
            decreases members@.len() - i,
        {
            let (member, role) = members[i];
            accounts.push(member);
            match role {
                EmergencyRole::TechnicalLead => has_technical_lead = true,
                EmergencyRole::GovernanceRepresentative => has_governance_rep = true,
                EmergencyRole::IndependentExpert => has_independent_expert = true,
            }
            proof {
                let t = members@.take(i + 1);
                assert(t =~= members@.take(i as int).push(members@[i as int]));
                assert(accounts@ =~= t.map_values(|p: (AccountId, EmergencyRole)| p.0));
                assert forall|role2: EmergencyRole| #[trigger]
                    has_role(t, role2) == (has_role(members@.take(i as int), role2)
                        || members@[i as int].1 == role2) by {
                    if has_role(t, role2) {
                        let k = choose|k: int| 0 <= k < t.len() && t[k].1 == role2;
                        if k < i {
                            assert(members@.take(i as int)[k] == t[k]);
                        }
                    }
                    if has_role(members@.take(i as int), role2) {
                        let k = choose|k: int|
                            0 <= k < members@.take(i as int).len() && members@.take(
                                i as int,
                            )[k].1 == role2;
                        assert(t[k] == members@.take(i as int)[k]);
                    }
                    if members@[i as int].1 == role2 {
                        assert(t[i as int].1 == role2);
                    }
                }
            }
            i = i + 1;
        }
        proof {
            assert(members@.take(members@.len() as int) =~= members@);
        }
        let warnings = match self.scan_conflicts(&accounts, &emergency_id) {
            Ok(w) => w,
            Err(e) => return Err(DispatchError::Module(e)),
        };
        if !(has_technical_lead && has_governance_rep && has_independent_expert) {
            return Err(DispatchError::Module(Error::MissingRequiredRole));
        }
        let ghost before = self@;
        let copy = copy_vec(&members);
        self.emergency_committees.insert(emergency_id, members);
        self.deposit_emergency_warnings(emergency_id, &warnings);
        self.events.push(Event::EmergencyCommitteeFormed { emergency_id, members: copy });
        proof {
            assert(self@.events.drop_last() =~= before.events + emergency_warnings(
                emergency_id,
                warnings@,
            ));
        }
        Ok(())
    }

    /// Resolves an emergency: records the resolution block, whether abuse was detected
    /// and the new evidence hash, then emits `EmergencyResolved`. Only a member of the
    /// emergency's committee whose origin the resolution origin accepts may resolve it.
    pub fn resolve_emergency<I: IdentityVerifier<AccountId>, R: RankChecker<AccountId>>(
        &mut self,
        ids: &I,
        ranks: &R,
        origin: RawOrigin,
        emergency_id: H256,
        abuse_detected: bool,
        resolution_summary: Vec<u8>,
        evidence_hash: Option<H256>,
    ) -> (r: DispatchResult)
        requires
            old(self).wf(),
            resolution_summary@.len() <= old(self)@.config.max_resolution_length,
        ensures
            final(self).wf(),
            r == resolve_emergency_outcome(old(self)@, *ids, *ranks, origin, emergency_id),
            r is Err ==> final(self)@ == old(self)@,
            r is Ok ==> final(self)@ == emergency_resolved(
                old(self)@,
                emergency_id,
                abuse_detected,
                resolution_summary,
                evidence_hash,
            ),
    {
        let who = match Self::check_caller(
            ids,
            ranks,
            None,
            &origin,
            Some(self.config.min_rank_for_emergency_response_authority),
        ) {
            Ok(who) => who,
            Err(e) => return Err(e),
        };
        match self.emergencies.get(&emergency_id) {
            None => return Err(DispatchError::Module(Error::EmergencyNotFound)),
            Some(d) => {
                if d.resolved_at.is_some() {
                    return Err(DispatchError::Module(Error::EmergencyAlreadyResolved));
                }
            },
        }
        if !self.config.emergency_resolution_origin.permits(&origin) {
            return Err(DispatchError::Module(Error::NotAuthorizedOrigin));
        }
        let is_member = match self.emergency_committees.get(&emergency_id) {
            None => false,
            Some(committee) => {
                let mut found = false;
                let mut i: usize = 0;
                while i < committee.len()
                    invariant
                        i <= committee@.len(),
                        found == in_emergency_committee(committee@.take(i as int), who),
                    decreases committee@.len() - i,
                {
                    proof {
                        let t = committee@.take(i + 1);
                        assert(t =~= committee@.take(i as int).push(committee@[i as int]));
                        if in_emergency_committee(t, who) {
                            let k = choose|k: int| 0 <= k < t.len() && t[k].0 == who;
                            if k < i {
                                assert(committee@.take(i as int)[k] == t[k]);
                            }
                        }
                        if in_emergency_committee(committee@.take(i as int), who) {
                            let k = choose|k: int|
                                0 <= k < committee@.take(i as int).len() && committee@.take(
                                    i as int,
                                )[k].0 == who;
                            assert(t[k] == committee@.take(i as int)[k]);
                        }
                        if committee@[i as int].0 == who {
                            assert(t[i as int].0 == who);
                        }
                    }
                    if committee[i].0 == who {
                        found = true;
                    }
                    i = i + 1;
                }
                proof {
                    assert(committee@.take(committee@.len() as int) =~= committee@);
                }
                found
            },
        };
        if !is_member {
            return Err(DispatchError::Module(Error::NotCommitteeMember));
        }
        let mut details = match self.emergencies.remove(&emergency_id) {
            Some(d) => d,
            None => return Err(DispatchError::Module(Error::EmergencyNotFound)),
        };
        details.resolved_at = Some(self.block_number);
        details.abuse_detected = abuse_detected;
        details.evidence_hash = evidence_hash;
        self.emergencies.insert(emergency_id, details);
        self.events.push(Event::EmergencyResolved { emergency_id, abuse_detected, resolution_summary });
        proof {
            assert(self@.emergencies =~= old(self)@.emergencies.insert(
                emergency_id,
                EmergencyDetails {
                    resolved_at: Some(old(self)@.block_number),
                    abuse_detected,
                    evidence_hash,
                    ..old(self)@.emergencies[emergency_id]
                },
            ));
        }
        Ok(())
    }
}


/// Outcome of resolving a disciplinary action.
pub open spec fn resolve_discipline_outcome<
    I: IdentityVerifier<AccountId>,
    R: RankChecker<AccountId>,
>(s: PalletState, ids: I, ranks: R, origin: RawOrigin, id: H256) -> DispatchResult {
    match caller_check(
        ids,
        ranks,
        Some(s.config.emergency_origin),
        origin,
        Some(s.config.min_rank_for_disciplinary_action_enforcement),
    ) {
        Err(e) => Err(e),
        Ok(_) => if !s.disciplines.contains_key(id) {
            Err(DispatchError::Module(Error::DisciplinaryActionNotFound))
        } else if !s.disciplines[id].active {
            Err(DispatchError::Module(Error::DisciplinaryActionAlreadyResolved))
        } else {
            Ok(())
        },
    }
}

/// Outcome of forming an appeal committee: the warnings raised, or the error.
pub open spec fn appeal_committee_outcome<
    I: IdentityVerifier<AccountId>,
    R: RankChecker<AccountId>,
>(
    s: PalletState,
    ids: I,
    ranks: R,
    origin: RawOrigin,
    id: H256,
    members: Seq<AccountId>,
) -> Result<Seq<(AccountId, ConflictType)>, DispatchError> {
    match caller_check(
        ids,
        ranks,
        Some(s.config.appeal_committee_origin),
        origin,
        Some(s.config.min_rank_to_form_appeal_committee),
    ) {
        Err(e) => Err(e),
        Ok(_) => if !s.appeals.contains_key(id) {
            Err(DispatchError::Module(Error::AppealNotFound))
        } else if s.appeal_committees.contains_key(id) {
            Err(DispatchError::Module(Error::AppealCommitteeAlreadyFormed))
        } else {
            match conflicts_outcome(s, s.config.max_conflict_of_interest_checks, members, id) {
                Err(e) => Err(DispatchError::Module(e)),
                Ok(w) => Ok(w),
            }
        },
    }
}

/// Outcome of deciding an appeal.
pub open spec fn decide_appeal_outcome<I: IdentityVerifier<AccountId>, R: RankChecker<AccountId>>(
    s: PalletState,
    ids: I,
    ranks: R,
    origin: RawOrigin,
    id: H256,
) -> DispatchResult {
    match caller_check(ids, ranks, None, origin, Some(s.config.min_rank_for_decide_appeal)) {
        Err(e) => Err(e),
        Ok(_) => if !s.appeal_committees.contains_key(id) {
            Err(DispatchError::Module(Error::AppealCommitteeNotFormed))
        } else if !s.appeal_committees[id]@.contains(origin->Signed_0) {
            Err(DispatchError::Module(Error::NotCommitteeMember))
        } else if !s.appeals.contains_key(id) {
            Err(DispatchError::Module(Error::AppealNotFound))
        } else if s.appeals[id].decision is Some {
            Err(DispatchError::Module(Error::AppealAlreadyDecided))
        } else {
            Ok(())
        },
    }
}

/// The state after the disciplinary action `id` is resolved in state `s`.
pub open spec fn discipline_resolved(
    s: PalletState,
    id: H256,
    resolution_summary: Vec<u8>,
    evidence_hash: Option<H256>,
) -> PalletState {
    PalletState {
        disciplines: s.disciplines.insert(id, DisciplineDetails { active: false, ..s.disciplines[id] }),
        events: s.events.push(
            Event::DisciplinaryActionResolved {
                discipline_id: id,
                subject: s.disciplines[id].subject,
                resolution_summary,
                evidence_hash,
            },
        ),
        ..s
    }
}

/// The state after the committee `members` of the appeal `id` is formed in state `s`,
/// with the event record `events`: the appeal is then under review.
pub open spec fn appeal_committee_formed(
    s: PalletState,
    id: H256,
    members: Vec<AccountId>,
    events: Seq<Event>,
) -> PalletState {
    PalletState {
        appeal_committees: s.appeal_committees.insert(id, members),
        appeals: s.appeals.insert(id, AppealDetails { status: AppealStatus::UnderReview, ..s.appeals[id] }),
        events,
        ..s
    }
}

/// The state after the appeal `id` is decided in state `s`, with the event record
/// `events`.
pub open spec fn appeal_decided(
    s: PalletState,
    id: H256,
    decision: AppealDecision,
    justification: Vec<u8>,
    evidence_hash: Option<H256>,
    events: Seq<Event>,
) -> PalletState {
    PalletState {
        appeals: s.appeals.insert(
            id,
            AppealDetails {
                status: AppealStatus::Decided,
                decision: Some(decision),
                decided_at: Some(s.block_number),
                justification,
                evidence_hash,
                ..s.appeals[id]
            },
        ),
        events,
        ..s
    }
}

impl Pallet {
    /// Appeals that have been submitted.
    pub fn appeals(&self, id: &H256) -> (r: Option<&AppealDetails>)
        requires
            self.wf(),
        ensures
            r == (if self@.appeals.contains_key(*id) {
                Some(&self@.appeals[*id])
            } else {
                None
            }),
    {
        self.appeals.get(id)
    }

    /// Appeal committee of each appeal.
    pub fn appeal_committees(&self, id: &H256) -> (r: Option<&Vec<AccountId>>)
        requires
            self.wf(),
        ensures
            r == (if self@.appeal_committees.contains_key(*id) {
                Some(&self@.appeal_committees[*id])
            } else {
                None
            }),
    {
        self.appeal_committees.get(id)
    }

    /// Disciplinary actions.
    pub fn disciplines(&self, id: &H256) -> (r: Option<&DisciplineDetails>)
        requires
            self.wf(),
        ensures
            r == (if self@.disciplines.contains_key(*id) {
                Some(&self@.disciplines[*id])
            } else {
                None
            }),
    {
        self.disciplines.get(id)
    }

    /// Records a disciplinary action under its identifier.
    pub fn record_discipline(&mut self, discipline_id: H256, details: DisciplineDetails)
        requires
            old(self).wf(),
        ensures
            final(self).wf(),
            final(self)@ == (PalletState {
                disciplines: old(self)@.disciplines.insert(discipline_id, details),
                events: final(self)@.events,
                ..old(self)@
            }),
            events_appended(
                old(self)@.events,
                Seq::empty(),
                Event::DisciplinaryActionRegistered {
                    discipline_id,
                    subject: details.subject,
                    level: details.level,
                    reason: details.reason,
                },
                final(self)@.events,
            ),
    {
        let subject = details.subject;
        let level = details.level;
        let reason = copy_vec(&details.reason);
        self.disciplines.insert(discipline_id, details);
        self.events.push(Event::DisciplinaryActionRegistered { discipline_id, subject, level, reason });
        assert(self@.events.drop_last() =~= old(self)@.events + Seq::<Event>::empty());
    }

    /// Registers a disciplinary action against a member, identified by the hash of its
    /// details, and emits `DisciplinaryActionRegistered`.
    pub fn register_disciplinary_action<
        I: IdentityVerifier<AccountId>,
        R: RankChecker<AccountId>,
    >(
        &mut self,
        ids: &I,
        ranks: &R,
        origin: RawOrigin,
        subject: AccountId,
        level: DisciplineLevel,
        reason: Vec<u8>,
        duration: Option<BlockNumber>,
        evidence_hash: Option<H256>,
    ) -> (r: DispatchResult)
        requires
            old(self).wf(),
            reason@.len() <= old(self)@.config.max_justification_length,
        ensures
            final(self).wf(),
            r == caller_check(
                *ids,
                *ranks,
                Some(old(self)@.config.emergency_origin),
                origin,
                Some(old(self)@.config.min_rank_for_disciplinary_action_enforcement),
            ),
            r is Err ==> final(self)@ == old(self)@,
            r is Ok ==> ({
                let details = DisciplineDetails {
                    subject,
                    issuer: origin->Signed_0,
                    level,
                    reason,
                    issued_at: old(self)@.block_number,
                    duration,
                    evidence_hash,
                    active: true,
                };
                let id = hash_of(enc_discipline(details));
                &&& final(self)@ == (PalletState {
                    disciplines: old(self)@.disciplines.insert(id, details),
                    events: final(self)@.events,
                    ..old(self)@
                })
                &&& events_appended(
                    old(self)@.events,
                    Seq::empty(),
                    Event::DisciplinaryActionRegistered {
                        discipline_id: id,
                        subject,
                        level,
                        reason,
                    },
                    final(self)@.events,
                )
            }),
    {
        let who = match Self::check_caller(
            ids,
            ranks,
            Some(self.config.emergency_origin),
            &origin,
            Some(self.config.min_rank_for_disciplinary_action_enforcement),
        ) {
            Ok(who) => who,
            Err(e) => return Err(e),
        };
        let details = DisciplineDetails {
            subject,
            issuer: who,
            level,
            reason,
            issued_at: self.block_number,
            duration,
            evidence_hash,
            active: true,
        };
        let encoded = encode_discipline(&details);
        let id = hash_encoded(&encoded);
        self.record_discipline(id, details);
        Ok(())
    }

    /// Resolves a disciplinary action: marks it inactive and emits
    /// `DisciplinaryActionResolved`.
    pub fn resolve_disciplinary_action<
        I: IdentityVerifier<AccountId>,
        R: RankChecker<AccountId>,
    >(
        &mut self,
        ids: &I,
        ranks: &R,
        origin: RawOrigin,
        discipline_id: H256,
        resolution_summary: Vec<u8>,
        evidence_hash: Option<H256>,
    ) -> (r: DispatchResult)
        requires
            old(self).wf(),
            resolution_summary@.len() <= old(self)@.config.max_resolution_length,
        ensures
            final(self).wf(),
            r == resolve_discipline_outcome(old(self)@, *ids, *ranks, origin, discipline_id),
            r is Err ==> final(self)@ == old(self)@,
            r is Ok ==> final(self)@ == discipline_resolved(
                old(self)@,
                discipline_id,
                resolution_summary,
                evidence_hash,
            ),
    {
        if let Err(e) = Self::check_caller(
            ids,
            ranks,
            Some(self.config.emergency_origin),
            &origin,
            Some(self.config.min_rank_for_disciplinary_action_enforcement),
        ) {
            return Err(e);
        }
        match self.disciplines.get(&discipline_id) {
            None => return Err(DispatchError::Module(Error::DisciplinaryActionNotFound)),
            Some(d) => {
                if !d.active {
                    return Err(DispatchError::Module(Error::DisciplinaryActionAlreadyResolved));
                }
            },
        }
        let mut details = match self.disciplines.remove(&discipline_id) {
            Some(d) => d,
            None => return Err(DispatchError::Module(Error::DisciplinaryActionNotFound)),
        };
        details.active = false;
        let subject = details.subject;
        self.disciplines.insert(discipline_id, details);
        self.events.push(
            Event::DisciplinaryActionResolved {
                discipline_id,
                subject,
                resolution_summary,
                evidence_hash,
            },
        );
        proof {
            assert(self@.disciplines =~= old(self)@.disciplines.insert(
                discipline_id,
                DisciplineDetails { active: false, ..old(self)@.disciplines[discipline_id] },
            ));
        }
        Ok(())
    }

    /// Records a submitted appeal under its identifier.
    pub fn record_appeal(&mut self, appeal_id: H256, details: AppealDetails)
        requires
            old(self).wf(),
        ensures
            final(self).wf(),
            final(self)@ == (PalletState {
                appeals: old(self)@.appeals.insert(appeal_id, details),
                events: final(self)@.events,
                ..old(self)@
            }),
            events_appended(
                old(self)@.events,
                Seq::empty(),
                Event::AppealSubmitted {
                    appeal_id,
                    appellant: details.appellant,
                    original_decision: details.original_decision,
                },
                final(self)@.events,
            ),
    {
        let appellant = details.appellant;
        let original_decision = copy_vec(&details.original_decision);
        self.appeals.insert(appeal_id, details);
        self.events.push(Event::AppealSubmitted { appeal_id, appellant, original_decision });
        assert(self@.events.drop_last() =~= old(self)@.events + Seq::<Event>::empty());
    }

    /// Submits an appeal against a decision; the appeal is identified by the hash of
    /// its details. Emits `AppealSubmitted`.
    pub fn submit_appeal<I: IdentityVerifier<AccountId>, R: RankChecker<AccountId>>(
        &mut self,
        ids: &I,
        ranks: &R,
        origin: RawOrigin,
        original_decision: Vec<u8>,
        justification: Vec<u8>,
        evidence_hash: Option<H256>,
    ) -> (r: DispatchResult)
        requires
            old(self).wf(),
            original_decision@.len() <= old(self)@.config.max_justification_length,
            justification@.len() <= old(self)@.config.max_justification_length,
        ensures
            final(self).wf(),
            r == caller_check(
                *ids,
                *ranks,
                Some(old(self)@.config.appeal_submission_origin),
                origin,
                Some(old(self)@.config.min_rank_to_submit_appeal),
            ),
            r is Err ==> final(self)@ == old(self)@,
            r is Ok ==> ({
                let details = AppealDetails {
                    appellant: origin->Signed_0,
                    original_decision,
                    justification,
                    submitted_at: old(self)@.block_number,
                    status: AppealStatus::Submitted,
                    decision: None,
                    decided_at: None,
                    evidence_hash,
                };
                let id = hash_of(enc_appeal(details));
                &&& final(self)@ == (PalletState {
                    appeals: old(self)@.appeals.insert(id, details),
                    events: final(self)@.events,
                    ..old(self)@
                })
                &&& events_appended(
                    old(self)@.events,
                    Seq::empty(),
                    Event::AppealSubmitted {
                        appeal_id: id,
                        appellant: origin->Signed_0,
                        original_decision,
                    },
                    final(self)@.events,
                )
            }),
    {
        let who = match Self::check_caller(
            ids,
            ranks,
            Some(self.config.appeal_submission_origin),
            &origin,
            Some(self.config.min_rank_to_submit_appeal),
        ) {
            Ok(who) => who,
            Err(e) => return Err(e),
        };
        let details = AppealDetails {
            appellant: who,
            original_decision,
            justification,
            submitted_at: self.block_number,
            status: AppealStatus::Submitted,
            decision: None,
            decided_at: None,
            evidence_hash,
        };
        let encoded = encode_appeal(&details);
        let id = hash_encoded(&encoded);
        self.record_appeal(id, details);
        Ok(())
    }

    /// Deposits one warning event per non-critical conflict.
    fn deposit_appeal_warnings(&mut self, id: H256, w: &Vec<(AccountId, ConflictType)>)
        requires
            old(self).wf(),
        ensures
            final(self).wf(),
            final(self)@ == (PalletState {
                events: old(self)@.events + appeal_warnings(id, w@),
                ..old(self)@
            }),
    {
        let ghost start = self@.events;
        let mut i: usize = 0;
        assert(start + appeal_warnings(id, w@.take(0)) =~= start);
        while i < w.len()
            invariant
                self.wf(),
                i <= w@.len(),
                self@ == (PalletState {
                    events: start + appeal_warnings(id, w@.take(i as int)),
                    ..old(self)@
                }),
            decreases w@.len() - i,
        {
            let (member, conflict_type) = w[i];
            self.events.push(
                Event::NonCriticalAppealConflictWarning { appeal_id: id, member, conflict_type },
            );
            proof {
                assert(w@.take(i + 1) =~= w@.take(i as int).push(w@[i as int]));
                assert(self@.events =~= start + appeal_warnings(id, w@.take(i + 1)));
            }
            i = i + 1;
        }
        assert(w@.take(w@.len() as int) =~= w@);
    }

    /// Forms the appeal committee of an appeal, after checking its members for
    /// conflicts of interest related to the appeal; the appeal goes under review. Emits
    /// a warning per non-critical conflict, then `AppealCommitteeFormed`.
    pub fn form_appeal_committee<I: IdentityVerifier<AccountId>, R: RankChecker<AccountId>>(
        &mut self,
        ids: &I,
        ranks: &R,
        origin: RawOrigin,
        appeal_id: H256,
        members: Vec<AccountId>,
    ) -> (r: DispatchResult)
        requires
            old(self).wf(),
            members@.len() <= old(self)@.config.max_appeal_committee_members,
        ensures
            final(self).wf(),
            r == unit_result(
                appeal_committee_outcome(old(self)@, *ids, *ranks, origin, appeal_id, members@),
            ),
            r is Err ==> final(self)@ == old(self)@,
            appeal_committee_outcome(
                old(self)@,
                *ids,
                *ranks,
                origin,
                appeal_id,
                members@,
            ) matches Ok(w) ==> {
                &&& final(self)@ == appeal_committee_formed(
                    old(self)@,
                    appeal_id,
                    members,
                    final(self)@.events,
                )
                &&& events_appended(
                    old(self)@.events,
                    appeal_warnings(appeal_id, w),
                    Event::AppealCommitteeFormed { appeal_id, members },
                    final(self)@.events,
                )
            },
    {
        if let Err(e) = Self::check_caller(
            ids,
            ranks,
            Some(self.config.appeal_committee_origin),
            &origin,
            Some(self.config.min_rank_to_form_appeal_committee),
        ) {
            return Err(e);
        }
        if !self.appeals.contains_key(&appeal_id) {
            return Err(DispatchError::Module(Error::AppealNotFound));
        }
        if self.appeal_committees.contains_key(&appeal_id) {
            return Err(DispatchError::Module(Error::AppealCommitteeAlreadyFormed));
        }
        let warnings = match self.scan_conflicts(&members, &appeal_id) {
            Ok(w) => w,
            Err(e) => return Err(DispatchError::Module(e)),
        };
        let ghost before = self@;
        let copy = copy_vec(&members);
        self.appeal_committees.insert(appeal_id, members);
        let mut appeal = match self.appeals.remove(&appeal_id) {
            Some(a) => a,
            None => return Err(DispatchError::Module(Error::AppealNotFound)),
        };
        appeal.status = AppealStatus::UnderReview;
        self.appeals.insert(appeal_id, appeal);
        self.deposit_appeal_warnings(appeal_id, &warnings);
        self.events.push(Event::AppealCommitteeFormed { appeal_id, members: copy });
        proof {
            assert(self@.appeals =~= before.appeals.insert(
                appeal_id,
                AppealDetails { status: AppealStatus::UnderReview, ..before.appeals[appeal_id] },
            ));
            assert(self@.events.drop_last() =~= before.events + appeal_warnings(
                appeal_id,
                warnings@,
            ));
        }
        Ok(())
    }

    /// Decides an appeal: records the decision, the block, the decision's
    /// justification and evidence hash, and emits `AppealDecided`. Only a member of the
    /// appeal's committee may decide it, and only once.
    pub fn decide_appeal<I: IdentityVerifier<AccountId>, R: RankChecker<AccountId>>(
        &mut self,
        ids: &I,
        ranks: &R,
        origin: RawOrigin,
        appeal_id: H256,
        decision: AppealDecision,
        justification: Vec<u8>,
        evidence_hash: Option<H256>,
    ) -> (r: DispatchResult)
        requires
            old(self).wf(),
            justification@.len() <= old(self)@.config.max_justification_length,
        ensures
            final(self).wf(),
            r == decide_appeal_outcome(old(self)@, *ids, *ranks, origin, appeal_id),
            r is Err ==> final(self)@ == old(self)@,
            r is Ok ==> {
                &&& final(self)@ == appeal_decided(
                    old(self)@,
                    appeal_id,
                    decision,
                    justification,
                    evidence_hash,
                    final(self)@.events,
                )
                &&& events_appended(
                    old(self)@.events,
                    Seq::empty(),
                    Event::AppealDecided {
                        appeal_id,
                        decider: origin->Signed_0,
                        decision,
                        justification,
                        evidence_hash,
                    },
                    final(self)@.events,
                )
            },
    {
        let who = match Self::check_caller(
            ids,
            ranks,
            None,
            &origin,
            Some(self.config.min_rank_for_decide_appeal),
        ) {
            Ok(who) => who,
            Err(e) => return Err(e),
        };
        match self.appeal_committees.get(&appeal_id) {
            None => return Err(DispatchError::Module(Error::AppealCommitteeNotFormed)),
            Some(committee) => {
                let mut found = false;
                let mut i: usize = 0;
                while i < committee.len()
                    invariant
                        i <= committee@.len(),
                        found == committee@.take(i as int).contains(who),
                    decreases committee@.len() - i,
                {
                    proof {
                        let t = committee@.take(i + 1);
                        assert(t =~= committee@.take(i as int).push(committee@[i as int]));
                        if t.contains(who) {
                            let k = choose|k: int| 0 <= k < t.len() && t[k] == who;
                            if k < i {
                                assert(committee@.take(i as int)[k] == t[k]);
                            }
                        }
                        if committee@.take(i as int).contains(who) {
                            let k = choose|k: int|
                                0 <= k < committee@.take(i as int).len() && committee@.take(
                                    i as int,
                                )[k] == who;
                            assert(t[k] == committee@.take(i as int)[k]);
                        }
                        if committee@[i as int] == who {
                            assert(t[i as int] == who);
                        }
                    }
                    if committee[i] == who {
                        found = true;
                    }
                    i = i + 1;
                }
                proof {
                    assert(committee@.take(committee@.len() as int) =~= committee@);
                }
                if !found {
                    return Err(DispatchError::Module(Error::NotCommitteeMember));
                }
            },
        }
        match self.appeals.get(&appeal_id) {
            None => return Err(DispatchError::Module(Error::AppealNotFound)),
            Some(a) => {
                if a.decision.is_some() {
                    return Err(DispatchError::Module(Error::AppealAlreadyDecided));
                }
            },
        }
        let mut appeal = match self.appeals.remove(&appeal_id) {
            Some(a) => a,
            None => return Err(DispatchError::Module(Error::AppealNotFound)),
        };
        let copy = copy_vec(&justification);
        appeal.status = AppealStatus::Decided;
        appeal.decision = Some(decision);
        appeal.decided_at = Some(self.block_number);
        appeal.justification = justification;
        appeal.evidence_hash = evidence_hash;
        self.appeals.insert(appeal_id, appeal);
        self.events.push(
            Event::AppealDecided {
                appeal_id,
                decider: who,
                decision,
                justification: copy,
                evidence_hash,
            },
        );
        proof {
            assert(self@.appeals =~= old(self)@.appeals.insert(
                appeal_id,
                AppealDetails {
                    status: AppealStatus::Decided,
                    decision: Some(decision),
                    decided_at: Some(old(self)@.block_number),
                    justification,
                    evidence_hash,
                    ..old(self)@.appeals[appeal_id]
                },
            ));
            assert(self@.events.drop_last() =~= old(self)@.events + Seq::<Event>::empty());
        }
        Ok(())
    }
}


/// Outcome of recording an integration under identifier `id`: the warnings raised, or
/// the error.
pub open spec fn integration_outcome(
    s: PalletState,
    id: H256,
    details: IntegrationDetails,
) -> Result<Seq<(AccountId, ConflictType)>, DispatchError> {
    if s.integrations.contains_key(id) {
        Err(DispatchError::Module(Error::IntegrationAlreadyExists))
    } else {
        match conflicts_outcome(
            s,
            s.config.max_conflict_of_interest_checks,
            details.ambassador_participants@,
            id,
        ) {
            Err(e) => Err(DispatchError::Module(e)),
            Ok(w) => Ok(w),
        }
    }
}

/// The state after the integration `details` is recorded under `id` in state `s`, with
/// the event record `events`.
pub open spec fn integration_recorded(
    s: PalletState,
    id: H256,
    details: IntegrationDetails,
    events: Seq<Event>,
) -> PalletState {
    PalletState { integrations: s.integrations.insert(id, details), events, ..s }
}

/// The next nonce stored for a key of a nonce map (zero when none is stored).
pub open spec fn stored_nonce<K>(m: Map<K, u32>, k: K) -> u32 {
    if m.contains_key(k) {
        m[k]
    } else {
        0
    }
}

/// The nonce that follows `n`, wrapping around at the largest `u32`.
pub open spec fn next_nonce(n: u32) -> u32 {
    if n == u32::MAX {
        0
    } else {
        (n + 1) as u32
    }
}

fn increment_nonce(n: u32) -> (r: u32)
    ensures
        r == next_nonce(n),
{
    if n == u32::MAX {
        0
    } else {
        n + 1
    }
}

/// The state after `registration` is stored under `key` in state `s`, with the
/// storage order `order` and the event record `events`. When `advance` holds, the next
/// nonce of the member and conflict type moves past the one used.
pub open spec fn conflict_stored(
    s: PalletState,
    key: ConflictKey,
    registration: ConflictRegistration,
    advance: bool,
    order: Seq<ConflictKey>,
    events: Seq<Event>,
) -> PalletState {
    PalletState {
        conflicts: s.conflicts.insert(key, registration),
        conflict_order: order,
        conflict_nonces: if advance {
            s.conflict_nonces.insert((key.0, key.1), next_nonce(key.2))
        } else {
            s.conflict_nonces
        },
        events,
        ..s
    }
}

/// The state after `remark` is stored under `key` in state `s`, with the event record
/// `events`. When `advance` holds, the next nonce of the author and category moves past
/// the one used.
pub open spec fn remark_stored(
    s: PalletState,
    key: (AccountId, RemarkCategory, u32),
    remark: OnChainRemark,
    advance: bool,
    events: Seq<Event>,
) -> PalletState {
    PalletState {
        remarks: s.remarks.insert(key, remark),
        remark_nonces: if advance {
            s.remark_nonces.insert((key.0, key.1), next_nonce(key.2))
        } else {
            s.remark_nonces
        },
        events,
        ..s
    }
}

/// Outcome of setting a conflict of interest: the nonce used, or the error.
pub open spec fn conflict_outcome<I: IdentityVerifier<AccountId>, R: RankChecker<AccountId>>(
    s: PalletState,
    ids: I,
    ranks: R,
    origin: RawOrigin,
    conflict_type: ConflictType,
    nonce: Option<u32>,
) -> Result<u32, DispatchError> {
    match caller_check(
        ids,
        ranks,
        None,
        origin,
        Some(s.config.min_rank_to_set_conflict_of_interest),
    ) {
        Err(e) => Err(e),
        Ok(_) => match nonce {
            Some(n) => if s.conflicts.contains_key((origin->Signed_0, conflict_type, n)) {
                Ok(n)
            } else {
                Err(DispatchError::Module(Error::ConflictOfInterestNotFound))
            },
            None => Ok(stored_nonce(s.conflict_nonces, (origin->Signed_0, conflict_type))),
        },
    }
}

/// Outcome of setting a remark: the nonce used, or the error.
pub open spec fn remark_outcome<I: IdentityVerifier<AccountId>, R: RankChecker<AccountId>>(
    s: PalletState,
    ids: I,
    ranks: R,
    origin: RawOrigin,
    category: RemarkCategory,
    nonce: Option<u32>,
) -> Result<u32, DispatchError> {
    match caller_check(ids, ranks, None, origin, Some(s.config.min_rank_to_set_remark)) {
        Err(e) => Err(e),
        Ok(_) => match nonce {
            Some(n) => if s.remarks.contains_key((origin->Signed_0, category, n)) {
                Ok(n)
            } else {
                Err(DispatchError::Module(Error::RemarkNotFound))
            },
            None => Ok(stored_nonce(s.remark_nonces, (origin->Signed_0, category))),
        },
    }
}

/// The opening checks of a call that demands no rank: the configured origin, a signed
/// origin and a verified identity of the signer.
pub open spec fn identity_check<I: IdentityVerifier<AccountId>>(
    ids: I,
    gate: OriginRule,
    origin: RawOrigin,
) -> DispatchResult {
    if !rule_permits(gate, origin) {
        Err(DispatchError::BadOrigin)
    } else {
        match origin {
            RawOrigin::Signed(who) => if ids.is_verified(who) {
                Ok(())
            } else {
                Err(DispatchError::Module(Error::IdentityNotVerified))
            },
            _ => Err(DispatchError::BadOrigin),
        }
    }
}

/// Outcome of setting the governance health metrics.
pub open spec fn health_outcome<I: IdentityVerifier<AccountId>>(
    s: PalletState,
    ids: I,
    origin: RawOrigin,
    start_block: BlockNumber,
    end_block: BlockNumber,
) -> DispatchResult {
    match identity_check(ids, s.config.emergency_origin, origin) {
        Err(e) => Err(e),
        Ok(_) => if end_block > start_block {
            Ok(())
        } else {
            Err(DispatchError::Module(Error::InvalidBlockPeriod))
        },
    }
}

/// Outcome of registering or updating a service provider.
pub open spec fn provider_outcome<I: IdentityVerifier<AccountId>, R: RankChecker<AccountId>>(
    s: PalletState,
    ids: I,
    ranks: R,
    origin: RawOrigin,
    provider_account: AccountId,
) -> DispatchResult {
    match caller_check(ids, ranks, None, origin, Some(s.config.min_rank_for_provider_registry)) {
        Err(e) => Err(e),
        Ok(_) => if ids.is_verified(provider_account) {
            Ok(())
        } else {
            Err(DispatchError::Module(Error::IdentityNotVerified))
        },
    }
}

/// Outcome of creating a service referral.
pub open spec fn referral_outcome<I: IdentityVerifier<AccountId>, R: RankChecker<AccountId>>(
    s: PalletState,
    ids: I,
    ranks: R,
    origin: RawOrigin,
    provider_account: AccountId,
    compensation_disclosed: bool,
    compensation_details: Option<Vec<u8>>,
) -> DispatchResult {
    match caller_check(ids, ranks, None, origin, Some(s.config.min_rank_for_referral)) {
        Err(e) => Err(e),
        Ok(_) => if !s.service_providers.contains_key(provider_account) {
            Err(DispatchError::Module(Error::ServiceProviderNotFound))
        } else if compensation_disclosed && compensation_details is None {
            Err(DispatchError::Module(Error::MissingCompensationDisclosure))
        } else {
            Ok(())
        },
    }
}

impl Pallet {
    /// Cross-collective integrations that have been established.
    pub fn integrations(&self, id: &H256) -> (r: Option<&IntegrationDetails>)
        requires
            self.wf(),
        ensures
            r == (if self@.integrations.contains_key(*id) {
                Some(&self@.integrations[*id])
            } else {
                None
            }),
    {
        self.integrations.get(id)
    }

    /// Recorded rank transitions.
    pub fn transitions(&self, id: &H256) -> (r: Option<&TransitionDetails>)
        requires
            self.wf(),
        ensures
            r == (if self@.transitions.contains_key(*id) {
                Some(&self@.transitions[*id])
            } else {
                None
            }),
    {
        self.transitions.get(id)
    }

    /// Conflict-of-interest registrations.
    pub fn conflicts(&self, key: &ConflictKey) -> (r: Option<&ConflictRegistration>)
        requires
            self.wf(),
        ensures
            r == (if self@.conflicts.contains_key(*key) {
                Some(&self@.conflicts[*key])
            } else {
                None
            }),
    {
        self.conflicts.get(key)
    }

    /// The next conflict-of-interest nonce of a member and conflict type.
    pub fn conflict_nonces(&self, key: &(AccountId, ConflictType)) -> (r: u32)
        requires
            self.wf(),
        ensures
            r == stored_nonce(self@.conflict_nonces, *key),
    {
        match self.conflict_nonces.get(key) {
            Some(n) => *n,
            None => 0,
        }
    }

    /// On-chain remarks.
    pub fn remarks(&self, key: &(AccountId, RemarkCategory, u32)) -> (r: Option<&OnChainRemark>)
        requires
            self.wf(),
        ensures
            r == (if self@.remarks.contains_key(*key) {
                Some(&self@.remarks[*key])
            } else {
                None
            }),
    {
        self.remarks.get(key)
    }

    /// The next remark nonce of an author and category.
    pub fn remark_nonces(&self, key: &(AccountId, RemarkCategory)) -> (r: u32)
        requires
            self.wf(),
        ensures
            r == stored_nonce(self@.remark_nonces, *key),
    {
        match self.remark_nonces.get(key) {
            Some(n) => *n,
            None => 0,
        }
    }

    /// Registered professional service providers.
    pub fn service_providers(&self, who: &AccountId) -> (r: Option<&ServiceProviderDetails>)
        requires
            self.wf(),
        ensures
            r == (if self@.service_providers.contains_key(*who) {
                Some(&self@.service_providers[*who])
            } else {
                None
            }),
    {
        self.service_providers.get(who)
    }

    /// Professional service referrals.
    pub fn service_referrals(&self, id: &H256) -> (r: Option<&ServiceReferral>)
        requires
            self.wf(),
        ensures
            r == (if self@.service_referrals.contains_key(*id) {
                Some(&self@.service_referrals[*id])
            } else {
                None
            }),
    {
        self.service_referrals.get(id)
    }

    /// Governance health metrics.
    pub fn governance_health(&self) -> (r: Option<&GovernanceHealthMetrics>)
        ensures
            r == match self@.governance_health {
                Some(m) => Some(&m),
                None => None::<&GovernanceHealthMetrics>,
            },
    {
        match &self.governance_health {
            Some(m) => Some(m),
            None => None,
        }
    }

    /// Deposits one warning event per non-critical conflict.
    fn deposit_integration_warnings(&mut self, id: H256, w: &Vec<(AccountId, ConflictType)>)
        requires
            old(self).wf(),
        ensures
            final(self).wf(),
            final(self)@ == (PalletState {
                events: old(self)@.events + integration_warnings(id, w@),
                ..old(self)@
            }),
    {
        let ghost start = self@.events;
        let mut i: usize = 0;
        assert(start + integration_warnings(id, w@.take(0)) =~= start);
        while i < w.len()
            invariant
                self.wf(),
                i <= w@.len(),
                self@ == (PalletState {
                    events: start + integration_warnings(id, w@.take(i as int)),
                    ..old(self)@
                }),
            decreases w@.len() - i,
        {
            let (member, conflict_type) = w[i];
            self.events.push(
                Event::NonCriticalIntegrationConflictWarning {
                    integration_id: id,
                    member,
                    conflict_type,
                },
            );
            proof {
                assert(w@.take(i + 1) =~= w@.take(i as int).push(w@[i as int]));
                assert(self@.events =~= start + integration_warnings(id, w@.take(i + 1)));
            }
            i = i + 1;
        }
        assert(w@.take(w@.len() as int) =~= w@);
    }

    /// Records an integration under its identifier, after checking that none is
    /// recorded there and checking its ambassador participants for conflicts of interest
    /// related to it. Emits a warning per non-critical conflict, then
    /// `IntegrationEstablished`.
    pub fn record_integration(&mut self, integration_id: H256, details: IntegrationDetails) -> (r:
        DispatchResult)
        requires
            old(self).wf(),
        ensures
            final(self).wf(),
            r == unit_result(integration_outcome(old(self)@, integration_id, details)),
            r is Err ==> final(self)@ == old(self)@,
            integration_outcome(old(self)@, integration_id, details) matches Ok(w) ==> {
                &&& final(self)@ == integration_recorded(
                    old(self)@,
                    integration_id,
                    details,
                    final(self)@.events,
                )
                &&& events_appended(
                    old(self)@.events,
                    integration_warnings(integration_id, w),
                    Event::IntegrationEstablished {
                        integration_id,
                        mechanism: details.mechanism,
                        target_collective: details.target_collective,
                        description: details.description,
                        ambassador_participants: details.ambassador_participants,
                        target_participants: details.target_participants,
                        evidence_hash: details.evidence_hash,
                        last_updated: old(self)@.block_number,
                    },
                    final(self)@.events,
                )
            },
    {
        if self.integrations.contains_key(&integration_id) {
            return Err(DispatchError::Module(Error::IntegrationAlreadyExists));
        }
        let warnings = match self.scan_conflicts(&details.ambassador_participants, &integration_id) {
            Ok(w) => w,
            Err(e) => return Err(DispatchError::Module(e)),
        };
        let ghost before = self@;
        let event = Event::IntegrationEstablished {
            integration_id,
            mechanism: details.mechanism,
            target_collective: copy_target(&details.target_collective),
            description: copy_vec(&details.description),
            ambassador_participants: copy_vec(&details.ambassador_participants),
            target_participants: copy_vec(&details.target_participants),
            evidence_hash: details.evidence_hash,
            last_updated: self.block_number,
        };
        self.integrations.insert(integration_id, details);
        self.deposit_integration_warnings(integration_id, &warnings);
        self.events.push(event);
        proof {
            assert(self@.events.drop_last() =~= before.events + integration_warnings(
                integration_id,
                warnings@,
            ));
        }
        Ok(())
    }

    /// Establishes an integration with another collective; the integration is
    /// identified by the hash of its details.
    pub fn establish_integration<I: IdentityVerifier<AccountId>, R: RankChecker<AccountId>>(
        &mut self,
        ids: &I,
        ranks: &R,
        origin: RawOrigin,
        mechanism: IntegrationMechanism,
        target_collective: TargetCollective,
        description: Vec<u8>,
        ambassador_participants: Vec<AccountId>,
        target_participants: Vec<AccountId>,
        evidence_hash: Option<H256>,
    ) -> (r: DispatchResult)
        requires
            old(self).wf(),
            target_collective matches TargetCollective::Other(name) ==> name@.len() <= 32,
            description@.len() <= old(self)@.config.max_description_length,
            ambassador_participants@.len() <= old(self)@.config.max_source_participants,
            target_participants@.len() <= old(self)@.config.max_target_participants,
        ensures
            final(self).wf(),
            r is Err ==> final(self)@ == old(self)@,
            ({
                let check = caller_check(
                    *ids,
                    *ranks,
                    Some(old(self)@.config.integration_origin),
                    origin,
                    Some(old(self)@.config.min_rank_to_establish_integration),
                );
                let details = IntegrationDetails {
                    mechanism,
                    target_collective,
                    description,
                    ambassador_participants,
                    target_participants,
                    established_at: old(self)@.block_number,
                    evidence_hash,
                };
                let id = hash_of(enc_integration(details));
                &&& check is Err ==> r == check
                &&& check is Ok ==> r == unit_result(integration_outcome(old(self)@, id, details))
                &&& check is Ok ==> (integration_outcome(old(self)@, id, details) matches Ok(w) ==> {
                    &&& final(self)@ == integration_recorded(
                        old(self)@,
                        id,
                        details,
                        final(self)@.events,
                    )
                    &&& events_appended(
                        old(self)@.events,
                        integration_warnings(id, w),
                        Event::IntegrationEstablished {
                            integration_id: id,
                            mechanism,
                            target_collective,
                            description,
                            ambassador_participants,
                            target_participants,
                            evidence_hash,
                            last_updated: old(self)@.block_number,
                        },
                        final(self)@.events,
                    )
                })
            }),
    {
        if let Err(e) = Self::check_caller(
            ids,
            ranks,
            Some(self.config.integration_origin),
            &origin,
            Some(self.config.min_rank_to_establish_integration),
        ) {
            return Err(e);
        }
        let details = IntegrationDetails {
            mechanism,
            target_collective,
            description,
            ambassador_participants,
            target_participants,
            established_at: self.block_number,
            evidence_hash,
        };
        proof {
            assert(target_encodable(details.target_collective));
        }
        let encoded = encode_integration(&details);
        let id = hash_encoded(&encoded);
        self.record_integration(id, details)
    }

    /// Records a rank transition under its identifier.
    pub fn record_transition(&mut self, transition_id: H256, details: TransitionDetails)
        requires
            old(self).wf(),
        ensures
            final(self).wf(),
            final(self)@ == (PalletState {
                transitions: old(self)@.transitions.insert(transition_id, details),
                events: old(self)@.events.push(
                    Event::RankTransitionRegistered {
                        transition_id,
                        member: details.member,
                        transition_type: details.transition_type,
                        previous_rank: details.previous_rank,
                        new_rank: details.new_rank,
                        effective_at: details.effective_at,
                        evidence_hash: details.evidence_hash,
                    },
                ),
                ..old(self)@
            }),
    {
        let event = Event::RankTransitionRegistered {
            transition_id,
            member: details.member,
            transition_type: details.transition_type,
            previous_rank: details.previous_rank,
            new_rank: details.new_rank,
            effective_at: details.effective_at,
            evidence_hash: details.evidence_hash,
        };
        self.transitions.insert(transition_id, details);
        self.events.push(event);
    }

    /// Records the intent of a rank transition of a member, identified by the hash of
    /// its details, and emits `RankTransitionRegistered`. The rank itself is not
    /// changed.
    pub fn register_rank_transition<I: IdentityVerifier<AccountId>, R: RankChecker<AccountId>>(
        &mut self,
        ids: &I,
        ranks: &R,
        origin: RawOrigin,
        member: AccountId,
        transition_type: TransitionType,
        previous_rank: Rank,
        new_rank: Rank,
        justification: Vec<u8>,
        effective_at: BlockNumber,
        successor: Option<AccountId>,
        evidence_hash: Option<H256>,
    ) -> (r: DispatchResult)
        requires
            old(self).wf(),
            justification@.len() <= old(self)@.config.max_justification_length,
        ensures
            final(self).wf(),
            r == caller_check(
                *ids,
                *ranks,
                Some(old(self)@.config.emergency_origin),
                origin,
                Some(old(self)@.config.min_rank_for_role_fulfillment_contingency),
            ),
            r is Err ==> final(self)@ == old(self)@,
            r is Ok ==> ({
                let details = TransitionDetails {
                    member,
                    transition_type,
                    previous_rank,
                    new_rank,
                    justification,
                    initiated_at: old(self)@.block_number,
                    effective_at,
                    successor,
                    knowledge_transfer_complete: false,
                    evidence_hash,
                };
                let id = hash_of(enc_transition(details));
                final(self)@ == (PalletState {
                    transitions: old(self)@.transitions.insert(id, details),
                    events: old(self)@.events.push(
                        Event::RankTransitionRegistered {
                            transition_id: id,
                            member,
                            transition_type,
                            previous_rank,
                            new_rank,
                            effective_at,
                            evidence_hash,
                        },
                    ),
                    ..old(self)@
                })
            }),
    {
        if let Err(e) = Self::check_caller(
            ids,
            ranks,
            Some(self.config.emergency_origin),
            &origin,
            Some(self.config.min_rank_for_role_fulfillment_contingency),
        ) {
            return Err(e);
        }
        let details = TransitionDetails {
            member,
            transition_type,
            previous_rank,
            new_rank,
            justification,
            initiated_at: self.block_number,
            effective_at,
            successor,
            knowledge_transfer_complete: false,
            evidence_hash,
        };
        let encoded = encode_transition(&details);
        let id = hash_encoded(&encoded);
        self.record_transition(id, details);
        Ok(())
    }

    /// Declares a new conflict of interest, or updates the one stored under the given
    /// nonce, and emits `ConflictOfInterestSet`. A new declaration takes the next nonce
    /// of its member and type, and the start block defaults to the current block.
    pub fn set_conflict_of_interest<I: IdentityVerifier<AccountId>, R: RankChecker<AccountId>>(
        &mut self,
        ids: &I,
        ranks: &R,
        origin: RawOrigin,
        conflict_type: ConflictType,
        description: Vec<u8>,
        relates_to: Option<Vec<u8>>,
        start_block: Option<BlockNumber>,
        end_block: Option<BlockNumber>,
        evidence_hash: Option<H256>,
        nonce: Option<u32>,
    ) -> (r: DispatchResult)
        requires
            old(self).wf(),
            description@.len() <= old(self)@.config.max_description_length,
            relates_to matches Some(v) ==> v@.len() <= old(self)@.config.max_description_length,
        ensures
            final(self).wf(),
            r == unit_result(
                conflict_outcome(old(self)@, *ids, *ranks, origin, conflict_type, nonce),
            ),
            r is Err ==> final(self)@ == old(self)@,
            conflict_outcome(
                old(self)@,
                *ids,
                *ranks,
                origin,
                conflict_type,
                nonce,
            ) matches Ok(n) ==> ({
                let who = origin->Signed_0;
                let start = match start_block {
                    Some(b) => b,
                    None => old(self)@.block_number,
                };
                let registration = ConflictRegistration {
                    member: who,
                    conflict_type,
                    description,
                    relates_to,
                    start_block: Some(start),
                    end_block,
                    evidence_hash,
                    last_updated: old(self)@.block_number,
                };
                &&& final(self)@ == conflict_stored(
                    old(self)@,
                    (who, conflict_type, n),
                    registration,
                    nonce is None,
                    final(self)@.conflict_order,
                    final(self)@.events,
                )
                &&& old(self)@.conflicts.contains_key((who, conflict_type, n))
                    ==> final(self)@.conflict_order == old(self)@.conflict_order
                &&& events_appended(
                    old(self)@.events,
                    Seq::empty(),
                    Event::ConflictOfInterestSet {
                        member: who,
                        conflict_type,
                        description,
                        relates_to,
                        start_block: Some(start),
                        end_block,
                        evidence_hash,
                        nonce: Some(n),
                        last_updated: old(self)@.block_number,
                    },
                    final(self)@.events,
                )
            }),
    {
        let who = match Self::check_caller(
            ids,
            ranks,
            None,
            &origin,
            Some(self.config.min_rank_to_set_conflict_of_interest),
        ) {
            Ok(who) => who,
            Err(e) => return Err(e),
        };
        let current_block = self.block_number;
        let start = match start_block {
            Some(b) => b,
            None => current_block,
        };
        let n = match nonce {
            Some(n) => {
                if !self.conflicts.contains_key(&(who, conflict_type, n)) {
                    return Err(DispatchError::Module(Error::ConflictOfInterestNotFound));
                }
                n
            },
            None => {
                let next = match self.conflict_nonces.get(&(who, conflict_type)) {
                    Some(v) => *v,
                    None => 0,
                };
                self.conflict_nonces.insert((who, conflict_type), increment_nonce(next));
                next
            },
        };
        let event = Event::ConflictOfInterestSet {
            member: who,
            conflict_type,
            description: copy_vec(&description),
            relates_to: copy_opt_bytes(&relates_to),
            start_block: Some(start),
            end_block,
            evidence_hash,
            nonce: Some(n),
            last_updated: current_block,
        };
        let registration = ConflictRegistration {
            member: who,
            conflict_type,
            description,
            relates_to,
            start_block: Some(start),
            end_block,
            evidence_hash,
            last_updated: current_block,
        };
        self.conflicts.insert((who, conflict_type, n), registration);
        self.events.push(event);
        proof {
            assert(self@.events.drop_last() =~= old(self)@.events + Seq::<Event>::empty());
        }
        Ok(())
    }

    /// Creates a new on-chain remark, or updates the one stored under the given nonce,
    /// and emits `RemarkSet`. A new remark takes the next nonce of its author and
    /// category.
    pub fn set_remark<I: IdentityVerifier<AccountId>, R: RankChecker<AccountId>>(
        &mut self,
        ids: &I,
        ranks: &R,
        origin: RawOrigin,
        category: RemarkCategory,
        content: Vec<u8>,
        evidence_hash: Option<H256>,
        nonce: Option<u32>,
    ) -> (r: DispatchResult)
        requires
            old(self).wf(),
            content@.len() <= old(self)@.config.max_remark_content_length,
        ensures
            final(self).wf(),
            r == unit_result(remark_outcome(old(self)@, *ids, *ranks, origin, category, nonce)),
            r is Err ==> final(self)@ == old(self)@,
            remark_outcome(old(self)@, *ids, *ranks, origin, category, nonce) matches Ok(n) ==> ({
                let who = origin->Signed_0;
                &&& final(self)@ == remark_stored(
                    old(self)@,
                    (who, category, n),
                    OnChainRemark { content, evidence_hash, last_updated: old(self)@.block_number },
                    nonce is None,
                    final(self)@.events,
                )
                &&& events_appended(
                    old(self)@.events,
                    Seq::empty(),
                    Event::RemarkSet {
                        author: who,
                        category,
                        content,
                        evidence_hash,
                        nonce: n,
                        last_updated: old(self)@.block_number,
                    },
                    final(self)@.events,
                )
            }),
    {
        let who = match Self::check_caller(
            ids,
            ranks,
            None,
            &origin,
            Some(self.config.min_rank_to_set_remark),
        ) {
            Ok(who) => who,
            Err(e) => return Err(e),
        };
        let current_block = self.block_number;
        let n = match nonce {
            Some(n) => {
                if !self.remarks.contains_key(&(who, category, n)) {
                    return Err(DispatchError::Module(Error::RemarkNotFound));
                }
                n
            },
            None => {
                let next = match self.remark_nonces.get(&(who, category)) {
                    Some(v) => *v,
                    None => 0,
                };
                self.remark_nonces.insert((who, category), increment_nonce(next));
                next
            },
        };
        let event = Event::RemarkSet {
            author: who,
            category,
            content: copy_vec(&content),
            evidence_hash,
            nonce: n,
            last_updated: current_block,
        };
        self.remarks.insert(
            (who, category, n),
            OnChainRemark { content, evidence_hash, last_updated: current_block },
        );
        self.events.push(event);
        proof {
            assert(self@.events.drop_last() =~= old(self)@.events + Seq::<Event>::empty());
        }
        Ok(())
    }

    /// Sets the governance health metrics and emits `GovernanceHealthMetricsSet`. The
    /// period must end after it starts.
    pub fn set_governance_health_metrics<I: IdentityVerifier<AccountId>>(
        &mut self,
        ids: &I,
        origin: RawOrigin,
        participation_rate: u8,
        vote_concentration: u8,
        avg_response_time: BlockNumber,
        start_block: BlockNumber,
        end_block: BlockNumber,
        evidence_info: Vec<u8>,
        evidence_hash: Option<H256>,
    ) -> (r: DispatchResult)
        requires
            old(self).wf(),
            evidence_info@.len() <= old(self)@.config.max_evidence_info_length,
        ensures
            final(self).wf(),
            r == health_outcome(old(self)@, *ids, origin, start_block, end_block),
            r is Err ==> final(self)@ == old(self)@,
            r is Ok ==> {
                &&& final(self)@ == (PalletState {
                    governance_health: Some(
                        GovernanceHealthMetrics {
                            participation_rate,
                            vote_concentration,
                            avg_response_time,
                            start_block,
                            end_block,
                            evidence_info,
                            evidence_hash,
                            last_updated: old(self)@.block_number,
                        },
                    ),
                    events: final(self)@.events,
                    ..old(self)@
                })
                &&& events_appended(
                    old(self)@.events,
                    Seq::empty(),
                    Event::GovernanceHealthMetricsSet {
                        participation_rate,
                        vote_concentration,
                        avg_response_time,
                        start_block,
                        end_block,
                        evidence_info,
                        evidence_hash,
                        last_updated: old(self)@.block_number,
                    },
                    final(self)@.events,
                )
            },
    {
        if !self.config.emergency_origin.permits(&origin) {
            return Err(DispatchError::BadOrigin);
        }
        let who = match origin {
            RawOrigin::Signed(who) => who,
            _ => return Err(DispatchError::BadOrigin),
        };
        if !ids.has_identity(&who) {
            return Err(DispatchError::Module(Error::IdentityNotVerified));
        }
        if !(end_block > start_block) {
            return Err(DispatchError::Module(Error::InvalidBlockPeriod));
        }
        let current_block = self.block_number;
        let event = Event::GovernanceHealthMetricsSet {
            participation_rate,
            vote_concentration,
            avg_response_time,
            start_block,
            end_block,
            evidence_info: copy_vec(&evidence_info),
            evidence_hash,
            last_updated: current_block,
        };
        self.governance_health = Some(
            GovernanceHealthMetrics {
                participation_rate,
                vote_concentration,
                avg_response_time,
                start_block,
                end_block,
                evidence_info,
                evidence_hash,
                last_updated: current_block,
            },
        );
        self.events.push(event);
        proof {
            assert(self@.events.drop_last() =~= old(self)@.events + Seq::<Event>::empty());
        }
        Ok(())
    }

    /// Registers a professional service provider, or updates its registration, and
    /// emits `ServiceProviderSet`. The provider must hold a verified identity.
    pub fn set_service_provider<I: IdentityVerifier<AccountId>, R: RankChecker<AccountId>>(
        &mut self,
        ids: &I,
        ranks: &R,
        origin: RawOrigin,
        provider_account: AccountId,
        service_types: Vec<ProfessionalServiceType>,
        evidence_info: Vec<u8>,
        evidence_hash: Option<H256>,
    ) -> (r: DispatchResult)
        requires
            old(self).wf(),
            service_types@.len() <= old(self)@.config.max_service_types,
            evidence_info@.len() <= old(self)@.config.max_evidence_info_length,
        ensures
            final(self).wf(),
            r == provider_outcome(old(self)@, *ids, *ranks, origin, provider_account),
            r is Err ==> final(self)@ == old(self)@,
            r is Ok ==> {
                &&& final(self)@ == (PalletState {
                    service_providers: old(self)@.service_providers.insert(
                        provider_account,
                        ServiceProviderDetails {
                            provider_account,
                            service_types,
                            evidence_info,
                            evidence_hash,
                            last_updated: old(self)@.block_number,
                        },
                    ),
                    events: final(self)@.events,
                    ..old(self)@
                })
                &&& events_appended(
                    old(self)@.events,
                    Seq::empty(),
                    Event::ServiceProviderSet {
                        provider_account,
                        service_types,
                        evidence_info,
                        evidence_hash,
                        last_updated: old(self)@.block_number,
                    },
                    final(self)@.events,
                )
            },
    {
        if let Err(e) = Self::check_caller(
            ids,
            ranks,
            None,
            &origin,
            Some(self.config.min_rank_for_provider_registry),
        ) {
            return Err(e);
        }
        if !ids.has_identity(&provider_account) {
            return Err(DispatchError::Module(Error::IdentityNotVerified));
        }
        let current_block = self.block_number;
        let event = Event::ServiceProviderSet {
            provider_account,
            service_types: copy_vec(&service_types),
            evidence_info: copy_vec(&evidence_info),
            evidence_hash,
            last_updated: current_block,
        };
        self.service_providers.insert(
            provider_account,
            ServiceProviderDetails {
                provider_account,
                service_types,
                evidence_info,
                evidence_hash,
                last_updated: current_block,
            },
        );
        self.events.push(event);
        proof {
            assert(self@.events.drop_last() =~= old(self)@.events + Seq::<Event>::empty());
        }
        Ok(())
    }

    /// Records a service referral under its identifier.
    pub fn record_referral(&mut self, referral_id: H256, referral: ServiceReferral)
        requires
            old(self).wf(),
        ensures
            final(self).wf(),
            final(self)@ == (PalletState {
                service_referrals: old(self)@.service_referrals.insert(referral_id, referral),
                events: final(self)@.events,
                ..old(self)@
            }),
            events_appended(
                old(self)@.events,
                Seq::empty(),
                Event::ServiceReferralSet {
                    referral_id,
                    referrer: referral.referrer,
                    provider_account: referral.provider_account,
                    service_types: referral.service_types,
                    description: referral.description,
                    compensation_disclosed: referral.compensation_disclosed,
                    compensation_details: referral.compensation_details,
                    evidence_hash: referral.evidence_hash,
                    last_updated: referral.last_updated,
                },
                final(self)@.events,
            ),
    {
        let event = Event::ServiceReferralSet {
            referral_id,
            referrer: referral.referrer,
            provider_account: referral.provider_account,
            service_types: copy_vec(&referral.service_types),
            description: copy_vec(&referral.description),
            compensation_disclosed: referral.compensation_disclosed,
            compensation_details: copy_opt_bytes(&referral.compensation_details),
            evidence_hash: referral.evidence_hash,
            last_updated: referral.last_updated,
        };
        self.service_referrals.insert(referral_id, referral);
        self.events.push(event);
        assert(self@.events.drop_last() =~= old(self)@.events + Seq::<Event>::empty());
    }

    /// Creates a referral to a registered professional service provider, identified by
    /// the hash of its details, and emits `ServiceReferralSet`. A referrer who discloses
    /// compensation must describe it.
    pub fn set_service_referral<I: IdentityVerifier<AccountId>, R: RankChecker<AccountId>>(
        &mut self,
        ids: &I,
        ranks: &R,
        origin: RawOrigin,
        provider_account: AccountId,
        service_types: Vec<ProfessionalServiceType>,
        description: Vec<u8>,
        compensation_disclosed: bool,
        compensation_details: Option<Vec<u8>>,
        evidence_hash: Option<H256>,
    ) -> (r: DispatchResult)
        requires
            old(self).wf(),
            service_types@.len() <= old(self)@.config.max_service_types,
            description@.len() <= old(self)@.config.max_description_length,
            compensation_details matches Some(v) ==> v@.len()
                <= old(self)@.config.max_compensation_details_length,
        ensures
            final(self).wf(),
            r == referral_outcome(
                old(self)@,
                *ids,
                *ranks,
                origin,
                provider_account,
                compensation_disclosed,
                compensation_details,
            ),
            r is Err ==> final(self)@ == old(self)@,
            r is Ok ==> ({
                let referral = ServiceReferral {
                    referrer: origin->Signed_0,
                    provider_account,
                    service_types,
                    description,
                    compensation_disclosed,
                    compensation_details,
                    evidence_hash,
                    last_updated: old(self)@.block_number,
                };
                let id = hash_of(enc_referral(referral));
                &&& final(self)@ == (PalletState {
                    service_referrals: old(self)@.service_referrals.insert(id, referral),
                    events: final(self)@.events,
                    ..old(self)@
                })
                &&& events_appended(
                    old(self)@.events,
                    Seq::empty(),
                    Event::ServiceReferralSet {
                        referral_id: id,
                        referrer: origin->Signed_0,
                        provider_account,
                        service_types,
                        description,
                        compensation_disclosed,
                        compensation_details,
                        evidence_hash,
                        last_updated: old(self)@.block_number,
                    },
                    final(self)@.events,
                )
            }),
    {
        let who = match Self::check_caller(
            ids,
            ranks,
            None,
            &origin,
            Some(self.config.min_rank_for_referral),
        ) {
            Ok(who) => who,
            Err(e) => return Err(e),
        };
        if !self.service_providers.contains_key(&provider_account) {
            return Err(DispatchError::Module(Error::ServiceProviderNotFound));
        }
        if compensation_disclosed && compensation_details.is_none() {
            return Err(DispatchError::Module(Error::MissingCompensationDisclosure));
        }
        let referral = ServiceReferral {
            referrer: who,
            provider_account,
            service_types,
            description,
            compensation_disclosed,
            compensation_details,
            evidence_hash,
            last_updated: self.block_number,
        };
        let encoded = encode_referral(&referral);
        let id = hash_encoded(&encoded);
        self.record_referral(id, referral);
        Ok(())
    }
}

} // verus!
