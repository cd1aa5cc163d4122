//! Data types of the Ambassador Fellowship governance pallet: the enumerations that
//! classify governance actions, the records kept in storage, the events deposited
//! by successful calls and the errors returned by failing ones.
use vstd::prelude::*;

verus! {

/// Account identifier of a fellowship member.
pub type AccountId = u64;

/// Block number.
pub type BlockNumber = u64;

/// Rank in the ranked collective of the Ambassador Fellowship.
pub type Rank = u16;

/// A 256-bit hash, used both for record identifiers and for evidence hashes.
#[derive(Clone, Copy, Debug, PartialEq, Eq)]
pub struct H256(pub [u8; 32]);

impl H256 {
    /// Exact equality of two hashes.
    pub fn same_as(&self, other: &H256) -> (r: bool)
        ensures
            r == (*self == *other),
    {
        let mut i: usize = 0;
        while i < 32
            invariant
                0 <= i <= 32,
                forall|k: int| 0 <= k < i ==> self.0@[k] == other.0@[k],
            decreases 32 - i,
        {
            if self.0[i] != other.0[i] {
                return false;
            }
            i = i + 1;
        }
        proof {
            assert(self.0@ =~= other.0@);
            broadcast use vstd::array::axiom_array_ext_equal;
            assert(self.0 == other.0);
        }
        true
    }
}

/// The origin of a call: the root origin, a signed account, or no origin at all.
#[derive(Clone, Copy, Debug, PartialEq, Eq, Structural)]
pub enum RawOrigin {
    Root,
    Signed(AccountId),
    Unsigned,
}

/// Which origins a privileged call accepts.
#[derive(Clone, Copy, Debug, PartialEq, Eq, Structural)]
pub enum OriginRule {
    /// Any signed origin.
    AnySigned,
    /// Only the given signed account.
    SignedBy(AccountId),
    /// Only the root origin.
    RootOnly,
}

/// Whether `rule` accepts `origin`.
pub open spec fn rule_permits(rule: OriginRule, origin: RawOrigin) -> bool {
    match rule {
        OriginRule::AnySigned => origin is Signed,
        OriginRule::SignedBy(a) => origin == RawOrigin::Signed(a),
        OriginRule::RootOnly => origin is Root,
    }
}

impl OriginRule {
    /// Checks an origin against the rule.
    pub fn permits(&self, origin: &RawOrigin) -> (r: bool)
        ensures
            r == rule_permits(*self, *origin),
    {
        match (self, origin) {
            (OriginRule::AnySigned, RawOrigin::Signed(_)) => true,
            (OriginRule::SignedBy(a), RawOrigin::Signed(b)) => *a == *b,
            (OriginRule::RootOnly, RawOrigin::Root) => true,
            _ => false,
        }
    }
}

/// Emergency types that can trigger the emergency response protocol.
#[derive(Clone, Copy, Debug, PartialEq, Eq, Structural)]
pub enum EmergencyType {
    SecurityVulnerability,
    GovernanceAttack,
    TechnicalFailure,
    ReputationThreat,
    Other,
}

/// Emergency severity levels.
#[derive(Clone, Copy, Debug, PartialEq, Eq, Structural)]
pub enum EmergencySeverity {
    Critical,
    High,
    Medium,
}

/// Role in an emergency committee.
#[derive(Clone, Copy, Debug, PartialEq, Eq, Structural)]
pub enum EmergencyRole {
    TechnicalLead,
    GovernanceRepresentative,
    IndependentExpert,
}

/// Status of an appeal.
#[derive(Clone, Copy, Debug, PartialEq, Eq, Structural)]
pub enum AppealStatus {
    Submitted,
    UnderReview,
    Decided,
    Closed,
}

/// Decision on an appeal.
#[derive(Clone, Copy, Debug, PartialEq, Eq, Structural)]
pub enum AppealDecision {
    Upheld,
    Modified,
    Rejected,
}

/// Cross-collective integration mechanism.
#[derive(Clone, Copy, Debug, PartialEq, Eq, Structural)]
pub enum IntegrationMechanism {
    JointGovernanceCouncil,
    LiaisonSystem,
    IntegratedPlanningCycles,
}

/// Target collective of a cross-collective integration; a custom collective's name
/// holds at most 32 bytes.
#[derive(Clone, Debug, PartialEq, Eq)]
pub enum TargetCollective {
    TechnicalFellowship,
    SecretaryCollective,
    AllianceCollective,
    Other(Vec<u8>),
}

/// Progressive discipline level.
#[derive(Clone, Copy, Debug, PartialEq, Eq, Structural)]
pub enum DisciplineLevel {
    Informal,
    Formal,
    Probation,
    Suspension,
    Removal,
}

/// Rank transition type.
#[derive(Clone, Copy, Debug, PartialEq, Eq, Structural)]
pub enum TransitionType {
    Demotion,
    Promotion,
    Removal,
    RoleChange,
    Resignation,
    Retirement,
    TemporaryAbsence,
}

/// Conflict of interest type.
#[derive(Clone, Copy, Debug, PartialEq, Eq, Structural)]
pub enum ConflictType {
    FinancialCritical,
    ProfessionalCritical,
    PersonalNonCritical,
    IdeologicalNonCritical,
    OtherNonCritical,
}

/// Whether a conflict of this type bars a member from committee participation.
pub open spec fn conflict_is_critical(t: ConflictType) -> bool {
    t is FinancialCritical || t is ProfessionalCritical
}

/// Helper trait to determine if a conflict type is critical.
pub trait IsConflictCritical {
    /// Returns true if the conflict type is considered critical for committee participation.
    fn is_critical(&self) -> bool;
}

impl IsConflictCritical for ConflictType {
    fn is_critical(&self) -> (r: bool)
        ensures
            r == conflict_is_critical(*self),
    {
        match self {
            ConflictType::FinancialCritical | ConflictType::ProfessionalCritical => true,
            _ => false,
        }
    }
}

/// On-chain remark category.
#[derive(Clone, Copy, Debug, PartialEq, Eq, Structural)]
pub enum RemarkCategory {
    Governance,
    Technical,
    Administrative,
    Community,
    Emergency,
    ProfessionalServices,
}

/// Professional service type.
#[derive(Clone, Copy, Debug, PartialEq, Eq, Structural)]
pub enum ProfessionalServiceType {
    BusinessConsulting,
    TechnicalDevelopment,
    LegalFinancial,
    MarketingDesign,
    ExtendedMentorship,
    Other,
}

/// Emergency details.
#[derive(Clone, Debug, PartialEq, Eq)]
pub struct EmergencyDetails {
    pub emergency_type: EmergencyType,
    pub severity: EmergencySeverity,
    pub initiator: AccountId,
    pub justification: Vec<u8>,
    pub declared_at: BlockNumber,
    pub resolved_at: Option<BlockNumber>,
    pub evidence_hash: Option<H256>,
    pub abuse_detected: bool,
}

/// Appeal details.
#[derive(Clone, Debug, PartialEq, Eq)]
pub struct AppealDetails {
    pub appellant: AccountId,
    pub original_decision: Vec<u8>,
    pub justification: Vec<u8>,
    pub submitted_at: BlockNumber,
    pub status: AppealStatus,
    pub decision: Option<AppealDecision>,
    pub decided_at: Option<BlockNumber>,
    pub evidence_hash: Option<H256>,
}

/// Cross-collective integration details.
#[derive(Clone, Debug, PartialEq, Eq)]
pub struct IntegrationDetails {
    pub mechanism: IntegrationMechanism,
    pub target_collective: TargetCollective,
    pub description: Vec<u8>,
    pub ambassador_participants: Vec<AccountId>,
    pub target_participants: Vec<AccountId>,
    pub established_at: BlockNumber,
    pub evidence_hash: Option<H256>,
}

/// Details of a disciplinary action.
#[derive(Clone, Debug, PartialEq, Eq)]
pub struct DisciplineDetails {
    pub subject: AccountId,
    pub issuer: AccountId,
    pub level: DisciplineLevel,
    pub reason: Vec<u8>,
    pub issued_at: BlockNumber,
    pub duration: Option<BlockNumber>,
    pub evidence_hash: Option<H256>,
    pub active: bool,
}

/// Details of a recorded rank transition.
#[derive(Clone, Debug, PartialEq, Eq)]
pub struct TransitionDetails {
    pub member: AccountId,
    pub transition_type: TransitionType,
    pub previous_rank: Rank,
    pub new_rank: Rank,
    pub justification: Vec<u8>,
    pub initiated_at: BlockNumber,
    pub effective_at: BlockNumber,
    pub successor: Option<AccountId>,
    pub knowledge_transfer_complete: bool,
    pub evidence_hash: Option<H256>,
}

/// A declared conflict of interest.
#[derive(Clone, Debug, PartialEq, Eq)]
pub struct ConflictRegistration {
    pub member: AccountId,
    pub conflict_type: ConflictType,
    pub description: Vec<u8>,
    pub relates_to: Option<Vec<u8>>,
    pub start_block: Option<BlockNumber>,
    pub end_block: Option<BlockNumber>,
    pub evidence_hash: Option<H256>,
    pub last_updated: BlockNumber,
}

/// A structured on-chain remark.
#[derive(Clone, Debug, PartialEq, Eq)]
pub struct OnChainRemark {
    pub content: Vec<u8>,
    pub evidence_hash: Option<H256>,
    pub last_updated: BlockNumber,
}

/// A registered professional service provider.
#[derive(Clone, Debug, PartialEq, Eq)]
pub struct ServiceProviderDetails {
    pub provider_account: AccountId,
    pub service_types: Vec<ProfessionalServiceType>,
    pub evidence_info: Vec<u8>,
    pub evidence_hash: Option<H256>,
    pub last_updated: BlockNumber,
}

/// A referral to a registered professional service provider.
#[derive(Clone, Debug, PartialEq, Eq)]
pub struct ServiceReferral {
    pub referrer: AccountId,
    pub provider_account: AccountId,
    pub service_types: Vec<ProfessionalServiceType>,
    pub description: Vec<u8>,
    pub compensation_disclosed: bool,
    pub compensation_details: Option<Vec<u8>>,
    pub evidence_hash: Option<H256>,
    pub last_updated: BlockNumber,
}

/// Governance health metrics.
#[derive(Clone, Debug, PartialEq, Eq)]
pub struct GovernanceHealthMetrics {
    pub participation_rate: u8,
    pub vote_concentration: u8,
    pub avg_response_time: BlockNumber,
    pub start_block: BlockNumber,
    pub end_block: BlockNumber,
    pub evidence_info: Vec<u8>,
    pub evidence_hash: Option<H256>,
    pub last_updated: BlockNumber,
}

/// Events deposited by the pallet.
#[allow(inconsistent_fields)]
#[derive(Clone, Debug, PartialEq, Eq)]
pub enum Event {
    EmergencyActivated {
        emergency_id: H256,
        emergency_type: EmergencyType,
        severity: EmergencySeverity,
        initiator: AccountId,
    },
    EmergencyCommitteeFormed { emergency_id: H256, members: Vec<(AccountId, EmergencyRole)> },
    EmergencyResolved { emergency_id: H256, abuse_detected: bool, resolution_summary: Vec<u8> },
    AppealSubmitted { appeal_id: H256, appellant: AccountId, original_decision: Vec<u8> },
    AppealCommitteeFormed { appeal_id: H256, members: Vec<AccountId> },
    AppealDecided {
        appeal_id: H256,
        decider: AccountId,
        decision: AppealDecision,
        justification: Vec<u8>,
        evidence_hash: Option<H256>,
    },
    IntegrationEstablished {
        integration_id: H256,
        mechanism: IntegrationMechanism,
        target_collective: TargetCollective,
        description: Vec<u8>,
        ambassador_participants: Vec<AccountId>,
        target_participants: Vec<AccountId>,
        evidence_hash: Option<H256>,
        last_updated: BlockNumber,
    },
    DisciplinaryActionRegistered {
        discipline_id: H256,
        subject: AccountId,
        level: DisciplineLevel,
        reason: Vec<u8>,
    },
    DisciplinaryActionResolved {
        discipline_id: H256,
        subject: AccountId,
        resolution_summary: Vec<u8>,
        evidence_hash: Option<H256>,
    },
    RankTransitionRegistered {
        transition_id: H256,
        member: AccountId,
        transition_type: TransitionType,
        previous_rank: Rank,
        new_rank: Rank,
        effective_at: BlockNumber,
        evidence_hash: Option<H256>,
    },
    ConflictOfInterestSet {
        member: AccountId,
        conflict_type: ConflictType,
        description: Vec<u8>,
        relates_to: Option<Vec<u8>>,
        start_block: Option<BlockNumber>,
        end_block: Option<BlockNumber>,
        evidence_hash: Option<H256>,
        nonce: Option<u32>,
        last_updated: BlockNumber,
    },
    CriticalEmergencyConflictOfInterestDetected {
        emergency_id: H256,
        member: AccountId,
        conflict_type: ConflictType,
    },
    NonCriticalEmergencyConflictOfInterestWarning {
        emergency_id: H256,
        member: AccountId,
        conflict_type: ConflictType,
    },
    CriticalAppealConflictDetected { appeal_id: H256, member: AccountId, conflict_type: ConflictType },
    NonCriticalAppealConflictWarning {
        appeal_id: H256,
        member: AccountId,
        conflict_type: ConflictType,
    },
    CriticalIntegrationConflictDetected {
        integration_id: H256,
        member: AccountId,
        conflict_type: ConflictType,
    },
    NonCriticalIntegrationConflictWarning {
        integration_id: H256,
        member: AccountId,
        conflict_type: ConflictType,
    },
    RemarkSet {
        author: AccountId,
        category: RemarkCategory,
        content: Vec<u8>,
        evidence_hash: Option<H256>,
        nonce: u32,
        last_updated: BlockNumber,
    },
    GovernanceHealthMetricsSet {
        participation_rate: u8,
        vote_concentration: u8,
        avg_response_time: BlockNumber,
        start_block: BlockNumber,
        end_block: BlockNumber,
        evidence_info: Vec<u8>,
        evidence_hash: Option<H256>,
        last_updated: BlockNumber,
    },
    ServiceProviderSet {
        provider_account: AccountId,
        service_types: Vec<ProfessionalServiceType>,
        evidence_info: Vec<u8>,
        evidence_hash: Option<H256>,
        last_updated: BlockNumber,
    },
    ServiceReferralSet {
        referral_id: H256,
        referrer: AccountId,
        provider_account: AccountId,
        service_types: Vec<ProfessionalServiceType>,
        description: Vec<u8>,
        compensation_disclosed: bool,
        compensation_details: Option<Vec<u8>>,
        evidence_hash: Option<H256>,
        last_updated: BlockNumber,
    },
}

/// Errors of the pallet.
#[derive(Clone, Copy, Debug, PartialEq, Eq, Structural)]
pub enum Error {
    EmergencyNotFound,
    EmergencyAlreadyResolved,
    CommitteeAlreadyFormed,
    CommitteeNotFormed,
    InvalidBlockPeriod,
    InvalidCommitteeComposition,
    NotAuthorizedOrigin,
    NotCommitteeMember,
    TooManyCommitteeMembers,
    AppealNotFound,
    AppealAlreadyDecided,
    AppealCommitteeAlreadyFormed,
    AppealCommitteeNotFormed,
    IntegrationAlreadyExists,
    IntegrationNotFound,
    MissingRequiredRole,
    ConflictOfInterestNotFound,
    ConflictOfInterestDetected,
    TooManyConflictOfInterestChecks,
    RemarkNotFound,
    ServiceProviderNotFound,
    ServiceProviderAlreadyRegistered,
    IdentityNotVerified,
    InsufficientRank,
    MissingCompensationDisclosure,
    DisciplinaryActionNotFound,
    DisciplinaryActionAlreadyResolved,
}

/// Why a call failed: its origin was refused, or the pallet returned one of its errors.
#[derive(Clone, Copy, Debug, PartialEq, Eq, Structural)]
pub enum DispatchError {
    BadOrigin,
    Module(Error),
}

/// Result of a call.
pub type DispatchResult = Result<(), DispatchError>;

} // verus!
