//! SCALE encoding of the pallet's records: the byte layout that record identifiers
//! and storage keys are hashed from. Integers are little-endian, enumerations are one
//! byte (the variant's index), options are a `0`/`1` tag followed by the payload, and
//! sequences carry a compact-encoded length prefix.
use vstd::prelude::*;
use crate::types::{
    AccountId, AppealDecision, AppealDetails, AppealStatus, ConflictType, DisciplineDetails,
    DisciplineLevel, EmergencyDetails, EmergencySeverity, EmergencyType, IntegrationDetails,
    IntegrationMechanism, ProfessionalServiceType, ServiceReferral, TargetCollective,
    TransitionDetails, TransitionType, H256,
};

verus! {

/// The lowest `n` bytes of `x`, least significant first.
pub open spec fn le_bytes(x: nat, n: nat) -> Seq<u8>
    decreases n,
{
    if n == 0 {
        Seq::empty()
    } else {
        seq![(x % 256) as u8] + le_bytes(x / 256, (n - 1) as nat)
    }
}

/// Compact encoding of a length below 2^32.
pub open spec fn enc_compact(n: nat) -> Seq<u8> {
    if n < 64 {
        le_bytes(n * 4, 1)
    } else if n < 16384 {
        le_bytes(n * 4 + 1, 2)
    } else if n < 1073741824 {
        le_bytes(n * 4 + 2, 4)
    } else {
        seq![3u8] + le_bytes(n, 4)
    }
}

/// SCALE encoding of a `u64`: eight bytes, least significant first.
pub open spec fn enc_u64(x: u64) -> Seq<u8> {
    le_bytes(x as nat, 8)
}

/// SCALE encoding of a `bool`: one byte, 1 for true and 0 for false.
pub open spec fn enc_bool(b: bool) -> Seq<u8> {
    if b {
        seq![1u8]
    } else {
        seq![0u8]
    }
}

/// A byte string: its compact length, then its bytes.
pub open spec fn enc_bytes(s: Seq<u8>) -> Seq<u8> {
    enc_compact(s.len()) + s
}

/// SCALE encoding of an optional `u64`: 0, or 1 followed by the value.
pub open spec fn enc_opt_u64(o: Option<u64>) -> Seq<u8> {
    match o {
        Some(x) => seq![1u8] + enc_u64(x),
        None => seq![0u8],
    }
}

/// SCALE encoding of an optional hash: 0, or 1 followed by its 32 bytes.
pub open spec fn enc_opt_h256(o: Option<H256>) -> Seq<u8> {
    match o {
        Some(h) => seq![1u8] + h.0@,
        None => seq![0u8],
    }
}

/// SCALE encoding of an optional byte string: 0, or 1 followed by the string.
pub open spec fn enc_opt_bytes(o: Option<Vec<u8>>) -> Seq<u8> {
    match o {
        Some(v) => seq![1u8] + enc_bytes(v@),
        None => seq![0u8],
    }
}

/// Concatenated encodings of account identifiers.
pub open spec fn cat_accounts(s: Seq<AccountId>) -> Seq<u8>
    decreases s.len(),
{
    if s.len() == 0 {
        Seq::empty()
    } else {
        cat_accounts(s.drop_last()) + enc_u64(s.last())
    }
}

/// SCALE encoding of a list of accounts: its compact length, then each account.
pub open spec fn enc_accounts(s: Seq<AccountId>) -> Seq<u8> {
    enc_compact(s.len()) + cat_accounts(s)
}

/// SCALE variant index of a professional service type.
pub open spec fn service_type_index(t: ProfessionalServiceType) -> u8 {
    match t {
        ProfessionalServiceType::BusinessConsulting => 0,
        ProfessionalServiceType::TechnicalDevelopment => 1,
        ProfessionalServiceType::LegalFinancial => 2,
        ProfessionalServiceType::MarketingDesign => 3,
        ProfessionalServiceType::ExtendedMentorship => 4,
        ProfessionalServiceType::Other => 5,
    }
}

/// Concatenated variant indices of service types.
pub open spec fn cat_service_types(s: Seq<ProfessionalServiceType>) -> Seq<u8>
    decreases s.len(),
{
    if s.len() == 0 {
        Seq::empty()
    } else {
        cat_service_types(s.drop_last()).push(service_type_index(s.last()))
    }
}

/// SCALE encoding of a list of service types: its compact length, then each index.
pub open spec fn enc_service_types(s: Seq<ProfessionalServiceType>) -> Seq<u8> {
    enc_compact(s.len()) + cat_service_types(s)
}

/// SCALE variant index of an emergency type.
pub open spec fn emergency_type_index(t: EmergencyType) -> u8 {
    match t {
        EmergencyType::SecurityVulnerability => 0,
        EmergencyType::GovernanceAttack => 1,
        EmergencyType::TechnicalFailure => 2,
        EmergencyType::ReputationThreat => 3,
        EmergencyType::Other => 4,
    }
}

/// SCALE variant index of an emergency severity.
pub open spec fn severity_index(s: EmergencySeverity) -> u8 {
    match s {
        EmergencySeverity::Critical => 0,
        EmergencySeverity::High => 1,
        EmergencySeverity::Medium => 2,
    }
}

/// SCALE variant index of an appeal status.
pub open spec fn appeal_status_index(s: AppealStatus) -> u8 {
    match s {
        AppealStatus::Submitted => 0,
        AppealStatus::UnderReview => 1,
        AppealStatus::Decided => 2,
        AppealStatus::Closed => 3,
    }
}

/// SCALE variant index of an appeal decision.
pub open spec fn appeal_decision_index(d: AppealDecision) -> u8 {
    match d {
        AppealDecision::Upheld => 0,
        AppealDecision::Modified => 1,
        AppealDecision::Rejected => 2,
    }
}

/// SCALE variant index of an integration mechanism.
pub open spec fn mechanism_index(m: IntegrationMechanism) -> u8 {
    match m {
        IntegrationMechanism::JointGovernanceCouncil => 0,
        IntegrationMechanism::LiaisonSystem => 1,
        IntegrationMechanism::IntegratedPlanningCycles => 2,
    }
}

/// SCALE variant index of a discipline level.
pub open spec fn discipline_level_index(l: DisciplineLevel) -> u8 {
    match l {
        DisciplineLevel::Informal => 0,
        DisciplineLevel::Formal => 1,
        DisciplineLevel::Probation => 2,
        DisciplineLevel::Suspension => 3,
        DisciplineLevel::Removal => 4,
    }
}

/// SCALE variant index of a rank transition type.
pub open spec fn transition_type_index(t: TransitionType) -> u8 {
    match t {
        TransitionType::Demotion => 0,
        TransitionType::Promotion => 1,
        TransitionType::Removal => 2,
        TransitionType::RoleChange => 3,
        TransitionType::Resignation => 4,
        TransitionType::Retirement => 5,
        TransitionType::TemporaryAbsence => 6,
    }
}

/// SCALE variant index of a conflict type.
pub open spec fn conflict_type_index(t: ConflictType) -> u8 {
    match t {
        ConflictType::FinancialCritical => 0,
        ConflictType::ProfessionalCritical => 1,
        ConflictType::PersonalNonCritical => 2,
        ConflictType::IdeologicalNonCritical => 3,
        ConflictType::OtherNonCritical => 4,
    }
}

/// SCALE encoding of a target collective: its variant index, then a custom name.
pub open spec fn enc_target(t: TargetCollective) -> Seq<u8> {
    match t {
        TargetCollective::TechnicalFellowship => seq![0u8],
        TargetCollective::SecretaryCollective => seq![1u8],
        TargetCollective::AllianceCollective => seq![2u8],
        TargetCollective::Other(name) => seq![3u8] + enc_bytes(name@),
    }
}

/// SCALE encoding of emergency details, field by field.
pub open spec fn enc_emergency(d: EmergencyDetails) -> Seq<u8> {
    seq![emergency_type_index(d.emergency_type)] + seq![severity_index(d.severity)] + enc_u64(
        d.initiator,
    ) + enc_bytes(d.justification@) + enc_u64(d.declared_at) + enc_opt_u64(d.resolved_at)
        + enc_opt_h256(d.evidence_hash) + enc_bool(d.abuse_detected)
}

/// SCALE encoding of appeal details, field by field.
pub open spec fn enc_appeal(d: AppealDetails) -> Seq<u8> {
    enc_u64(d.appellant) + enc_bytes(d.original_decision@) + enc_bytes(d.justification@) + enc_u64(
        d.submitted_at,
    ) + seq![appeal_status_index(d.status)] + match d.decision {
        Some(x) => seq![1u8, appeal_decision_index(x)],
        None => seq![0u8],
    } + enc_opt_u64(d.decided_at) + enc_opt_h256(d.evidence_hash)
}

/// SCALE encoding of integration details, field by field.
pub open spec fn enc_integration(d: IntegrationDetails) -> Seq<u8> {
    seq![mechanism_index(d.mechanism)] + enc_target(d.target_collective) + enc_bytes(
        d.description@,
    ) + enc_accounts(d.ambassador_participants@) + enc_accounts(d.target_participants@) + enc_u64(
        d.established_at,
    ) + enc_opt_h256(d.evidence_hash)
}

/// SCALE encoding of discipline details, field by field.
pub open spec fn enc_discipline(d: DisciplineDetails) -> Seq<u8> {
    enc_u64(d.subject) + enc_u64(d.issuer) + seq![discipline_level_index(d.level)] + enc_bytes(
        d.reason@,
    ) + enc_u64(d.issued_at) + enc_opt_u64(d.duration) + enc_opt_h256(d.evidence_hash) + enc_bool(
        d.active,
    )
}

/// SCALE encoding of transition details, field by field.
pub open spec fn enc_transition(d: TransitionDetails) -> Seq<u8> {
    enc_u64(d.member) + seq![transition_type_index(d.transition_type)] + le_bytes(
        d.previous_rank as nat,
        2,
    ) + le_bytes(d.new_rank as nat, 2) + enc_bytes(d.justification@) + enc_u64(d.initiated_at)
        + enc_u64(d.effective_at) + enc_opt_u64(d.successor) + enc_bool(
        d.knowledge_transfer_complete,
    ) + enc_opt_h256(d.evidence_hash)
}

/// SCALE encoding of a service referral, field by field.
pub open spec fn enc_referral(d: ServiceReferral) -> Seq<u8> {
    enc_u64(d.referrer) + enc_u64(d.provider_account) + enc_service_types(d.service_types@)
        + enc_bytes(d.description@) + enc_bool(d.compensation_disclosed) + enc_opt_bytes(
        d.compensation_details,
    ) + enc_opt_h256(d.evidence_hash) + enc_u64(d.last_updated)
}

/// Encoding of a conflict-of-interest storage key `(member, conflict type, nonce)`.
pub open spec fn enc_conflict_key(member: AccountId, t: ConflictType, nonce: u32) -> Seq<u8> {
    enc_u64(member) + seq![conflict_type_index(t)] + le_bytes(nonce as nat, 4)
}

/// Lengths that every byte string and list of a record must respect to be encodable.
pub open spec fn encodable_len(n: nat) -> bool {
    n < 4294967296
}

/// Whether a target collective's custom name, if any, has an encodable length.
pub open spec fn target_encodable(t: TargetCollective) -> bool {
    match t {
        TargetCollective::Other(name) => encodable_len(name@.len()),
        _ => true,
    }
}

/// Appends the lowest `n` bytes of `x`, least significant first.
pub fn push_le(out: &mut Vec<u8>, x: u64, n: usize)
    requires
        n <= 8,
    ensures
        final(out)@ == old(out)@ + le_bytes(x as nat, n as nat),
{
    let ghost start = old(out)@;
    let mut v: u64 = x;
    let mut i: usize = 0;
    assert(le_bytes(x as nat, n as nat) =~= Seq::<u8>::empty() + le_bytes(x as nat, n as nat));
    assert(out@ + le_bytes(v as nat, (n - i) as nat) =~= start + le_bytes(x as nat, n as nat));
    while i < n
        invariant
            i <= n,
            out@ + le_bytes(v as nat, (n - i) as nat) == start + le_bytes(x as nat, n as nat),
        decreases n - i,
    {
        let b: u8 = (v % 256) as u8;
        proof {
            let k = (n - i) as nat;
            assert(le_bytes(v as nat, k) == seq![b] + le_bytes((v / 256) as nat, (k - 1) as nat));
            assert(out@.push(b) + le_bytes((v / 256) as nat, (k - 1) as nat) =~= out@ + (seq![b]
                + le_bytes((v / 256) as nat, (k - 1) as nat)));
        }
        out.push(b);
        v = v / 256;
        i = i + 1;
    }
    assert(le_bytes(v as nat, 0) =~= Seq::<u8>::empty());
    assert(out@ + Seq::<u8>::empty() =~= out@);
}

/// Appends the SCALE encoding of a `u64`.
pub fn push_u64(out: &mut Vec<u8>, x: u64)
    ensures
        final(out)@ == old(out)@ + enc_u64(x),
{
    push_le(out, x, 8);
}

/// Appends one byte.
pub fn push_byte(out: &mut Vec<u8>, b: u8)
    ensures
        final(out)@ == old(out)@ + seq![b],
{
    out.push(b);
    assert(old(out)@.push(b) =~= old(out)@ + seq![b]);
}

/// Appends the SCALE encoding of a `bool`.
pub fn push_bool(out: &mut Vec<u8>, b: bool)
    ensures
        final(out)@ == old(out)@ + enc_bool(b),
{
    if b {
        push_byte(out, 1);
    } else {
        push_byte(out, 0);
    }
}

/// Appends the compact encoding of a length.
pub fn push_compact(out: &mut Vec<u8>, n: usize)
    requires
        encodable_len(n as nat),
    ensures
        final(out)@ == old(out)@ + enc_compact(n as nat),
{
    let m: u64 = n as u64;
    if m < 64 {
        push_le(out, m * 4, 1);
    } else if m < 16384 {
        push_le(out, m * 4 + 1, 2);
    } else if m < 1073741824 {
        push_le(out, m * 4 + 2, 4);
    } else {
        let ghost start = old(out)@;
        push_byte(out, 3);
        push_le(out, m, 4);
        assert(out@ =~= start + (seq![3u8] + le_bytes(m as nat, 4)));
    }
}

/// Appends a byte string with its length prefix.
pub fn push_bytes(out: &mut Vec<u8>, s: &Vec<u8>)
    requires
        encodable_len(s@.len()),
    ensures
        final(out)@ == old(out)@ + enc_bytes(s@),
{
    let ghost start = old(out)@;
    push_compact(out, s.len());
    let mut i: usize = 0;
    while i < s.len()
        invariant
            i <= s@.len(),
            out@ == start + enc_compact(s@.len()) + s@.take(i as int),
        decreases s@.len() - i,
    {
        let b = s[i];
        proof {
            assert(s@.take(i + 1) =~= s@.take(i as int).push(b));
        }
        out.push(b);
        i = i + 1;
    }
    assert(s@.take(s@.len() as int) =~= s@);
    assert(out@ =~= start + enc_bytes(s@));
}

/// Appends the SCALE encoding of an optional `u64`.
pub fn push_opt_u64(out: &mut Vec<u8>, o: Option<u64>)
    ensures
        final(out)@ == old(out)@ + enc_opt_u64(o),
{
    let ghost start = old(out)@;
    match o {
        Some(x) => {
            push_byte(out, 1);
            push_u64(out, x);
            assert(out@ =~= start + (seq![1u8] + enc_u64(x)));
        },
        None => {
            push_byte(out, 0);
        },
    }
}

/// Appends the 32 bytes of a hash.
pub fn push_h256(out: &mut Vec<u8>, h: &H256)
    ensures
        final(out)@ == old(out)@ + h.0@,
{
    let ghost start = old(out)@;
    let mut i: usize = 0;
    while i < 32
        invariant
            i <= 32,
            out@ == start + h.0@.take(i as int),
        decreases 32 - i,
    {
        let b = h.0[i];
        proof {
            assert(h.0@.take(i + 1) =~= h.0@.take(i as int).push(b));
        }
        out.push(b);
        i = i + 1;
    }
    assert(h.0@.take(32) =~= h.0@);
}

/// Appends the SCALE encoding of an optional hash.
pub fn push_opt_h256(out: &mut Vec<u8>, o: &Option<H256>)
    ensures
        final(out)@ == old(out)@ + enc_opt_h256(*o),
{
    let ghost start = old(out)@;
    match o {
        Some(h) => {
            push_byte(out, 1);
            push_h256(out, h);
            assert(out@ =~= start + (seq![1u8] + h.0@));
        },
        None => {
            push_byte(out, 0);
        },
    }
}

/// Appends the SCALE encoding of an optional byte string.
pub fn push_opt_bytes(out: &mut Vec<u8>, o: &Option<Vec<u8>>)
    requires
        o matches Some(v) ==> encodable_len(v@.len()),
    ensures
        final(out)@ == old(out)@ + enc_opt_bytes(*o),
{
    let ghost start = old(out)@;
    match o {
        Some(v) => {
            push_byte(out, 1);
            push_bytes(out, v);
            assert(out@ =~= start + (seq![1u8] + enc_bytes(v@)));
        },
        None => {
            push_byte(out, 0);
        },
    }
}

/// Appends the SCALE encoding of a list of accounts.
pub fn push_accounts(out: &mut Vec<u8>, s: &Vec<AccountId>)
    requires
        encodable_len(s@.len()),
    ensures
        final(out)@ == old(out)@ + enc_accounts(s@),
{
    let ghost start = old(out)@;
    push_compact(out, s.len());
    let mut i: usize = 0;
    assert(cat_accounts(s@.take(0)) =~= Seq::<u8>::empty());
    assert(out@ =~= start + enc_compact(s@.len()) + cat_accounts(s@.take(0)));
    while i < s.len()
        invariant
            i <= s@.len(),
            out@ == start + enc_compact(s@.len()) + cat_accounts(s@.take(i as int)),
        decreases s@.len() - i,
    {
        let a = s[i];
        proof {
            assert(s@.take(i + 1).drop_last() =~= s@.take(i as int));
        }
        push_u64(out, a);
        proof {
            assert(out@ =~= start + enc_compact(s@.len()) + cat_accounts(s@.take(i + 1)));
        }
        i = i + 1;
    }
    assert(s@.take(s@.len() as int) =~= s@);
    assert(out@ =~= start + enc_accounts(s@));
}

impl ProfessionalServiceType {
    /// The SCALE variant index of this value.
    pub fn scale_index(&self) -> (r: u8)
        ensures
            r == service_type_index(*self),
    {
        match self {
            ProfessionalServiceType::BusinessConsulting => 0,
            ProfessionalServiceType::TechnicalDevelopment => 1,
            ProfessionalServiceType::LegalFinancial => 2,
            ProfessionalServiceType::MarketingDesign => 3,
            ProfessionalServiceType::ExtendedMentorship => 4,
            ProfessionalServiceType::Other => 5,
        }
    }
}

/// Appends the SCALE encoding of a list of service types.
pub fn push_service_types(out: &mut Vec<u8>, s: &Vec<ProfessionalServiceType>)
    requires
        encodable_len(s@.len()),
    ensures
        final(out)@ == old(out)@ + enc_service_types(s@),
{
    let ghost start = old(out)@;
    push_compact(out, s.len());
    let mut i: usize = 0;
    assert(cat_service_types(s@.take(0)) =~= Seq::<u8>::empty());
    assert(out@ =~= start + enc_compact(s@.len()) + cat_service_types(s@.take(0)));
    while i < s.len()
        invariant
            i <= s@.len(),
            out@ == start + enc_compact(s@.len()) + cat_service_types(s@.take(i as int)),
        decreases s@.len() - i,
    {
        let b = s[i].scale_index();
        proof {
            assert(s@.take(i + 1).drop_last() =~= s@.take(i as int));
        }
        out.push(b);
        proof {
            assert(out@ =~= start + enc_compact(s@.len()) + cat_service_types(s@.take(i + 1)));
        }
        i = i + 1;
    }
    assert(s@.take(s@.len() as int) =~= s@);
    assert(out@ =~= start + enc_service_types(s@));
}

impl EmergencyType {
    /// The SCALE variant index of this value.
    pub fn scale_index(&self) -> (r: u8)
        ensures
            r == emergency_type_index(*self),
    {
        match self {
            EmergencyType::SecurityVulnerability => 0,
            EmergencyType::GovernanceAttack => 1,
            EmergencyType::TechnicalFailure => 2,
            EmergencyType::ReputationThreat => 3,
            EmergencyType::Other => 4,
        }
    }
}

impl EmergencySeverity {
    /// The SCALE variant index of this value.
    pub fn scale_index(&self) -> (r: u8)
        ensures
            r == severity_index(*self),
    {
        match self {
            EmergencySeverity::Critical => 0,
            EmergencySeverity::High => 1,
            EmergencySeverity::Medium => 2,
        }
    }
}

impl AppealStatus {
    /// The SCALE variant index of this value.
    pub fn scale_index(&self) -> (r: u8)
        ensures
            r == appeal_status_index(*self),
    {
        match self {
            AppealStatus::Submitted => 0,
            AppealStatus::UnderReview => 1,
            AppealStatus::Decided => 2,
            AppealStatus::Closed => 3,
        }
    }
}

impl AppealDecision {
    /// The SCALE variant index of this value.
    pub fn scale_index(&self) -> (r: u8)
        ensures
            r == appeal_decision_index(*self),
    {
        match self {
            AppealDecision::Upheld => 0,
            AppealDecision::Modified => 1,
            AppealDecision::Rejected => 2,
        }
    }
}

impl IntegrationMechanism {
    /// The SCALE variant index of this value.
    pub fn scale_index(&self) -> (r: u8)
        ensures
            r == mechanism_index(*self),
    {
        match self {
            IntegrationMechanism::JointGovernanceCouncil => 0,
            IntegrationMechanism::LiaisonSystem => 1,
            IntegrationMechanism::IntegratedPlanningCycles => 2,
        }
    }
}

impl DisciplineLevel {
    /// The SCALE variant index of this value.
    pub fn scale_index(&self) -> (r: u8)
        ensures
            r == discipline_level_index(*self),
    {
        match self {
            DisciplineLevel::Informal => 0,
            DisciplineLevel::Formal => 1,
            DisciplineLevel::Probation => 2,
            DisciplineLevel::Suspension => 3,
            DisciplineLevel::Removal => 4,
        }
    }
}

impl TransitionType {
    /// The SCALE variant index of this value.
    pub fn scale_index(&self) -> (r: u8)
        ensures
            r == transition_type_index(*self),
    {
        match self {
            TransitionType::Demotion => 0,
            TransitionType::Promotion => 1,
            TransitionType::Removal => 2,
            TransitionType::RoleChange => 3,
            TransitionType::Resignation => 4,
            TransitionType::Retirement => 5,
            TransitionType::TemporaryAbsence => 6,
        }
    }
}

impl ConflictType {
    /// The SCALE variant index of this value.
    pub fn scale_index(&self) -> (r: u8)
        ensures
            r == conflict_type_index(*self),
    {
        match self {
            ConflictType::FinancialCritical => 0,
            ConflictType::ProfessionalCritical => 1,
            ConflictType::PersonalNonCritical => 2,
            ConflictType::IdeologicalNonCritical => 3,
            ConflictType::OtherNonCritical => 4,
        }
    }
}

/// Appends the SCALE encoding of a target collective.
pub fn push_target(out: &mut Vec<u8>, t: &TargetCollective)
    requires
        target_encodable(*t),
    ensures
        final(out)@ == old(out)@ + enc_target(*t),
{
    let ghost start = old(out)@;
    match t {
        TargetCollective::TechnicalFellowship => push_byte(out, 0),
        TargetCollective::SecretaryCollective => push_byte(out, 1),
        TargetCollective::AllianceCollective => push_byte(out, 2),
        TargetCollective::Other(name) => {
            push_byte(out, 3);
            push_bytes(out, name);
            assert(out@ =~= start + (seq![3u8] + enc_bytes(name@)));
        },
    }
}

/// SCALE encoding of emergency details.
pub fn encode_emergency(d: &EmergencyDetails) -> (r: Vec<u8>)
    requires
        encodable_len(d.justification@.len()),
    ensures
        r@ == enc_emergency(*d),
{
    let mut out: Vec<u8> = Vec::new();
    push_byte(&mut out, d.emergency_type.scale_index());
    push_byte(&mut out, d.severity.scale_index());
    push_u64(&mut out, d.initiator);
    push_bytes(&mut out, &d.justification);
    push_u64(&mut out, d.declared_at);
    push_opt_u64(&mut out, d.resolved_at);
    push_opt_h256(&mut out, &d.evidence_hash);
    push_bool(&mut out, d.abuse_detected);
    assert(out@ =~= enc_emergency(*d));
    out
}

/// SCALE encoding of appeal details.
pub fn encode_appeal(d: &AppealDetails) -> (r: Vec<u8>)
    requires
        encodable_len(d.original_decision@.len()),
        encodable_len(d.justification@.len()),
    ensures
        r@ == enc_appeal(*d),
{
    let mut out: Vec<u8> = Vec::new();
    push_u64(&mut out, d.appellant);
    push_bytes(&mut out, &d.original_decision);
    push_bytes(&mut out, &d.justification);
    push_u64(&mut out, d.submitted_at);
    push_byte(&mut out, d.status.scale_index());
    let ghost mid = out@;
    match d.decision {
        Some(x) => {
            push_byte(&mut out, 1);
            push_byte(&mut out, x.scale_index());
            assert(out@ =~= mid + seq![1u8, appeal_decision_index(x)]);
        },
        None => {
            push_byte(&mut out, 0);
        },
    }
    push_opt_u64(&mut out, d.decided_at);
    push_opt_h256(&mut out, &d.evidence_hash);
    assert(out@ =~= enc_appeal(*d));
    out
}

/// SCALE encoding of integration details.
pub fn encode_integration(d: &IntegrationDetails) -> (r: Vec<u8>)
    requires
        target_encodable(d.target_collective),
        encodable_len(d.description@.len()),
        encodable_len(d.ambassador_participants@.len()),
        encodable_len(d.target_participants@.len()),
    ensures
        r@ == enc_integration(*d),
{
    let mut out: Vec<u8> = Vec::new();
    push_byte(&mut out, d.mechanism.scale_index());
    push_target(&mut out, &d.target_collective);
    push_bytes(&mut out, &d.description);
    push_accounts(&mut out, &d.ambassador_participants);
    push_accounts(&mut out, &d.target_participants);
    push_u64(&mut out, d.established_at);
    push_opt_h256(&mut out, &d.evidence_hash);
    assert(out@ =~= enc_integration(*d));
    out
}

/// SCALE encoding of discipline details.
pub fn encode_discipline(d: &DisciplineDetails) -> (r: Vec<u8>)
    requires
        encodable_len(d.reason@.len()),
    ensures
        r@ == enc_discipline(*d),
{
    let mut out: Vec<u8> = Vec::new();
    push_u64(&mut out, d.subject);
    push_u64(&mut out, d.issuer);
    push_byte(&mut out, d.level.scale_index());
    push_bytes(&mut out, &d.reason);
    push_u64(&mut out, d.issued_at);
    push_opt_u64(&mut out, d.duration);
    push_opt_h256(&mut out, &d.evidence_hash);
    push_bool(&mut out, d.active);
    assert(out@ =~= enc_discipline(*d));
    out
}

/// SCALE encoding of transition details.
pub fn encode_transition(d: &TransitionDetails) -> (r: Vec<u8>)
    requires
        encodable_len(d.justification@.len()),
    ensures
        r@ == enc_transition(*d),
{
    let mut out: Vec<u8> = Vec::new();
    push_u64(&mut out, d.member);
    push_byte(&mut out, d.transition_type.scale_index());
    push_le(&mut out, d.previous_rank as u64, 2);
    push_le(&mut out, d.new_rank as u64, 2);
    push_bytes(&mut out, &d.justification);
    push_u64(&mut out, d.initiated_at);
    push_u64(&mut out, d.effective_at);
    push_opt_u64(&mut out, d.successor);
    push_bool(&mut out, d.knowledge_transfer_complete);
    push_opt_h256(&mut out, &d.evidence_hash);
    assert(out@ =~= enc_transition(*d));
    out
}

/// SCALE encoding of a service referral.
pub fn encode_referral(d: &ServiceReferral) -> (r: Vec<u8>)
    requires
        encodable_len(d.service_types@.len()),
        encodable_len(d.description@.len()),
        d.compensation_details matches Some(v) ==> encodable_len(v@.len()),
    ensures
        r@ == enc_referral(*d),
{
    let mut out: Vec<u8> = Vec::new();
    push_u64(&mut out, d.referrer);
    push_u64(&mut out, d.provider_account);
    push_service_types(&mut out, &d.service_types);
    push_bytes(&mut out, &d.description);
    push_bool(&mut out, d.compensation_disclosed);
    push_opt_bytes(&mut out, &d.compensation_details);
    push_opt_h256(&mut out, &d.evidence_hash);
    push_u64(&mut out, d.last_updated);
    assert(out@ =~= enc_referral(*d));
    out
}

/// SCALE encoding of a conflict-of-interest storage key.
pub fn encode_conflict_key(member: AccountId, t: ConflictType, nonce: u32) -> (r: Vec<u8>)
    ensures
        r@ == enc_conflict_key(member, t, nonce),
{
    let mut out: Vec<u8> = Vec::new();
    push_u64(&mut out, member);
    push_byte(&mut out, t.scale_index());
    push_le(&mut out, nonce as u64, 4);
    assert(out@ =~= enc_conflict_key(member, t, nonce));
    out
}

} // verus!
