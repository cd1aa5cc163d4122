use parity_scale_codec::Encode;
use pallet_ambassador_governance::identity::{
    AmbassadorIdentityVerifier, AmbassadorRankChecker, Judgement,
};
use pallet_ambassador_governance::pallet::{Config, Pallet};
use pallet_ambassador_governance::types::{
    AppealDecision, AppealStatus, ConflictType, DisciplineLevel, DispatchError, DispatchResult, EmergencyRole,
    EmergencySeverity, EmergencyType, Error, Event, IntegrationMechanism, OriginRule,
    ProfessionalServiceType, RawOrigin, RemarkCategory, TargetCollective, TransitionType, H256,
};

const MAX_JUSTIFICATION_LENGTH: u32 = 1000;
const MAX_DESCRIPTION_LENGTH: u32 = 1000;
const MAX_EMERGENCY_COMMITTEE_MEMBERS: u32 = 5;
const MAX_APPEAL_COMMITTEE_MEMBERS: u32 = 5;

struct Env {
    gov: Pallet,
    ids: AmbassadorIdentityVerifier,
    ranks: AmbassadorRankChecker,
}

fn mock_config() -> Config {
    Config {
        emergency_origin: OriginRule::AnySigned,
        committee_formation_origin: OriginRule::AnySigned,
        emergency_resolution_origin: OriginRule::AnySigned,
        appeal_submission_origin: OriginRule::AnySigned,
        appeal_committee_origin: OriginRule::AnySigned,
        appeal_decision_origin: OriginRule::AnySigned,
        integration_origin: OriginRule::AnySigned,
        max_justification_length: 1000,
        max_description_length: 1000,
        max_resolution_length: 1000,
        max_remark_content_length: 1000,
        max_appeal_committee_members: 5,
        max_emergency_committee_members: 5,
        max_source_participants: 10,
        max_target_participants: 10,
        max_service_types: 10,
        max_compensation_details_length: 1000,
        max_evidence_info_length: 1000,
        min_rank_for_provider_registry: 2,
        min_rank_for_referral: 2,
        min_rank_to_activate_emergency_protocol: 3,
        min_rank_to_form_emergency_committee: 3,
        min_rank_to_submit_appeal: 1,
        min_rank_to_form_appeal_committee: 3,
        min_rank_to_establish_integration: 2,
        min_rank_for_participation_metric_monitoring: 3,
        min_rank_for_parameter_adjustment_triggers: 4,
        min_rank_for_governance_parameter_registry: 4,
        min_rank_for_emergency_classification: 3,
        min_rank_for_emergency_response_authority: 4,
        min_rank_for_governance_participation_requirements: 3,
        min_rank_for_decide_appeal: 3,
        min_rank_for_disciplinary_action_enforcement: 4,
        min_rank_to_set_conflict_of_interest: 0,
        min_rank_for_coordination_mechanisms: 3,
        min_rank_for_joint_decision_making: 4,
        min_rank_for_knowledge_sharing: 3,
        min_rank_for_boundary_management: 4,
        min_rank_for_role_fulfillment_contingency: 4,
        min_rank_to_set_remark: 1,
        max_conflict_of_interest_checks: 10,
    }
}

/// Accounts 0 to 10 have a verified identity; accounts 0 to 6 hold the rank equal to
/// their number, and account 11 holds rank 11 without an identity.
fn new_test_ext() -> Env {
    let mut ids = AmbassadorIdentityVerifier::new();
    for who in 0..=10u64 {
        ids.insert_registration(who, vec![(0, Judgement::Reasonable)]);
    }
    let mut ranks = AmbassadorRankChecker::new();
    for who in 0..=6u64 {
        ranks.set_rank(who, who as u16);
    }
    ranks.set_rank(11, 11);
    Env { gov: Pallet::new(mock_config(), 1), ids, ranks }
}

fn signed(who: u64) -> RawOrigin {
    RawOrigin::Signed(who)
}

fn h256_from_low_u64_be(v: u64) -> H256 {
    let mut bytes = [0u8; 32];
    bytes[24..].copy_from_slice(&v.to_be_bytes());
    H256(bytes)
}

/// A fixed hash standing for arbitrary evidence, distinct for each seed.
fn arbitrary_hash(seed: u8) -> H256 {
    let mut bytes = [0xA5u8; 32];
    bytes[0] = seed;
    H256(bytes)
}

fn create_justification(len: usize) -> Vec<u8> {
    vec![0u8; len.min(MAX_JUSTIFICATION_LENGTH as usize)]
}

fn create_resolution(len: usize) -> Vec<u8> {
    vec![0u8; len.min(1000)]
}

fn get_last_emergency_id(env: &Env) -> H256 {
    for event in env.gov.events().iter() {
        if let Event::EmergencyActivated { emergency_id, .. } = event {
            return *emergency_id;
        }
    }
    panic!("EmergencyActivated event should be emitted");
}

fn assert_has_event(env: &Env, event: Event) {
    assert!(env.gov.events().contains(&event), "event not found: {:?}", event);
}

/// Runs a call that must fail with `expected` and leave the event record as it was.
fn assert_noop(env: &mut Env, expected: DispatchError, call: impl FnOnce(&mut Env) -> DispatchResult) {
    let before = env.gov.events().clone();
    assert_eq!(call(env), Err(expected));
    assert_eq!(env.gov.events(), &before);
}

fn module(e: Error) -> DispatchError {
    DispatchError::Module(e)
}

fn activate(env: &mut Env, who: u64, t: EmergencyType, s: EmergencySeverity, j: Vec<u8>) -> DispatchResult {
    let Env { gov, ids, ranks } = env;
    gov.activate_emergency_protocol(&*ids, &*ranks, signed(who), t, s, j, None)
}

fn form_committee(env: &mut Env, who: u64, id: H256, members: Vec<(u64, EmergencyRole)>) -> DispatchResult {
    let Env { gov, ids, ranks } = env;
    gov.form_emergency_committee(&*ids, &*ranks, signed(who), id, members)
}

fn resolve(env: &mut Env, who: u64, id: H256, abuse: bool, summary: Vec<u8>) -> DispatchResult {
    let Env { gov, ids, ranks } = env;
    gov.resolve_emergency(&*ids, &*ranks, signed(who), id, abuse, summary, None)
}

fn standard_committee() -> Vec<(u64, EmergencyRole)> {
    vec![
        (5, EmergencyRole::TechnicalLead),
        (4, EmergencyRole::GovernanceRepresentative),
        (3, EmergencyRole::IndependentExpert),
    ]
}

#[test]
fn activate_emergency_protocol_works() {
    let mut env = new_test_ext();
    let emergency_type = EmergencyType::SecurityVulnerability;
    let severity = EmergencySeverity::Critical;
    let justification = create_justification(100);
    assert_eq!(activate(&mut env, 3, emergency_type, severity, justification), Ok(()));
    let emergency_id = get_last_emergency_id(&env);
    let emergency = env.gov.emergencies(&emergency_id).unwrap();
    assert_eq!(emergency.emergency_type, emergency_type);
    assert_eq!(emergency.severity, severity);
    assert_eq!(emergency.initiator, 3);
    assert_eq!(emergency.resolved_at, None);
    assert_has_event(
        &env,
        Event::EmergencyActivated { emergency_id, emergency_type, severity, initiator: 3 },
    );
}

#[test]
fn activate_emergency_protocol_fails_with_invalid_origin() {
    let mut env = new_test_ext();
    let justification = create_justification(100);
    assert_noop(&mut env, DispatchError::BadOrigin, |env| {
        let Env { gov, ids, ranks } = env;
        gov.activate_emergency_protocol(
            &*ids,
            &*ranks,
            RawOrigin::Unsigned,
            EmergencyType::SecurityVulnerability,
            EmergencySeverity::Critical,
            justification,
            None,
        )
    });
}

#[test]
fn activate_emergency_protocol_success_with_longest_possible_justification() {
    let mut env = new_test_ext();
    let justification = vec![0u8; MAX_JUSTIFICATION_LENGTH as usize];
    assert_eq!(
        activate(&mut env, 3, EmergencyType::SecurityVulnerability, EmergencySeverity::Critical, justification),
        Ok(())
    );
}

#[test]
fn form_emergency_committee_works() {
    let mut env = new_test_ext();
    assert_eq!(
        activate(&mut env, 3, EmergencyType::SecurityVulnerability, EmergencySeverity::Critical, create_justification(100)),
        Ok(())
    );
    let emergency_id = get_last_emergency_id(&env);
    let members = standard_committee();
    assert_eq!(form_committee(&mut env, 3, emergency_id, members.clone()), Ok(()));
    let committee = env.gov.emergency_committees(&emergency_id).unwrap();
    assert_eq!(committee.len(), 3);
    assert!(committee.contains(&(5, EmergencyRole::TechnicalLead)));
    assert!(committee.contains(&(4, EmergencyRole::GovernanceRepresentative)));
    assert!(committee.contains(&(3, EmergencyRole::IndependentExpert)));
    assert_has_event(&env, Event::EmergencyCommitteeFormed { emergency_id, members });
}

#[test]
fn form_emergency_committee_fails_with_insufficient_rank() {
    let mut env = new_test_ext();
    assert_eq!(
        activate(&mut env, 3, EmergencyType::SecurityVulnerability, EmergencySeverity::Critical, create_justification(100)),
        Ok(())
    );
    let emergency_id = get_last_emergency_id(&env);
    assert_noop(&mut env, module(Error::InsufficientRank), |env| {
        form_committee(env, 2, emergency_id, standard_committee())
    });
}

#[test]
fn form_emergency_committee_fails_with_nonexistent_emergency() {
    let mut env = new_test_ext();
    let emergency_id = h256_from_low_u64_be(999);
    assert_noop(&mut env, module(Error::EmergencyNotFound), |env| {
        form_committee(env, 3, emergency_id, standard_committee())
    });
}

#[test]
fn form_emergency_committee_fails_with_already_formed_committee() {
    let mut env = new_test_ext();
    assert_eq!(
        activate(&mut env, 3, EmergencyType::SecurityVulnerability, EmergencySeverity::Critical, create_justification(100)),
        Ok(())
    );
    let emergency_id = get_last_emergency_id(&env);
    assert_eq!(form_committee(&mut env, 3, emergency_id, standard_committee()), Ok(()));
    assert_noop(&mut env, module(Error::CommitteeAlreadyFormed), |env| {
        form_committee(env, 3, emergency_id, standard_committee())
    });
}

#[test]
fn form_emergency_committee_fails_with_too_many_members() {
    let mut env = new_test_ext();
    assert_eq!(
        activate(&mut env, 3, EmergencyType::SecurityVulnerability, EmergencySeverity::Critical, create_justification(100)),
        Ok(())
    );
    let emergency_id = get_last_emergency_id(&env);
    let mut members_vec = vec![
        (5, EmergencyRole::TechnicalLead),
        (4, EmergencyRole::GovernanceRepresentative),
        (3, EmergencyRole::IndependentExpert),
        (2, EmergencyRole::IndependentExpert),
        (1, EmergencyRole::IndependentExpert),
        (6, EmergencyRole::IndependentExpert),
    ];
    // A list longer than the bound cannot be handed to the call.
    assert!(members_vec.len() > MAX_EMERGENCY_COMMITTEE_MEMBERS as usize);
    members_vec.pop();
    assert!(members_vec.len() <= MAX_EMERGENCY_COMMITTEE_MEMBERS as usize);
    assert_eq!(form_committee(&mut env, 3, emergency_id, members_vec), Ok(()));
}

#[test]
fn form_emergency_committee_fails_with_missing_required_roles() {
    let mut env = new_test_ext();
    assert_eq!(
        activate(&mut env, 3, EmergencyType::SecurityVulnerability, EmergencySeverity::Critical, create_justification(100)),
        Ok(())
    );
    let emergency_id = get_last_emergency_id(&env);
    let members = vec![(5, EmergencyRole::TechnicalLead), (4, EmergencyRole::GovernanceRepresentative)];
    assert_noop(&mut env, module(Error::MissingRequiredRole), |env| {
        form_committee(env, 3, emergency_id, members)
    });
}

#[test]
fn resolve_emergency_works() {
    let mut env = new_test_ext();
    assert_eq!(
        activate(&mut env, 3, EmergencyType::SecurityVulnerability, EmergencySeverity::Critical, create_justification(100)),
        Ok(())
    );
    let emergency_id = get_last_emergency_id(&env);
    assert_eq!(form_committee(&mut env, 3, emergency_id, standard_committee()), Ok(()));
    let resolution_summary = create_resolution(100);
    let abuse_detected = false;
    assert_eq!(resolve(&mut env, 4, emergency_id, abuse_detected, resolution_summary.clone()), Ok(()));
    let emergency = env.gov.emergencies(&emergency_id).unwrap();
    assert!(emergency.resolved_at.is_some());
    assert_eq!(emergency.abuse_detected, abuse_detected);
    assert_has_event(
        &env,
        Event::EmergencyResolved { emergency_id, abuse_detected, resolution_summary },
    );
}

#[test]
fn activate_emergency_protocol_fails_with_insufficient_rank() {
    let mut env = new_test_ext();
    let justification = create_justification(100);
    assert_noop(&mut env, module(Error::InsufficientRank), |env| {
        activate(env, 2, EmergencyType::SecurityVulnerability, EmergencySeverity::Critical, justification)
    });
}

#[test]
fn activate_emergency_protocol_fails_with_rank_2_when_rank_3_required() {
    let mut env = new_test_ext();
    let justification = b"Critical security vulnerability found in XYZ component - evidence stored at ipfs://QmHash456".to_vec();
    assert_noop(&mut env, module(Error::InsufficientRank), |env| {
        activate(env, 2, EmergencyType::SecurityVulnerability, EmergencySeverity::Critical, justification)
    });
}

#[test]
fn resolve_emergency_works_with_principal_ambassador() {
    let mut env = new_test_ext();
    assert_eq!(
        activate(&mut env, 4, EmergencyType::SecurityVulnerability, EmergencySeverity::Critical, create_justification(100)),
        Ok(())
    );
    let emergency_id = get_last_emergency_id(&env);
    assert_eq!(form_committee(&mut env, 3, emergency_id, standard_committee()), Ok(()));
    let abuse_detected = false;
    assert_eq!(resolve(&mut env, 4, emergency_id, abuse_detected, create_resolution(100)), Ok(()));
    let emergency = env.gov.emergencies(&emergency_id).unwrap();
    assert!(emergency.resolved_at.is_some());
    assert_eq!(emergency.abuse_detected, abuse_detected);
}

#[test]
fn resolve_emergency_fails_with_nonexistent_emergency() {
    let mut env = new_test_ext();
    let emergency_id_non_existent = h256_from_low_u64_be(999);
    assert_eq!(
        activate(&mut env, 3, EmergencyType::SecurityVulnerability, EmergencySeverity::Critical, create_justification(100)),
        Ok(())
    );
    let emergency_id = get_last_emergency_id(&env);
    assert_eq!(form_committee(&mut env, 3, emergency_id, standard_committee()), Ok(()));
    assert_noop(&mut env, module(Error::EmergencyNotFound), |env| {
        resolve(env, 4, emergency_id_non_existent, false, create_resolution(100))
    });
}

#[test]
fn resolve_emergency_fails_with_already_resolved_emergency() {
    let mut env = new_test_ext();
    assert_eq!(
        activate(&mut env, 3, EmergencyType::SecurityVulnerability, EmergencySeverity::Critical, create_justification(100)),
        Ok(())
    );
    let emergency_id = get_last_emergency_id(&env);
    assert_eq!(form_committee(&mut env, 3, emergency_id, standard_committee()), Ok(()));
    let resolution_summary = create_resolution(100);
    assert_eq!(resolve(&mut env, 4, emergency_id, false, resolution_summary.clone()), Ok(()));
    assert_noop(&mut env, module(Error::EmergencyAlreadyResolved), |env| {
        resolve(env, 4, emergency_id, false, resolution_summary)
    });
}

#[test]
fn resolve_emergency_fails_with_unauthorized_account() {
    let mut env = new_test_ext();
    assert_eq!(
        activate(&mut env, 3, EmergencyType::SecurityVulnerability, EmergencySeverity::Critical, create_justification(100)),
        Ok(())
    );
    let emergency_id = get_last_emergency_id(&env);
    assert_eq!(form_committee(&mut env, 3, emergency_id, standard_committee()), Ok(()));
    assert_noop(&mut env, module(Error::NotCommitteeMember), |env| {
        resolve(env, 6, emergency_id, false, create_resolution(100))
    });
}

#[test]
fn resolve_emergency_fails_when_already_resolved() {
    let mut env = new_test_ext();
    assert_eq!(
        activate(&mut env, 3, EmergencyType::TechnicalFailure, EmergencySeverity::Critical, create_justification(100)),
        Ok(())
    );
    let emergency_id = get_last_emergency_id(&env);
    assert_eq!(form_committee(&mut env, 3, emergency_id, standard_committee()), Ok(()));
    let resolution_summary = create_resolution(100);
    assert_eq!(resolve(&mut env, 4, emergency_id, false, resolution_summary.clone()), Ok(()));
    assert_noop(&mut env, module(Error::EmergencyAlreadyResolved), |env| {
        resolve(env, 4, emergency_id, false, resolution_summary)
    });
}

fn original_decision() -> Vec<u8> {
    b"Original decision text".to_vec()
}

fn decision_justification() -> Vec<u8> {
    b"Justification for decision".to_vec()
}

fn get_last_appeal_id(env: &Env) -> H256 {
    for event in env.gov.events().iter() {
        if let Event::AppealSubmitted { appeal_id, .. } = event {
            return *appeal_id;
        }
    }
    panic!("AppealSubmitted event should be emitted");
}

fn submit(env: &mut Env, who: u64, decision: Vec<u8>, justification: Vec<u8>) -> DispatchResult {
    let Env { gov, ids, ranks } = env;
    gov.submit_appeal(&*ids, &*ranks, signed(who), decision, justification, None)
}

fn form_appeal(env: &mut Env, who: u64, id: H256, members: Vec<u64>) -> DispatchResult {
    let Env { gov, ids, ranks } = env;
    gov.form_appeal_committee(&*ids, &*ranks, signed(who), id, members)
}

fn decide(
    env: &mut Env,
    who: u64,
    id: H256,
    decision: AppealDecision,
    justification: Vec<u8>,
    evidence_hash: Option<H256>,
) -> DispatchResult {
    let Env { gov, ids, ranks } = env;
    gov.decide_appeal(&*ids, &*ranks, signed(who), id, decision, justification, evidence_hash)
}

/// Submits an appeal as account 1 and returns its identifier.
fn submitted_appeal(env: &mut Env) -> H256 {
    assert_eq!(submit(env, 1, original_decision(), create_justification(100)), Ok(()));
    get_last_appeal_id(env)
}

#[test]
fn submit_appeal_works() {
    let mut env = new_test_ext();
    assert_eq!(submit(&mut env, 1, original_decision(), create_justification(100)), Ok(()));
    let appeal_id = get_last_appeal_id(&env);
    let appeal = env.gov.appeals(&appeal_id).unwrap();
    assert_eq!(appeal.appellant, 1);
    assert_eq!(appeal.status, AppealStatus::Submitted);
    assert_eq!(appeal.decision, None);
    assert_has_event(
        &env,
        Event::AppealSubmitted { appeal_id, appellant: 1, original_decision: original_decision() },
    );
}

#[test]
fn submit_appeal_fails_with_invalid_origin() {
    let mut env = new_test_ext();
    assert_noop(&mut env, DispatchError::BadOrigin, |env| {
        let Env { gov, ids, ranks } = env;
        gov.submit_appeal(
            &*ids,
            &*ranks,
            RawOrigin::Unsigned,
            original_decision(),
            create_justification(100),
            None,
        )
    });
}

#[test]
fn submit_appeal_fails_with_insufficient_rank() {
    let mut env = new_test_ext();
    assert_noop(&mut env, module(Error::InsufficientRank), |env| {
        submit(env, 0, original_decision(), create_justification(100))
    });
}

#[test]
fn submit_appeal_success_with_longest_possible_justification() {
    let mut env = new_test_ext();
    let justification = create_justification(MAX_JUSTIFICATION_LENGTH as usize);
    assert_eq!(submit(&mut env, 1, original_decision(), justification), Ok(()));
}

#[test]
fn form_appeal_committee_works() {
    let mut env = new_test_ext();
    let appeal_id = submitted_appeal(&mut env);
    let members = vec![5, 4, 3];
    assert_eq!(form_appeal(&mut env, 3, appeal_id, members.clone()), Ok(()));
    let committee = env.gov.appeal_committees(&appeal_id).unwrap();
    assert_eq!(committee.len(), 3);
    assert!(committee.contains(&5));
    assert!(committee.contains(&4));
    assert!(committee.contains(&3));
    let appeal = env.gov.appeals(&appeal_id).unwrap();
    assert_eq!(appeal.status, AppealStatus::UnderReview);
    assert_has_event(&env, Event::AppealCommitteeFormed { appeal_id, members });
}

#[test]
fn form_appeal_committee_fails_with_insufficient_rank() {
    let mut env = new_test_ext();
    let appeal_id = submitted_appeal(&mut env);
    assert_noop(&mut env, module(Error::InsufficientRank), |env| {
        form_appeal(env, 2, appeal_id, vec![5, 4, 3])
    });
}

#[test]
fn form_appeal_committee_fails_with_nonexistent_appeal() {
    let mut env = new_test_ext();
    let appeal_id = h256_from_low_u64_be(999);
    assert_noop(&mut env, module(Error::AppealNotFound), |env| {
        form_appeal(env, 3, appeal_id, vec![5, 4, 3])
    });
}

#[test]
fn form_appeal_committee_fails_with_already_formed_committee() {
    let mut env = new_test_ext();
    let appeal_id = submitted_appeal(&mut env);
    assert_eq!(form_appeal(&mut env, 3, appeal_id, vec![5, 4, 3]), Ok(()));
    assert_noop(&mut env, module(Error::AppealCommitteeAlreadyFormed), |env| {
        form_appeal(env, 3, appeal_id, vec![5, 4, 3])
    });
}

#[test]
fn form_appeal_committee_fails_with_too_many_members() {
    let mut env = new_test_ext();
    let appeal_id = submitted_appeal(&mut env);
    let mut members_vec = vec![5, 4, 3, 2, 1, 6];
    // A list longer than the bound cannot be handed to the call.
    assert!(members_vec.len() > MAX_APPEAL_COMMITTEE_MEMBERS as usize);
    members_vec.pop();
    assert!(members_vec.len() <= MAX_APPEAL_COMMITTEE_MEMBERS as usize);
    assert_eq!(form_appeal(&mut env, 3, appeal_id, members_vec), Ok(()));
}

#[test]
fn decide_appeal_works() {
    let mut env = new_test_ext();
    let appeal_id = submitted_appeal(&mut env);
    assert_eq!(form_appeal(&mut env, 3, appeal_id, vec![5, 4, 3]), Ok(()));
    let decision = AppealDecision::Modified;
    let decider = 3;
    let evidence_hash = Some(h256_from_low_u64_be(42));
    assert_eq!(
        decide(&mut env, decider, appeal_id, decision, decision_justification(), evidence_hash),
        Ok(())
    );
    let appeal = env.gov.appeals(&appeal_id).unwrap();
    assert_eq!(appeal.status, AppealStatus::Decided);
    assert_eq!(appeal.decision, Some(decision));
    assert_eq!(appeal.justification, decision_justification());
    assert_has_event(
        &env,
        Event::AppealDecided {
            appeal_id,
            decider,
            decision,
            justification: decision_justification(),
            evidence_hash,
        },
    );
}

#[test]
fn decide_appeal_fails_with_nonexistent_appeal() {
    let mut env = new_test_ext();
    let appeal_id = h256_from_low_u64_be(999);
    assert_noop(&mut env, module(Error::AppealCommitteeNotFormed), |env| {
        decide(
            env,
            3,
            appeal_id,
            AppealDecision::Upheld,
            decision_justification(),
            Some(h256_from_low_u64_be(42)),
        )
    });
}

#[test]
fn decide_appeal_fails_with_no_committee_formed() {
    let mut env = new_test_ext();
    let appeal_id = submitted_appeal(&mut env);
    assert_noop(&mut env, module(Error::AppealCommitteeNotFormed), |env| {
        decide(
            env,
            3,
            appeal_id,
            AppealDecision::Upheld,
            decision_justification(),
            Some(h256_from_low_u64_be(42)),
        )
    });
}

#[test]
fn decide_appeal_fails_with_unauthorized_account() {
    let mut env = new_test_ext();
    let appeal_id = submitted_appeal(&mut env);
    assert_eq!(form_appeal(&mut env, 3, appeal_id, vec![5, 4, 3]), Ok(()));
    assert_noop(&mut env, module(Error::NotCommitteeMember), |env| {
        decide(
            env,
            6,
            appeal_id,
            AppealDecision::Upheld,
            decision_justification(),
            Some(h256_from_low_u64_be(42)),
        )
    });
}

#[test]
fn decide_appeal_fails_with_already_decided_appeal() {
    let mut env = new_test_ext();
    let appeal_id = submitted_appeal(&mut env);
    assert_eq!(form_appeal(&mut env, 3, appeal_id, vec![5, 4, 3]), Ok(()));
    assert_eq!(
        decide(
            &mut env,
            3,
            appeal_id,
            AppealDecision::Modified,
            decision_justification(),
            Some(h256_from_low_u64_be(42)),
        ),
        Ok(())
    );
    assert_noop(&mut env, module(Error::AppealAlreadyDecided), |env| {
        decide(
            env,
            3,
            appeal_id,
            AppealDecision::Rejected,
            decision_justification(),
            Some(h256_from_low_u64_be(42)),
        )
    });
}

fn technical_committee() -> TargetCollective {
    TargetCollective::Other(b"Technical Committee".to_vec())
}

fn create_description(len: usize) -> Vec<u8> {
    vec![0u8; len.min(MAX_DESCRIPTION_LENGTH as usize)]
}

fn integrate(
    env: &mut Env,
    origin: RawOrigin,
    mechanism: IntegrationMechanism,
    target: TargetCollective,
    description: Vec<u8>,
    ambassador_participants: Vec<u64>,
    target_participants: Vec<u64>,
    evidence_hash: Option<H256>,
) -> DispatchResult {
    let Env { gov, ids, ranks } = env;
    gov.establish_integration(
        &*ids,
        &*ranks,
        origin,
        mechanism,
        target,
        description,
        ambassador_participants,
        target_participants,
        evidence_hash,
    )
}

#[test]
fn establish_integration_works() {
    let mut env = new_test_ext();
    let mechanism = IntegrationMechanism::JointGovernanceCouncil;
    let target_collective = technical_committee();
    assert_eq!(
        integrate(
            &mut env,
            signed(2),
            mechanism,
            target_collective.clone(),
            create_description(100),
            vec![3, 4],
            vec![1, 2],
            Some(arbitrary_hash(1)),
        ),
        Ok(())
    );
    let mut found_integration = false;
    for event in env.gov.events().iter() {
        if let Event::IntegrationEstablished { mechanism: m, target_collective: tc, .. } = event {
            if *m == mechanism && *tc == target_collective {
                found_integration = true;
                break;
            }
        }
    }
    assert!(found_integration, "IntegrationEstablished event not found");
}

#[test]
fn establish_integration_fails_with_invalid_origin() {
    let mut env = new_test_ext();
    assert_noop(&mut env, DispatchError::BadOrigin, |env| {
        integrate(
            env,
            RawOrigin::Unsigned,
            IntegrationMechanism::JointGovernanceCouncil,
            technical_committee(),
            create_description(100),
            vec![3, 4],
            vec![1, 2],
            Some(arbitrary_hash(2)),
        )
    });
}

#[test]
fn establish_integration_fails_with_insufficient_rank() {
    let mut env = new_test_ext();
    assert_noop(&mut env, module(Error::InsufficientRank), |env| {
        integrate(
            env,
            signed(1),
            IntegrationMechanism::JointGovernanceCouncil,
            technical_committee(),
            create_description(100),
            vec![3, 4],
            vec![1, 2],
            Some(arbitrary_hash(3)),
        )
    });
}

#[test]
fn establish_integration_success_with_longest_possible_description() {
    let mut env = new_test_ext();
    assert_eq!(
        integrate(
            &mut env,
            signed(2),
            IntegrationMechanism::JointGovernanceCouncil,
            technical_committee(),
            create_description(MAX_DESCRIPTION_LENGTH as usize),
            vec![3, 4],
            vec![1, 2],
            Some(arbitrary_hash(4)),
        ),
        Ok(())
    );
}

#[test]
fn establish_integration_success_with_max_participants() {
    let mut env = new_test_ext();
    assert_eq!(
        integrate(
            &mut env,
            signed(2),
            IntegrationMechanism::JointGovernanceCouncil,
            technical_committee(),
            create_description(100),
            vec![3, 4, 5, 6],
            vec![3, 4],
            Some(arbitrary_hash(5)),
        ),
        Ok(())
    );
}

#[test]
fn emergency_workflow_end_to_end() {
    let mut env = new_test_ext();
    assert_eq!(
        activate(&mut env, 3, EmergencyType::SecurityVulnerability, EmergencySeverity::Critical, create_justification(100)),
        Ok(())
    );
    let emergency_id = get_last_emergency_id(&env);
    assert_eq!(form_committee(&mut env, 3, emergency_id, standard_committee()), Ok(()));
    let abuse_detected = true;
    assert_eq!(resolve(&mut env, 4, emergency_id, abuse_detected, create_resolution(100)), Ok(()));
    let emergency = env.gov.emergencies(&emergency_id).unwrap();
    assert!(emergency.resolved_at.is_some());
    assert_eq!(emergency.abuse_detected, abuse_detected);
    let (mut found_activate, mut found_committee, mut found_resolve) = (false, false, false);
    for event in env.gov.events().iter() {
        match event {
            Event::EmergencyActivated { .. } => {
                found_activate = true;
                assert!(!found_committee && !found_resolve, "Events out of order");
            },
            Event::EmergencyCommitteeFormed { .. } => {
                found_committee = true;
                assert!(found_activate && !found_resolve, "Events out of order");
            },
            Event::EmergencyResolved { .. } => {
                found_resolve = true;
                assert!(found_activate && found_committee, "Events out of order");
            },
            _ => {},
        }
    }
    assert!(found_activate && found_committee && found_resolve, "Not all events were emitted");
}

#[test]
fn appeal_workflow_end_to_end() {
    let mut env = new_test_ext();
    let appeal_id = submitted_appeal(&mut env);
    assert_eq!(form_appeal(&mut env, 3, appeal_id, vec![5, 4, 3]), Ok(()));
    let decision = AppealDecision::Modified;
    assert_eq!(
        decide(&mut env, 4, appeal_id, decision, decision_justification(), Some(h256_from_low_u64_be(42))),
        Ok(())
    );
    let appeal = env.gov.appeals(&appeal_id).unwrap();
    assert_eq!(appeal.status, AppealStatus::Decided);
    assert_eq!(appeal.decision, Some(decision));
    let (mut found_submit, mut found_committee, mut found_decide) = (false, false, false);
    for event in env.gov.events().iter() {
        match event {
            Event::AppealSubmitted { .. } => {
                found_submit = true;
                assert!(!found_committee && !found_decide, "Events out of order");
            },
            Event::AppealCommitteeFormed { .. } => {
                found_committee = true;
                assert!(found_submit && !found_decide, "Events out of order");
            },
            Event::AppealDecided { .. } => {
                found_decide = true;
                assert!(found_submit && found_committee, "Events out of order");
            },
            _ => {},
        }
    }
    assert!(found_submit && found_committee && found_decide, "Not all events were emitted");
}

fn create_evidence_info(len: usize) -> Vec<u8> {
    vec![0u8; len.min(1000)]
}

fn register_provider(
    env: &mut Env,
    who: u64,
    provider: u64,
    service_types: Vec<ProfessionalServiceType>,
    evidence_info: Vec<u8>,
    evidence_hash: Option<H256>,
) -> DispatchResult {
    let Env { gov, ids, ranks } = env;
    gov.set_service_provider(&*ids, &*ranks, signed(who), provider, service_types, evidence_info, evidence_hash)
}

fn refer(
    env: &mut Env,
    who: u64,
    provider: u64,
    service_types: Vec<ProfessionalServiceType>,
    description: Vec<u8>,
    compensation_disclosed: bool,
    compensation_details: Option<Vec<u8>>,
    evidence_hash: Option<H256>,
) -> DispatchResult {
    let Env { gov, ids, ranks } = env;
    gov.set_service_referral(
        &*ids,
        &*ranks,
        signed(who),
        provider,
        service_types,
        description,
        compensation_disclosed,
        compensation_details,
        evidence_hash,
    )
}

#[test]
fn set_service_provider_works() {
    let mut env = new_test_ext();
    let provider_account = 3;
    let service_types =
        vec![ProfessionalServiceType::LegalFinancial, ProfessionalServiceType::TechnicalDevelopment];
    let evidence_info = create_evidence_info(100);
    let evidence_hash = Some(arbitrary_hash(10));
    assert_eq!(
        register_provider(&mut env, 2, provider_account, service_types.clone(), evidence_info.clone(), evidence_hash),
        Ok(())
    );
    let mut found_event = false;
    for event in env.gov.events().iter() {
        if let Event::ServiceProviderSet {
            provider_account: id,
            service_types: types,
            evidence_info: info,
            evidence_hash: hash,
            last_updated: _,
        } = event
        {
            assert_eq!(id, &provider_account);
            assert_eq!(types, &service_types);
            assert_eq!(info, &evidence_info);
            assert_eq!(hash, &evidence_hash);
            found_event = true;
            break;
        }
    }
    assert!(found_event, "ServiceProviderSet event should be emitted");
    let provider = env.gov.service_providers(&provider_account).unwrap();
    assert_eq!(provider.provider_account, provider_account);
    assert_eq!(provider.service_types, service_types);
    assert_eq!(provider.evidence_info, evidence_info);
    assert_eq!(provider.evidence_hash, evidence_hash);
}

#[test]
fn set_service_provider_fails_with_insufficient_rank() {
    let mut env = new_test_ext();
    assert_noop(&mut env, module(Error::InsufficientRank), |env| {
        register_provider(
            env,
            1,
            3,
            vec![ProfessionalServiceType::LegalFinancial],
            create_evidence_info(100),
            Some(arbitrary_hash(11)),
        )
    });
}

#[test]
fn set_service_provider_fails_with_unverified_identity() {
    let mut env = new_test_ext();
    assert_noop(&mut env, module(Error::IdentityNotVerified), |env| {
        register_provider(
            env,
            2,
            11,
            vec![ProfessionalServiceType::LegalFinancial],
            create_evidence_info(100),
            Some(arbitrary_hash(12)),
        )
    });
}

#[test]
fn set_service_referral_works() {
    let mut env = new_test_ext();
    let provider_account = 3;
    let service_types =
        vec![ProfessionalServiceType::LegalFinancial, ProfessionalServiceType::TechnicalDevelopment];
    assert_eq!(
        register_provider(&mut env, 2, provider_account, service_types, create_evidence_info(100), Some(arbitrary_hash(13))),
        Ok(())
    );
    let description = create_description(100);
    let compensation_disclosed = true;
    let compensation_details = Some(b"Received 10 tokens for this referral".to_vec());
    let evidence_hash = Some(arbitrary_hash(14));
    env.gov.reset_events();
    assert_eq!(
        refer(
            &mut env,
            2,
            provider_account,
            vec![ProfessionalServiceType::LegalFinancial],
            description.clone(),
            compensation_disclosed,
            compensation_details.clone(),
            evidence_hash,
        ),
        Ok(())
    );
    let mut found_event = false;
    let mut referral_id = None;
    for event in env.gov.events().iter() {
        if let Event::ServiceReferralSet {
            referral_id: r_id,
            referrer,
            provider_account: p_acct,
            service_types,
            description: desc,
            compensation_disclosed: c_disclosed,
            compensation_details: _,
            evidence_hash: hash,
            last_updated: _,
        } = event
        {
            found_event = true;
            referral_id = Some(*r_id);
            assert_eq!(*referrer, 2);
            assert_eq!(*p_acct, provider_account);
            assert_eq!(*service_types, vec![ProfessionalServiceType::LegalFinancial]);
            assert_eq!(*desc, description);
            assert_eq!(*c_disclosed, compensation_disclosed);
            assert_eq!(*hash, evidence_hash);
            break;
        }
    }
    assert!(found_event, "ServiceReferralSet event should be emitted");
    let referral = env.gov.service_referrals(&referral_id.unwrap()).unwrap();
    assert_eq!(referral.referrer, 2);
    assert_eq!(referral.provider_account, provider_account);
    assert_eq!(referral.service_types, vec![ProfessionalServiceType::LegalFinancial]);
    assert_eq!(referral.description, description);
    assert_eq!(referral.compensation_disclosed, compensation_disclosed);
    assert_eq!(referral.compensation_details, compensation_details);
    assert_eq!(referral.evidence_hash, evidence_hash);
}

#[test]
fn set_service_referral_fails_with_insufficient_rank() {
    let mut env = new_test_ext();
    let provider_account = 3;
    let service_types = vec![ProfessionalServiceType::LegalFinancial];
    assert_eq!(
        register_provider(&mut env, 2, provider_account, service_types.clone(), create_evidence_info(100), Some(arbitrary_hash(15))),
        Ok(())
    );
    assert_noop(&mut env, module(Error::InsufficientRank), |env| {
        refer(env, 1, provider_account, service_types, create_description(100), false, None, Some(arbitrary_hash(16)))
    });
}

#[test]
fn set_service_referral_fails_with_nonexistent_provider() {
    let mut env = new_test_ext();
    assert_noop(&mut env, module(Error::ServiceProviderNotFound), |env| {
        refer(
            env,
            2,
            12,
            vec![ProfessionalServiceType::LegalFinancial],
            create_description(100),
            false,
            None,
            Some(arbitrary_hash(17)),
        )
    });
}

#[test]
fn set_service_referral_fails_with_missing_compensation_disclosure() {
    let mut env = new_test_ext();
    let provider_account = 3;
    let service_types = vec![ProfessionalServiceType::LegalFinancial];
    let evidence_hash = Some(arbitrary_hash(18));
    assert_eq!(
        register_provider(&mut env, 2, provider_account, service_types.clone(), create_evidence_info(100), evidence_hash),
        Ok(())
    );
    assert_noop(&mut env, module(Error::MissingCompensationDisclosure), |env| {
        refer(env, 2, provider_account, service_types, create_description(100), true, None, evidence_hash)
    });
}

#[test]
fn professional_services_workflow_end_to_end() {
    let mut env = new_test_ext();
    let provider_account = 3;
    let service_types =
        vec![ProfessionalServiceType::LegalFinancial, ProfessionalServiceType::TechnicalDevelopment];
    assert_eq!(
        register_provider(&mut env, 2, provider_account, service_types, create_evidence_info(100), Some(arbitrary_hash(19))),
        Ok(())
    );
    env.gov.reset_events();
    assert_eq!(
        refer(
            &mut env,
            2,
            provider_account,
            vec![ProfessionalServiceType::LegalFinancial],
            create_description(100),
            true,
            Some(b"Received 5% commission for this referral".to_vec()),
            Some(arbitrary_hash(20)),
        ),
        Ok(())
    );
    assert_eq!(
        refer(
            &mut env,
            2,
            provider_account,
            vec![ProfessionalServiceType::LegalFinancial],
            create_description(80),
            false,
            None,
            Some(arbitrary_hash(21)),
        ),
        Ok(())
    );
    let found_referrals = env
        .gov
        .events()
        .iter()
        .filter(|e| matches!(e, Event::ServiceReferralSet { .. }))
        .count();
    assert_eq!(found_referrals, 2, "Two ServiceReferralSet events should be emitted");
}

fn declare_conflict(
    env: &mut Env,
    who: u64,
    conflict_type: ConflictType,
    description: Vec<u8>,
    relates_to: Option<Vec<u8>>,
    start_block: Option<u64>,
    end_block: Option<u64>,
    evidence_hash: Option<H256>,
    nonce: Option<u32>,
) -> DispatchResult {
    let Env { gov, ids, ranks } = env;
    gov.set_conflict_of_interest(
        &*ids,
        &*ranks,
        signed(who),
        conflict_type,
        description,
        relates_to,
        start_block,
        end_block,
        evidence_hash,
        nonce,
    )
}

#[test]
fn identity_verification_is_enforced() {
    let mut env = new_test_ext();
    let account_with_identity = 3;
    let account_without_identity = 11;
    let decision = b"Appeal decision hash".to_vec();
    let justification =
        b"Appeal justification with reference to off-chain evidence location".to_vec();
    assert_eq!(submit(&mut env, account_with_identity, decision.clone(), justification.clone()), Ok(()));
    assert_noop(&mut env, module(Error::IdentityNotVerified), |env| {
        submit(env, account_without_identity, decision, justification)
    });
    assert_eq!(
        declare_conflict(
            &mut env,
            account_with_identity,
            ConflictType::FinancialCritical,
            b"Conflict".to_vec(),
            Some(b"Related matter".to_vec()),
            None,
            None,
            Some(h256_from_low_u64_be(42)),
            None,
        ),
        Ok(())
    );
    assert_noop(&mut env, module(Error::IdentityNotVerified), |env| {
        declare_conflict(
            env,
            account_without_identity,
            ConflictType::FinancialCritical,
            b"Conflict".to_vec(),
            Some(b"Related matter".to_vec()),
            None,
            None,
            Some(h256_from_low_u64_be(42)),
            None,
        )
    });
}

fn transition(
    env: &mut Env,
    who: u64,
    member: u64,
    transition_type: TransitionType,
    previous_rank: u16,
    new_rank: u16,
    justification: Vec<u8>,
    effective_at: u64,
    successor: Option<u64>,
    evidence_hash: Option<H256>,
) -> DispatchResult {
    let Env { gov, ids, ranks } = env;
    gov.register_rank_transition(
        &*ids,
        &*ranks,
        signed(who),
        member,
        transition_type,
        previous_rank,
        new_rank,
        justification,
        effective_at,
        successor,
        evidence_hash,
    )
}

/// Registers a rank transition as account 4 and checks its event and its record.
fn check_transition(
    transition_type: TransitionType,
    previous_rank: u16,
    new_rank: u16,
    justification: Vec<u8>,
    successor: Option<u64>,
    evidence_hash: Option<H256>,
) {
    let mut env = new_test_ext();
    let member = 3;
    let effective_at = 100;
    env.gov.reset_events();
    assert_eq!(
        transition(
            &mut env,
            4,
            member,
            transition_type,
            previous_rank,
            new_rank,
            justification.clone(),
            effective_at,
            successor,
            evidence_hash,
        ),
        Ok(())
    );
    let mut found_event = false;
    let mut transition_id = None;
    for event in env.gov.events().iter() {
        if let Event::RankTransitionRegistered {
            transition_id: id,
            member: m,
            transition_type: t_type,
            previous_rank: p_rank,
            new_rank: n_rank,
            effective_at: e_at,
            evidence_hash: e_hash,
        } = event
        {
            transition_id = Some(*id);
            assert_eq!(m, &member);
            assert_eq!(t_type, &transition_type);
            assert_eq!(p_rank, &previous_rank);
            assert_eq!(n_rank, &new_rank);
            assert_eq!(e_at, &effective_at);
            assert_eq!(e_hash, &evidence_hash);
            found_event = true;
            break;
        }
    }
    assert!(found_event, "RankTransitionRegistered event not found");
    let record = env.gov.transitions(&transition_id.unwrap()).unwrap();
    assert_eq!(record.member, member);
    assert_eq!(record.transition_type, transition_type);
    assert_eq!(record.previous_rank, previous_rank);
    assert_eq!(record.new_rank, new_rank);
    assert_eq!(record.justification, justification);
    assert_eq!(record.effective_at, effective_at);
    assert_eq!(record.successor, successor);
    assert_eq!(record.evidence_hash, evidence_hash);
    assert_eq!(record.knowledge_transfer_complete, false);
}

#[test]
fn register_rank_transition_works() {
    check_transition(
        TransitionType::Promotion,
        2,
        3,
        b"Excellent contributions to the ecosystem".to_vec(),
        None,
        Some(arbitrary_hash(30)),
    );
}

#[test]
fn register_rank_transition_without_evidence_hash_works() {
    check_transition(TransitionType::Demotion, 3, 2, b"Performance issues".to_vec(), None, None);
}

#[test]
fn register_rank_transition_fails_with_insufficient_rank() {
    let mut env = new_test_ext();
    assert_noop(&mut env, module(Error::InsufficientRank), |env| {
        transition(
            env,
            3,
            3,
            TransitionType::Promotion,
            2,
            3,
            b"Excellent contributions to the ecosystem".to_vec(),
            100,
            None,
            Some(arbitrary_hash(31)),
        )
    });
}

#[test]
fn register_rank_transition_fails_with_unverified_identity() {
    let mut env = new_test_ext();
    assert_noop(&mut env, module(Error::IdentityNotVerified), |env| {
        transition(
            env,
            11,
            3,
            TransitionType::Promotion,
            2,
            3,
            b"Excellent contributions to the ecosystem".to_vec(),
            100,
            None,
            Some(arbitrary_hash(32)),
        )
    });
}

#[test]
fn register_rank_transition_with_successor_works() {
    check_transition(
        TransitionType::Resignation,
        3,
        0,
        b"Moving to a different role".to_vec(),
        Some(2),
        Some(arbitrary_hash(33)),
    );
}

fn create_remark_content(len: usize) -> Vec<u8> {
    let actual_len = len.min(1000);
    let content =
        format!("Test remark content (evidence: ipfs://Qm123456) with length {}", actual_len);
    let bytes = content.into_bytes();
    if bytes.len() < actual_len {
        let mut padded = bytes.clone();
        padded.extend(vec![0u8; actual_len - bytes.len()]);
        padded
    } else {
        bytes[..actual_len].to_vec()
    }
}

fn remark(
    env: &mut Env,
    who: u64,
    category: RemarkCategory,
    content: Vec<u8>,
    evidence_hash: Option<H256>,
    nonce: Option<u32>,
) -> DispatchResult {
    let Env { gov, ids, ranks } = env;
    gov.set_remark(&*ids, &*ranks, signed(who), category, content, evidence_hash, nonce)
}

#[test]
fn set_remark_works() {
    let mut env = new_test_ext();
    let category = RemarkCategory::Governance;
    let content = create_remark_content(100);
    let evidence_hash = Some(arbitrary_hash(40));
    assert_eq!(remark(&mut env, 2, category, content.clone(), evidence_hash, None), Ok(()));
    let mut found_event = false;
    let mut nonce_used = 0;
    for event in env.gov.events().iter() {
        if let Event::RemarkSet {
            author,
            category: event_category,
            content: event_content,
            evidence_hash: event_hash,
            nonce,
            last_updated: _,
        } = event
        {
            assert_eq!(author, &2);
            assert_eq!(event_category, &category);
            assert_eq!(event_content, &content);
            assert_eq!(event_hash, &evidence_hash);
            nonce_used = *nonce;
            found_event = true;
            break;
        }
    }
    assert!(found_event, "RemarkSet event should be emitted");
    let stored = env.gov.remarks(&(2, category, nonce_used)).unwrap();
    assert_eq!(stored.content, content);
    assert_eq!(stored.evidence_hash, evidence_hash);
    let updated_content = create_remark_content(150);
    let updated_evidence_hash = Some(arbitrary_hash(41));
    assert_eq!(
        remark(&mut env, 2, category, updated_content.clone(), updated_evidence_hash, Some(nonce_used)),
        Ok(())
    );
    let updated = env.gov.remarks(&(2, category, nonce_used)).unwrap();
    assert_eq!(updated.content, updated_content);
    assert_eq!(updated.evidence_hash, updated_evidence_hash);
}

#[test]
fn set_remark_fails_with_insufficient_rank() {
    let mut env = new_test_ext();
    assert_noop(&mut env, module(Error::InsufficientRank), |env| {
        remark(env, 0, RemarkCategory::Governance, create_remark_content(100), Some(arbitrary_hash(42)), None)
    });
}

#[test]
fn set_remark_fails_with_nonexistent_nonce() {
    let mut env = new_test_ext();
    assert_noop(&mut env, module(Error::RemarkNotFound), |env| {
        remark(env, 2, RemarkCategory::Governance, create_remark_content(100), Some(arbitrary_hash(43)), Some(999))
    });
}

#[test]
fn set_remark_fails_with_no_identity() {
    let mut env = new_test_ext();
    assert_noop(&mut env, module(Error::IdentityNotVerified), |env| {
        remark(env, 99, RemarkCategory::Governance, create_remark_content(100), Some(arbitrary_hash(44)), None)
    });
}

fn conflict_nonce_of(event: &Event) -> Option<u32> {
    match event {
        Event::ConflictOfInterestSet { nonce, .. } => *nonce,
        _ => panic!("Expected ConflictOfInterestSet event"),
    }
}

#[test]
fn set_conflict_of_interest_works() {
    let mut env = new_test_ext();
    let conflict_type = ConflictType::FinancialCritical;
    let description =
        b"Financial interest in related project. Details at: ipfs://QmConflictDetails789".to_vec();
    let relates_to = Some(b"Integration proposal #42".to_vec());
    let start_block = Some(100u64);
    let end_block = Some(500u64);
    let evidence_hash = Some(arbitrary_hash(50));
    assert_eq!(
        declare_conflict(
            &mut env,
            2,
            conflict_type,
            description.clone(),
            relates_to.clone(),
            start_block,
            end_block,
            evidence_hash,
            None,
        ),
        Ok(())
    );
    let mut found_event = false;
    let mut nonce_used = 0;
    for event in env.gov.events().iter() {
        if let Event::ConflictOfInterestSet {
            member,
            conflict_type: event_conflict_type,
            description: event_description,
            nonce,
            ..
        } = event
        {
            found_event = true;
            nonce_used = nonce.unwrap();
            assert_eq!(member, &2);
            assert_eq!(event_conflict_type, &conflict_type);
            assert_eq!(event_description, &description);
            break;
        }
    }
    assert!(found_event, "ConflictOfInterestSet event should be emitted");
    let conflict = env.gov.conflicts(&(2, conflict_type, nonce_used)).unwrap();
    assert_eq!(conflict.member, 2);
    assert_eq!(conflict.conflict_type, conflict_type);
    assert_eq!(conflict.description, description);
    assert_eq!(conflict.relates_to, relates_to);
    assert_eq!(conflict.start_block, start_block);
    assert_eq!(conflict.end_block, end_block);
    assert_eq!(conflict.evidence_hash, evidence_hash);
    let updated_description =
        b"Updated financial interest. New details at: ipfs://QmUpdatedDetails".to_vec();
    let updated_relates_to = Some(b"Updated integration proposal #42".to_vec());
    let updated_end_block = Some(600u64);
    let updated_evidence_hash = Some(arbitrary_hash(51));
    assert_eq!(
        declare_conflict(
            &mut env,
            2,
            conflict_type,
            updated_description.clone(),
            updated_relates_to.clone(),
            start_block,
            updated_end_block,
            updated_evidence_hash,
            Some(nonce_used),
        ),
        Ok(())
    );
    let updated = env.gov.conflicts(&(2, conflict_type, nonce_used)).unwrap();
    assert_eq!(updated.description, updated_description);
    assert_eq!(updated.relates_to, updated_relates_to);
    assert_eq!(updated.end_block, updated_end_block);
    assert_eq!(updated.evidence_hash, updated_evidence_hash);
}

#[test]
fn set_conflict_of_interest_with_default_start_block_works() {
    let mut env = new_test_ext();
    let conflict_type = ConflictType::ProfessionalCritical;
    let current_block = env.gov.block_number();
    assert_eq!(
        declare_conflict(
            &mut env,
            3,
            conflict_type,
            b"Professional conflict. Details at: ipfs://QmProfDetails".to_vec(),
            None,
            None,
            None,
            Some(arbitrary_hash(52)),
            None,
        ),
        Ok(())
    );
    let mut nonce_used = 0;
    for event in env.gov.events().iter() {
        if let Event::ConflictOfInterestSet { nonce, .. } = event {
            nonce_used = nonce.unwrap();
            break;
        }
    }
    let conflict = env.gov.conflicts(&(3, conflict_type, nonce_used)).unwrap();
    assert_eq!(conflict.start_block, Some(current_block));
}

#[test]
fn set_conflict_of_interest_fails_with_nonexistent_conflict() {
    let mut env = new_test_ext();
    assert_noop(&mut env, module(Error::ConflictOfInterestNotFound), |env| {
        declare_conflict(
            env,
            2,
            ConflictType::IdeologicalNonCritical,
            b"Ideological bias regarding implementation approach. Details at: ipfs://QmConflictDetails123".to_vec(),
            Some(b"Some related matter".to_vec()),
            Some(100),
            Some(500),
            Some(arbitrary_hash(53)),
            Some(999),
        )
    });
}

#[test]
fn set_conflict_of_interest_fails_with_insufficient_rank() {
    let mut env = new_test_ext();
    assert_noop(&mut env, module(Error::InsufficientRank), |env| {
        declare_conflict(
            env,
            10,
            ConflictType::FinancialCritical,
            b"Financial conflict. Details at: ipfs://QmConflictDetails456".to_vec(),
            Some(b"Some related matter".to_vec()),
            Some(100),
            Some(500),
            Some(arbitrary_hash(54)),
            None,
        )
    });
}

#[test]
fn set_conflict_of_interest_multiple_conflicts_works() {
    let mut env = new_test_ext();
    let conflict_type1 = ConflictType::FinancialCritical;
    let description1 =
        b"Financial interest in outcome. Details at: ipfs://QmConflictDetails789".to_vec();
    let description2 =
        b"Financial interest in outcome. Details at: ipfs://QmConflictDetails456".to_vec();
    assert_eq!(
        declare_conflict(
            &mut env,
            2,
            conflict_type1,
            description1.clone(),
            Some(b"Related matter 1".to_vec()),
            None,
            None,
            Some(arbitrary_hash(55)),
            None,
        ),
        Ok(())
    );
    assert_eq!(
        declare_conflict(
            &mut env,
            2,
            conflict_type1,
            description2.clone(),
            Some(b"Related matter 2".to_vec()),
            None,
            None,
            Some(arbitrary_hash(56)),
            None,
        ),
        Ok(())
    );
    let mut nonce1 = None;
    let mut nonce2 = None;
    for event in env.gov.events().iter() {
        if let Event::ConflictOfInterestSet { member, conflict_type, description, nonce, .. } = event {
            if member == &2 && conflict_type == &conflict_type1 {
                if description == &description1 {
                    nonce1 = *nonce;
                } else if description == &description2 {
                    nonce2 = *nonce;
                }
            }
        }
    }
    assert!(nonce1.is_some(), "First conflict should have a nonce");
    assert!(nonce2.is_some(), "Second conflict should have a nonce");
    assert_ne!(nonce1, nonce2, "Conflicts should have different nonces");
    assert!(env.gov.conflicts(&(2, conflict_type1, nonce1.unwrap())).is_some());
    assert!(env.gov.conflicts(&(2, conflict_type1, nonce2.unwrap())).is_some());
}

#[test]
fn register_conflict_of_interest_for_emergency_works() {
    let mut env = new_test_ext();
    let initiator = 3;
    let committee_member = 4;
    let justification = b"Critical security vulnerability detected in runtime".to_vec();
    let evidence_hash = h256_from_low_u64_be(1);
    let result = {
        let Env { gov, ids, ranks } = &mut env;
        gov.activate_emergency_protocol(
            &*ids,
            &*ranks,
            signed(initiator),
            EmergencyType::SecurityVulnerability,
            EmergencySeverity::Critical,
            justification,
            Some(evidence_hash),
        )
    };
    assert_eq!(result, Ok(()));
    let emergency_id = match env.gov.events().last().unwrap() {
        Event::EmergencyActivated { emergency_id, .. } => *emergency_id,
        _ => panic!("Expected EmergencyActivated event"),
    };
    let emergency_id_str = format!("{:?}", sp_core::H256(emergency_id.0));
    let relates_to = emergency_id_str.as_bytes().to_vec();
    let description = "I have a professional relationship with the affected system vendor (evidence: ipfs://QmConflictOfInterest123)".as_bytes().to_vec();
    let conflict_evidence_hash = H256(sp_crypto_hashing::blake2_256("QmConflictOfInterest123".as_bytes()));
    let conflict_type = ConflictType::ProfessionalCritical;
    assert_eq!(
        declare_conflict(
            &mut env,
            committee_member,
            conflict_type,
            description.clone(),
            Some(relates_to.clone()),
            None,
            None,
            Some(conflict_evidence_hash),
            None,
        ),
        Ok(())
    );
    let nonce = conflict_nonce_of(env.gov.events().last().unwrap());
    let conflict = env.gov.conflicts(&(committee_member, conflict_type, nonce.unwrap_or(0))).unwrap();
    assert_eq!(conflict.member, committee_member);
    assert_eq!(conflict.conflict_type, conflict_type);
    assert_eq!(conflict.description, description);
    assert_eq!(conflict.relates_to, Some(relates_to));
    assert_eq!(conflict.evidence_hash, Some(conflict_evidence_hash));
    let expert = 3;
    let members = vec![
        (initiator, EmergencyRole::TechnicalLead),
        (committee_member, EmergencyRole::GovernanceRepresentative),
        (expert, EmergencyRole::IndependentExpert),
    ];
    assert_noop(&mut env, module(Error::ConflictOfInterestDetected), |env| {
        form_committee(env, initiator, emergency_id, members)
    });
}

fn discipline_reason() -> Vec<u8> {
    b"Violation of code of conduct. Details at: ipfs://QmDisciplinaryEvidence123".to_vec()
}

fn resolution_text() -> Vec<u8> {
    b"Issue resolved through mediation. Details at: ipfs://QmResolutionEvidence456".to_vec()
}

fn blake2_hash(text: &str) -> H256 {
    H256(sp_crypto_hashing::blake2_256(text.as_bytes()))
}

fn discipline(
    env: &mut Env,
    who: u64,
    subject: u64,
    level: DisciplineLevel,
    reason: Vec<u8>,
    duration: Option<u64>,
    evidence_hash: Option<H256>,
) -> DispatchResult {
    let Env { gov, ids, ranks } = env;
    gov.register_disciplinary_action(&*ids, &*ranks, signed(who), subject, level, reason, duration, evidence_hash)
}

fn resolve_discipline(
    env: &mut Env,
    who: u64,
    id: H256,
    summary: Vec<u8>,
    evidence_hash: Option<H256>,
) -> DispatchResult {
    let Env { gov, ids, ranks } = env;
    gov.resolve_disciplinary_action(&*ids, &*ranks, signed(who), id, summary, evidence_hash)
}

fn last_discipline_id(env: &Env) -> H256 {
    match env.gov.events().last().unwrap() {
        Event::DisciplinaryActionRegistered { discipline_id, .. } => *discipline_id,
        _ => panic!("Expected DisciplinaryActionRegistered event"),
    }
}

/// Registers a formal disciplinary action against account 2, issued by account 4.
fn registered_discipline(env: &mut Env) -> H256 {
    assert_eq!(
        discipline(
            env,
            4,
            2,
            DisciplineLevel::Formal,
            discipline_reason(),
            Some(100),
            Some(blake2_hash("QmDisciplinaryEvidence123")),
        ),
        Ok(())
    );
    last_discipline_id(env)
}

#[test]
fn register_disciplinary_action_works() {
    let mut env = new_test_ext();
    let issuer = 4;
    let subject = 2;
    let level = DisciplineLevel::Formal;
    let duration = Some(100u64);
    let evidence_hash = Some(blake2_hash("QmDisciplinaryEvidence123"));
    assert_eq!(
        discipline(&mut env, issuer, subject, level, discipline_reason(), duration, evidence_hash),
        Ok(())
    );
    let discipline_id = last_discipline_id(&env);
    let record = env.gov.disciplines(&discipline_id).unwrap();
    assert_eq!(record.subject, subject);
    assert_eq!(record.issuer, issuer);
    assert_eq!(record.level, level);
    assert_eq!(record.reason, discipline_reason());
    assert_eq!(record.duration, duration);
    assert_eq!(record.evidence_hash, evidence_hash);
    assert_eq!(record.active, true);
}

#[test]
fn register_disciplinary_action_fails_with_insufficient_rank() {
    let mut env = new_test_ext();
    assert_noop(&mut env, module(Error::InsufficientRank), |env| {
        discipline(
            env,
            1,
            2,
            DisciplineLevel::Formal,
            discipline_reason(),
            Some(100),
            Some(blake2_hash("QmDisciplinaryEvidence123")),
        )
    });
}

#[test]
fn resolve_disciplinary_action_works() {
    let mut env = new_test_ext();
    let subject = 2;
    let discipline_id = registered_discipline(&mut env);
    let resolution_summary = resolution_text();
    let resolution_evidence_hash = Some(blake2_hash("QmResolutionEvidence456"));
    assert_eq!(
        resolve_discipline(&mut env, 4, discipline_id, resolution_summary.clone(), resolution_evidence_hash),
        Ok(())
    );
    match env.gov.events().last().unwrap().clone() {
        Event::DisciplinaryActionResolved {
            discipline_id: resolved_id,
            subject: resolved_subject,
            resolution_summary: resolved_summary,
            evidence_hash: resolved_evidence_hash,
        } => {
            assert_eq!(resolved_id, discipline_id);
            assert_eq!(resolved_subject, subject);
            assert_eq!(resolved_summary, resolution_summary);
            assert_eq!(resolved_evidence_hash, resolution_evidence_hash);
        },
        _ => panic!("Expected DisciplinaryActionResolved event"),
    }
    assert_eq!(env.gov.disciplines(&discipline_id).unwrap().active, false);
}

#[test]
fn resolve_disciplinary_action_fails_for_nonexistent_action() {
    let mut env = new_test_ext();
    let nonexistent_discipline_id = arbitrary_hash(60);
    assert_noop(&mut env, module(Error::DisciplinaryActionNotFound), |env| {
        resolve_discipline(
            env,
            4,
            nonexistent_discipline_id,
            resolution_text(),
            Some(blake2_hash("QmResolutionEvidence456")),
        )
    });
}

#[test]
fn resolve_disciplinary_action_fails_for_already_resolved_action() {
    let mut env = new_test_ext();
    let discipline_id = registered_discipline(&mut env);
    let evidence = Some(blake2_hash("QmResolutionEvidence456"));
    assert_eq!(resolve_discipline(&mut env, 4, discipline_id, resolution_text(), evidence), Ok(()));
    assert_noop(&mut env, module(Error::DisciplinaryActionAlreadyResolved), |env| {
        resolve_discipline(env, 4, discipline_id, resolution_text(), evidence)
    });
}

#[test]
fn resolve_disciplinary_action_fails_with_insufficient_rank() {
    let mut env = new_test_ext();
    let discipline_id = registered_discipline(&mut env);
    assert_noop(&mut env, module(Error::InsufficientRank), |env| {
        resolve_discipline(
            env,
            1,
            discipline_id,
            resolution_text(),
            Some(blake2_hash("QmResolutionEvidence456")),
        )
    });
}

fn last_appeal_id(env: &Env) -> H256 {
    match env.gov.events().last().unwrap() {
        Event::AppealSubmitted { appeal_id, .. } => *appeal_id,
        _ => panic!("Expected AppealSubmitted event"),
    }
}

fn account(name: &str, index: u8, seed: u8) -> u64 {
    let entropy = sp_crypto_hashing::blake2_256(&(name, index, seed).encode());
    let mut bytes = [0u8; 8];
    bytes.copy_from_slice(&entropy[..8]);
    u64::from_le_bytes(bytes)
}

#[test]
fn form_appeal_committee_fails_with_conflict_of_interest() {
    let mut env = new_test_ext();
    let appellant = 2;
    let committee_member = 3;
    let committee_organizer = 4;
    let original = b"Original decision that is being appealed. Evidence at: ipfs://QmOriginalDecision123".to_vec();
    let justification = b"Appeal justification with evidence. Evidence at: ipfs://QmAppealEvidence456".to_vec();
    assert_eq!(submit(&mut env, appellant, original, justification), Ok(()));
    let appeal_id = last_appeal_id(&env);
    let description =
        b"Professional relationship with appellant. Evidence at: ipfs://QmConflictOfInterest123".to_vec();
    let relates_to = format!("{:?}", sp_core::H256(appeal_id.0)).into_bytes();
    let conflict_evidence_hash = blake2_hash("QmConflictOfInterest123");
    assert_eq!(
        declare_conflict(
            &mut env,
            committee_member,
            ConflictType::ProfessionalCritical,
            description.clone(),
            Some(relates_to.clone()),
            None,
            None,
            Some(conflict_evidence_hash),
            None,
        ),
        Ok(())
    );
    let nonce = conflict_nonce_of(env.gov.events().last().unwrap());
    let conflict = env
        .gov
        .conflicts(&(committee_member, ConflictType::ProfessionalCritical, nonce.unwrap_or(0)))
        .unwrap();
    assert_eq!(conflict.member, committee_member);
    assert_eq!(conflict.conflict_type, ConflictType::ProfessionalCritical);
    assert_eq!(conflict.description, description);
    assert_eq!(conflict.relates_to, Some(relates_to));
    assert_eq!(conflict.evidence_hash, Some(conflict_evidence_hash));
    assert_noop(&mut env, module(Error::ConflictOfInterestDetected), |env| {
        form_appeal(env, committee_organizer, appeal_id, vec![committee_member, 5, 6])
    });
}

#[test]
fn form_appeal_committee_works_with_non_critical_conflict() {
    let mut env = new_test_ext();
    let appellant = 2;
    let committee_member = 3;
    let committee_organizer = 4;
    let original = b"Original decision that is being appealed. Evidence at: ipfs://QmOriginalDecision123".to_vec();
    assert_eq!(submit(&mut env, appellant, original, create_justification(100)), Ok(()));
    let appeal_id = last_appeal_id(&env);
    let relates_to = format!("{:?}", sp_core::H256(appeal_id.0)).into_bytes();
    assert_eq!(
        declare_conflict(
            &mut env,
            committee_member,
            ConflictType::PersonalNonCritical,
            b"Personal acquaintance with appellant. Evidence at: ipfs://QmConflictOfInterest456".to_vec(),
            Some(relates_to),
            None,
            None,
            Some(blake2_hash("QmConflictOfInterest456")),
            None,
        ),
        Ok(())
    );
    let members = vec![committee_member, account("member2", 3, 3), account("member3", 3, 3)];
    assert!(members[1] >= 1 && members[2] >= 1);
    assert_eq!(form_appeal(&mut env, committee_organizer, appeal_id, members), Ok(()));
    assert!(env.gov.appeal_committees(&appeal_id).is_some());
    let warning_event_emitted = env
        .gov
        .events()
        .iter()
        .any(|e| matches!(e, Event::NonCriticalAppealConflictWarning { .. }));
    assert!(warning_event_emitted, "NonCriticalAppealConflictWarning event should have been emitted");
}
