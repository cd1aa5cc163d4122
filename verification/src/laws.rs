//! Properties of the pallet that span its calls: who may act, what can happen only
//! once, how nonces advance, and how conflicts of interest stop committees.
use vstd::prelude::*;
use crate::hashing::debug_text;
use crate::identity::{
    judgement_positive, judgements_positive, AmbassadorIdentityVerifier, AmbassadorRankChecker,
    Judgement,
};
use crate::pallet::{
    appeal_committee_formed, appeal_committee_outcome, appeal_decided, caller_check,
    conflict_outcome, conflict_scan, conflict_stored, conflicts_outcome, decide_appeal_outcome,
    discipline_resolved, emergency_committee_formed, emergency_committee_outcome,
    emergency_resolved, has_role, in_emergency_committee, integration_outcome, integration_recorded, next_nonce, provider_outcome,
    referral_outcome, relates_to_text, remark_outcome, remark_stored, resolve_discipline_outcome,
    resolve_emergency_outcome, stored_nonce, IdentityVerifier, PalletState, RankChecker,
};
use crate::storage::ConflictKey;
use crate::types::{
    conflict_is_critical, rule_permits, AccountId, AppealDecision, AppealDetails, AppealStatus,
    ConflictRegistration,
    ConflictType, DispatchError, EmergencyRole, Error, Event, H256, IntegrationDetails,
    OnChainRemark, OriginRule, RawOrigin, RemarkCategory,
};

verus! {

/// The opening checks of a call pass exactly when the origin is signed, the call's
/// configured origin (if it has one) accepts it, the signer's identity is verified and
/// the signer holds the call's minimum rank (if it demands one).
pub proof fn law_access_control<I: IdentityVerifier<AccountId>, R: RankChecker<AccountId>>(
    ids: I,
    ranks: R,
    gate: Option<OriginRule>,
    origin: RawOrigin,
    min_rank: Option<u16>,
)
    ensures
        caller_check(ids, ranks, gate, origin, min_rank) is Ok <==> {
            &&& origin is Signed
            &&& (gate matches Some(rule) ==> rule_permits(rule, origin))
            &&& ids.is_verified(origin->Signed_0)
            &&& (min_rank matches Some(m) ==> ranks.rank_at_least(origin->Signed_0, m))
        },
{
}

/// In every state, each rank-gated call succeeds only for a signer with a verified
/// identity who holds the minimum rank that the configuration sets for that call.
pub proof fn law_rank_gated_calls<I: IdentityVerifier<AccountId>, R: RankChecker<AccountId>>(
    s: PalletState,
    ids: I,
    ranks: R,
    origin: RawOrigin,
)
    ensures
        forall|id: H256, members: Seq<(AccountId, EmergencyRole)>|
            #[trigger] emergency_committee_outcome(s, ids, ranks, origin, id, members) is Ok
                ==> origin is Signed && ids.is_verified(origin->Signed_0) && ranks.rank_at_least(
                origin->Signed_0,
                s.config.min_rank_to_form_emergency_committee,
            ),
        forall|id: H256|
            #[trigger] resolve_emergency_outcome(s, ids, ranks, origin, id) is Ok
                ==> origin is Signed && ids.is_verified(origin->Signed_0) && ranks.rank_at_least(
                origin->Signed_0,
                s.config.min_rank_for_emergency_response_authority,
            ),
        forall|id: H256|
            #[trigger] resolve_discipline_outcome(s, ids, ranks, origin, id) is Ok
                ==> origin is Signed && ids.is_verified(origin->Signed_0) && ranks.rank_at_least(
                origin->Signed_0,
                s.config.min_rank_for_disciplinary_action_enforcement,
            ),
        forall|id: H256, members: Seq<AccountId>|
            #[trigger] appeal_committee_outcome(s, ids, ranks, origin, id, members) is Ok
                ==> origin is Signed && ids.is_verified(origin->Signed_0) && ranks.rank_at_least(
                origin->Signed_0,
                s.config.min_rank_to_form_appeal_committee,
            ),
        forall|id: H256|
            #[trigger] decide_appeal_outcome(s, ids, ranks, origin, id) is Ok
                ==> origin is Signed && ids.is_verified(origin->Signed_0) && ranks.rank_at_least(
                origin->Signed_0,
                s.config.min_rank_for_decide_appeal,
            ),
        forall|t: ConflictType, nonce: Option<u32>|
            #[trigger] conflict_outcome(s, ids, ranks, origin, t, nonce) is Ok
                ==> origin is Signed && ids.is_verified(origin->Signed_0) && ranks.rank_at_least(
                origin->Signed_0,
                s.config.min_rank_to_set_conflict_of_interest,
            ),
        forall|c: RemarkCategory, nonce: Option<u32>|
            #[trigger] remark_outcome(s, ids, ranks, origin, c, nonce) is Ok
                ==> origin is Signed && ids.is_verified(origin->Signed_0) && ranks.rank_at_least(
                origin->Signed_0,
                s.config.min_rank_to_set_remark,
            ),
        forall|provider: AccountId|
            #[trigger] provider_outcome(s, ids, ranks, origin, provider) is Ok
                ==> origin is Signed && ids.is_verified(origin->Signed_0) && ranks.rank_at_least(
                origin->Signed_0,
                s.config.min_rank_for_provider_registry,
            ) && ids.is_verified(provider),
        forall|provider: AccountId, disclosed: bool, details: Option<Vec<u8>>|
            #[trigger] referral_outcome(s, ids, ranks, origin, provider, disclosed, details) is Ok
                ==> origin is Signed && ids.is_verified(origin->Signed_0) && ranks.rank_at_least(
                origin->Signed_0,
                s.config.min_rank_for_referral,
            ) && s.service_providers.contains_key(provider),
{
}

/// Only committee members act on a committee's matter: resolving an emergency succeeds
/// only for a member of its committee accepted by the configured resolution origin,
/// and deciding an appeal only for a member of its committee.
pub proof fn law_committee_members_only<I: IdentityVerifier<AccountId>, R: RankChecker<AccountId>>(
    s: PalletState,
    ids: I,
    ranks: R,
    origin: RawOrigin,
    id: H256,
)
    ensures
        resolve_emergency_outcome(s, ids, ranks, origin, id) is Ok ==> {
            &&& s.emergency_committees.contains_key(id)
            &&& in_emergency_committee(s.emergency_committees[id]@, origin->Signed_0)
            &&& rule_permits(s.config.emergency_resolution_origin, origin)
        },
        decide_appeal_outcome(s, ids, ranks, origin, id) is Ok ==> {
            &&& s.appeal_committees.contains_key(id)
            &&& s.appeal_committees[id]@.contains(origin->Signed_0)
        },
{
}

/// An emergency committee is formed only with a technical lead, a governance
/// representative and an independent expert among its members.
pub proof fn law_emergency_committee_roles<
    I: IdentityVerifier<AccountId>,
    R: RankChecker<AccountId>,
>(
    s: PalletState,
    ids: I,
    ranks: R,
    origin: RawOrigin,
    id: H256,
    members: Seq<(AccountId, EmergencyRole)>,
)
    requires
        emergency_committee_outcome(s, ids, ranks, origin, id, members) is Ok,
    ensures
        has_role(members, EmergencyRole::TechnicalLead),
        has_role(members, EmergencyRole::GovernanceRepresentative),
        has_role(members, EmergencyRole::IndependentExpert),
{
}

/// A referral that declares compensation is accepted only with the compensation's
/// details, and only for a registered provider.
pub proof fn law_referral_discloses_compensation<
    I: IdentityVerifier<AccountId>,
    R: RankChecker<AccountId>,
>(
    s: PalletState,
    ids: I,
    ranks: R,
    origin: RawOrigin,
    provider: AccountId,
    details: Option<Vec<u8>>,
)
    requires
        referral_outcome(s, ids, ranks, origin, provider, true, details) is Ok,
    ensures
        details is Some,
        s.service_providers.contains_key(provider),
{
}

/// An emergency is resolved at most once: once it has been resolved, resolving it again
/// fails, with `EmergencyAlreadyResolved` for any caller who passes the opening checks.
pub proof fn law_emergency_resolved_once<
    I: IdentityVerifier<AccountId>,
    R: RankChecker<AccountId>,
>(
    s: PalletState,
    ids: I,
    ranks: R,
    origin: RawOrigin,
    id: H256,
    abuse_detected: bool,
    resolution_summary: Vec<u8>,
    evidence_hash: Option<H256>,
    ids2: I,
    ranks2: R,
    origin2: RawOrigin,
)
    requires
        resolve_emergency_outcome(s, ids, ranks, origin, id) is Ok,
    ensures
        ({
            let after = emergency_resolved(s, id, abuse_detected, resolution_summary, evidence_hash);
            &&& resolve_emergency_outcome(after, ids2, ranks2, origin2, id) is Err
            &&& caller_check(
                ids2,
                ranks2,
                None,
                origin2,
                Some(s.config.min_rank_for_emergency_response_authority),
            ) is Ok ==> resolve_emergency_outcome(after, ids2, ranks2, origin2, id) == Err::<
                (),
                DispatchError,
            >(DispatchError::Module(Error::EmergencyAlreadyResolved))
        }),
{
}

/// An emergency committee is formed at most once: once an emergency has its committee,
/// forming another fails, with `CommitteeAlreadyFormed` for any caller who passes the
/// opening checks.
pub proof fn law_emergency_committee_formed_once<
    I: IdentityVerifier<AccountId>,
    R: RankChecker<AccountId>,
>(
    s: PalletState,
    ids: I,
    ranks: R,
    origin: RawOrigin,
    id: H256,
    members: Vec<(AccountId, EmergencyRole)>,
    events: Seq<Event>,
    ids2: I,
    ranks2: R,
    origin2: RawOrigin,
    members2: Seq<(AccountId, EmergencyRole)>,
)
    requires
        emergency_committee_outcome(s, ids, ranks, origin, id, members@) is Ok,
    ensures
        ({
            let after = emergency_committee_formed(s, id, members, events);
            &&& emergency_committee_outcome(after, ids2, ranks2, origin2, id, members2) is Err
            &&& caller_check(
                ids2,
                ranks2,
                Some(s.config.committee_formation_origin),
                origin2,
                Some(s.config.min_rank_to_form_emergency_committee),
            ) is Ok ==> emergency_committee_outcome(after, ids2, ranks2, origin2, id, members2)
                == Err::<Seq<(AccountId, ConflictType)>, DispatchError>(
                DispatchError::Module(Error::CommitteeAlreadyFormed),
            )
        }),
{
}

/// A disciplinary action is resolved at most once: once it has been resolved, resolving
/// it again fails, with `DisciplinaryActionAlreadyResolved` for any caller who passes the
/// opening checks.
pub proof fn law_discipline_resolved_once<
    I: IdentityVerifier<AccountId>,
    R: RankChecker<AccountId>,
>(
    s: PalletState,
    ids: I,
    ranks: R,
    origin: RawOrigin,
    id: H256,
    resolution_summary: Vec<u8>,
    evidence_hash: Option<H256>,
    ids2: I,
    ranks2: R,
    origin2: RawOrigin,
)
    requires
        resolve_discipline_outcome(s, ids, ranks, origin, id) is Ok,
    ensures
        ({
            let after = discipline_resolved(s, id, resolution_summary, evidence_hash);
            &&& resolve_discipline_outcome(after, ids2, ranks2, origin2, id) is Err
            &&& caller_check(
                ids2,
                ranks2,
                Some(s.config.emergency_origin),
                origin2,
                Some(s.config.min_rank_for_disciplinary_action_enforcement),
            ) is Ok ==> resolve_discipline_outcome(after, ids2, ranks2, origin2, id) == Err::<
                (),
                DispatchError,
            >(DispatchError::Module(Error::DisciplinaryActionAlreadyResolved))
        }),
{
}

/// An appeal committee is formed at most once: once an appeal has its committee,
/// forming another fails, with `AppealCommitteeAlreadyFormed` for any caller who passes
/// the opening checks.
pub proof fn law_appeal_committee_formed_once<
    I: IdentityVerifier<AccountId>,
    R: RankChecker<AccountId>,
>(
    s: PalletState,
    ids: I,
    ranks: R,
    origin: RawOrigin,
    id: H256,
    members: Vec<AccountId>,
    events: Seq<Event>,
    ids2: I,
    ranks2: R,
    origin2: RawOrigin,
    members2: Seq<AccountId>,
)
    requires
        appeal_committee_outcome(s, ids, ranks, origin, id, members@) is Ok,
    ensures
        ({
            let after = appeal_committee_formed(s, id, members, events);
            &&& appeal_committee_outcome(after, ids2, ranks2, origin2, id, members2) is Err
            &&& caller_check(
                ids2,
                ranks2,
                Some(s.config.appeal_committee_origin),
                origin2,
                Some(s.config.min_rank_to_form_appeal_committee),
            ) is Ok ==> appeal_committee_outcome(after, ids2, ranks2, origin2, id, members2)
                == Err::<Seq<(AccountId, ConflictType)>, DispatchError>(
                DispatchError::Module(Error::AppealCommitteeAlreadyFormed),
            )
        }),
{
}

/// An appeal is decided at most once: once it has been decided, deciding it again
/// fails, with `AppealAlreadyDecided` for a committee member who passes the opening
/// checks.
pub proof fn law_appeal_decided_once<I: IdentityVerifier<AccountId>, R: RankChecker<AccountId>>(
    s: PalletState,
    ids: I,
    ranks: R,
    origin: RawOrigin,
    id: H256,
    decision: AppealDecision,
    justification: Vec<u8>,
    evidence_hash: Option<H256>,
    events: Seq<Event>,
    ids2: I,
    ranks2: R,
    origin2: RawOrigin,
)
    requires
        decide_appeal_outcome(s, ids, ranks, origin, id) is Ok,
    ensures
        ({
            let after = appeal_decided(s, id, decision, justification, evidence_hash, events);
            &&& decide_appeal_outcome(after, ids2, ranks2, origin2, id) is Err
            &&& caller_check(
                ids2,
                ranks2,
                None,
                origin2,
                Some(s.config.min_rank_for_decide_appeal),
            ) is Ok && s.appeal_committees[id]@.contains(origin2->Signed_0)
                ==> decide_appeal_outcome(after, ids2, ranks2, origin2, id) == Err::<
                (),
                DispatchError,
            >(DispatchError::Module(Error::AppealAlreadyDecided))
        }),
{
}

/// An integration is established at most once under an identifier: recording another
/// under the same identifier fails with `IntegrationAlreadyExists`.
pub proof fn law_integration_recorded_once(
    s: PalletState,
    id: H256,
    details: IntegrationDetails,
    events: Seq<Event>,
    details2: IntegrationDetails,
)
    requires
        integration_outcome(s, id, details) is Ok,
    ensures
        integration_outcome(integration_recorded(s, id, details, events), id, details2) == Err::<
            Seq<(AccountId, ConflictType)>,
            DispatchError,
        >(DispatchError::Module(Error::IntegrationAlreadyExists)),
{
}

/// A new remark is stored under the next nonce of its author and category, which then
/// advances: the author can update that remark by its nonce, and the author's next new
/// remark in the category gets another nonce.
pub proof fn law_remark_nonces<I: IdentityVerifier<AccountId>, R: RankChecker<AccountId>>(
    s: PalletState,
    ids: I,
    ranks: R,
    origin: RawOrigin,
    category: RemarkCategory,
    remark: OnChainRemark,
    events: Seq<Event>,
    n: u32,
)
    requires
        remark_outcome(s, ids, ranks, origin, category, None) == Ok::<u32, DispatchError>(n),
    ensures
        n == stored_nonce(s.remark_nonces, (origin->Signed_0, category)),
        ({
            let after = remark_stored(s, (origin->Signed_0, category, n), remark, true, events);
            &&& after.remarks.contains_key((origin->Signed_0, category, n))
            &&& remark_outcome(after, ids, ranks, origin, category, Some(n)) == Ok::<
                u32,
                DispatchError,
            >(n)
            &&& remark_outcome(after, ids, ranks, origin, category, None) == Ok::<
                u32,
                DispatchError,
            >(next_nonce(n))
            &&& next_nonce(n) != n
        }),
{
}

/// A new conflict registration is stored under the next nonce of its member and type,
/// which then advances: the member can update that registration by its nonce, and the
/// member's next new registration of that type gets another nonce.
pub proof fn law_conflict_nonces<I: IdentityVerifier<AccountId>, R: RankChecker<AccountId>>(
    s: PalletState,
    ids: I,
    ranks: R,
    origin: RawOrigin,
    conflict_type: ConflictType,
    registration: ConflictRegistration,
    order: Seq<ConflictKey>,
    events: Seq<Event>,
    n: u32,
)
    requires
        conflict_outcome(s, ids, ranks, origin, conflict_type, None) == Ok::<u32, DispatchError>(
            n,
        ),
    ensures
        n == stored_nonce(s.conflict_nonces, (origin->Signed_0, conflict_type)),
        ({
            let after = conflict_stored(
                s,
                (origin->Signed_0, conflict_type, n),
                registration,
                true,
                order,
                events,
            );
            &&& after.conflicts.contains_key((origin->Signed_0, conflict_type, n))
            &&& conflict_outcome(after, ids, ranks, origin, conflict_type, Some(n)) == Ok::<
                u32,
                DispatchError,
            >(n)
            &&& conflict_outcome(after, ids, ranks, origin, conflict_type, None) == Ok::<
                u32,
                DispatchError,
            >(next_nonce(n))
            &&& next_nonce(n) != n
        }),
{
}

proof fn lemma_scan_finds_critical(
    members: Seq<AccountId>,
    keys: Seq<ConflictKey>,
    regs: Map<ConflictKey, ConflictRegistration>,
    text: Seq<u8>,
    max: nat,
    i: nat,
    j: nat,
    count: nat,
    warnings: Seq<(AccountId, ConflictType)>,
    a: int,
    b: int,
)
    requires
        0 <= a < members.len(),
        0 <= b < keys.len(),
        keys[b].0 == members[a],
        relates_to_text(regs[keys[b]].relates_to, text),
        conflict_is_critical(keys[b].1),
        i < a || (i == a && j <= b),
    ensures
        conflict_scan(members, keys, regs, text, max, i, j, count, warnings) is Err,
    decreases members.len() - i, keys.len() - j,
{
    if i >= members.len() {
    } else if j >= keys.len() {
        lemma_scan_finds_critical(members, keys, regs, text, max, i + 1, 0, count, warnings, a, b);
    } else if count + 1 > max {
    } else if keys[j as int].0 == members[i as int] && relates_to_text(
        regs[keys[j as int]].relates_to,
        text,
    ) {
        if conflict_is_critical(keys[j as int].1) {
        } else {
            lemma_scan_finds_critical(
                members,
                keys,
                regs,
                text,
                max,
                i,
                j + 1,
                count + 1,
                warnings.push((keys[j as int].0, keys[j as int].1)),
                a,
                b,
            );
        }
    } else {
        lemma_scan_finds_critical(members, keys, regs, text, max, i, j + 1, count + 1, warnings, a, b);
    }
}

spec fn warning_allowed(members: Seq<AccountId>, p: (AccountId, ConflictType)) -> bool {
    !conflict_is_critical(p.1) && members.contains(p.0)
}

proof fn lemma_scan_warnings(
    members: Seq<AccountId>,
    keys: Seq<ConflictKey>,
    regs: Map<ConflictKey, ConflictRegistration>,
    text: Seq<u8>,
    max: nat,
    i: nat,
    j: nat,
    count: nat,
    warnings: Seq<(AccountId, ConflictType)>,
)
    requires
        forall|k: int|
            0 <= k < warnings.len() ==> warning_allowed(members, #[trigger] warnings[k]),
    ensures
        conflict_scan(members, keys, regs, text, max, i, j, count, warnings) matches Ok(w) ==> (
        forall|k: int| 0 <= k < w.len() ==> warning_allowed(members, #[trigger] w[k])),
    decreases members.len() - i, keys.len() - j,
{
    if i >= members.len() {
    } else if j >= keys.len() {
        lemma_scan_warnings(members, keys, regs, text, max, i + 1, 0, count, warnings);
    } else if count + 1 > max {
    } else if keys[j as int].0 == members[i as int] && relates_to_text(
        regs[keys[j as int]].relates_to,
        text,
    ) {
        if conflict_is_critical(keys[j as int].1) {
        } else {
            let w2 = warnings.push((keys[j as int].0, keys[j as int].1));
            assert forall|k: int| 0 <= k < w2.len() implies warning_allowed(
                members,
                #[trigger] w2[k],
            ) by {
                if k == warnings.len() {
                    assert(w2[k] == (keys[j as int].0, keys[j as int].1));
                    assert(0 <= i < members.len() && members[i as int] == w2[k].0);
                    assert(members.contains(w2[k].0));
                } else {
                    assert(w2[k] == warnings[k]);
                }
            }
            lemma_scan_warnings(members, keys, regs, text, max, i, j + 1, count + 1, w2);
        }
    } else {
        lemma_scan_warnings(members, keys, regs, text, max, i, j + 1, count + 1, warnings);
    }
}

/// A member's critical conflict of interest related to a matter stops the check of that
/// matter's committee: if a member under check has registered a conflict of a critical
/// type whose related matter is the record's identifier, the check fails, and so does
/// forming the appeal committee.
pub proof fn law_critical_conflict_blocks<I: IdentityVerifier<AccountId>, R: RankChecker<AccountId>>(
    s: PalletState,
    ids: I,
    ranks: R,
    origin: RawOrigin,
    id: H256,
    members: Seq<AccountId>,
    key: ConflictKey,
)
    requires
        s.conflict_order.contains(key),
        members.contains(key.0),
        relates_to_text(s.conflicts[key].relates_to, debug_text(id)),
        conflict_is_critical(key.1),
    ensures
        conflicts_outcome(s, s.config.max_conflict_of_interest_checks, members, id) is Err,
        appeal_committee_outcome(s, ids, ranks, origin, id, members) is Err,
{
    let a = choose|a: int| 0 <= a < members.len() && members[a] == key.0;
    let b = choose|b: int| 0 <= b < s.conflict_order.len() && s.conflict_order[b] == key;
    lemma_scan_finds_critical(
        members,
        s.conflict_order,
        s.conflicts,
        debug_text(id),
        s.config.max_conflict_of_interest_checks as nat,
        0,
        0,
        0,
        Seq::empty(),
        a,
        b,
    );
}

/// A conflict check that passes raises warnings only for members under check, and only
/// for conflict types that are not critical.
pub proof fn law_conflict_warnings_non_critical(s: PalletState, max: u32, members: Seq<AccountId>, id: H256)
    ensures
        conflicts_outcome(s, max, members, id) matches Ok(w) ==> (forall|k: int|
            0 <= k < w.len() ==> !conflict_is_critical(#[trigger] w[k].1) && members.contains(
                w[k].0,
            )),
{
    lemma_scan_warnings(
        members,
        s.conflict_order,
        s.conflicts,
        debug_text(id),
        max as nat,
        0,
        0,
        0,
        Seq::empty(),
    );
    if let Ok(w) = conflicts_outcome(s, max, members, id) {
        assert forall|k: int| 0 <= k < w.len() implies !conflict_is_critical(
            #[trigger] w[k].1,
        ) && members.contains(w[k].0) by {
            assert(warning_allowed(members, w[k]));
        }
    }
}

/// Holding a rank satisfies every lower minimum: a member who has at least `higher` has
/// at least any `lower <= higher`.
pub proof fn law_rank_monotone(checker: AmbassadorRankChecker, who: AccountId, lower: u16, higher: u16)
    requires
        lower <= higher,
        checker.rank_at_least(who, higher),
    ensures
        checker.rank_at_least(who, lower),
{
}

/// Exactly two conflict types are critical: a financial or professional conflict bars a
/// member from a committee, and every other type only raises a warning.
pub proof fn law_critical_types(t: ConflictType)
    ensures
        conflict_is_critical(t) <==> (t == ConflictType::FinancialCritical || t
            == ConflictType::ProfessionalCritical),
{
}

proof fn lemma_scan_detects_only_related_critical(
    members: Seq<AccountId>,
    keys: Seq<ConflictKey>,
    regs: Map<ConflictKey, ConflictRegistration>,
    text: Seq<u8>,
    max: nat,
    i: nat,
    j: nat,
    count: nat,
    warnings: Seq<(AccountId, ConflictType)>,
)
    ensures
        conflict_scan(members, keys, regs, text, max, i, j, count, warnings) == Err::<
            Seq<(AccountId, ConflictType)>,
            Error,
        >(Error::ConflictOfInterestDetected) ==> exists|a: int, b: int|
            0 <= a < members.len() && 0 <= b < keys.len() && #[trigger] keys[b].0
                == #[trigger] members[a] && (regs[keys[b]].relates_to matches Some(v) && v@
                == text) && (keys[b].1 == ConflictType::FinancialCritical || keys[b].1
                == ConflictType::ProfessionalCritical),
    decreases members.len() - i, keys.len() - j,
{
    if i >= members.len() {
    } else if j >= keys.len() {
        lemma_scan_detects_only_related_critical(members, keys, regs, text, max, i + 1, 0, count, warnings);
    } else if count + 1 > max {
    } else if keys[j as int].0 == members[i as int] && relates_to_text(
        regs[keys[j as int]].relates_to,
        text,
    ) {
        if conflict_is_critical(keys[j as int].1) {
            let a = i as int;
            let b = j as int;
            assert(keys[b].0 == members[a]);
        } else {
            lemma_scan_detects_only_related_critical(
                members,
                keys,
                regs,
                text,
                max,
                i,
                j + 1,
                count + 1,
                warnings.push((keys[j as int].0, keys[j as int].1)),
            );
        }
    } else {
        lemma_scan_detects_only_related_critical(members, keys, regs, text, max, i, j + 1, count + 1, warnings);
    }
}

/// Whether some member under check has registered, in state `s`, a financial or
/// professional conflict whose related matter is exactly `text`.
spec fn member_has_related_critical(s: PalletState, members: Seq<AccountId>, text: Seq<u8>) -> bool {
    exists|key: ConflictKey|
        #[trigger] s.conflict_order.contains(key) && members.contains(key.0) && (
        s.conflicts[key].relates_to matches Some(v) && v@ == text) && (key.1
            == ConflictType::FinancialCritical || key.1 == ConflictType::ProfessionalCritical)
}

proof fn lemma_detected_has_witness(s: PalletState, max: u32, members: Seq<AccountId>, id: H256)
    ensures
        conflicts_outcome(s, max, members, id) == Err::<Seq<(AccountId, ConflictType)>, Error>(
            Error::ConflictOfInterestDetected,
        ) ==> exists|key: ConflictKey|
            #[trigger] s.conflict_order.contains(key) && members.contains(key.0) && (
            s.conflicts[key].relates_to matches Some(v) && v@ == debug_text(id)) && (key.1
                == ConflictType::FinancialCritical || key.1 == ConflictType::ProfessionalCritical),
{
    lemma_scan_detects_only_related_critical(
        members,
        s.conflict_order,
        s.conflicts,
        debug_text(id),
        max as nat,
        0,
        0,
        0,
        Seq::empty(),
    );
    if conflicts_outcome(s, max, members, id) == Err::<Seq<(AccountId, ConflictType)>, Error>(
        Error::ConflictOfInterestDetected,
    ) {
        let (a, b) = choose|a: int, b: int|
            0 <= a < members.len() && 0 <= b < s.conflict_order.len() && #[trigger] s.conflict_order[b].0
                == #[trigger] members[a] && (s.conflicts[s.conflict_order[b]].relates_to matches Some(v)
                && v@ == debug_text(id)) && (s.conflict_order[b].1 == ConflictType::FinancialCritical
                || s.conflict_order[b].1 == ConflictType::ProfessionalCritical);
        let key = s.conflict_order[b];
        assert(s.conflict_order.contains(key));
        assert(members.contains(key.0));
    }
}

/// A conflict check, and the forming of an emergency or appeal committee, fails with
/// `ConflictOfInterestDetected` only when a member under check has registered a
/// financial or professional conflict whose related matter is exactly the debug text of
/// the record's identifier. A conflict related to anything else never makes it fail that
/// way, however critical its type.
pub proof fn law_only_related_critical_conflicts_block<
    I: IdentityVerifier<AccountId>,
    R: RankChecker<AccountId>,
>(
    s: PalletState,
    ids: I,
    ranks: R,
    origin: RawOrigin,
    id: H256,
    members: Seq<AccountId>,
    roles: Seq<(AccountId, EmergencyRole)>,
)
    ensures
        conflicts_outcome(s, s.config.max_conflict_of_interest_checks, members, id) == Err::<
            Seq<(AccountId, ConflictType)>,
            Error,
        >(Error::ConflictOfInterestDetected) ==> exists|key: ConflictKey|
            #[trigger] s.conflict_order.contains(key) && members.contains(key.0) && (
            s.conflicts[key].relates_to matches Some(v) && v@ == debug_text(id)) && (key.1
                == ConflictType::FinancialCritical || key.1 == ConflictType::ProfessionalCritical),
        appeal_committee_outcome(s, ids, ranks, origin, id, members) == Err::<
            Seq<(AccountId, ConflictType)>,
            DispatchError,
        >(DispatchError::Module(Error::ConflictOfInterestDetected)) ==> exists|key: ConflictKey|
            #[trigger] s.conflict_order.contains(key) && members.contains(key.0) && (
            s.conflicts[key].relates_to matches Some(v) && v@ == debug_text(id)) && (key.1
                == ConflictType::FinancialCritical || key.1 == ConflictType::ProfessionalCritical),
        emergency_committee_outcome(s, ids, ranks, origin, id, roles) == Err::<
            Seq<(AccountId, ConflictType)>,
            DispatchError,
        >(DispatchError::Module(Error::ConflictOfInterestDetected)) ==> exists|key: ConflictKey|
            #[trigger] s.conflict_order.contains(key) && roles.map_values(
                |p: (AccountId, EmergencyRole)| p.0,
            ).contains(key.0) && (s.conflicts[key].relates_to matches Some(v) && v@
                == debug_text(id)) && (key.1 == ConflictType::FinancialCritical || key.1
                == ConflictType::ProfessionalCritical),
{
    lemma_detected_has_witness(s, s.config.max_conflict_of_interest_checks, members, id);
    lemma_detected_has_witness(
        s,
        s.config.max_conflict_of_interest_checks,
        roles.map_values(|p: (AccountId, EmergencyRole)| p.0),
        id,
    );
}

proof fn lemma_scan_warns_every_related(
    members: Seq<AccountId>,
    keys: Seq<ConflictKey>,
    regs: Map<ConflictKey, ConflictRegistration>,
    text: Seq<u8>,
    max: nat,
    i: nat,
    j: nat,
    count: nat,
    warnings: Seq<(AccountId, ConflictType)>,
)
    ensures
        conflict_scan(members, keys, regs, text, max, i, j, count, warnings) matches Ok(w) ==> {
            &&& warnings.len() <= w.len()
            &&& forall|k: int| 0 <= k < warnings.len() ==> #[trigger] w[k] == warnings[k]
            &&& forall|a: int, b: int|
                0 <= a < members.len() && 0 <= b < keys.len() && (i < a || (i == a && j <= b))
                    && #[trigger] keys[b].0 == #[trigger] members[a] && relates_to_text(
                    regs[keys[b]].relates_to,
                    text,
                ) ==> w.contains((keys[b].0, keys[b].1))
        },
    decreases members.len() - i, keys.len() - j,
{
    if i >= members.len() {
    } else if j >= keys.len() {
        lemma_scan_warns_every_related(members, keys, regs, text, max, i + 1, 0, count, warnings);
    } else if count + 1 > max {
    } else if keys[j as int].0 == members[i as int] && relates_to_text(
        regs[keys[j as int]].relates_to,
        text,
    ) {
        if conflict_is_critical(keys[j as int].1) {
        } else {
            let x = (keys[j as int].0, keys[j as int].1);
            let w2 = warnings.push(x);
            lemma_scan_warns_every_related(members, keys, regs, text, max, i, j + 1, count + 1, w2);
            if let Ok(w) = conflict_scan(members, keys, regs, text, max, i, j + 1, count + 1, w2) {
                assert(w[warnings.len() as int] == w2[warnings.len() as int]);
                assert(w.contains(x));
                assert forall|k: int| 0 <= k < warnings.len() implies #[trigger] w[k] == warnings[k] by {
                    assert(w[k] == w2[k]);
                }
            }
        }
    } else {
        lemma_scan_warns_every_related(members, keys, regs, text, max, i, j + 1, count + 1, warnings);
    }
}

/// A conflict check that passes warns about every registration of a member under check
/// whose related matter is the record's identifier: each such conflict, being of a
/// non-critical type, is in the warnings rather than blocking the check.
pub proof fn law_related_conflicts_warn(s: PalletState, max: u32, members: Seq<AccountId>, id: H256)
    ensures
        conflicts_outcome(s, max, members, id) matches Ok(w) ==> forall|key: ConflictKey|
            #[trigger] s.conflict_order.contains(key) && members.contains(key.0) && (
            s.conflicts[key].relates_to matches Some(v) && v@ == debug_text(id)) ==> w.contains(
                (key.0, key.1),
            ) && key.1 != ConflictType::FinancialCritical && key.1
                != ConflictType::ProfessionalCritical,
{
    lemma_scan_warns_every_related(
        members,
        s.conflict_order,
        s.conflicts,
        debug_text(id),
        max as nat,
        0,
        0,
        0,
        Seq::empty(),
    );
    law_conflict_warnings_non_critical(s, max, members, id);
    if let Ok(w) = conflicts_outcome(s, max, members, id) {
        assert forall|key: ConflictKey|
            #[trigger] s.conflict_order.contains(key) && members.contains(key.0) && (
            s.conflicts[key].relates_to matches Some(v) && v@ == debug_text(id)) implies w.contains(
            (key.0, key.1),
        ) && key.1 != ConflictType::FinancialCritical && key.1
            != ConflictType::ProfessionalCritical by {
            let a = choose|a: int| 0 <= a < members.len() && members[a] == key.0;
            let b = choose|b: int| 0 <= b < s.conflict_order.len() && s.conflict_order[b] == key;
            assert(s.conflict_order[b].0 == members[a]);
            assert(w.contains((key.0, key.1)));
            let k = choose|k: int| 0 <= k < w.len() && w[k] == (key.0, key.1);
            assert(!conflict_is_critical(w[k].1));
        }
    }
}

/// Resolving an emergency records the current block as its resolution block, with the
/// abuse finding and evidence given, and keeps what was declared: its type, severity,
/// initiator, justification and declaration block. No other emergency changes, and the
/// block number stays as it was.
pub proof fn law_emergency_resolution_recorded(
    s: PalletState,
    id: H256,
    abuse_detected: bool,
    resolution_summary: Vec<u8>,
    evidence_hash: Option<H256>,
    other: H256,
)
    requires
        s.emergencies.contains_key(id),
    ensures
        ({
            let after = emergency_resolved(s, id, abuse_detected, resolution_summary, evidence_hash);
            let e = after.emergencies[id];
            let before = s.emergencies[id];
            &&& after.emergencies.contains_key(id)
            &&& e.resolved_at == Some(s.block_number)
            &&& e.abuse_detected == abuse_detected
            &&& e.evidence_hash == evidence_hash
            &&& e.emergency_type == before.emergency_type
            &&& e.severity == before.severity
            &&& e.initiator == before.initiator
            &&& e.justification == before.justification
            &&& e.declared_at == before.declared_at
            &&& after.block_number == s.block_number
            &&& after.emergencies.dom() == s.emergencies.dom()
            &&& other != id ==> after.emergencies[other] == s.emergencies[other]
        }),
{
    let after = emergency_resolved(s, id, abuse_detected, resolution_summary, evidence_hash);
    assert(after.emergencies.dom() =~= s.emergencies.dom());
}

/// Deciding an appeal records the decision, the current block as the decision block,
/// the justification and the evidence, marks the appeal decided and keeps who appealed,
/// against what and when. No other appeal changes.
pub proof fn law_appeal_decision_recorded(
    s: PalletState,
    id: H256,
    decision: AppealDecision,
    justification: Vec<u8>,
    evidence_hash: Option<H256>,
    events: Seq<Event>,
    other: H256,
)
    requires
        s.appeals.contains_key(id),
    ensures
        ({
            let after = appeal_decided(s, id, decision, justification, evidence_hash, events);
            let a = after.appeals[id];
            let before = s.appeals[id];
            &&& after.appeals.contains_key(id)
            &&& a.decision == Some(decision)
            &&& a.decided_at == Some(s.block_number)
            &&& a.status == AppealStatus::Decided
            &&& a.justification == justification
            &&& a.evidence_hash == evidence_hash
            &&& a.appellant == before.appellant
            &&& a.original_decision == before.original_decision
            &&& a.submitted_at == before.submitted_at
            &&& after.appeals.dom() == s.appeals.dom()
            &&& other != id ==> after.appeals[other] == s.appeals[other]
        }),
{
    let after = appeal_decided(s, id, decision, justification, evidence_hash, events);
    assert(after.appeals.dom() =~= s.appeals.dom());
}

/// Whether every appeal that carries a decision also carries the block it was decided
/// at.
pub open spec fn decisions_dated(appeals: Map<H256, AppealDetails>) -> bool {
    forall|id: H256|
        #[trigger] appeals.contains_key(id) && appeals[id].decision is Some
            ==> appeals[id].decided_at is Some
}

/// Every decided appeal keeps a decision block: deciding an appeal and forming an appeal
/// committee both keep this true of all appeals, and a newly submitted appeal has
/// neither a decision nor a decision block.
pub proof fn law_decisions_stay_dated(
    s: PalletState,
    id: H256,
    decision: AppealDecision,
    justification: Vec<u8>,
    evidence_hash: Option<H256>,
    events: Seq<Event>,
    members: Vec<AccountId>,
    submitted: AppealDetails,
)
    requires
        decisions_dated(s.appeals),
        submitted.decision is None,
    ensures
        s.appeals.contains_key(id) ==> decisions_dated(
            appeal_decided(s, id, decision, justification, evidence_hash, events).appeals,
        ),
        s.appeals.contains_key(id) ==> decisions_dated(
            appeal_committee_formed(s, id, members, events).appeals,
        ),
        decisions_dated(s.appeals.insert(id, submitted)),
{
}

/// An identity is verified exactly when the account is registered and at least one
/// registrar judged it `Reasonable`, `KnownGood` or `OutOfDate`; the order of the
/// judgements and any other judgement beside a positive one make no difference.
pub proof fn law_identity_from_any_judgement(
    verifier: AmbassadorIdentityVerifier,
    who: AccountId,
    judgements: Seq<(u32, Judgement)>,
    more: (u32, Judgement),
)
    ensures
        verifier.is_verified(who) <==> verifier@.contains_key(who) && exists|i: int|
            0 <= i < verifier@[who].len() && (#[trigger] verifier@[who][i].1 == Judgement::Reasonable
                || verifier@[who][i].1 == Judgement::KnownGood || verifier@[who][i].1
                == Judgement::OutOfDate),
        judgements_positive(judgements) <==> exists|i: int|
            0 <= i < judgements.len() && (#[trigger] judgements[i].1 == Judgement::Reasonable
                || judgements[i].1 == Judgement::KnownGood || judgements[i].1 == Judgement::OutOfDate),
        judgements_positive(judgements) ==> judgements_positive(judgements.push(more)),
        judgements_positive(judgements) ==> judgements_positive(seq![more] + judgements),
        !(more.1 is Reasonable || more.1 is KnownGood || more.1 is OutOfDate) ==> (
        judgements_positive(judgements.push(more)) == judgements_positive(judgements)),
        (more.1 is Reasonable || more.1 is KnownGood || more.1 is OutOfDate) ==> judgements_positive(
            judgements.push(more),
        ),
{
    let p = judgements.push(more);
    let q = seq![more] + judgements;
    if judgements_positive(judgements) {
        let i = choose|i: int| 0 <= i < judgements.len() && #[trigger] judgement_positive(judgements[i].1);
        assert(p[i] == judgements[i]);
        assert(judgement_positive(p[i].1));
        assert(q[i + 1] == judgements[i]);
        assert(judgement_positive(q[i + 1].1));
    }
    if judgements_positive(p) && !judgement_positive(more.1) {
        let i = choose|i: int| 0 <= i < p.len() && #[trigger] judgement_positive(p[i].1);
        assert(i < judgements.len());
        assert(p[i] == judgements[i]);
        assert(judgement_positive(judgements[i].1));
    }
    if judgement_positive(more.1) {
        assert(p[judgements.len() as int] == more);
        assert(judgement_positive(p[judgements.len() as int].1));
    }
    if judgements_positive(judgements) {
        let i = choose|i: int| 0 <= i < judgements.len() && #[trigger] judgement_positive(judgements[i].1);
        assert(judgements[i].1 == Judgement::Reasonable || judgements[i].1 == Judgement::KnownGood
            || judgements[i].1 == Judgement::OutOfDate);
    }
    if exists|i: int|
        0 <= i < judgements.len() && (#[trigger] judgements[i].1 == Judgement::Reasonable
            || judgements[i].1 == Judgement::KnownGood || judgements[i].1 == Judgement::OutOfDate) {
        let i = choose|i: int|
            0 <= i < judgements.len() && (#[trigger] judgements[i].1 == Judgement::Reasonable
                || judgements[i].1 == Judgement::KnownGood || judgements[i].1 == Judgement::OutOfDate);
        assert(judgement_positive(judgements[i].1));
    }
    if verifier@.contains_key(who) {
        let js = verifier@[who];
        if judgements_positive(js) {
            let i = choose|i: int| 0 <= i < js.len() && #[trigger] judgement_positive(js[i].1);
            assert(js[i].1 == Judgement::Reasonable || js[i].1 == Judgement::KnownGood || js[i].1
                == Judgement::OutOfDate);
        }
        if exists|i: int|
            0 <= i < js.len() && (#[trigger] js[i].1 == Judgement::Reasonable || js[i].1
                == Judgement::KnownGood || js[i].1 == Judgement::OutOfDate) {
            let i = choose|i: int|
                0 <= i < js.len() && (#[trigger] js[i].1 == Judgement::Reasonable || js[i].1
                    == Judgement::KnownGood || js[i].1 == Judgement::OutOfDate);
            assert(judgement_positive(js[i].1));
        }
    }
}

} // verus!
