//! Identity and rank checks for the Ambassador Program: an identity verifier over the
//! registrars' judgements of each account, and a rank checker over the ranks held in
//! the Ambassador collective.
use vstd::prelude::*;
use crate::pallet::{IdentityVerifier, RankChecker};
use crate::storage::Table;
use crate::types::{AccountId, Rank};

verus! {

/// A registrar's judgement of an account's identity.
#[derive(Clone, Copy, Debug, PartialEq, Eq, Structural)]
pub enum Judgement {
    Unknown,
    FeePaid(u128),
    Reasonable,
    KnownGood,
    OutOfDate,
    LowQuality,
    Erroneous,
}

/// Whether a judgement vouches for the identity: `Reasonable`, `KnownGood` or
/// `OutOfDate`.
pub open spec fn judgement_positive(j: Judgement) -> bool {
    j is Reasonable || j is KnownGood || j is OutOfDate
}

/// Whether at least one registrar gave a positive judgement.
pub open spec fn judgements_positive(judgements: Seq<(u32, Judgement)>) -> bool {
    exists|i: int| 0 <= i < judgements.len() && #[trigger] judgement_positive(judgements[i].1)
}

/// Whether a judgement vouches for the identity.
pub fn is_positive(j: &Judgement) -> (r: bool)
    ensures
        r == judgement_positive(*j),
{
    match j {
        Judgement::Reasonable | Judgement::KnownGood | Judgement::OutOfDate => true,
        _ => false,
    }
}

/// Whether at least one registrar gave a positive judgement.
pub fn has_positive_judgement(judgements: &Vec<(u32, Judgement)>) -> (r: bool)
    ensures
        r == judgements_positive(judgements@),
{
    let mut i: usize = 0;
    while i < judgements.len()
        invariant
            i <= judgements@.len(),
            forall|j: int| 0 <= j < i ==> !judgement_positive(#[trigger] judgements@[j].1),
        decreases judgements@.len() - i,
    {
        if is_positive(&judgements[i].1) {
            assert(judgement_positive(judgements@[i as int].1));
            return true;
        }
        i = i + 1;
    }
    false
}

/// An identity verifier over the judgements that registrars gave each registered
/// account. An account without a registration has no identity.
pub struct AmbassadorIdentityVerifier {
    registrations: Table<AccountId, Vec<(u32, Judgement)>>,
}

impl View for AmbassadorIdentityVerifier {
    type V = Map<AccountId, Seq<(u32, Judgement)>>;

    closed spec fn view(&self) -> Map<AccountId, Seq<(u32, Judgement)>> {
        self.registrations@.map_values(|v: Vec<(u32, Judgement)>| v@)
    }
}

impl AmbassadorIdentityVerifier {
    #[verifier::type_invariant]
    spec fn registrations_wf(&self) -> bool {
        self.registrations.wf()
    }

    /// A verifier with no registered account.
    pub fn new() -> (r: Self)
        ensures
            r@ == Map::<AccountId, Seq<(u32, Judgement)>>::empty(),
    {
        let r = AmbassadorIdentityVerifier { registrations: Table::new() };
        assert(r@ =~= Map::<AccountId, Seq<(u32, Judgement)>>::empty());
        r
    }

    /// Records the registration of `who` with the judgements given so far, replacing
    /// any earlier registration of that account.
    pub fn insert_registration(&mut self, who: AccountId, judgements: Vec<(u32, Judgement)>)
        ensures
            final(self)@ == old(self)@.insert(who, judgements@),
    {
        proof {
            use_type_invariant(&*self);
        }
        let mut t = Table::new();
        std::mem::swap(&mut t, &mut self.registrations);
        t.insert(who, judgements);
        self.registrations = t;
        assert(self@ =~= old(self)@.insert(who, judgements@));
    }

    /// The judgements recorded for `who`, if it is registered.
    pub fn judgements_of(&self, who: &AccountId) -> (r: Option<&Vec<(u32, Judgement)>>)
        ensures
            match r {
                Some(js) => self@.contains_key(*who) && js@ == self@[*who],
                None => !self@.contains_key(*who),
            },
    {
        proof {
            use_type_invariant(self);
        }
        self.registrations.get(who)
    }
}

impl Default for AmbassadorIdentityVerifier {
    /// A verifier with no registered account.
    fn default() -> (r: Self)
        ensures
            r@ == Map::<AccountId, Seq<(u32, Judgement)>>::empty(),
    {
        Self::new()
    }
}

impl IdentityVerifier<AccountId> for AmbassadorIdentityVerifier {
    open spec fn is_verified(&self, who: AccountId) -> bool {
        self@.contains_key(who) && judgements_positive(self@[who])
    }

    /// Returns true if `who` is registered and at least one registrar judged its
    /// identity `Reasonable`, `KnownGood` or `OutOfDate`.
    fn has_identity(&self, who: &AccountId) -> (r: bool) {
        match self.judgements_of(who) {
            Some(judgements) => has_positive_judgement(judgements),
            None => false,
        }
    }
}

/// Whether a member's rank, if the account is a member at all, reaches `min_rank`.
pub open spec fn rank_reaches(rank: Option<Rank>, min_rank: Rank) -> bool {
    match rank {
        Some(r) => r >= min_rank,
        None => false,
    }
}

/// Whether a member's rank, if the account is a member at all, reaches `min_rank`.
pub fn rank_meets(rank: Option<Rank>, min_rank: Rank) -> (r: bool)
    ensures
        r == rank_reaches(rank, min_rank),
{
    match rank {
        Some(r) => r >= min_rank,
        None => false,
    }
}

/// A rank checker over the ranks that members hold in the Ambassador collective.
pub struct AmbassadorRankChecker {
    ranks: Table<AccountId, Rank>,
}

impl View for AmbassadorRankChecker {
    type V = Map<AccountId, Rank>;

    closed spec fn view(&self) -> Map<AccountId, Rank> {
        self.ranks@
    }
}

impl AmbassadorRankChecker {
    #[verifier::type_invariant]
    spec fn ranks_wf(&self) -> bool {
        self.ranks.wf()
    }

    /// A collective with no member.
    pub fn new() -> (r: Self)
        ensures
            r@ == Map::<AccountId, Rank>::empty(),
    {
        AmbassadorRankChecker { ranks: Table::new() }
    }

    /// Records that `who` is a member holding `rank`.
    pub fn set_rank(&mut self, who: AccountId, rank: Rank)
        ensures
            final(self)@ == old(self)@.insert(who, rank),
    {
        proof {
            use_type_invariant(&*self);
        }
        let mut t = Table::new();
        std::mem::swap(&mut t, &mut self.ranks);
        t.insert(who, rank);
        self.ranks = t;
    }

    /// Records that `who` is no longer a member.
    pub fn remove_member(&mut self, who: &AccountId)
        ensures
            final(self)@ == old(self)@.remove(*who),
    {
        proof {
            use_type_invariant(&*self);
        }
        let mut t = Table::new();
        std::mem::swap(&mut t, &mut self.ranks);
        let _ = t.remove(who);
        self.ranks = t;
    }

    /// The rank of `who`, if it is a member.
    pub fn rank_of(&self, who: &AccountId) -> (r: Option<Rank>)
        ensures
            r == (if self@.contains_key(*who) {
                Some(self@[*who])
            } else {
                None
            }),
    {
        proof {
            use_type_invariant(self);
        }
        match self.ranks.get(who) {
            Some(r) => Some(*r),
            None => None,
        }
    }
}

impl RankChecker<AccountId> for AmbassadorRankChecker {
    open spec fn rank_at_least(&self, who: AccountId, min_rank: u16) -> bool {
        self@.contains_key(who) && self@[who] >= min_rank
    }

    /// Returns true if `who` is a member whose rank is at least `min_rank`.
    fn has_minimum_rank(&self, who: &AccountId, min_rank: u16) -> (r: bool) {
        rank_meets(self.rank_of(who), min_rank)
    }
}

} // verus!
