//! The campaign ledger and its operations.
//!
//! A [`CampaignLedger`] owns every campaign, keyed by a monotonically
//! increasing identifier that starts at 1 and is never reused. What each
//! operation does is written down once, as a spec-level step or query
//! function over the ledger's model (a sequence of [`CampaignView`]s in id
//! order), and every executable operation is proved to match it exactly.

use vstd::prelude::*;

use crate::campaign::{
    amount_of, campaign_views, campaign_wf, contribution_views, find_contributor, has_entry,
    lemma_entry_index_is, lemma_entry_le_sum, lemma_record_contribution, record_contribution,
    Campaign, CampaignView, Contribution, ContributionView,
};
use crate::errors::CampaignError;
use crate::identity::Identity;

verus! {

/// Whether the ledger holds a campaign under `campaign_id`.
pub open spec fn has_campaign(v: Seq<CampaignView>, campaign_id: u64) -> bool {
    1 <= campaign_id <= v.len()
}

/// The campaign stored under `campaign_id`; meaningful only when
/// `has_campaign` holds.
pub open spec fn campaign_of(v: Seq<CampaignView>, campaign_id: u64) -> CampaignView {
    v[campaign_id - 1]
}

/// The ledger invariant over the model: the campaign with id `n` is the
/// `n`-th ever created (so ids are unique and never reused), and every
/// stored campaign is well formed.
pub open spec fn ledger_wf(v: Seq<CampaignView>) -> bool {
    forall|i: int| 0 <= i < v.len() ==> (#[trigger] v[i]).id == i + 1 && campaign_wf(v[i])
}

/// The campaign a create operation appends to the ledger `v`.
pub open spec fn created_campaign(
    v: Seq<CampaignView>,
    name: Seq<char>,
    description: Seq<char>,
    goal_amount: u64,
    deadline: u64,
    creator: Seq<u8>,
) -> CampaignView {
    CampaignView {
        id: (v.len() + 1) as u64,
        name,
        description,
        creator,
        goal_amount,
        current_amount: 0,
        deadline,
        is_active: true,
        contributors: Seq::empty(),
    }
}

/// What a create operation does to the ledger `v`: the new ledger and the
/// id it returns.
pub open spec fn create_step(
    v: Seq<CampaignView>,
    name: Seq<char>,
    description: Seq<char>,
    goal_amount: u64,
    deadline: u64,
    creator: Seq<u8>,
) -> (Seq<CampaignView>, u64) {
    (
        v.push(created_campaign(v, name, description, goal_amount, deadline, creator)),
        (v.len() + 1) as u64,
    )
}

/// What a contribution attempt does to the ledger `v`: the new ledger and
/// the result it returns.
///
/// A missing id or an already-inactive campaign leaves the ledger untouched.
/// A deadline observed to have passed on a still-active campaign flips that
/// campaign inactive — the one intended side effect of a rejected call
/// (lazy expiry). Otherwise the amount is added to the running total and to
/// the caller's entry of the contribution record.
pub open spec fn contribute_step(
    v: Seq<CampaignView>,
    campaign_id: u64,
    amount: u64,
    caller: Seq<u8>,
    now: u64,
) -> (Seq<CampaignView>, Result<(), CampaignError>) {
    if !has_campaign(v, campaign_id) {
        (v, Err(CampaignError::NotFound))
    } else {
        let c = campaign_of(v, campaign_id);
        if !c.is_active {
            (v, Err(CampaignError::Inactive))
        } else if now > c.deadline {
            (
                v.update(campaign_id - 1, (CampaignView { is_active: false, ..c })),
                Err(CampaignError::Expired),
            )
        } else {
            (
                v.update(
                    campaign_id - 1,
                    (CampaignView {
                        current_amount: (c.current_amount + amount) as u64,
                        contributors: record_contribution(c.contributors, caller, amount),
                        ..c
                    }),
                ),
                Ok(()),
            )
        }
    }
}

/// What a success query answers on the ledger `v`: an error while the
/// campaign cannot be judged, else whether it reached its goal.
pub open spec fn success_query(
    v: Seq<CampaignView>,
    campaign_id: u64,
    now: u64,
) -> Result<bool, CampaignError> {
    if !has_campaign(v, campaign_id) {
        Err(CampaignError::NotFound)
    } else if now < campaign_of(v, campaign_id).deadline {
        Err(CampaignError::StillActive)
    } else {
        Ok(campaign_of(v, campaign_id).current_amount >= campaign_of(v, campaign_id).goal_amount)
    }
}

/// What a contribution query answers on the ledger `v`: the caller's
/// cumulative recorded contribution, 0 if the caller never contributed.
pub open spec fn contributions_query(
    v: Seq<CampaignView>,
    campaign_id: u64,
    caller: Seq<u8>,
) -> Result<u64, CampaignError> {
    if !has_campaign(v, campaign_id) {
        Err(CampaignError::NotFound)
    } else {
        Ok(amount_of(campaign_of(v, campaign_id).contributors, caller))
    }
}

/// The process-wide crowdfunding state: every campaign ever created, in id
/// order, plus the allocator for the next id.
pub struct CampaignLedger {
    campaigns: Vec<Campaign>,
    next_id: u64,
}

impl View for CampaignLedger {
    type V = Seq<CampaignView>;

    closed spec fn view(&self) -> Seq<CampaignView> {
        campaign_views(self.campaigns@)
    }
}

impl CampaignLedger {
    /// The id allocator stands one past the newest id.
    pub closed spec fn allocator_matches_store(self) -> bool {
        self.next_id == self@.len() + 1
    }

    /// The representation invariant: the model satisfies [`ledger_wf`] and
    /// the id allocator is one past the newest id.
    pub open spec fn wf(self) -> bool {
        &&& ledger_wf(self@)
        &&& self.allocator_matches_store()
    }

    /// An empty ledger; the first created campaign will get id 1.
    pub fn new() -> (r: CampaignLedger)
        ensures
            r.wf(),
            r@ == Seq::<CampaignView>::empty(),
    {
        let r = CampaignLedger { campaigns: Vec::new(), next_id: 1 };
        proof {
            assert(r@ =~= Seq::<CampaignView>::empty());
        }
        r
    }

    /// How many campaigns the ledger holds.
    pub fn campaign_count(&self) -> (n: usize)
        ensures
            n == self@.len(),
    {
        self.campaigns.len()
    }

    /// Creates a campaign and returns its freshly allocated id.
    ///
    /// Creation always succeeds: degenerate inputs such as a zero goal or a
    /// deadline already in the past simply yield a campaign that expires on
    /// its first contribution attempt.
    pub fn create_campaign(
        &mut self,
        name: String,
        description: String,
        goal_amount: u64,
        deadline: u64,
        creator: Identity,
    ) -> (id: u64)
        requires
            old(self).wf(),
            old(self)@.len() + 2 <= u64::MAX,
        ensures
            final(self).wf(),
            final(self)@ == create_step(
                old(self)@, name@, description@, goal_amount, deadline, creator@,
            ).0,
            id == create_step(old(self)@, name@, description@, goal_amount, deadline, creator@).1,
            id == old(self)@.len() + 1,
            has_campaign(final(self)@, id),
            campaign_of(final(self)@, id)
                == created_campaign(old(self)@, name@, description@, goal_amount, deadline, creator@),
    {
        let ghost prev = self@;
        let ghost created = created_campaign(prev, name@, description@, goal_amount, deadline, creator@);
        let id = self.next_id;
        self.next_id = self.next_id + 1;
        let campaign = Campaign {
            id,
            name,
            description,
            creator,
            goal_amount,
            current_amount: 0,
            deadline,
            is_active: true,
            contributors: Vec::new(),
        };
        proof {
            assert(campaign@.contributors =~= Seq::<ContributionView>::empty());
            assert(campaign@ =~= created);
        }
        self.campaigns.push(campaign);
        proof {
            assert(self@ =~= prev.push(created));
            assert forall|i: int| 0 <= i < self@.len() implies (#[trigger] self@[i]).id == i + 1
                && campaign_wf(self@[i]) by {
                if i < prev.len() {
                    assert(self@[i] == prev[i]);
                }
            }
        }
        id
    }

    /// Records a contribution of `amount` by `caller` at time `now`.
    ///
    /// Checked in order: the campaign must exist (else `NotFound`) and must
    /// still be active (else `Inactive`); then, if `now` has passed the
    /// deadline, the campaign is flipped inactive as a side effect of this
    /// very call and the call fails with `Expired`. On success the amount —
    /// zero and over-funding included — is added to the running total and to
    /// the caller's entry of the contribution record. The caller must rule
    /// out the one input no u64 ledger can record: a contribution that would
    /// push the campaign's running total past `u64::MAX`.
    pub fn contribute_to_campaign(
        &mut self,
        campaign_id: u64,
        amount: u64,
        caller: &Identity,
        now: u64,
    ) -> (r: Result<(), CampaignError>)
        requires
            old(self).wf(),
            has_campaign(old(self)@, campaign_id)
                ==> campaign_of(old(self)@, campaign_id).current_amount + amount <= u64::MAX,
        ensures
            final(self).wf(),
            final(self)@ == contribute_step(old(self)@, campaign_id, amount, caller@, now).0,
            r == contribute_step(old(self)@, campaign_id, amount, caller@, now).1,
    {
        let ghost prev = self@;
        if campaign_id == 0 || campaign_id > self.campaigns.len() as u64 {
            return Err(CampaignError::NotFound);
        }
        let idx: usize = (campaign_id - 1) as usize;
        let ghost old_c = campaign_of(prev, campaign_id);
        let mut c = self.campaigns.remove(idx);
        proof {
            assert(c@ == old_c);
        }
        if !c.is_active {
            self.campaigns.insert(idx, c);
            proof {
                assert(self.campaigns@ =~= old(self).campaigns@);
            }
            return Err(CampaignError::Inactive);
        }
        if now > c.deadline {
            c.is_active = false;
            let ghost new_c = c@;
            self.campaigns.insert(idx, c);
            proof {
                assert(new_c =~= (CampaignView { is_active: false, ..old_c }));
                assert(self@ =~= prev.update(idx as int, new_c));
                assert forall|i: int| 0 <= i < self@.len() implies (#[trigger] self@[i]).id == i
                    + 1 && campaign_wf(self@[i]) by {
                    if i != idx {
                        assert(self@[i] == prev[i]);
                    }
                }
            }
            return Err(CampaignError::Expired);
        }
        proof {
            assert(campaign_wf(old_c));
        }
        c.current_amount = c.current_amount + amount;
        match find_contributor(&c.contributors, caller) {
            Some(j) => {
                proof {
                    assert(old_c.contributors[j as int] == c.contributors@[j as int]@);
                    lemma_entry_index_is(old_c.contributors, caller@, j as int);
                    lemma_entry_le_sum(old_c.contributors, j as int);
                }
                let entry = c.contributors.remove(j);
                let new_amount = entry.amount + amount;
                c.contributors.insert(
                    j,
                    Contribution { contributor: entry.contributor, amount: new_amount },
                );
                proof {
                    assert(contribution_views(c.contributors@) =~= record_contribution(
                        old_c.contributors,
                        caller@,
                        amount,
                    ));
                }
            },
            None => {
                c.contributors.push(Contribution { contributor: caller.clone(), amount });
                proof {
                    assert(contribution_views(c.contributors@) =~= record_contribution(
                        old_c.contributors,
                        caller@,
                        amount,
                    ));
                }
            },
        }
        let ghost new_c = c@;
        self.campaigns.insert(idx, c);
        proof {
            lemma_record_contribution(old_c.contributors, caller@, amount);
            assert(new_c =~= (CampaignView {
                current_amount: (old_c.current_amount + amount) as u64,
                contributors: record_contribution(old_c.contributors, caller@, amount),
                ..old_c
            }));
            assert(self@ =~= prev.update(idx as int, new_c));
            assert forall|i: int| 0 <= i < self@.len() implies (#[trigger] self@[i]).id == i + 1
                && campaign_wf(self@[i]) by {
                if i != idx {
                    assert(self@[i] == prev[i]);
                }
            }
        }
        Ok(())
    }

    /// Read-only lookup: a full copy of the campaign stored under
    /// `campaign_id`, including its complete contribution record.
    pub fn get_campaign(&self, campaign_id: u64) -> (r: Result<Campaign, CampaignError>)
        requires
            self.wf(),
        ensures
            match r {
                Ok(c) => has_campaign(self@, campaign_id) && c@ == campaign_of(self@, campaign_id),
                Err(e) => !has_campaign(self@, campaign_id) && e == CampaignError::NotFound,
            },
    {
        if campaign_id == 0 || campaign_id > self.campaigns.len() as u64 {
            return Err(CampaignError::NotFound);
        }
        let idx: usize = (campaign_id - 1) as usize;
        let c = self.campaigns[idx].clone();
        proof {
            assert(c@ == self@[campaign_id - 1]);
        }
        Ok(c)
    }

    /// Read-only snapshot of every stored campaign, ascending by id.
    pub fn get_all_campaigns(&self) -> (r: Vec<Campaign>)
        requires
            self.wf(),
        ensures
            r@.len() == self@.len(),
            forall|i: int| 0 <= i < r@.len() ==> (#[trigger] r@[i])@ == self@[i],
    {
        let mut all: Vec<Campaign> = Vec::new();
        let mut i: usize = 0;
        while i < self.campaigns.len()
            invariant
                i <= self.campaigns.len(),
                all@.len() == i,
                forall|j: int| 0 <= j < i ==> (#[trigger] all@[j])@ == self@[j],
            decreases self.campaigns.len() - i,
        {
            all.push(self.campaigns[i].clone());
            proof {
                assert(all@[i as int]@ == self@[i as int]);
            }
            i = i + 1;
        }
        all
    }

    /// Whether the campaign reached its goal, judged only once the funding
    /// window has closed. A pure read: even past the deadline it never flips
    /// `is_active` — only a contribution attempt does.
    pub fn is_campaign_successful(&self, campaign_id: u64, now: u64) -> (r: Result<
        bool,
        CampaignError,
    >)
        requires
            self.wf(),
        ensures
            r == success_query(self@, campaign_id, now),
            !has_campaign(self@, campaign_id) ==> r == Err::<bool, CampaignError>(
                CampaignError::NotFound,
            ),
            has_campaign(self@, campaign_id) && now < campaign_of(self@, campaign_id).deadline
                ==> r == Err::<bool, CampaignError>(CampaignError::StillActive),
            has_campaign(self@, campaign_id) && now >= campaign_of(self@, campaign_id).deadline
                ==> r == Ok::<bool, CampaignError>(
                    campaign_of(self@, campaign_id).current_amount
                        >= campaign_of(self@, campaign_id).goal_amount,
                ),
    {
        if campaign_id == 0 || campaign_id > self.campaigns.len() as u64 {
            return Err(CampaignError::NotFound);
        }
        let idx: usize = (campaign_id - 1) as usize;
        let c = &self.campaigns[idx];
        proof {
            assert(c@ == campaign_of(self@, campaign_id));
        }
        if now < c.deadline {
            Err(CampaignError::StillActive)
        } else {
            Ok(c.current_amount >= c.goal_amount)
        }
    }

    /// The caller's cumulative recorded contribution to the campaign:
    /// 0 — not an error — for an identity that never contributed.
    pub fn get_user_contributions(&self, campaign_id: u64, caller: &Identity) -> (r: Result<
        u64,
        CampaignError,
    >)
        requires
            self.wf(),
        ensures
            r == contributions_query(self@, campaign_id, caller@),
            has_campaign(self@, campaign_id) && !has_entry(
                campaign_of(self@, campaign_id).contributors,
                caller@,
            ) ==> r == Ok::<u64, CampaignError>(0),
    {
        if campaign_id == 0 || campaign_id > self.campaigns.len() as u64 {
            return Err(CampaignError::NotFound);
        }
        let idx: usize = (campaign_id - 1) as usize;
        let c = &self.campaigns[idx];
        proof {
            assert(c@ == campaign_of(self@, campaign_id));
        }
        match find_contributor(&c.contributors, caller) {
            Some(j) => {
                proof {
                    assert(c@.contributors[j as int] == c.contributors@[j as int]@);
                    lemma_entry_index_is(c@.contributors, caller@, j as int);
                }
                Ok(c.contributors[j].amount)
            },
            None => {
                Ok(0)
            },
        }
    }
}

} // verus!
