//! Campaigns and their contribution records.
//!
//! A [`Campaign`] is one fundraising effort: immutable metadata (id, name,
//! description, creator, goal, deadline) plus the mutable funding state
//! (`current_amount`, `is_active`, and the per-contributor record). The
//! contributor record is a vector of entries with pairwise distinct
//! contributor identities, kept in insertion order; a campaign is
//! well formed when `current_amount` equals the sum of all recorded entries.

use vstd::prelude::*;

use crate::identity::Identity;

verus! {

/// One entry of a campaign's contribution record: the cumulative amount a
/// single contributor has put toward the campaign.
#[derive(Debug)]
pub struct Contribution {
    pub contributor: Identity,
    pub amount: u64,
}

/// The mathematical model of a [`Contribution`] entry.
#[verifier::ext_equal]
pub struct ContributionView {
    pub contributor: Seq<u8>,
    pub amount: u64,
}

impl View for Contribution {
    type V = ContributionView;

    open spec fn view(&self) -> ContributionView {
        ContributionView { contributor: self.contributor@, amount: self.amount }
    }
}

/// The models of all entries of a contribution record, in order.
pub open spec fn contribution_views(entries: Seq<Contribution>) -> Seq<ContributionView> {
    entries.map_values(|c: Contribution| c@)
}

impl Clone for Contribution {
    fn clone(&self) -> (r: Contribution)
        ensures
            r@ == self@,
    {
        Contribution { contributor: self.contributor.clone(), amount: self.amount }
    }
}

/// The sum of all amounts recorded in a contribution record.
pub open spec fn sum_amounts(entries: Seq<ContributionView>) -> int
    decreases entries.len(),
{
    if entries.len() == 0 {
        0
    } else {
        sum_amounts(entries.drop_last()) + entries.last().amount
    }
}

/// Whether `who` already holds an entry in the record.
pub open spec fn has_entry(entries: Seq<ContributionView>, who: Seq<u8>) -> bool {
    exists|i: int| 0 <= i < entries.len() && entries[i].contributor == who
}

/// The index of `who`'s entry; meaningful only when `has_entry` holds and
/// the contributors are pairwise distinct.
pub open spec fn entry_index(entries: Seq<ContributionView>, who: Seq<u8>) -> int {
    choose|i: int| 0 <= i < entries.len() && entries[i].contributor == who
}

/// The cumulative amount recorded for `who`: the amount of `who`'s entry,
/// or 0 if `who` never contributed.
pub open spec fn amount_of(entries: Seq<ContributionView>, who: Seq<u8>) -> u64 {
    if has_entry(entries, who) {
        entries[entry_index(entries, who)].amount
    } else {
        0
    }
}

/// Contributor identities are pairwise distinct.
pub open spec fn unique_contributors(entries: Seq<ContributionView>) -> bool {
    forall|i: int, j: int|
        0 <= i < j < entries.len() ==> entries[i].contributor != entries[j].contributor
}

/// The record after `who` contributes `amount` more: the existing entry is
/// increased in place, or a new entry is appended at the end.
pub open spec fn record_contribution(
    entries: Seq<ContributionView>,
    who: Seq<u8>,
    amount: u64,
) -> Seq<ContributionView> {
    if has_entry(entries, who) {
        entries.update(
            entry_index(entries, who),
            ContributionView { contributor: who, amount: (amount_of(entries, who) + amount) as u64 },
        )
    } else {
        entries.push(ContributionView { contributor: who, amount })
    }
}

/// One fundraising campaign.
#[derive(Debug)]
pub struct Campaign {
    pub id: u64,
    pub name: String,
    pub description: String,
    pub creator: Identity,
    pub goal_amount: u64,
    pub current_amount: u64,
    /// Timestamp in nanoseconds after which contributions are rejected.
    pub deadline: u64,
    pub is_active: bool,
    pub contributors: Vec<Contribution>,
}

/// The mathematical model of a [`Campaign`].
#[verifier::ext_equal]
pub struct CampaignView {
    pub id: u64,
    pub name: Seq<char>,
    pub description: Seq<char>,
    pub creator: Seq<u8>,
    pub goal_amount: u64,
    pub current_amount: u64,
    pub deadline: u64,
    pub is_active: bool,
    pub contributors: Seq<ContributionView>,
}

impl View for Campaign {
    type V = CampaignView;

    open spec fn view(&self) -> CampaignView {
        CampaignView {
            id: self.id,
            name: self.name@,
            description: self.description@,
            creator: self.creator@,
            goal_amount: self.goal_amount,
            current_amount: self.current_amount,
            deadline: self.deadline,
            is_active: self.is_active,
            contributors: contribution_views(self.contributors@),
        }
    }
}

/// The models of all campaigns of a ledger, in storage order.
pub open spec fn campaign_views(entries: Seq<Campaign>) -> Seq<CampaignView> {
    entries.map_values(|c: Campaign| c@)
}

/// A campaign is well formed when its contributors are pairwise distinct and
/// its running total equals the sum of all recorded contributions.
pub open spec fn campaign_wf(c: CampaignView) -> bool {
    &&& unique_contributors(c.contributors)
    &&& c.current_amount == sum_amounts(c.contributors)
}

impl Clone for Campaign {
    /// A full copy of the campaign state, with the very same model.
    fn clone(&self) -> (r: Campaign)
        ensures
            r@ == self@,
    {
        let mut contributors: Vec<Contribution> = Vec::new();
        let mut i: usize = 0;
        while i < self.contributors.len()
            invariant
                i <= self.contributors.len(),
                contributors@.len() == i,
                forall|j: int| 0 <= j < i ==> contributors@[j]@ == self.contributors@[j]@,
            decreases self.contributors.len() - i,
        {
            contributors.push(self.contributors[i].clone());
            i = i + 1;
        }
        assert(contributors@.map_values(|c: Contribution| c@)
            =~= self.contributors@.map_values(|c: Contribution| c@));
        let r = Campaign {
            id: self.id,
            name: self.name.clone(),
            description: self.description.clone(),
            creator: self.creator.clone(),
            goal_amount: self.goal_amount,
            current_amount: self.current_amount,
            deadline: self.deadline,
            is_active: self.is_active,
            contributors,
        };
        assert(r@ =~= self@);
        r
    }
}

/// Finds the index of `who`'s entry in the record, if there is one.
pub(crate) fn find_contributor(entries: &Vec<Contribution>, who: &Identity) -> (r: Option<usize>)
    ensures
        match r {
            Some(j) => j < entries@.len() && entries@[j as int]@.contributor == who@,
            None => !has_entry(contribution_views(entries@), who@),
        },
{
    let mut j: usize = 0;
    while j < entries.len()
        invariant
            j <= entries.len(),
            forall|k: int| 0 <= k < j ==> entries@[k]@.contributor != who@,
        decreases entries.len() - j,
    {
        if entries[j].contributor == *who {
            return Some(j);
        }
        j = j + 1;
    }
    proof {
        let views = contribution_views(entries@);
        assert forall|i: int| 0 <= i < views.len() implies views[i].contributor != who@ by {
            assert(views[i] == entries@[i]@);
        }
    }
    None
}

/// Updating the entry at `i` changes the sum by the difference of the two
/// amounts.
pub proof fn lemma_sum_update(entries: Seq<ContributionView>, i: int, e: ContributionView)
    requires
        0 <= i < entries.len(),
    ensures
        sum_amounts(entries.update(i, e)) == sum_amounts(entries) - entries[i].amount + e.amount,
    decreases entries.len(),
{
    if i == entries.len() - 1 {
        assert(entries.update(i, e).drop_last() =~= entries.drop_last());
    } else {
        assert(entries.update(i, e).drop_last() =~= entries.drop_last().update(i, e));
        lemma_sum_update(entries.drop_last(), i, e);
    }
}

/// Appending an entry adds its amount to the sum.
pub proof fn lemma_sum_push(entries: Seq<ContributionView>, e: ContributionView)
    ensures
        sum_amounts(entries.push(e)) == sum_amounts(entries) + e.amount,
{
    assert(entries.push(e).drop_last() =~= entries);
}

/// The sum of recorded amounts is never negative.
pub proof fn lemma_sum_nonneg(entries: Seq<ContributionView>)
    ensures
        sum_amounts(entries) >= 0,
    decreases entries.len(),
{
    if entries.len() > 0 {
        lemma_sum_nonneg(entries.drop_last());
    }
}

/// Every single entry's amount is at most the sum of all amounts.
pub proof fn lemma_entry_le_sum(entries: Seq<ContributionView>, i: int)
    requires
        0 <= i < entries.len(),
    ensures
        entries[i].amount <= sum_amounts(entries),
    decreases entries.len(),
{
    if i < entries.len() - 1 {
        lemma_entry_le_sum(entries.drop_last(), i);
    } else {
        lemma_sum_nonneg(entries.drop_last());
    }
}

/// With pairwise distinct contributors, the index of `who`'s entry is the
/// one witness `j` at hand.
pub proof fn lemma_entry_index_is(entries: Seq<ContributionView>, who: Seq<u8>, j: int)
    requires
        unique_contributors(entries),
        0 <= j < entries.len(),
        entries[j].contributor == who,
    ensures
        has_entry(entries, who),
        entry_index(entries, who) == j,
        amount_of(entries, who) == entries[j].amount,
{
    assert(has_entry(entries, who));
    let k = entry_index(entries, who);
    assert(0 <= k < entries.len() && entries[k].contributor == who);
}

/// Recording a contribution keeps the contributors pairwise distinct and
/// raises the sum by exactly the contributed amount.
pub proof fn lemma_record_contribution(entries: Seq<ContributionView>, who: Seq<u8>, amount: u64)
    requires
        unique_contributors(entries),
        amount_of(entries, who) + amount <= u64::MAX,
    ensures
        unique_contributors(record_contribution(entries, who, amount)),
        sum_amounts(record_contribution(entries, who, amount)) == sum_amounts(entries) + amount,
{
    if has_entry(entries, who) {
        let i = entry_index(entries, who);
        assert(0 <= i < entries.len() && entries[i].contributor == who);
        lemma_sum_update(
            entries,
            i,
            ContributionView { contributor: who, amount: (amount_of(entries, who) + amount) as u64 },
        );
    } else {
        lemma_sum_push(entries, ContributionView { contributor: who, amount });
    }
}

/// Recording a contribution raises exactly the contributor's own cumulative
/// amount, by exactly the contributed amount; every other identity's
/// cumulative amount is untouched.
pub proof fn lemma_record_contribution_amounts(
    entries: Seq<ContributionView>,
    who: Seq<u8>,
    amount: u64,
    other: Seq<u8>,
)
    requires
        unique_contributors(entries),
        amount_of(entries, who) + amount <= u64::MAX,
    ensures
        amount_of(record_contribution(entries, who, amount), who)
            == amount_of(entries, who) + amount,
        other != who ==> amount_of(record_contribution(entries, who, amount), other)
            == amount_of(entries, other),
{
    let r = record_contribution(entries, who, amount);
    lemma_record_contribution(entries, who, amount);
    let own = if has_entry(entries, who) {
        entry_index(entries, who)
    } else {
        entries.len() as int
    };
    if has_entry(entries, who) {
        assert(0 <= own < entries.len() && entries[own].contributor == who);
    }
    lemma_entry_index_is(r, who, own);
    if other != who {
        if has_entry(entries, other) {
            let k = entry_index(entries, other);
            assert(0 <= k < entries.len() && entries[k].contributor == other);
            lemma_entry_index_is(entries, other, k);
            assert(r[k] == entries[k]);
            lemma_entry_index_is(r, other, k);
        } else {
            assert forall|m: int| 0 <= m < r.len() implies r[m].contributor != other by {
                if m == own {
                    assert(r[m].contributor == who);
                } else {
                    assert(r[m] == entries[m]);
                    assert(entries[m].contributor != other);
                }
            }
            assert(!has_entry(r, other));
        }
    }
}

} // verus!
