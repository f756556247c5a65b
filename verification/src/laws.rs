//! Ledger-wide laws, each stated over the spec-level step and query
//! functions that the executable operations are proved to match exactly.

use vstd::prelude::*;

use crate::campaign::{
    amount_of, campaign_wf, entry_index, has_entry, lemma_entry_index_is, lemma_entry_le_sum,
    lemma_record_contribution_amounts, sum_amounts, CampaignView,
};
use crate::errors::CampaignError;
use crate::ledger::{
    campaign_of, contribute_step, create_step, has_campaign, ledger_wf,
};

verus! {

/// In a well-formed ledger, campaign ids are strictly increasing with
/// storage order, and therefore pairwise distinct.
pub proof fn lemma_ids_strictly_increasing(v: Seq<CampaignView>)
    requires
        ledger_wf(v),
    ensures
        forall|i: int, j: int|
            0 <= i < j < v.len() ==> #[trigger] v[i].id < #[trigger] v[j].id,
        forall|i: int, j: int| 0 <= i < j < v.len() ==> v[i].id != v[j].id,
{
}

/// A create returns an id strictly greater than the id of every campaign
/// already stored — ids are never reused — and keeps the ledger well
/// formed, so over any sequence of creates the returned ids are strictly
/// increasing and unique.
pub proof fn lemma_create_id_fresh(
    v: Seq<CampaignView>,
    name: Seq<char>,
    description: Seq<char>,
    goal_amount: u64,
    deadline: u64,
    creator: Seq<u8>,
)
    requires
        ledger_wf(v),
        v.len() + 1 <= u64::MAX,
    ensures
        create_step(v, name, description, goal_amount, deadline, creator).1 == v.len() + 1,
        forall|i: int|
            0 <= i < v.len()
                ==> create_step(v, name, description, goal_amount, deadline, creator).1
                > #[trigger] v[i].id,
        ledger_wf(create_step(v, name, description, goal_amount, deadline, creator).0),
{
    let (v1, id) = create_step(v, name, description, goal_amount, deadline, creator);
    assert forall|i: int| 0 <= i < v1.len() implies (#[trigger] v1[i]).id == i + 1
        && campaign_wf(v1[i]) by {
        if i < v.len() {
            assert(v1[i] == v[i]);
        }
    }
}

/// Two consecutive creates, whatever their arguments, return strictly
/// increasing ids.
pub proof fn lemma_create_ids_strictly_increase(
    v: Seq<CampaignView>,
    name1: Seq<char>,
    description1: Seq<char>,
    goal_amount1: u64,
    deadline1: u64,
    creator1: Seq<u8>,
    name2: Seq<char>,
    description2: Seq<char>,
    goal_amount2: u64,
    deadline2: u64,
    creator2: Seq<u8>,
)
    requires
        v.len() + 2 <= u64::MAX,
    ensures
        create_step(
            create_step(v, name1, description1, goal_amount1, deadline1, creator1).0,
            name2,
            description2,
            goal_amount2,
            deadline2,
            creator2,
        ).1 > create_step(v, name1, description1, goal_amount1, deadline1, creator1).1,
{
}

/// In a well-formed ledger, every campaign's running total equals the sum
/// of all amounts in its contribution record.
pub proof fn lemma_amount_matches_contributions(v: Seq<CampaignView>, campaign_id: u64)
    requires
        ledger_wf(v),
        has_campaign(v, campaign_id),
    ensures
        campaign_of(v, campaign_id).current_amount
            == sum_amounts(campaign_of(v, campaign_id).contributors),
{
}

/// A contribution attempt against an id the ledger does not hold reports
/// `NotFound` and leaves the ledger exactly as it was — no partial
/// mutation.
pub proof fn lemma_contribute_unknown_id_is_noop(
    v: Seq<CampaignView>,
    campaign_id: u64,
    amount: u64,
    caller: Seq<u8>,
    now: u64,
)
    requires
        !has_campaign(v, campaign_id),
    ensures
        contribute_step(v, campaign_id, amount, caller, now).0 == v,
        contribute_step(v, campaign_id, amount, caller, now).1 == Err::<(), CampaignError>(
            CampaignError::NotFound,
        ),
{
}

/// A contribution attempt on a still-active campaign past its deadline
/// reports `Expired` and flips the campaign inactive; any later attempt on
/// the same campaign reports `Inactive` and changes nothing.
pub proof fn lemma_expired_then_inactive(
    v: Seq<CampaignView>,
    campaign_id: u64,
    amount1: u64,
    caller1: Seq<u8>,
    now1: u64,
    amount2: u64,
    caller2: Seq<u8>,
    now2: u64,
)
    requires
        has_campaign(v, campaign_id),
        campaign_of(v, campaign_id).is_active,
        now1 > campaign_of(v, campaign_id).deadline,
    ensures
        contribute_step(v, campaign_id, amount1, caller1, now1).1 == Err::<(), CampaignError>(
            CampaignError::Expired,
        ),
        !campaign_of(contribute_step(v, campaign_id, amount1, caller1, now1).0, campaign_id)
            .is_active,
        contribute_step(
            contribute_step(v, campaign_id, amount1, caller1, now1).0,
            campaign_id,
            amount2,
            caller2,
            now2,
        ).0 == contribute_step(v, campaign_id, amount1, caller1, now1).0,
        contribute_step(
            contribute_step(v, campaign_id, amount1, caller1, now1).0,
            campaign_id,
            amount2,
            caller2,
            now2,
        ).1 == Err::<(), CampaignError>(CampaignError::Inactive),
{
    let v1 = contribute_step(v, campaign_id, amount1, caller1, now1).0;
    assert(campaign_of(v1, campaign_id) == v1[campaign_id - 1]);
    assert(!campaign_of(v1, campaign_id).is_active);
}

/// An accepted contribution raises the campaign's running total and the
/// caller's own cumulative amount by exactly the contributed amount, and no
/// other identity's cumulative amount moves at all.
pub proof fn lemma_contribution_accumulates(
    v: Seq<CampaignView>,
    campaign_id: u64,
    amount: u64,
    caller: Seq<u8>,
    now: u64,
)
    requires
        ledger_wf(v),
        has_campaign(v, campaign_id),
        campaign_of(v, campaign_id).is_active,
        now <= campaign_of(v, campaign_id).deadline,
        campaign_of(v, campaign_id).current_amount + amount <= u64::MAX,
    ensures
        contribute_step(v, campaign_id, amount, caller, now).1 == Ok::<(), CampaignError>(()),
        campaign_of(contribute_step(v, campaign_id, amount, caller, now).0, campaign_id)
            .current_amount == campaign_of(v, campaign_id).current_amount + amount,
        amount_of(
            campaign_of(contribute_step(v, campaign_id, amount, caller, now).0, campaign_id)
                .contributors,
            caller,
        ) == amount_of(campaign_of(v, campaign_id).contributors, caller) + amount,
        forall|other: Seq<u8>|
            other != caller ==> #[trigger] amount_of(
                campaign_of(contribute_step(v, campaign_id, amount, caller, now).0, campaign_id)
                    .contributors,
                other,
            ) == amount_of(campaign_of(v, campaign_id).contributors, other),
{
    let c = campaign_of(v, campaign_id);
    assert(campaign_wf(c));
    if has_entry(c.contributors, caller) {
        let k = entry_index(c.contributors, caller);
        assert(0 <= k < c.contributors.len() && c.contributors[k].contributor == caller);
        lemma_entry_le_sum(c.contributors, k);
    }
    assert(amount_of(c.contributors, caller) + amount <= u64::MAX);
    let w = campaign_of(contribute_step(v, campaign_id, amount, caller, now).0, campaign_id);
    lemma_record_contribution_amounts(c.contributors, caller, amount, caller);
    assert forall|other: Seq<u8>| other != caller implies #[trigger] amount_of(
        w.contributors,
        other,
    ) == amount_of(c.contributors, other) by {
        lemma_record_contribution_amounts(c.contributors, caller, amount, other);
    }
}

/// A contribution attempt never creates or deletes campaigns and never
/// touches any campaign's immutable metadata: id, name, description,
/// creator, goal and deadline all stay exactly as they were.
pub proof fn lemma_contribute_preserves_metadata(
    v: Seq<CampaignView>,
    campaign_id: u64,
    amount: u64,
    caller: Seq<u8>,
    now: u64,
)
    ensures
        contribute_step(v, campaign_id, amount, caller, now).0.len() == v.len(),
        forall|i: int|
            0 <= i < v.len() ==> {
                let w = #[trigger] contribute_step(v, campaign_id, amount, caller, now).0[i];
                w.id == v[i].id && w.name == v[i].name && w.description == v[i].description
                    && w.creator == v[i].creator && w.goal_amount == v[i].goal_amount
                    && w.deadline == v[i].deadline
            },
{
}

/// No contribution attempt ever reactivates a campaign: once a campaign is
/// inactive, it stays inactive through every later attempt, whichever
/// campaign that attempt names.
pub proof fn lemma_inactive_stays_inactive(
    v: Seq<CampaignView>,
    campaign_id: u64,
    other_id: u64,
    amount: u64,
    caller: Seq<u8>,
    now: u64,
)
    requires
        has_campaign(v, campaign_id),
        !campaign_of(v, campaign_id).is_active,
    ensures
        has_campaign(contribute_step(v, other_id, amount, caller, now).0, campaign_id),
        !campaign_of(contribute_step(v, other_id, amount, caller, now).0, campaign_id).is_active,
{
}

} // verus!
