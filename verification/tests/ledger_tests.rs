//! End-to-end tests of the crowdfunding ledger.

use crowdfunding::{Campaign, CampaignError, CampaignLedger, Identity};

fn ident(tag: u8) -> Identity {
    Identity::from_bytes(vec![tag])
}

fn contributed_sum(c: &Campaign) -> u64 {
    let mut sum: u64 = 0;
    for entry in &c.contributors {
        sum += entry.amount;
    }
    sum
}

#[test]
fn creates_assign_sequential_ids() {
    let mut ledger = CampaignLedger::new();
    let a = ledger.create_campaign("a".to_string(), "".to_string(), 10, 100, ident(1));
    let b = ledger.create_campaign("b".to_string(), "".to_string(), 0, 0, ident(2));
    let c = ledger.create_campaign("c".to_string(), "".to_string(), 99, 7, ident(1));
    assert_eq!(a, 1);
    assert_eq!(b, 2);
    assert_eq!(c, 3);
    assert!(a < b && b < c);
}

#[test]
fn current_amount_matches_contributor_sum() {
    let mut ledger = CampaignLedger::new();
    ledger.create_campaign("fund".to_string(), "".to_string(), 1000, 500, ident(1));
    assert_eq!(ledger.contribute_to_campaign(1, 10, &ident(2), 1), Ok(()));
    assert_eq!(ledger.contribute_to_campaign(1, 25, &ident(3), 2), Ok(()));
    assert_eq!(ledger.contribute_to_campaign(1, 7, &ident(2), 3), Ok(()));
    let c = ledger.get_campaign(1).unwrap();
    assert_eq!(c.current_amount, 42);
    assert_eq!(contributed_sum(&c), c.current_amount);
    assert_eq!(c.contributors.len(), 2);
}

#[test]
fn contribute_to_unknown_id_reports_not_found() {
    let mut ledger = CampaignLedger::new();
    ledger.create_campaign("only".to_string(), "".to_string(), 10, 100, ident(1));
    let before = ledger.get_campaign(1).unwrap();
    assert_eq!(
        ledger.contribute_to_campaign(2, 50, &ident(2), 1),
        Err(CampaignError::NotFound)
    );
    assert_eq!(
        ledger.contribute_to_campaign(0, 50, &ident(2), 1),
        Err(CampaignError::NotFound)
    );
    let after = ledger.get_campaign(1).unwrap();
    assert_eq!(ledger.campaign_count(), 1);
    assert_eq!(after.current_amount, before.current_amount);
    assert_eq!(after.contributors.len(), before.contributors.len());
    assert!(after.is_active);
}

#[test]
fn expired_contribution_flips_campaign_inactive() {
    let mut ledger = CampaignLedger::new();
    ledger.create_campaign("late".to_string(), "".to_string(), 10, 100, ident(1));
    assert_eq!(
        ledger.contribute_to_campaign(1, 5, &ident(2), 101),
        Err(CampaignError::Expired)
    );
    assert!(!ledger.get_campaign(1).unwrap().is_active);
    assert_eq!(
        ledger.contribute_to_campaign(1, 5, &ident(2), 101),
        Err(CampaignError::Inactive)
    );
    assert_eq!(ledger.get_campaign(1).unwrap().current_amount, 0);
}

#[test]
fn already_inactive_reports_inactive_not_expired() {
    let mut ledger = CampaignLedger::new();
    ledger.create_campaign("was".to_string(), "".to_string(), 10, 100, ident(1));
    assert_eq!(
        ledger.contribute_to_campaign(1, 5, &ident(2), 200),
        Err(CampaignError::Expired)
    );
    // Past the deadline and already inactive: `Inactive`, not `Expired`.
    assert_eq!(
        ledger.contribute_to_campaign(1, 5, &ident(3), 300),
        Err(CampaignError::Inactive)
    );
}

#[test]
fn success_cannot_be_judged_before_deadline() {
    let mut ledger = CampaignLedger::new();
    ledger.create_campaign("rich".to_string(), "".to_string(), 10, 100, ident(1));
    assert_eq!(ledger.contribute_to_campaign(1, 500, &ident(2), 1), Ok(()));
    // Funds far beyond the goal make no difference before the deadline.
    assert_eq!(
        ledger.is_campaign_successful(1, 99),
        Err(CampaignError::StillActive)
    );
    assert_eq!(ledger.is_campaign_successful(1, 100), Ok(true));
    assert_eq!(ledger.is_campaign_successful(1, 5000), Ok(true));
}

#[test]
fn success_judgment_is_exact_after_deadline() {
    let mut ledger = CampaignLedger::new();
    ledger.create_campaign("close".to_string(), "".to_string(), 100, 50, ident(1));
    assert_eq!(ledger.contribute_to_campaign(1, 99, &ident(2), 10), Ok(()));
    assert_eq!(ledger.is_campaign_successful(1, 51), Ok(false));
    let mut exact = CampaignLedger::new();
    exact.create_campaign("exact".to_string(), "".to_string(), 100, 50, ident(1));
    assert_eq!(exact.contribute_to_campaign(1, 100, &ident(2), 10), Ok(()));
    assert_eq!(exact.is_campaign_successful(1, 51), Ok(true));
}

#[test]
fn is_successful_never_flips_the_active_flag() {
    let mut ledger = CampaignLedger::new();
    ledger.create_campaign("read".to_string(), "".to_string(), 10, 100, ident(1));
    assert_eq!(ledger.is_campaign_successful(1, 5000), Ok(false));
    // The success judgment is a pure read: the campaign stays active.
    assert!(ledger.get_campaign(1).unwrap().is_active);
}

#[test]
fn absent_contributor_reads_zero() {
    let mut ledger = CampaignLedger::new();
    ledger.create_campaign("few".to_string(), "".to_string(), 10, 100, ident(1));
    assert_eq!(ledger.contribute_to_campaign(1, 30, &ident(2), 1), Ok(()));
    assert_eq!(ledger.get_user_contributions(1, &ident(9)), Ok(0));
    assert_eq!(
        ledger.get_user_contributions(7, &ident(9)),
        Err(CampaignError::NotFound)
    );
}

#[test]
fn funding_lifecycle_scenario() {
    let t: u64 = 40_000;
    let mut ledger = CampaignLedger::new();
    let id = ledger.create_campaign(
        "boat".to_string(),
        "a boat".to_string(),
        100,
        t + 1000,
        ident(1),
    );
    assert_eq!(id, 1);
    assert_eq!(ledger.contribute_to_campaign(1, 60, &ident(2), t + 10), Ok(()));
    assert_eq!(ledger.get_campaign(1).unwrap().current_amount, 60);
    let late = ledger.contribute_to_campaign(1, 50, &ident(2), t + 2000);
    assert_eq!(late, Err(CampaignError::Expired));
    assert_eq!(late.unwrap_err().message(), "Campaign has ended".to_string());
    assert!(!ledger.get_campaign(1).unwrap().is_active);
    assert_eq!(ledger.is_campaign_successful(1, t + 2000), Ok(false));
}

#[test]
fn two_contributors_reach_goal() {
    let mut ledger = CampaignLedger::new();
    ledger.create_campaign("pair".to_string(), "".to_string(), 100, 500, ident(1));
    assert_eq!(ledger.contribute_to_campaign(1, 50, &ident(2), 10), Ok(()));
    assert_eq!(ledger.contribute_to_campaign(1, 50, &ident(3), 20), Ok(()));
    assert_eq!(ledger.get_campaign(1).unwrap().current_amount, 100);
    assert_eq!(ledger.is_campaign_successful(1, 501), Ok(true));
    assert_eq!(ledger.get_user_contributions(1, &ident(2)), Ok(50));
    assert_eq!(ledger.get_user_contributions(1, &ident(3)), Ok(50));
}

#[test]
fn repeat_contributor_accumulates() {
    let mut ledger = CampaignLedger::new();
    ledger.create_campaign("again".to_string(), "".to_string(), 100, 500, ident(1));
    assert_eq!(ledger.contribute_to_campaign(1, 30, &ident(2), 1), Ok(()));
    assert_eq!(ledger.contribute_to_campaign(1, 12, &ident(2), 2), Ok(()));
    assert_eq!(ledger.get_user_contributions(1, &ident(2)), Ok(42));
    let c = ledger.get_campaign(1).unwrap();
    assert_eq!(c.contributors.len(), 1);
    assert_eq!(c.current_amount, 42);
}

#[test]
fn zero_amount_contribution_is_recorded() {
    let mut ledger = CampaignLedger::new();
    ledger.create_campaign("zero".to_string(), "".to_string(), 10, 100, ident(1));
    assert_eq!(ledger.contribute_to_campaign(1, 0, &ident(2), 1), Ok(()));
    let c = ledger.get_campaign(1).unwrap();
    assert_eq!(c.current_amount, 0);
    assert_eq!(c.contributors.len(), 1);
    assert_eq!(ledger.get_user_contributions(1, &ident(2)), Ok(0));
}

#[test]
fn over_funding_is_recorded_silently() {
    let mut ledger = CampaignLedger::new();
    ledger.create_campaign("more".to_string(), "".to_string(), 10, 100, ident(1));
    assert_eq!(ledger.contribute_to_campaign(1, 10_000, &ident(2), 1), Ok(()));
    assert_eq!(ledger.get_campaign(1).unwrap().current_amount, 10_000);
    assert_eq!(ledger.is_campaign_successful(1, 101), Ok(true));
}

#[test]
fn degenerate_campaigns_are_created_but_expire_at_once() {
    let mut ledger = CampaignLedger::new();
    // A zero goal and a deadline already in the past are both accepted.
    let id = ledger.create_campaign("old".to_string(), "".to_string(), 0, 5, ident(1));
    assert_eq!(id, 1);
    assert_eq!(
        ledger.contribute_to_campaign(1, 1, &ident(2), 6),
        Err(CampaignError::Expired)
    );
    // With a zero goal, zero raised counts as success once judged.
    assert_eq!(ledger.is_campaign_successful(1, 6), Ok(true));
}

#[test]
fn contribution_on_the_deadline_is_accepted() {
    let mut ledger = CampaignLedger::new();
    ledger.create_campaign("edge".to_string(), "".to_string(), 10, 100, ident(1));
    // `now` equal to the deadline has not yet exceeded it.
    assert_eq!(ledger.contribute_to_campaign(1, 4, &ident(2), 100), Ok(()));
    assert_eq!(ledger.get_campaign(1).unwrap().current_amount, 4);
}

#[test]
fn get_campaign_returns_full_state() {
    let mut ledger = CampaignLedger::new();
    ledger.create_campaign(
        "name".to_string(),
        "words".to_string(),
        77,
        123,
        ident(5),
    );
    assert_eq!(ledger.contribute_to_campaign(1, 3, &ident(6), 7), Ok(()));
    let c = ledger.get_campaign(1).unwrap();
    assert_eq!(c.id, 1);
    assert_eq!(c.name, "name");
    assert_eq!(c.description, "words");
    assert!(c.creator == ident(5));
    assert_eq!(c.goal_amount, 77);
    assert_eq!(c.current_amount, 3);
    assert_eq!(c.deadline, 123);
    assert!(c.is_active);
    assert_eq!(c.contributors.len(), 1);
    assert!(c.contributors[0].contributor == ident(6));
    assert_eq!(c.contributors[0].amount, 3);
    assert_eq!(
        ledger.get_campaign(2).unwrap_err(),
        CampaignError::NotFound
    );
}

#[test]
fn get_all_campaigns_lists_in_id_order() {
    let mut ledger = CampaignLedger::new();
    assert!(ledger.get_all_campaigns().is_empty());
    ledger.create_campaign("a".to_string(), "".to_string(), 1, 10, ident(1));
    ledger.create_campaign("b".to_string(), "".to_string(), 2, 20, ident(2));
    ledger.create_campaign("c".to_string(), "".to_string(), 3, 30, ident(3));
    let all = ledger.get_all_campaigns();
    assert_eq!(all.len(), 3);
    for (i, c) in all.iter().enumerate() {
        assert_eq!(c.id, i as u64 + 1);
    }
    assert_eq!(all[0].name, "a");
    assert_eq!(all[2].deadline, 30);
}

#[test]
fn error_messages_match_their_conditions() {
    assert_eq!(
        CampaignError::NotFound.message(),
        "Campaign not found".to_string()
    );
    assert_eq!(
        CampaignError::Inactive.message(),
        "Campaign is not active".to_string()
    );
    assert_eq!(
        CampaignError::Expired.message(),
        "Campaign has ended".to_string()
    );
    assert_eq!(
        CampaignError::StillActive.message(),
        "Campaign is still active".to_string()
    );
}

#[test]
fn identity_equality_goes_by_bytes() {
    assert!(Identity::from_bytes(vec![1, 2, 3]) == Identity::from_bytes(vec![1, 2, 3]));
    assert!(!(Identity::from_bytes(vec![1, 2, 3]) == Identity::from_bytes(vec![1, 2, 4])));
    assert!(!(Identity::from_bytes(vec![1, 2]) == Identity::from_bytes(vec![1, 2, 3])));
    assert_eq!(Identity::from_bytes(vec![7, 8]).as_bytes(), &vec![7, 8]);
    let whoever = Identity::from_bytes(vec![9, 9]);
    assert!(whoever.clone() == whoever);
}
