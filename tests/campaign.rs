use supermarket::campaign::{
    initial_snapshot, AdUnit, Campaign, CampaignStatus, Snapshot, StatusUpdate,
};

fn unit(ipfs: &str) -> AdUnit {
    AdUnit { ipfs: ipfs.to_string(), tags: vec!["sport".to_string()] }
}

fn campaign(id: &str, status: CampaignStatus, units: Vec<AdUnit>) -> Campaign {
    Campaign { id: id.to_string(), status, units }
}

fn ids(s: &Snapshot) -> Vec<String> {
    s.campaigns().iter().map(|c| c.id.clone()).collect()
}

#[test]
fn new_campaigns_are_added_as_new() {
    let s = Snapshot::empty().add_new_campaigns(vec![
        campaign("c1", CampaignStatus::Active, vec![unit("u1")]),
        campaign("c2", CampaignStatus::Finalized, vec![]),
    ]);
    assert_eq!(ids(&s), vec!["c1", "c2"]);
    assert!(s.campaigns().iter().all(|c| c.status == CampaignStatus::New));
    assert_eq!(s.campaigns()[0].units[0].ipfs, "u1");
}

#[test]
fn known_campaigns_are_not_added_again() {
    let s = Snapshot::empty().add_new_campaigns(vec![campaign("c1", CampaignStatus::New, vec![])]);
    let s = s.apply_status_updates(&vec![StatusUpdate { id: "c1".to_string(), status: CampaignStatus::Active }]);
    let s = s.add_new_campaigns(vec![
        campaign("c1", CampaignStatus::New, vec![unit("other")]),
        campaign("c3", CampaignStatus::New, vec![]),
        campaign("c3", CampaignStatus::Active, vec![]),
    ]);
    assert_eq!(ids(&s), vec!["c1", "c3"]);
    assert_eq!(s.campaigns()[0].status, CampaignStatus::Active);
    assert!(s.campaigns()[0].units.is_empty());
}

#[test]
fn fetching_the_same_campaigns_twice_changes_nothing() {
    let fetched = || {
        vec![
            campaign("a", CampaignStatus::Active, vec![unit("u1"), unit("u2")]),
            campaign("b", CampaignStatus::New, vec![unit("u3")]),
        ]
    };
    let once = Snapshot::empty().add_new_campaigns(fetched());
    let twice = once.clone().add_new_campaigns(fetched());
    assert_eq!(ids(&once), ids(&twice));
    for (x, y) in once.campaigns().iter().zip(twice.campaigns().iter()) {
        assert_eq!(x.status, y.status);
        assert_eq!(x.units.len(), y.units.len());
    }
}

#[test]
fn the_last_update_for_a_campaign_wins() {
    let s = Snapshot::empty().add_new_campaigns(vec![
        campaign("a", CampaignStatus::New, vec![]),
        campaign("b", CampaignStatus::New, vec![]),
    ]);
    let s = s.apply_status_updates(&vec![
        StatusUpdate { id: "a".to_string(), status: CampaignStatus::Active },
        StatusUpdate { id: "zz".to_string(), status: CampaignStatus::Active },
        StatusUpdate { id: "a".to_string(), status: CampaignStatus::Finalized },
    ]);
    assert_eq!(ids(&s), vec!["a", "b"]);
    assert_eq!(s.campaigns()[0].status, CampaignStatus::Finalized);
    assert_eq!(s.campaigns()[1].status, CampaignStatus::New);
}

#[test]
fn only_active_campaigns_serve_units() {
    let s = Snapshot::empty().add_new_campaigns(vec![
        campaign("a", CampaignStatus::New, vec![unit("u1"), unit("u2")]),
        campaign("b", CampaignStatus::New, vec![unit("u3")]),
        campaign("c", CampaignStatus::New, vec![unit("u4")]),
    ]);
    assert!(s.serving_units().is_empty());
    let s = s.apply_status_updates(&vec![
        StatusUpdate { id: "a".to_string(), status: CampaignStatus::Active },
        StatusUpdate { id: "c".to_string(), status: CampaignStatus::Active },
        StatusUpdate { id: "b".to_string(), status: CampaignStatus::Finalized },
    ]);
    let units: Vec<String> = s.serving_units().into_iter().map(|u| u.ipfs).collect();
    assert_eq!(units, vec!["u1", "u2", "u4"]);
    assert_eq!(s.serving_units()[0].tags, vec!["sport".to_string()]);
}

#[test]
fn initial_load_gives_the_first_snapshot() {
    let s = initial_snapshot(Ok(vec![
        campaign("a", CampaignStatus::Active, vec![]),
        campaign("a", CampaignStatus::Active, vec![]),
    ]))
    .ok()
    .unwrap();
    assert_eq!(ids(&s), vec!["a"]);
    assert_eq!(s.campaigns()[0].status, CampaignStatus::New);
}

#[test]
fn failed_initial_load_prevents_startup() {
    let err = reqwest::Client::new().get("not a url").build().unwrap_err();
    let r = initial_snapshot(Err(err));
    assert!(matches!(r, Err(supermarket::error::ServiceError::Reqwest(_))));
}
