use supermarket::config::{Config, Timeouts};
use supermarket::scheduler::{Outcome, Refresh, Report, Scheduler};

fn config(new_every: u64, update_every: u64) -> Config {
    Config {
        validators: vec!["http://validator".to_string()],
        fetch_campaigns_every: new_every,
        update_campaigns_every: update_every,
        timeouts: Timeouts { cache_fetch_campaigns_from_market: 1000, cache_update_campaign_statuses: 500 },
    }
}

fn run(s: &mut Scheduler, n: usize) -> Vec<(Refresh, u64)> {
    let mut out = Vec::new();
    for _ in 0..n {
        let job = s.begin();
        assert!(!s.is_idle());
        s.finish(Outcome::Completed);
        out.push((job.kind, job.due_at));
    }
    out
}

#[test]
fn timers_are_merged_in_time_order() {
    let mut s = Scheduler::new(&config(3000, 2000));
    let jobs = run(&mut s, 7);
    assert_eq!(
        jobs,
        vec![
            (Refresh::NewCampaigns, 0),
            (Refresh::CampaignUpdates, 0),
            (Refresh::CampaignUpdates, 2000),
            (Refresh::NewCampaigns, 3000),
            (Refresh::CampaignUpdates, 4000),
            (Refresh::NewCampaigns, 6000),
            (Refresh::CampaignUpdates, 6000),
        ]
    );
}

#[test]
fn each_job_carries_its_timeout() {
    let mut s = Scheduler::new(&config(3000, 2000));
    let first = s.begin();
    assert_eq!((first.kind, first.timeout), (Refresh::NewCampaigns, 1000));
    s.finish(Outcome::Completed);
    let second = s.begin();
    assert_eq!((second.kind, second.timeout), (Refresh::CampaignUpdates, 500));
}

#[test]
fn timed_out_refresh_does_not_hold_up_the_next() {
    let mut a = Scheduler::new(&config(3000, 2000));
    let mut b = Scheduler::new(&config(3000, 2000));
    a.begin();
    b.begin();
    let report = a.finish(Outcome::TimedOut);
    assert_eq!(report, Report::TimedOut { kind: Refresh::NewCampaigns, allowed_ms: 1000 });
    b.finish(Outcome::Completed);
    assert!(a.is_idle());
    assert_eq!(a.next_due_at(), b.next_due_at());
    assert_eq!(run(&mut a, 3), run(&mut b, 3));
}

#[test]
fn reports_name_the_refresh_and_its_outcome() {
    let mut s = Scheduler::new(&config(10, 10));
    s.begin();
    assert_eq!(s.finish(Outcome::Completed), Report::Done(Refresh::NewCampaigns));
    s.begin();
    assert_eq!(s.finish(Outcome::Failed), Report::Failed(Refresh::CampaignUpdates));
    s.begin();
    assert_eq!(
        s.finish(Outcome::TimedOut),
        Report::TimedOut { kind: Refresh::NewCampaigns, allowed_ms: 1000 }
    );
}

#[test]
fn timers_stop_at_the_largest_time() {
    let mut s = Scheduler::new(&config(u64::MAX, u64::MAX));
    let jobs = run(&mut s, 4);
    assert_eq!(jobs[2], (Refresh::NewCampaigns, u64::MAX));
    assert_eq!(jobs[3], (Refresh::NewCampaigns, u64::MAX));
}

#[test]
fn error_message_is_the_underlying_one() {
    let err = reqwest::Client::new().get("not a url").build().unwrap_err();
    let text = err.to_string();
    let e = supermarket::error::ServiceError::from(err);
    assert_eq!(e.message(), text);
    assert!(!text.is_empty());
}
