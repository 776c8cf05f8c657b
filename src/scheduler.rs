//! The refresh schedule: two periodic timers merged into one ordered stream
//! of refresh jobs, run one at a time, each under its timeout.
use vstd::prelude::*;

use crate::config::Config;

verus! {

/// The two refresh operations of the cache.
#[derive(Clone, Copy, Debug, PartialEq, Eq, Structural)]
pub enum Refresh {
    /// Discover campaigns not yet known.
    NewCampaigns,
    /// Refresh the status of the known campaigns.
    CampaignUpdates,
}

/// A refresh to run now, and how long it may take (milliseconds).
#[derive(Clone, Copy, Debug)]
pub struct Job {
    pub kind: Refresh,
    pub due_at: u64,
    pub timeout: u64,
}

/// How a refresh ended.
#[derive(Clone, Copy, Debug, PartialEq, Eq, Structural)]
pub enum Outcome {
    Completed,
    Failed,
    TimedOut,
}

/// What is reported of a finished refresh.
#[derive(Clone, Copy, Debug, PartialEq, Eq, Structural)]
pub enum Report {
    Done(Refresh),
    Failed(Refresh),
    TimedOut { kind: Refresh, allowed_ms: u64 },
}

/// The schedule's state as plain values; times are milliseconds since start.
pub struct ScheduleView {
    pub new_every: u64,
    pub update_every: u64,
    pub new_timeout: u64,
    pub update_timeout: u64,
    pub next_new: u64,
    pub next_update: u64,
    pub running: Option<Refresh>,
}

/// The timers and the refresh in progress, if any.
#[derive(Debug)]
pub struct Scheduler {
    new_every: u64,
    update_every: u64,
    new_timeout: u64,
    update_timeout: u64,
    next_new: u64,
    next_update: u64,
    running: Option<Refresh>,
}

impl View for Scheduler {
    type V = ScheduleView;

    closed spec fn view(&self) -> ScheduleView {
        ScheduleView {
            new_every: self.new_every,
            update_every: self.update_every,
            new_timeout: self.new_timeout,
            update_timeout: self.update_timeout,
            next_new: self.next_new,
            next_update: self.next_update,
            running: self.running,
        }
    }
}

/// `t + period`, held at the largest time.
pub open spec fn later(t: u64, period: u64) -> u64 {
    if t + period > u64::MAX {
        u64::MAX
    } else {
        (t + period) as u64
    }
}

/// The refresh whose timer fires first; on a tie, new-campaign discovery.
pub open spec fn due(v: ScheduleView) -> Refresh {
    if v.next_new <= v.next_update {
        Refresh::NewCampaigns
    } else {
        Refresh::CampaignUpdates
    }
}

pub open spec fn idle(v: ScheduleView) -> bool {
    v.running is None
}

/// The schedule once the refresh due has started: it runs, and its timer
/// moves on by one period.
pub open spec fn begun(v: ScheduleView) -> ScheduleView {
    if due(v) == Refresh::NewCampaigns {
        ScheduleView {
            next_new: later(v.next_new, v.new_every),
            running: Some(Refresh::NewCampaigns),
            ..v
        }
    } else {
        ScheduleView {
            next_update: later(v.next_update, v.update_every),
            running: Some(Refresh::CampaignUpdates),
            ..v
        }
    }
}

/// The schedule once the running refresh has ended, however it ended.
pub open spec fn finished(v: ScheduleView) -> ScheduleView {
    ScheduleView { running: None, ..v }
}

fn later_exec(t: u64, period: u64) -> (r: u64)
    ensures
        r == later(t, period),
{
    if t > u64::MAX - period {
        u64::MAX
    } else {
        t + period
    }
}

impl Scheduler {
    /// A schedule on which both timers fire at once, at the start.
    pub fn new(config: &Config) -> (r: Scheduler)
        ensures
            r@.new_every == config.fetch_campaigns_every,
            r@.update_every == config.update_campaigns_every,
            r@.new_timeout == config.timeouts.cache_fetch_campaigns_from_market,
            r@.update_timeout == config.timeouts.cache_update_campaign_statuses,
            r@.next_new == 0,
            r@.next_update == 0,
            idle(r@),
    {
        Scheduler {
            new_every: config.fetch_campaigns_every,
            update_every: config.update_campaigns_every,
            new_timeout: config.timeouts.cache_fetch_campaigns_from_market,
            update_timeout: config.timeouts.cache_update_campaign_statuses,
            next_new: 0,
            next_update: 0,
            running: None,
        }
    }

    /// No refresh is running.
    pub fn is_idle(&self) -> (r: bool)
        ensures
            r == idle(self@),
    {
        self.running.is_none()
    }

    /// When the next refresh falls due.
    pub fn next_due_at(&self) -> (r: u64)
        ensures
            r == if due(self@) == Refresh::NewCampaigns {
                self@.next_new
            } else {
                self@.next_update
            },
    {
        if self.next_new <= self.next_update {
            self.next_new
        } else {
            self.next_update
        }
    }

    /// Starts the refresh that falls due first, with its timeout. Only an
    /// idle schedule starts one.
    pub fn begin(&mut self) -> (job: Job)
        requires
            idle(old(self)@),
        ensures
            final(self)@ == begun(old(self)@),
            job.kind == due(old(self)@),
            job.kind == Refresh::NewCampaigns ==> job.due_at == old(self)@.next_new
                && job.timeout == old(self)@.new_timeout,
            job.kind == Refresh::CampaignUpdates ==> job.due_at == old(self)@.next_update
                && job.timeout == old(self)@.update_timeout,
    {
        if self.next_new <= self.next_update {
            let job = Job { kind: Refresh::NewCampaigns, due_at: self.next_new, timeout: self.new_timeout };
            self.next_new = later_exec(self.next_new, self.new_every);
            self.running = Some(Refresh::NewCampaigns);
            job
        } else {
            let job = Job {
                kind: Refresh::CampaignUpdates,
                due_at: self.next_update,
                timeout: self.update_timeout,
            };
            self.next_update = later_exec(self.next_update, self.update_every);
            self.running = Some(Refresh::CampaignUpdates);
            job
        }
    }

    /// Ends the running refresh. The schedule goes on the same way whether
    /// the refresh completed, failed or timed out; the report says which.
    pub fn finish(&mut self, outcome: Outcome) -> (r: Report)
        requires
            !idle(old(self)@),
        ensures
            final(self)@ == finished(old(self)@),
            ({
                let kind = old(self)@.running->Some_0;
                let allowed = if kind == Refresh::NewCampaigns {
                    old(self)@.new_timeout
                } else {
                    old(self)@.update_timeout
                };
                r == match outcome {
                    Outcome::Completed => Report::Done(kind),
                    Outcome::Failed => Report::Failed(kind),
                    Outcome::TimedOut => Report::TimedOut { kind, allowed_ms: allowed },
                }
            }),
    {
        let kind = match self.running {
            Some(k) => k,
            None => Refresh::NewCampaigns,
        };
        self.running = None;
        match outcome {
            Outcome::Completed => Report::Done(kind),
            Outcome::Failed => Report::Failed(kind),
            Outcome::TimedOut => {
                let allowed_ms = match kind {
                    Refresh::NewCampaigns => self.new_timeout,
                    Refresh::CampaignUpdates => self.update_timeout,
                };
                Report::TimedOut { kind, allowed_ms }
            },
        }
    }
}

/// Refreshes never overlap: once a refresh has started the schedule is
/// busy, so no other can start until it has ended, after which it is idle.
pub proof fn lemma_one_refresh_at_a_time(s: Scheduler)
    requires
        idle(s@),
    ensures
        !idle(begun(s@)),
        idle(finished(begun(s@))),
{
}

/// A refresh that times out holds nothing up: the schedule is idle again at
/// once, and the next refresh to start is the one that would have started
/// had it completed, due at the same time.
pub proof fn lemma_timeout_isolated(s: Scheduler)
    requires
        idle(s@),
    ensures
        idle(finished(begun(s@))),
        finished(begun(s@)).next_new == begun(s@).next_new,
        finished(begun(s@)).next_update == begun(s@).next_update,
        due(finished(begun(s@))) == due(begun(s@)),
{
}

} // verus!
