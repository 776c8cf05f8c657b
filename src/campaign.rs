//! Campaign data and the snapshot that the cache serves from.
use vstd::prelude::*;

use crate::error::ServiceError;

verus! {

/// Lifecycle of a campaign as the cache tracks it.
#[derive(Clone, Copy, Debug, PartialEq, Eq, Structural)]
pub enum CampaignStatus {
    /// Discovered, not yet confirmed by its validators.
    New,
    /// Serving.
    Active,
    /// Finalized or withdrawn.
    Finalized,
}

/// A piece of creative content, addressed by its content identifier.
#[derive(Clone, Debug)]
pub struct AdUnit {
    pub ipfs: String,
    pub tags: Vec<String>,
}

/// A publisher placement, addressed by its content identifier.
#[derive(Clone, Debug)]
pub struct AdSlot {
    pub ipfs: String,
    pub tags: Vec<String>,
}

/// A campaign and the ad-units it funds.
#[derive(Clone, Debug)]
pub struct Campaign {
    pub id: String,
    pub status: CampaignStatus,
    pub units: Vec<AdUnit>,
}

/// The status that a validator reports for one campaign.
#[derive(Clone, Debug)]
pub struct StatusUpdate {
    pub id: String,
    pub status: CampaignStatus,
}

/// What an ad-unit holds, as plain values.
pub struct UnitView {
    pub ipfs: Seq<char>,
    pub tags: Seq<Seq<char>>,
}

pub open spec fn tags_view(ts: Seq<String>) -> Seq<Seq<char>> {
    ts.map_values(|t: String| t@)
}

impl View for AdUnit {
    type V = UnitView;

    open spec fn view(&self) -> UnitView {
        UnitView { ipfs: self.ipfs@, tags: tags_view(self.tags@) }
    }
}

pub open spec fn units_view(us: Seq<AdUnit>) -> Seq<UnitView> {
    us.map_values(|u: AdUnit| u@)
}

/// Some campaign of `cs` has the identifier `id`.
pub open spec fn has_id(cs: Seq<Campaign>, id: Seq<char>) -> bool {
    exists|i: int| 0 <= i < cs.len() && (#[trigger] cs[i]).id@ == id
}

/// No two campaigns of `cs` share an identifier.
pub open spec fn unique_ids(cs: Seq<Campaign>) -> bool {
    forall|i: int, j: int|
        0 <= i < cs.len() && 0 <= j < cs.len() && i != j ==> (#[trigger] cs[i]).id@ != (
        #[trigger] cs[j]).id@
}

/// `c` as it enters the cache: marked as newly discovered.
pub open spec fn as_new(c: Campaign) -> Campaign {
    Campaign { id: c.id, status: CampaignStatus::New, units: c.units }
}

/// The campaigns `cs` after the fetched campaigns, taken in order, were
/// offered: each one whose identifier is not yet known is appended as new.
pub open spec fn merge_new(cs: Seq<Campaign>, fetched: Seq<Campaign>) -> Seq<Campaign>
    decreases fetched.len(),
{
    if fetched.len() == 0 {
        cs
    } else {
        let c = fetched[0];
        let next = if has_id(cs, c.id@) {
            cs
        } else {
            cs.push(as_new(c))
        };
        merge_new(next, fetched.drop_first())
    }
}

/// The status of campaign `id` after the updates `ups`: that of the last
/// update for it, or `current` where there is none.
pub open spec fn latest_status(ups: Seq<StatusUpdate>, id: Seq<char>, current: CampaignStatus) -> CampaignStatus
    decreases ups.len(),
{
    if ups.len() == 0 {
        current
    } else if ups.last().id@ == id {
        ups.last().status
    } else {
        latest_status(ups.drop_last(), id, current)
    }
}

/// Campaign `c` after the updates `ups`.
pub open spec fn refreshed(c: Campaign, ups: Seq<StatusUpdate>) -> Campaign {
    Campaign { id: c.id, status: latest_status(ups, c.id@, c.status), units: c.units }
}

/// Every campaign of `cs` after the updates `ups`, in the same order.
pub open spec fn refresh_all(cs: Seq<Campaign>, ups: Seq<StatusUpdate>) -> Seq<Campaign> {
    cs.map_values(|c: Campaign| refreshed(c, ups))
}

/// The ad-units of the active campaigns of `cs`, campaign by campaign.
pub open spec fn serving_units(cs: Seq<Campaign>) -> Seq<UnitView>
    decreases cs.len(),
{
    if cs.len() == 0 {
        Seq::empty()
    } else if cs.last().status == CampaignStatus::Active {
        serving_units(cs.drop_last()) + units_view(cs.last().units@)
    } else {
        serving_units(cs.drop_last())
    }
}

/// Where in `cs` the campaign `id` stands, if anywhere.
fn position_of(cs: &Vec<Campaign>, id: &String) -> (r: Option<usize>)
    ensures
        match r {
            Some(i) => i < cs@.len() && cs@[i as int].id@ == id@,
            None => !has_id(cs@, id@),
        },
{
    let mut i: usize = 0;
    while i < cs.len()
        invariant
            i <= cs@.len(),
            forall|k: int| 0 <= k < i ==> (#[trigger] cs@[k]).id@ != id@,
        decreases cs@.len() - i,
    {
        if cs[i].id == *id {
            return Some(i);
        }
        i = i + 1;
    }
    None
}

/// The cache's contents at one instant: campaigns with distinct identifiers,
/// in the order in which they were discovered. A refresh builds a new
/// snapshot from the old one; readers keep the one they hold.
#[derive(Clone, Debug)]
pub struct Snapshot {
    campaigns: Vec<Campaign>,
}

impl View for Snapshot {
    type V = Seq<Campaign>;

    closed spec fn view(&self) -> Seq<Campaign> {
        self.campaigns@
    }
}

impl Snapshot {
    pub open spec fn wf(&self) -> bool {
        unique_ids(self@)
    }

    /// Whether no two campaigns share an identifier.
    pub fn has_unique_ids(&self) -> (r: bool)
        ensures
            r == self.wf(),
    {
        let mut i: usize = 0;
        while i < self.campaigns.len()
            invariant
                i <= self@.len(),
                unique_ids(self@.subrange(0, i as int)),
            decreases self@.len() - i,
        {
            let mut j: usize = 0;
            while j < i
                invariant
                    j <= i,
                    i < self@.len(),
                    forall|k: int| 0 <= k < j ==> (#[trigger] self@[k]).id@ != self@[i as int].id@,
                decreases i - j,
            {
                if self.campaigns[j].id == self.campaigns[i].id {
                    assert(self@[j as int].id@ == self@[i as int].id@);
                    return false;
                }
                j = j + 1;
            }
            let ghost prefix = self@.subrange(0, i as int);
            let ghost next = self@.subrange(0, i + 1);
            assert forall|a: int, b: int|
                0 <= a < next.len() && 0 <= b < next.len() && a != b implies (
                #[trigger] next[a]).id@ != (#[trigger] next[b]).id@ by {
                if a < i && b < i {
                    assert(next[a] == prefix[a] && next[b] == prefix[b]);
                }
            }
            i = i + 1;
        }
        assert(self@.subrange(0, self@.len() as int) =~= self@);
        true
    }

    /// A snapshot without campaigns.
    pub fn empty() -> (r: Snapshot)
        ensures
            r@ == Seq::<Campaign>::empty(),
            r.wf(),
    {
        Snapshot { campaigns: Vec::new() }
    }

    /// The campaigns, in the order in which they were discovered.
    pub fn campaigns(&self) -> (r: &Vec<Campaign>)
        ensures
            r@ == self@,
    {
        &self.campaigns
    }

    /// The snapshot after the campaigns `fetched` were offered: each one
    /// whose identifier is not yet known is added, marked as new.
    pub fn add_new_campaigns(self, fetched: Vec<Campaign>) -> (r: Snapshot)
        requires
            self.wf(),
        ensures
            r@ == merge_new(self@, fetched@),
            r.wf(),
    {
        let ghost goal = merge_new(self@, fetched@);
        let mut cs = self.campaigns;
        let mut rest = fetched;
        while rest.len() > 0
            invariant
                unique_ids(cs@),
                merge_new(cs@, rest@) == goal,
            decreases rest@.len(),
        {
            let ghost before = rest@;
            let c = rest.remove(0);
            assert(rest@ =~= before.drop_first());
            match position_of(&cs, &c.id) {
                Some(_) => {},
                None => {
                    let ghost prior = cs@;
                    cs.push(Campaign { id: c.id, status: CampaignStatus::New, units: c.units });
                    assert forall|i: int, j: int|
                        0 <= i < cs@.len() && 0 <= j < cs@.len() && i != j implies (
                        #[trigger] cs@[i]).id@ != (#[trigger] cs@[j]).id@ by {
                        if i < prior.len() && j < prior.len() {
                            assert(cs@[i] == prior[i] && cs@[j] == prior[j]);
                        } else if i < prior.len() {
                            assert(cs@[i] == prior[i]);
                        } else {
                            assert(cs@[j] == prior[j]);
                        }
                    }
                },
            }
        }
        Snapshot { campaigns: cs }
    }

    /// The snapshot after the validators' updates `updates`: each campaign
    /// takes the status of the last update for it; none is added or removed.
    pub fn apply_status_updates(self, updates: &Vec<StatusUpdate>) -> (r: Snapshot)
        requires
            self.wf(),
        ensures
            r@ == refresh_all(self@, updates@),
            r.wf(),
    {
        let ghost old_cs = self@;
        let mut rest = self.campaigns;
        let mut out: Vec<Campaign> = Vec::new();
        while rest.len() > 0
            invariant
                out@.len() + rest@.len() == old_cs.len(),
                rest@ == old_cs.subrange(out@.len() as int, old_cs.len() as int),
                out@ == refresh_all(old_cs.subrange(0, out@.len() as int), updates@),
            decreases rest@.len(),
        {
            let ghost before = rest@;
            let ghost k = out@.len() as int;
            let c = rest.remove(0);
            assert(rest@ =~= old_cs.subrange(k + 1, old_cs.len() as int));
            assert(c == old_cs[k]);
            let status = status_after(updates, &c.id, c.status);
            out.push(Campaign { id: c.id, status, units: c.units });
            assert(out@ =~= refresh_all(old_cs.subrange(0, k + 1), updates@));
        }
        assert(old_cs.subrange(0, old_cs.len() as int) =~= old_cs);
        Snapshot { campaigns: out }
    }

    /// The ad-units of the active campaigns, campaign by campaign.
    pub fn serving_units(&self) -> (r: Vec<AdUnit>)
        ensures
            units_view(r@) == serving_units(self@),
    {
        let mut out: Vec<AdUnit> = Vec::new();
        let mut i: usize = 0;
        while i < self.campaigns.len()
            invariant
                i <= self@.len(),
                units_view(out@) == serving_units(self@.subrange(0, i as int)),
            decreases self@.len() - i,
        {
            let c = &self.campaigns[i];
            assert(self@.subrange(0, i + 1).drop_last() =~= self@.subrange(0, i as int));
            if c.status == CampaignStatus::Active {
                let ghost base = out@;
                let mut j: usize = 0;
                while j < c.units.len()
                    invariant
                        j <= c.units@.len(),
                        units_view(out@) == units_view(base) + units_view(c.units@.subrange(0, j as int)),
                    decreases c.units@.len() - j,
                {
                    let ghost prev = out@;
                    out.push(copy_unit(&c.units[j]));
                    assert(units_view(out@) =~= units_view(prev).push(c.units@[j as int]@));
                    assert(units_view(c.units@.subrange(0, j + 1)) =~= units_view(
                        c.units@.subrange(0, j as int),
                    ).push(c.units@[j as int]@));
                    j = j + 1;
                }
                assert(c.units@.subrange(0, c.units@.len() as int) =~= c.units@);
            }
            i = i + 1;
        }
        assert(self@.subrange(0, self@.len() as int) =~= self@);
        out
    }
}

/// The status of campaign `id` after `updates`, starting from `current`.
fn status_after(updates: &Vec<StatusUpdate>, id: &String, current: CampaignStatus) -> (r: CampaignStatus)
    ensures
        r == latest_status(updates@, id@, current),
{
    let mut status = current;
    let mut i: usize = 0;
    while i < updates.len()
        invariant
            i <= updates@.len(),
            status == latest_status(updates@.subrange(0, i as int), id@, current),
        decreases updates@.len() - i,
    {
        assert(updates@.subrange(0, i + 1).drop_last() =~= updates@.subrange(0, i as int));
        if updates[i].id == *id {
            status = updates[i].status;
        }
        i = i + 1;
    }
    assert(updates@.subrange(0, updates@.len() as int) =~= updates@);
    status
}

/// A copy of the tags `ts`.
fn copy_tags(ts: &Vec<String>) -> (r: Vec<String>)
    ensures
        tags_view(r@) == tags_view(ts@),
{
    let mut out: Vec<String> = Vec::new();
    let mut i: usize = 0;
    while i < ts.len()
        invariant
            i <= ts@.len(),
            tags_view(out@) == tags_view(ts@.subrange(0, i as int)),
        decreases ts@.len() - i,
    {
        let ghost prev = out@;
        let t = ts[i].clone();
        assert(t == ts@[i as int]);
        out.push(t);
        assert(out@ == prev.push(ts@[i as int]));
        assert(tags_view(out@) =~= tags_view(prev).push(ts@[i as int]@));
        assert(tags_view(ts@.subrange(0, i + 1)) =~= tags_view(ts@.subrange(0, i as int)).push(
            ts@[i as int]@,
        ));
        i = i + 1;
    }
    assert(ts@.subrange(0, ts@.len() as int) =~= ts@);
    out
}

/// A copy of the ad-unit `u`.
fn copy_unit(u: &AdUnit) -> (r: AdUnit)
    ensures
        r@ == u@,
{
    AdUnit { ipfs: u.ipfs.clone(), tags: copy_tags(&u.tags) }
}

/// The first snapshot, from the initial load of campaigns. Where that load
/// failed there is no snapshot, and the service cannot start.
pub fn initial_snapshot(loaded: Result<Vec<Campaign>, reqwest::Error>) -> (r: Result<
    Snapshot,
    ServiceError,
>)
    ensures
        match loaded {
            Ok(cs) => match r {
                Ok(s) => s@ == merge_new(Seq::empty(), cs@) && s.wf(),
                Err(_) => false,
            },
            Err(e) => r == Err::<Snapshot, ServiceError>(ServiceError::Reqwest(e)),
        },
{
    match loaded {
        Ok(cs) => Ok(Snapshot::empty().add_new_campaigns(cs)),
        Err(e) => Err(ServiceError::Reqwest(e)),
    }
}

proof fn lemma_merge_keeps(cs: Seq<Campaign>, fetched: Seq<Campaign>, id: Seq<char>)
    requires
        has_id(cs, id),
    ensures
        has_id(merge_new(cs, fetched), id),
    decreases fetched.len(),
{
    if fetched.len() > 0 {
        let c = fetched[0];
        let next = if has_id(cs, c.id@) {
            cs
        } else {
            cs.push(as_new(c))
        };
        let i = choose|i: int| 0 <= i < cs.len() && (#[trigger] cs[i]).id@ == id;
        assert(next[i] == cs[i]);
        lemma_merge_keeps(next, fetched.drop_first(), id);
    }
}

proof fn lemma_merge_covers(cs: Seq<Campaign>, fetched: Seq<Campaign>)
    ensures
        forall|k: int|
            0 <= k < fetched.len() ==> has_id(merge_new(cs, fetched), (#[trigger] fetched[k]).id@),
    decreases fetched.len(),
{
    if fetched.len() > 0 {
        let c = fetched[0];
        let next = if has_id(cs, c.id@) {
            cs
        } else {
            cs.push(as_new(c))
        };
        if !has_id(cs, c.id@) {
            assert(next[cs.len() as int].id@ == c.id@);
        }
        lemma_merge_keeps(next, fetched.drop_first(), c.id@);
        lemma_merge_covers(next, fetched.drop_first());
        assert forall|k: int| 0 <= k < fetched.len() implies has_id(
            merge_new(cs, fetched),
            (#[trigger] fetched[k]).id@,
        ) by {
            if k > 0 {
                assert(fetched[k] == fetched.drop_first()[k - 1]);
            }
        }
    }
}

proof fn lemma_merge_known(cs: Seq<Campaign>, fetched: Seq<Campaign>)
    requires
        forall|k: int| 0 <= k < fetched.len() ==> has_id(cs, (#[trigger] fetched[k]).id@),
    ensures
        merge_new(cs, fetched) == cs,
    decreases fetched.len(),
{
    if fetched.len() > 0 {
        assert(has_id(cs, fetched[0].id@));
        let rest = fetched.drop_first();
        assert forall|k: int| 0 <= k < rest.len() implies has_id(cs, (#[trigger] rest[k]).id@) by {
            assert(rest[k] == fetched[k + 1]);
        }
        lemma_merge_known(cs, rest);
    }
}

/// Offering the same fetched campaigns a second time, with nothing new
/// upstream, leaves the snapshot as offering them once did.
pub proof fn lemma_add_new_idempotent(s: Snapshot, fetched: Seq<Campaign>)
    ensures
        merge_new(merge_new(s@, fetched), fetched) == merge_new(s@, fetched),
{
    lemma_merge_covers(s@, fetched);
    lemma_merge_known(merge_new(s@, fetched), fetched);
}

} // verus!
