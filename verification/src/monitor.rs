//! The monitoring loop, tick by tick: polling the fleet, the heartbeat, the cadence.
//!
//! Times are milliseconds on a clock of the caller's choice that does not go back.
use crate::data::{Action, DataEntry};
use crate::error::Error;
use crate::scale::{fleet_view, fleet_wf, Poll, Scale, ScaleView};
use time::OffsetDateTime;
use vstd::prelude::*;

verus! {

/// Whether `least` is the smallest of `values`: one of them, and above none.
pub open spec fn is_least(least: u64, values: Seq<u64>) -> bool {
    &&& exists|i: int| 0 <= i < values.len() && values[i] == least
    &&& forall|i: int| 0 <= i < values.len() ==> least <= values[i]
}

/// The smallest of a list of periods. An empty list is a failure to start.
pub fn min_period(periods: &Vec<u64>) -> (r: Result<u64, Error>)
    ensures
        periods@.len() == 0 <==> r is Err,
        r matches Err(e) ==> e == Error::Initialization,
        r matches Ok(least) ==> is_least(least, periods@),
{
    if periods.len() == 0 {
        return Err(Error::Initialization);
    }
    let mut least: u64 = periods[0];
    let mut i: usize = 1;
    while i < periods.len()
        invariant
            1 <= i <= periods.len(),
            exists|k: int| 0 <= k < i && periods@[k] == least,
            forall|k: int| 0 <= k < i ==> least <= periods@[k],
        decreases periods.len() - i,
    {
        if periods[i] < least {
            least = periods[i];
        }
        i += 1;
    }
    Ok(least)
}

/// Time left until the next tick is due, given the time that has gone by since the
/// last one began: the cadence does not drift with the work of a tick.
pub open spec fn rest_of_tick(sample_period: u64, elapsed: u64) -> int {
    if elapsed < sample_period {
        sample_period - elapsed
    } else {
        0
    }
}

/// Whether a heartbeat is due: more than the period has gone by since the last one.
pub open spec fn heartbeat_due(last_heartbeat: u64, heartbeat_period: u64, now: u64) -> bool {
    now - last_heartbeat > heartbeat_period
}

/// The events of one scale in one tick, given the scale before the tick: the event of
/// its poll, if any, then its heartbeat, if one is due and the scale has a reading.
pub open spec fn scale_events(scale: ScaleView, poll: Poll, due: bool, timestamp: OffsetDateTime) -> Seq<
    DataEntry,
> {
    let after = scale.after_poll(poll);
    let polled = match scale.poll_event(poll) {
        Some((action, amount)) => seq![scale.entry(action, amount, timestamp)],
        None => Seq::empty(),
    };
    let pulse = match after.pulse() {
        Some(amount) => if due {
            seq![after.entry(Action::Heartbeat, amount, timestamp)]
        } else {
            Seq::empty()
        },
        None => Seq::empty(),
    };
    polled + pulse
}

/// The batch of a tick: the events of each scale, in the order of the fleet. A scale
/// without a poll is taken as not asked.
pub open spec fn batch_of(scales: Seq<ScaleView>, polls: Seq<Poll>, due: bool, timestamp: OffsetDateTime) -> Seq<
    DataEntry,
>
    decreases scales.len(),
{
    if scales.len() == 0 {
        Seq::empty()
    } else {
        let i = scales.len() - 1;
        batch_of(scales.drop_last(), polls, due, timestamp) + scale_events(
            scales[i],
            poll_at(polls, i),
            due,
            timestamp,
        )
    }
}

/// The poll of scale `i`.
pub open spec fn poll_at(polls: Seq<Poll>, i: int) -> Poll {
    if 0 <= i < polls.len() {
        polls[i]
    } else {
        Poll::Idle
    }
}

/// The mathematical model of a monitor.
pub struct MonitorView {
    pub scales: Seq<ScaleView>,
    pub sample_period: u64,
    pub heartbeat_period: u64,
    pub last_heartbeat: u64,
}

impl MonitorView {
    /// The fleet after each scale has taken in its poll.
    pub open spec fn polled(self, polls: Seq<Poll>) -> Seq<ScaleView> {
        Seq::new(self.scales.len(), |i: int| self.scales[i].after_poll(poll_at(polls, i)))
    }

    pub open spec fn due(self, now: u64) -> bool {
        heartbeat_due(self.last_heartbeat, self.heartbeat_period, now)
    }

    /// The monitor after a tick at time `now`.
    pub open spec fn after_tick(self, polls: Seq<Poll>, now: u64) -> MonitorView {
        MonitorView {
            scales: self.polled(polls),
            last_heartbeat: if self.due(now) {
                now
            } else {
                self.last_heartbeat
            },
            ..self
        }
    }

    /// The batch of a tick at time `now`.
    pub open spec fn batch(self, polls: Seq<Poll>, now: u64, timestamp: OffsetDateTime) -> Seq<DataEntry> {
        batch_of(self.scales, polls, self.due(now), timestamp)
    }
}

/// The fleet and the clockwork of the loop that polls it.
pub struct Monitor {
    scales: Vec<Scale>,
    sample_period: u64,
    heartbeat_period: u64,
    last_heartbeat: u64,
}

impl View for Monitor {
    type V = MonitorView;

    closed spec fn view(&self) -> MonitorView {
        MonitorView {
            scales: fleet_view(self.scales@),
            sample_period: self.sample_period,
            heartbeat_period: self.heartbeat_period,
            last_heartbeat: self.last_heartbeat,
        }
    }
}

/// The sample periods of a fleet.
pub open spec fn sample_periods(scales: Seq<ScaleView>) -> Seq<u64> {
    Seq::new(scales.len(), |i: int| scales[i].config.phidget_sample_period)
}

/// The heartbeat periods of a fleet.
pub open spec fn heartbeat_periods(scales: Seq<ScaleView>) -> Seq<u64> {
    Seq::new(scales.len(), |i: int| scales[i].config.heartbeat_period)
}

impl Monitor {
    /// Validity of every scale of the fleet.
    pub closed spec fn wf(&self) -> bool {
        fleet_wf(self.scales@)
    }

    /// A valid monitor has valid models of its scales.
    pub proof fn lemma_valid(&self)
        requires
            self.wf(),
        ensures
            forall|i: int| 0 <= i < self@.scales.len() ==> (#[trigger] self@.scales[i]).valid(),
    {
        assert forall|i: int| 0 <= i < self@.scales.len() implies (#[trigger] self@.scales[i]).valid() by {
            self.scales@[i].lemma_valid();
        }
    }

    /// A monitor over a fleet, at time `now`. It ticks at the smallest sample period of
    /// the fleet and sends heartbeats at the smallest heartbeat period, counted from
    /// `now`. An empty fleet is a failure to start.
    pub fn new(scales: Vec<Scale>, now: u64) -> (r: Result<Monitor, Error>)
        requires
            fleet_wf(scales@),
        ensures
            scales@.len() == 0 <==> r is Err,
            r matches Err(e) ==> e == Error::Initialization,
            r matches Ok(monitor) ==> {
                &&& monitor.wf()
                &&& monitor@.scales == fleet_view(scales@)
                &&& is_least(monitor@.sample_period, sample_periods(monitor@.scales))
                &&& is_least(monitor@.heartbeat_period, heartbeat_periods(monitor@.scales))
                &&& monitor@.last_heartbeat == now
            },
    {
        let mut samples: Vec<u64> = Vec::new();
        let mut heartbeats: Vec<u64> = Vec::new();
        let mut i: usize = 0;
        while i < scales.len()
            invariant
                i <= scales.len(),
                samples@ =~= sample_periods(fleet_view(scales@)).take(i as int),
                heartbeats@ =~= heartbeat_periods(fleet_view(scales@)).take(i as int),
            decreases scales.len() - i,
        {
            let config = scales[i].get_config();
            samples.push(config.phidget_sample_period);
            heartbeats.push(config.heartbeat_period);
            i += 1;
        }
        assert(samples@ =~= sample_periods(fleet_view(scales@)));
        assert(heartbeats@ =~= heartbeat_periods(fleet_view(scales@)));
        match (min_period(&samples), min_period(&heartbeats)) {
            (Ok(sample_period), Ok(heartbeat_period)) => Ok(
                Monitor { scales, sample_period, heartbeat_period, last_heartbeat: now },
            ),
            _ => Err(Error::Initialization),
        }
    }

    /// Number of scales in the fleet.
    pub fn len(&self) -> (n: usize)
        ensures
            n == self@.scales.len(),
    {
        self.scales.len()
    }

    /// The scale at `index`, if there is one.
    pub fn get_scale(&self, index: usize) -> (r: Option<&Scale>)
        requires
            self.wf(),
        ensures
            index >= self@.scales.len() <==> r is None,
            r matches Some(scale) ==> scale.wf() && scale@ == self@.scales[index as int],
    {
        if index < self.scales.len() {
            Some(&self.scales[index])
        } else {
            None
        }
    }

    /// Time between two ticks.
    pub fn get_sample_period(&self) -> (period: u64)
        ensures
            period == self@.sample_period,
    {
        self.sample_period
    }

    /// Time between two heartbeats.
    pub fn get_heartbeat_period(&self) -> (period: u64)
        ensures
            period == self@.heartbeat_period,
    {
        self.heartbeat_period
    }

    /// Whether a heartbeat is due at time `now`; if it is, the time counts from `now` on.
    pub fn is_time_for_heartbeat(&mut self, now: u64) -> (due: bool)
        ensures
            due == old(self)@.due(now),
            final(self)@ == (MonitorView {
                last_heartbeat: if due {
                    now
                } else {
                    old(self)@.last_heartbeat
                },
                ..old(self)@
            }),
            old(self).wf() ==> final(self).wf(),
    {
        if now > self.last_heartbeat && now - self.last_heartbeat > self.heartbeat_period {
            self.last_heartbeat = now;
            true
        } else {
            false
        }
    }

    /// How long to sleep before the next tick, when `elapsed` has gone by since this
    /// one began.
    pub fn time_until_next_tick(&self, elapsed: u64) -> (rest: u64)
        ensures
            rest == rest_of_tick(self@.sample_period, elapsed),
    {
        if elapsed < self.sample_period {
            self.sample_period - elapsed
        } else {
            0
        }
    }

    /// One tick at time `now`: every scale takes in its poll, and the events of the
    /// fleet are gathered in one batch, with a heartbeat of each scale if one is due.
    /// No scale leaves the fleet, whatever its channel did.
    pub fn tick(&mut self, polls: &Vec<Poll>, now: u64, timestamp: OffsetDateTime) -> (batch: Vec<
        DataEntry,
    >)
        requires
            old(self).wf(),
        ensures
            final(self).wf(),
            final(self)@ == old(self)@.after_tick(polls@, now),
            batch@ == old(self)@.batch(polls@, now, timestamp),
    {
        let due = self.is_time_for_heartbeat(now);
        let mut batch: Vec<DataEntry> = Vec::new();
        let n = self.scales.len();
        let ghost before = fleet_view(old(self).scales@);
        let mut i: usize = 0;
        assert(before.take(0) =~= Seq::empty());
        while i < n
            invariant
                i <= n,
                n == self.scales@.len(),
                n == before.len(),
                fleet_wf(self.scales@),
                self.sample_period == old(self).sample_period,
                self.heartbeat_period == old(self).heartbeat_period,
                self.last_heartbeat == old(self)@.after_tick(polls@, now).last_heartbeat,
                forall|k: int| 0 <= k < i ==> (#[trigger] self.scales@[k])@ == before[k].after_poll(poll_at(polls@, k)),
                forall|k: int| i <= k < n ==> (#[trigger] self.scales@[k])@ == before[k],
                batch@ == batch_of(before.take(i as int), polls@, due, timestamp),
            decreases n - i,
        {
            let poll = if i < polls.len() {
                polls[i]
            } else {
                Poll::Idle
            };
            let ghost gathered = batch@;
            proof {
                let next = before.take(i + 1);
                assert(next.drop_last() =~= before.take(i as int));
                assert(next[next.len() - 1] == before[i as int]);
            }
            let scale = &mut self.scales[i];
            let polled = scale.sample_and_classify(poll, timestamp);
            let pulse = if due {
                scale.heartbeat(timestamp)
            } else {
                None
            };
            match polled {
                Some(entry) => {
                    batch.push(entry);
                },
                None => {},
            }
            match pulse {
                Some(entry) => {
                    batch.push(entry);
                },
                None => {},
            }
            assert(batch@ =~= gathered + scale_events(before[i as int], poll, due, timestamp));
            i += 1;
        }
        assert(before.take(n as int) =~= before);
        assert(fleet_view(self.scales@) =~= old(self)@.polled(polls@));
        batch
    }
}

/// No tick removes a scale: the fleet keeps its length, its order, the identity and the
/// settings of every scale, and every scale takes in its poll, a faulted one like any
/// other. A scale that was connected once is never disconnected again.
pub proof fn lemma_fleet_is_kept(monitor: MonitorView, polls: Seq<Poll>, now: u64)
    ensures
        ({
            let after = monitor.after_tick(polls, now);
            &&& after.scales.len() == monitor.scales.len()
            &&& after.sample_period == monitor.sample_period
            &&& after.heartbeat_period == monitor.heartbeat_period
            &&& forall|i: int|
                0 <= i < monitor.scales.len() ==> {
                    &&& (#[trigger] after.scales[i]).device == monitor.scales[i].device
                    &&& after.scales[i].config == monitor.scales[i].config
                    &&& after.scales[i] == monitor.scales[i].after_poll(poll_at(polls, i))
                    &&& !(monitor.scales[i].state is Disconnected) ==> !(after.scales[i].state
                        is Disconnected)
                }
        }),
{
}

/// Heartbeats go by the clock, not by the count of ticks: one is due exactly when more
/// than the period has gone by since the last, and after one at `now` none is due
/// until more than the period has gone by again.
pub proof fn lemma_heartbeat_spacing(monitor: MonitorView, polls: Seq<Poll>, now: u64, later: u64)
    ensures
        monitor.due(now) <==> now - monitor.last_heartbeat > monitor.heartbeat_period,
        monitor.due(now) ==> (monitor.after_tick(polls, now).due(later) <==> later - now
            > monitor.heartbeat_period),
        !monitor.due(now) ==> (monitor.after_tick(polls, now).due(later) <==> monitor.due(later)),
{
}

/// A scale gives at most one event of its own in a tick and at most one heartbeat, and
/// no heartbeat when none is due.
pub proof fn lemma_scale_events_are_few(scale: ScaleView, poll: Poll, due: bool, timestamp: OffsetDateTime)
    ensures
        scale_events(scale, poll, due, timestamp).len() <= 2,
        !due ==> scale_events(scale, poll, due, timestamp).len() <= 1,
        !due && scale.poll_event(poll) is None ==> scale_events(scale, poll, due, timestamp).len()
            == 0,
        forall|k: int|
            0 <= k < scale_events(scale, poll, due, timestamp).len() ==> (#[trigger] scale_events(
                scale,
                poll,
                due,
                timestamp,
            )[k]).device == scale.device,
{
}

} // verus!
