//! Supervision of one scale: its calibration, its window, its channel state.
//!
//! The hardware channel is the caller's. The caller samples and reopens it and reports
//! each outcome; the scale decides what follows from it.
use crate::classifier::{classification, classify, remembered, LastStable};
use crate::data::{Action, DataEntry};
use crate::device::Device;
use crate::error::Error;
use crate::filter::{pushed, settled, StabilityFilter, BUFFER_LENGTH, MAX_NOISE};
use time::OffsetDateTime;
use vstd::prelude::*;

verus! {

/// What the configuration source says of one scale. Periods are in milliseconds, gain
/// and offset in the units of `calibrated`.
#[derive(Debug, PartialEq, Eq)]
pub struct Config {
    pub phidget_id: i32,
    pub load_cell_id: i32,
    pub gain: i32,
    pub offset: i32,
    pub location: String,
    pub ingredient: String,
    pub phidget_sample_period: u64,
    pub heartbeat_period: u64,
}

impl Clone for Config {
    fn clone(&self) -> (copy: Config)
        ensures
            copy == *self,
    {
        Config {
            phidget_id: self.phidget_id,
            load_cell_id: self.load_cell_id,
            gain: self.gain,
            offset: self.offset,
            location: self.location.clone(),
            ingredient: self.ingredient.clone(),
            phidget_sample_period: self.phidget_sample_period,
            heartbeat_period: self.heartbeat_period,
        }
    }
}

/// One record of the configuration source: a device and its settings.
#[derive(Debug, PartialEq, Eq)]
pub struct Libra {
    pub device: Device,
    pub config: Config,
}

/// Where the channel of a scale stands.
#[derive(Clone, Copy, Debug, PartialEq, Eq, Structural)]
pub enum ChannelState {
    /// Never opened. Such a scale ignores what its channel reports.
    Disconnected,
    Connected,
    /// A sample or a restart failed and no restart has succeeded since.
    Faulted,
}

/// A reading together with the verdict of the window it went into.
#[derive(Clone, Copy, Debug, PartialEq, Eq, Structural)]
pub enum Weight {
    Stable(i64),
    Unstable(i64),
}

impl Weight {
    pub open spec fn amount(self) -> i64 {
        match self {
            Weight::Stable(value) => value,
            Weight::Unstable(value) => value,
        }
    }

    pub fn get_amount(&self) -> (value: i64)
        ensures
            value == self.amount(),
    {
        match self {
            Weight::Stable(value) => *value,
            Weight::Unstable(value) => *value,
        }
    }
}

/// The weight that a raw sample stands for: `raw * gain - offset`.
pub open spec fn calibrated(raw: i32, gain: i32, offset: i32) -> int {
    raw * gain - offset
}

/// Applies a calibration to a raw sample. The result always fits.
pub fn calibrate(raw: i32, gain: i32, offset: i32) -> (weight: i64)
    ensures
        weight == calibrated(raw, gain, offset),
{
    assert(-0x4000_0000_0000_0000 <= raw * gain <= 0x4000_0000_0000_0000) by (nonlinear_arith)
        requires
            -0x8000_0000 <= raw < 0x8000_0000,
            -0x8000_0000 <= gain < 0x8000_0000,
    ;
    let product: i64 = (raw as i64) * (gain as i64);
    product - (offset as i64)
}

/// What a scale asks of its channel next.
#[derive(Clone, Copy, Debug, PartialEq, Eq, Structural)]
pub enum Request {
    /// Read one raw sample.
    Sample,
    /// Close the channel and open it again.
    Restart,
    /// Nothing more in this tick.
    Done,
}

/// What the channel of one scale has done so far in a tick.
#[derive(Clone, Copy, Debug, PartialEq, Eq, Structural)]
pub enum Poll {
    /// Nothing has been asked yet.
    Idle,
    /// The sample came.
    Sampled(i32),
    /// The sample failed; a restart is due.
    SampleFailed,
    /// The sample failed and so did the restart.
    RestartFailed,
    /// The sample failed and the restart succeeded; a new sample is due.
    Restarted,
    /// The sample failed, the restart succeeded and the new sample came.
    Recovered(i32),
    /// The sample failed, the restart succeeded and the new sample failed.
    ResampleFailed,
}

impl Poll {
    /// The next request: a sample first, a restart after a failed sample, one more
    /// sample after a restart that succeeded.
    pub open spec fn next(self) -> Request {
        match self {
            Poll::Idle => Request::Sample,
            Poll::SampleFailed => Request::Restart,
            Poll::Restarted => Request::Sample,
            _ => Request::Done,
        }
    }

    /// The poll after a sample was tried. Where no sample was due the poll stays.
    pub open spec fn with_sample(self, sample: Option<i32>) -> Poll {
        match (self, sample) {
            (Poll::Idle, Some(raw)) => Poll::Sampled(raw),
            (Poll::Idle, None) => Poll::SampleFailed,
            (Poll::Restarted, Some(raw)) => Poll::Recovered(raw),
            (Poll::Restarted, None) => Poll::ResampleFailed,
            _ => self,
        }
    }

    /// The poll after a restart was tried. Where no restart was due the poll stays.
    pub open spec fn with_restart(self, reopened: bool) -> Poll {
        match self {
            Poll::SampleFailed => if reopened {
                Poll::Restarted
            } else {
                Poll::RestartFailed
            },
            _ => self,
        }
    }

    /// The raw sample that the poll ended with, if it ended with one.
    pub open spec fn reading(self) -> Option<i32> {
        match self {
            Poll::Sampled(raw) => Some(raw),
            Poll::Recovered(raw) => Some(raw),
            _ => None,
        }
    }

    pub fn request(&self) -> (request: Request)
        ensures
            request == self.next(),
    {
        match self {
            Poll::Idle => Request::Sample,
            Poll::SampleFailed => Request::Restart,
            Poll::Restarted => Request::Sample,
            _ => Request::Done,
        }
    }

    /// Records the outcome of a sample.
    pub fn sampled(self, sample: Result<i32, Error>) -> (poll: Poll)
        ensures
            poll == self.with_sample(
                match sample {
                    Ok(raw) => Some(raw),
                    Err(_) => None,
                },
            ),
    {
        match (self, sample) {
            (Poll::Idle, Ok(raw)) => Poll::Sampled(raw),
            (Poll::Idle, Err(_)) => Poll::SampleFailed,
            (Poll::Restarted, Ok(raw)) => Poll::Recovered(raw),
            (Poll::Restarted, Err(_)) => Poll::ResampleFailed,
            (poll, _) => poll,
        }
    }

    /// Records the outcome of a restart.
    pub fn restarted(self, reopened: Result<(), Error>) -> (poll: Poll)
        ensures
            poll == self.with_restart(reopened is Ok),
    {
        match self {
            Poll::SampleFailed => match reopened {
                Ok(_) => Poll::Restarted,
                Err(_) => Poll::RestartFailed,
            },
            poll => poll,
        }
    }
}

/// A tick asks at most three things of a channel, whatever it answers, and a poll
/// that is done stays as it is.
pub proof fn lemma_poll_ends(first: Option<i32>, reopened: bool, second: Option<i32>)
    ensures
        ({
            let one = Poll::Idle.with_sample(first);
            let two = one.with_restart(reopened);
            let three = two.with_sample(second);
            &&& Poll::Idle.next() == Request::Sample
            &&& one.next() == Request::Done || one.next() == Request::Restart
            &&& one.next() == Request::Restart ==> (two.next() == Request::Done || two.next()
                == Request::Sample)
            &&& one.next() == Request::Restart && two.next() == Request::Sample ==> three.next()
                == Request::Done
        }),
{
}

/// The mathematical model of a scale.
pub struct ScaleView {
    pub device: Device,
    pub config: Config,
    /// Readings of the window, oldest first.
    pub window: Seq<i64>,
    pub capacity: nat,
    pub noise_threshold: int,
    pub last_stable: LastStable,
    pub state: ChannelState,
    /// Whether a reading has come since the scale was made or last restarted.
    pub started: bool,
}

impl ScaleView {
    pub open spec fn valid(self) -> bool {
        1 <= self.capacity && self.window.len() <= self.capacity
    }

    pub open spec fn stable(self) -> bool {
        settled(self.window, self.capacity, self.noise_threshold)
    }

    /// The weight that a raw sample of this scale stands for.
    pub open spec fn weight_of(self, raw: i32) -> i64 {
        calibrated(raw, self.config.gain, self.config.offset) as i64
    }

    /// After the channel was opened for the first time, or failed to open.
    pub open spec fn after_connect(self, opened: bool) -> ScaleView {
        if self.state is Disconnected && opened {
            ScaleView { state: ChannelState::Connected, ..self }
        } else {
            self
        }
    }

    /// After a sample came: its weight has entered the window and the channel counts
    /// as connected.
    pub open spec fn after_reading(self, raw: i32) -> ScaleView {
        if self.state is Disconnected {
            self
        } else {
            ScaleView {
                window: pushed(self.window, self.capacity, self.weight_of(raw)),
                state: ChannelState::Connected,
                started: true,
                ..self
            }
        }
    }

    /// After a sample failed.
    pub open spec fn after_fault(self) -> ScaleView {
        if self.state is Disconnected {
            self
        } else {
            ScaleView { state: ChannelState::Faulted, ..self }
        }
    }

    /// After a sample was tried.
    pub open spec fn after_sample(self, sample: Option<i32>) -> ScaleView {
        match sample {
            Some(raw) => self.after_reading(raw),
            None => self.after_fault(),
        }
    }

    /// After a restart was tried: window and settled weight are gone whatever came of
    /// it, and the channel is connected again if it reopened.
    pub open spec fn after_restart(self, reopened: bool) -> ScaleView {
        ScaleView {
            window: Seq::empty(),
            last_stable: LastStable::Unset,
            started: false,
            state: if self.state is Disconnected {
                ChannelState::Disconnected
            } else if reopened {
                ChannelState::Connected
            } else {
                ChannelState::Faulted
            },
            ..self
        }
    }

    /// What the classifier says of the scale as it stands: offline with amount zero
    /// while the channel is not connected, else the verdict on the window.
    pub open spec fn action(self) -> Option<(Action, i128)> {
        if self.state is Connected {
            classification(self.stable(), self.window.last(), self.last_stable, self.noise_threshold)
        } else {
            Some((Action::Offline, 0i128))
        }
    }

    /// After the classifier has looked at the scale.
    pub open spec fn after_check(self) -> ScaleView {
        if self.state is Connected {
            ScaleView {
                last_stable: remembered(
                    self.stable(),
                    self.window.last(),
                    self.last_stable,
                    self.noise_threshold,
                ),
                ..self
            }
        } else {
            self
        }
    }

    /// The scale just before the last thing that `poll` records happened.
    pub open spec fn before_last(self, poll: Poll) -> ScaleView {
        match poll {
            Poll::Idle => self,
            Poll::Sampled(_) => self,
            Poll::SampleFailed => self,
            Poll::RestartFailed => self.after_fault(),
            Poll::Restarted => self.after_fault(),
            Poll::Recovered(_) => self.after_fault().after_restart(true),
            Poll::ResampleFailed => self.after_fault().after_restart(true),
        }
    }

    /// After everything that `poll` records has happened to the channel.
    pub open spec fn after_channel(self, poll: Poll) -> ScaleView {
        let before = self.before_last(poll);
        match poll {
            Poll::Idle => before,
            Poll::Sampled(raw) => before.after_reading(raw),
            Poll::SampleFailed => before.after_fault(),
            Poll::RestartFailed => before.after_restart(false),
            Poll::Restarted => before.after_restart(true),
            Poll::Recovered(raw) => before.after_reading(raw),
            Poll::ResampleFailed => before.after_fault(),
        }
    }

    /// Whether `poll` ends with the first reading since the scale was made or restarted.
    pub open spec fn announces(self, poll: Poll) -> bool {
        let before = self.before_last(poll);
        poll.reading() is Some && !before.started && !(before.state is Disconnected)
    }

    /// The event of a tick in which the channel did what `poll` records: starting, with
    /// the weight, for a first reading, else what the classifier says afterwards.
    pub open spec fn poll_event(self, poll: Poll) -> Option<(Action, i128)> {
        if self.announces(poll) {
            Some((Action::Starting, self.weight_of(poll.reading().unwrap()) as i128))
        } else {
            self.after_channel(poll).action()
        }
    }

    /// The scale after that tick.
    pub open spec fn after_poll(self, poll: Poll) -> ScaleView {
        self.after_channel(poll).after_check()
    }

    /// The reading that a heartbeat of this scale carries: the one that came last,
    /// while the channel is connected and the window holds any.
    pub open spec fn pulse(self) -> Option<i128> {
        if self.state is Connected && self.window.len() > 0 {
            Some(self.window.last() as i128)
        } else {
            None
        }
    }

    /// The event of this scale with the given action and amount.
    pub open spec fn entry(self, action: Action, amount: i128, timestamp: OffsetDateTime) -> DataEntry {
        DataEntry {
            scale_action: action,
            amount,
            device: self.device,
            timestamp,
            location: self.config.location,
            ingredient: self.config.ingredient,
        }
    }

    /// An optional action and amount as an optional event of this scale.
    pub open spec fn entry_of(self, event: Option<(Action, i128)>, timestamp: OffsetDateTime) -> Option<
        DataEntry,
    > {
        match event {
            Some((action, amount)) => Some(self.entry(action, amount, timestamp)),
            None => None,
        }
    }
}

/// A scale under supervision: its identity and settings, its window, the settled
/// weight it remembers and the state of its channel.
pub struct Scale {
    device: Device,
    config: Config,
    filter: StabilityFilter,
    last_stable_weight: LastStable,
    state: ChannelState,
    started: bool,
}

impl View for Scale {
    type V = ScaleView;

    closed spec fn view(&self) -> ScaleView {
        ScaleView {
            device: self.device,
            config: self.config,
            window: self.filter@,
            capacity: self.filter.spec_capacity(),
            noise_threshold: self.filter.spec_noise_threshold(),
            last_stable: self.last_stable_weight,
            state: self.state,
            started: self.started,
        }
    }
}

/// A scale as it is made: nothing read, nothing remembered, the channel never opened.
pub open spec fn fresh(device: Device, config: Config, capacity: nat, noise_threshold: int) -> ScaleView {
    ScaleView {
        device,
        config,
        window: Seq::empty(),
        capacity,
        noise_threshold,
        last_stable: LastStable::Unset,
        state: ChannelState::Disconnected,
        started: false,
    }
}

impl Scale {
    /// Validity of the window inside.
    pub closed spec fn wf(&self) -> bool {
        self.filter.wf()
    }

    /// A valid scale has a valid model.
    pub proof fn lemma_valid(&self)
        requires
            self.wf(),
        ensures
            self@.valid(),
            self@.capacity <= usize::MAX,
    {
        self.filter.lemma_wf();
    }

    /// A scale with a window of `BUFFER_LENGTH` readings and `MAX_NOISE` as its threshold,
    /// not connected yet.
    pub fn new(device: Device, config: Config) -> (scale: Scale)
        ensures
            scale.wf(),
            scale@ == fresh(device, config, BUFFER_LENGTH as nat, MAX_NOISE as int),
    {
        Scale {
            device,
            config,
            filter: StabilityFilter::default(),
            last_stable_weight: LastStable::Unset,
            state: ChannelState::Disconnected,
            started: false,
        }
    }

    /// A scale with a window of `capacity` readings and the given noise threshold, not
    /// connected yet. A window that can hold no reading is a configuration fault.
    pub fn with_window(device: Device, config: Config, capacity: usize, noise_threshold: i64) -> (r:
        Result<Scale, Error>)
        ensures
            capacity == 0 <==> r is Err,
            r matches Err(e) ==> e == Error::ConfigFault,
            r matches Ok(scale) ==> scale.wf() && scale@ == fresh(
                device,
                config,
                capacity as nat,
                noise_threshold as int,
            ),
    {
        match StabilityFilter::new(capacity, noise_threshold) {
            Ok(filter) => Ok(
                Scale {
                    device,
                    config,
                    filter,
                    last_stable_weight: LastStable::Unset,
                    state: ChannelState::Disconnected,
                    started: false,
                },
            ),
            Err(e) => Err(e),
        }
    }

    /// The scale of one configuration record, not connected yet.
    pub fn from_libra_menu(libra: Libra) -> (scale: Scale)
        ensures
            scale.wf(),
            scale@ == fresh(libra.device, libra.config, BUFFER_LENGTH as nat, MAX_NOISE as int),
    {
        Scale::new(libra.device, libra.config)
    }

    /// Takes in the outcome of opening the channel for the first time and hands it
    /// back. Only a scale that was never connected is connected by it.
    pub fn connect(&mut self, opened: Result<(), Error>) -> (r: Result<(), Error>)
        requires
            old(self).wf(),
        ensures
            final(self).wf(),
            final(self)@ == old(self)@.after_connect(opened is Ok),
            r == opened,
    {
        if opened.is_ok() {
            match self.state {
                ChannelState::Disconnected => {
                    self.state = ChannelState::Connected;
                },
                _ => {},
            }
        }
        opened
    }

    /// Takes in the outcome of closing and reopening the channel and hands it back.
    /// Window and settled weight are cleared whatever the outcome.
    pub fn restart(&mut self, reopened: Result<(), Error>) -> (r: Result<(), Error>)
        requires
            old(self).wf(),
        ensures
            final(self).wf(),
            final(self)@ == old(self)@.after_restart(reopened is Ok),
            !final(self)@.stable(),
            r == reopened,
    {
        self.filter.clear();
        self.last_stable_weight = LastStable::Unset;
        self.started = false;
        match self.state {
            ChannelState::Disconnected => {},
            _ => {
                if reopened.is_ok() {
                    self.state = ChannelState::Connected;
                } else {
                    self.state = ChannelState::Faulted;
                }
            },
        }
        proof {
            self.filter.lemma_wf();
        }
        reopened
    }

    pub fn get_device(&self) -> (device: Device)
        ensures
            device == self@.device,
    {
        self.device
    }

    pub fn get_config(&self) -> (config: &Config)
        ensures
            *config == self@.config,
    {
        &self.config
    }

    pub fn get_state(&self) -> (state: ChannelState)
        ensures
            state == self@.state,
    {
        self.state
    }

    pub fn get_last_stable(&self) -> (last: LastStable)
        ensures
            last == self@.last_stable,
    {
        self.last_stable_weight
    }

    /// The weight that a raw sample of this scale stands for.
    pub fn get_reading(&self, raw: i32) -> (weight: i64)
        ensures
            weight == self@.weight_of(raw),
    {
        calibrate(raw, self.config.gain, self.config.offset)
    }

    /// The weight that came last, if the window holds any.
    pub fn get_current(&self) -> (r: Option<i64>)
        ensures
            self@.window.len() == 0 <==> r is None,
            r matches Some(v) ==> v == self@.window.last(),
    {
        self.filter.current()
    }

    /// Puts a weight into the window; the oldest one leaves a full window.
    pub fn update_buffer(&mut self, weight: i64)
        requires
            old(self).wf(),
        ensures
            final(self).wf(),
            final(self)@ == (ScaleView {
                window: pushed(old(self)@.window, old(self)@.capacity, weight),
                ..old(self)@
            }),
    {
        self.filter.push(weight);
    }

    /// Whether the window is full and its spread is below the noise threshold.
    pub fn is_stable(&self) -> (r: bool)
        requires
            self.wf(),
        ensures
            r == self@.stable(),
    {
        self.filter.is_stable()
    }
}

impl ScaleView {
    /// What a sample leaves behind in the model.
    pub open spec fn sampled(self, sample: Result<i32, Error>) -> ScaleView {
        match sample {
            Ok(raw) => self.after_reading(raw),
            Err(_) => self.after_fault(),
        }
    }

    /// What a sample is answered with: the fault it brought; for a scale that was
    /// never connected, the failure to start; else the weight with the verdict of the
    /// window it went into.
    pub open spec fn weighed(self, sample: Result<i32, Error>) -> Result<Weight, Error> {
        match sample {
            Err(e) => Err(e),
            Ok(raw) => if self.state is Disconnected {
                Err(Error::Initialization)
            } else if self.after_reading(raw).stable() {
                Ok(Weight::Stable(self.weight_of(raw)))
            } else {
                Ok(Weight::Unstable(self.weight_of(raw)))
            },
        }
    }
}

impl Scale {
    /// Takes in the outcome of one sample. A raw sample is calibrated and enters the
    /// window, and the channel counts as connected; a fault leaves the window alone and
    /// the channel faulted. A scale that was never connected takes nothing in.
    pub fn get_weight(&mut self, sample: Result<i32, Error>) -> (r: Result<Weight, Error>)
        requires
            old(self).wf(),
        ensures
            final(self).wf(),
            final(self)@ == old(self)@.sampled(sample),
            r == old(self)@.weighed(sample),
    {
        match sample {
            Err(e) => {
                match self.state {
                    ChannelState::Disconnected => {},
                    _ => {
                        self.state = ChannelState::Faulted;
                    },
                }
                Err(e)
            },
            Ok(raw) => {
                match self.state {
                    ChannelState::Disconnected => Err(Error::Initialization),
                    _ => {
                        let reading = self.get_reading(raw);
                        self.update_buffer(reading);
                        self.state = ChannelState::Connected;
                        self.started = true;
                        if self.is_stable() {
                            Ok(Weight::Stable(reading))
                        } else {
                            Ok(Weight::Unstable(reading))
                        }
                    },
                }
            },
        }
    }

    /// The action and amount that the classifier finds, and the settled weight updated.
    pub fn check(&mut self) -> (event: Option<(Action, i128)>)
        requires
            old(self).wf(),
        ensures
            final(self).wf(),
            final(self)@ == old(self)@.after_check(),
            event == old(self)@.action(),
    {
        match self.state {
            ChannelState::Connected => {
                let stable = self.is_stable();
                match self.filter.current() {
                    Some(current) => classify(
                        stable,
                        current,
                        &mut self.last_stable_weight,
                        self.filter.noise_threshold(),
                    ),
                    None => {
                        proof {
                            self.filter.lemma_wf();
                        }
                        None
                    },
                }
            },
            _ => Some((Action::Offline, 0i128)),
        }
    }

    /// An event of this scale.
    pub fn make_entry(&self, action: Action, amount: i128, timestamp: OffsetDateTime) -> (entry:
        DataEntry)
        ensures
            entry == self@.entry(action, amount, timestamp),
    {
        DataEntry::new(
            action,
            amount,
            self.device,
            timestamp,
            self.config.location.clone(),
            self.config.ingredient.clone(),
        )
    }

    /// Looks at the scale as it stands and says what happened, if anything: offline
    /// while the channel is not connected; else served or refilled when the window has
    /// settled at a weight that differs from the remembered one by more than the noise.
    pub fn check_for_action(&mut self, timestamp: OffsetDateTime) -> (entry: Option<DataEntry>)
        requires
            old(self).wf(),
        ensures
            final(self).wf(),
            final(self)@ == old(self)@.after_check(),
            entry == old(self)@.entry_of(old(self)@.action(), timestamp),
    {
        match self.check() {
            Some((action, amount)) => Some(self.make_entry(action, amount, timestamp)),
            None => None,
        }
    }

    /// Takes in what the channel did in one tick and says what happened, if anything.
    /// It never fails: a fault becomes an offline event.
    pub fn sample_and_classify(&mut self, poll: Poll, timestamp: OffsetDateTime) -> (entry: Option<
        DataEntry,
    >)
        requires
            old(self).wf(),
        ensures
            final(self).wf(),
            final(self)@ == old(self)@.after_poll(poll),
            entry == old(self)@.entry_of(old(self)@.poll_event(poll), timestamp),
    {
        let mut first: Option<i64> = None;
        match poll {
            Poll::Idle => {},
            Poll::Sampled(raw) => {
                first = self.announce(raw);
                let _ = self.get_weight(Ok(raw));
            },
            Poll::SampleFailed => {
                let _ = self.get_weight(Err(Error::SensorFault));
            },
            Poll::RestartFailed => {
                let _ = self.get_weight(Err(Error::SensorFault));
                let _ = self.restart(Err(Error::SensorFault));
            },
            Poll::Restarted => {
                let _ = self.get_weight(Err(Error::SensorFault));
                let _ = self.restart(Ok(()));
            },
            Poll::Recovered(raw) => {
                let _ = self.get_weight(Err(Error::SensorFault));
                let _ = self.restart(Ok(()));
                first = self.announce(raw);
                let _ = self.get_weight(Ok(raw));
            },
            Poll::ResampleFailed => {
                let _ = self.get_weight(Err(Error::SensorFault));
                let _ = self.restart(Ok(()));
                let _ = self.get_weight(Err(Error::SensorFault));
            },
        }
        let found = self.check();
        let event = match first {
            Some(weight) => Some((Action::Starting, weight as i128)),
            None => found,
        };
        match event {
            Some((action, amount)) => Some(self.make_entry(action, amount, timestamp)),
            None => None,
        }
    }

    /// The weight of `raw` if it would be the first reading since the scale was made
    /// or restarted.
    fn announce(&self, raw: i32) -> (first: Option<i64>)
        ensures
            first == if !self@.started && !(self@.state is Disconnected) {
                Some(self@.weight_of(raw))
            } else {
                None
            },
    {
        let connected = match self.state {
            ChannelState::Disconnected => false,
            _ => true,
        };
        if !self.started && connected {
            Some(self.get_reading(raw))
        } else {
            None
        }
    }

    /// The heartbeat of this scale, while it has a live reading to carry.
    pub fn heartbeat(&self, timestamp: OffsetDateTime) -> (entry: Option<DataEntry>)
        ensures
            entry == match self@.pulse() {
                Some(amount) => Some(self@.entry(Action::Heartbeat, amount, timestamp)),
                None => None,
            },
    {
        match self.state {
            ChannelState::Connected => match self.filter.current() {
                Some(weight) => Some(self.make_entry(Action::Heartbeat, weight as i128, timestamp)),
                None => None,
            },
            _ => None,
        }
    }
}

/// The models of a fleet, scale by scale.
pub open spec fn fleet_view(scales: Seq<Scale>) -> Seq<ScaleView> {
    Seq::new(scales.len(), |i: int| scales[i]@)
}

/// Validity of every scale of a fleet.
pub open spec fn fleet_wf(scales: Seq<Scale>) -> bool {
    forall|i: int| 0 <= i < scales.len() ==> (#[trigger] scales[i]).wf()
}

/// The scale that a configuration record gives once its channel has opened.
pub open spec fn connected(libra: Libra) -> ScaleView {
    fresh(libra.device, libra.config, BUFFER_LENGTH as nat, MAX_NOISE as int).after_connect(true)
}

/// The scales of those records whose channel opened, in the order of the records. A
/// record without an outcome counts as not opened.
pub open spec fn active_set(libras: Seq<Libra>, opened: Seq<Result<(), Error>>) -> Seq<ScaleView>
    decreases libras.len(),
{
    if libras.len() == 0 {
        Seq::empty()
    } else {
        let i = libras.len() - 1;
        let rest = active_set(libras.drop_last(), opened);
        if i < opened.len() && opened[i] is Ok {
            rest.push(connected(libras[i]))
        } else {
            rest
        }
    }
}

impl Scale {
    /// Builds the fleet from the configuration records and the outcomes of opening
    /// their channels. A scale whose channel did not open is left out; the others are
    /// not held up by it.
    pub fn from_config(libras: &Vec<Libra>, opened: &Vec<Result<(), Error>>) -> (scales: Vec<Scale>)
        ensures
            fleet_wf(scales@),
            fleet_view(scales@) == active_set(libras@, opened@),
    {
        let mut scales: Vec<Scale> = Vec::new();
        let mut i: usize = 0;
        assert(libras@.take(0) =~= Seq::empty());
        assert(fleet_view(scales@) =~= active_set(libras@.take(0), opened@));
        while i < libras.len()
            invariant
                i <= libras.len(),
                fleet_wf(scales@),
                fleet_view(scales@) == active_set(libras@.take(i as int), opened@),
            decreases libras.len() - i,
        {
            let ghost before = scales@;
            proof {
                let next = libras@.take(i + 1);
                assert(next.drop_last() =~= libras@.take(i as int));
                assert(next[next.len() - 1] == libras@[i as int]);
            }
            if i < opened.len() && opened[i].is_ok() {
                let mut scale = Scale::new(libras[i].device, libras[i].config.clone());
                let _ = scale.connect(Ok(()));
                scales.push(scale);
                assert(fleet_view(scales@) =~= fleet_view(before).push(connected(libras@[i as int])));
            }
            i += 1;
        }
        assert(libras@.take(i as int) =~= libras@);
        scales
    }
}

/// A restart leaves nothing behind: whatever the scale held and whether or not the
/// channel reopened, the window is empty, no settled weight is remembered, and the
/// scale is not stable. With a window of more than one reading it is not stable after
/// the next reading either.
pub proof fn lemma_restart_clears(scale: ScaleView, reopened: bool, raw: i32)
    requires
        scale.valid(),
    ensures
        scale.after_restart(reopened).window == Seq::<i64>::empty(),
        scale.after_restart(reopened).last_stable == LastStable::Unset,
        !scale.after_restart(reopened).stable(),
        scale.after_restart(reopened).valid(),
        scale.capacity > 1 ==> !scale.after_restart(reopened).after_reading(raw).stable(),
{
}

/// The first reading after a restart is announced as a start. It is never taken for a
/// serving or a refill, whatever the scale weighed before the fault.
pub proof fn lemma_recovery_starts(scale: ScaleView, raw: i32)
    requires
        scale.valid(),
        !(scale.state is Disconnected),
    ensures
        scale.poll_event(Poll::Recovered(raw)) == Some(
            (Action::Starting, scale.weight_of(raw) as i128),
        ),
        scale.after_poll(Poll::Recovered(raw)).state == ChannelState::Connected,
        scale.after_poll(Poll::Recovered(raw)).window == seq![scale.weight_of(raw)],
{
    assert(scale.after_poll(Poll::Recovered(raw)).window =~= seq![scale.weight_of(raw)]);
}

/// A tick in which the channel failed and did not come back ends in an offline event
/// with amount zero and leaves the scale faulted, ready to be polled again. A faulted
/// scale is never disconnected by a poll, whatever the channel does.
pub proof fn lemma_fault_is_absorbed(scale: ScaleView, poll: Poll)
    requires
        scale.valid(),
        !(scale.state is Disconnected),
    ensures
        poll is SampleFailed || poll is RestartFailed || poll is ResampleFailed ==> {
            &&& scale.poll_event(poll) == Some((Action::Offline, 0i128))
            &&& scale.after_poll(poll).state == ChannelState::Faulted
        },
        !(scale.after_poll(poll).state is Disconnected),
        scale.after_poll(poll).valid(),
        scale.after_poll(poll).device == scale.device,
        scale.after_poll(poll).config == scale.config,
        Poll::Idle.next() == Request::Sample,
{
}

/// Looking twice finds nothing new: once the classifier has looked at a connected
/// scale, a second look without a new reading gives no event and changes nothing.
pub proof fn lemma_check_is_idempotent(scale: ScaleView)
    requires
        scale.valid(),
        scale.state is Connected,
    ensures
        scale.after_check().action() is None,
        scale.after_check().after_check() == scale.after_check(),
{
    if scale.stable() {
        crate::classifier::lemma_settled_threshold_is_positive(
            scale.window,
            scale.capacity,
            scale.noise_threshold,
        );
    }
}

/// A stable scale whose readings keep to the settled weight it remembers stays silent:
/// each such reading gives no event and leaves the remembered weight alone.
pub proof fn lemma_steady_scale_is_silent(scale: ScaleView, raw: i32)
    requires
        scale.valid(),
        scale.state is Connected,
        scale.started,
        scale.last_stable == LastStable::Stable(scale.weight_of(raw)),
    ensures
        scale.poll_event(Poll::Sampled(raw)) is None,
        scale.after_poll(Poll::Sampled(raw)).last_stable == scale.last_stable,
{
    let after = scale.after_reading(raw);
    if after.stable() {
        crate::classifier::lemma_settled_threshold_is_positive(
            after.window,
            after.capacity,
            after.noise_threshold,
        );
    }
}

} // verus!
