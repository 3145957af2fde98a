use libra::data::{Action, DataEntry};
use libra::device::{Device, Model};
use libra::error::Error;
use libra::monitor::{min_period, Monitor};
use libra::scale::{ChannelState, Config, Poll, Scale};
use time::OffsetDateTime;

const EPOCH: OffsetDateTime = OffsetDateTime::UNIX_EPOCH;

fn fleet_config(sample_period: u64, heartbeat_period: u64) -> Config {
    Config {
        phidget_id: 1,
        load_cell_id: 0,
        gain: 1,
        offset: 0,
        location: String::from("Bar"),
        ingredient: String::from("Ice"),
        phidget_sample_period: sample_period,
        heartbeat_period,
    }
}

fn fleet_scale(number: u64, sample_period: u64, heartbeat_period: u64) -> Scale {
    let mut scale = Scale::new(
        Device::new(Model::LibraV0, number),
        fleet_config(sample_period, heartbeat_period),
    );
    scale.connect(Ok(())).unwrap();
    scale
}

fn fleet_event(number: u64, action: Action, amount: i128) -> DataEntry {
    DataEntry::new(
        action,
        amount,
        Device::new(Model::LibraV0, number),
        EPOCH,
        String::from("Bar"),
        String::from("Ice"),
    )
}

#[test]
fn smallest_period_is_found() {
    assert_eq!(min_period(&vec![300, 250, 900]), Ok(250));
    assert_eq!(min_period(&vec![7]), Ok(7));
    assert_eq!(min_period(&vec![5, 5, 0]), Ok(0));
    assert_eq!(min_period(&Vec::new()), Err(Error::Initialization));
}

#[test]
fn empty_fleet_fails_to_start() {
    assert!(matches!(Monitor::new(Vec::new(), 0), Err(Error::Initialization)));
}

#[test]
fn monitor_runs_at_the_smallest_periods_of_the_fleet() {
    let scales = vec![fleet_scale(1, 300, 5_000), fleet_scale(2, 250, 9_000), fleet_scale(3, 400, 4_000)];
    let monitor = Monitor::new(scales, 0).unwrap();
    assert_eq!(monitor.len(), 3);
    assert_eq!(monitor.get_sample_period(), 250);
    assert_eq!(monitor.get_heartbeat_period(), 4_000);
    assert_eq!(monitor.get_scale(1).unwrap().get_device(), Device::new(Model::LibraV0, 2));
    assert!(monitor.get_scale(3).is_none());
}

#[test]
fn sleep_is_what_is_left_of_the_tick() {
    let monitor = Monitor::new(vec![fleet_scale(1, 250, 500)], 0).unwrap();
    assert_eq!(monitor.time_until_next_tick(0), 250);
    assert_eq!(monitor.time_until_next_tick(40), 210);
    assert_eq!(monitor.time_until_next_tick(249), 1);
    assert_eq!(monitor.time_until_next_tick(250), 0);
    assert_eq!(monitor.time_until_next_tick(1_000), 0);
}

#[test]
fn heartbeat_is_due_after_more_than_its_period() {
    let mut monitor = Monitor::new(vec![fleet_scale(1, 250, 500)], 1_000).unwrap();
    assert!(!monitor.is_time_for_heartbeat(1_000));
    assert!(!monitor.is_time_for_heartbeat(1_500));
    assert!(monitor.is_time_for_heartbeat(1_501));
    assert!(!monitor.is_time_for_heartbeat(2_001));
    assert!(monitor.is_time_for_heartbeat(2_002));
    assert!(!monitor.is_time_for_heartbeat(900));
}

#[test]
fn heartbeats_come_every_other_tick_by_the_clock() {
    let mut monitor = Monitor::new(vec![fleet_scale(1, 250, 500)], 0).unwrap();
    let first = monitor.tick(&vec![Poll::Sampled(100_000)], 0, EPOCH);
    assert_eq!(first, vec![fleet_event(1, Action::Starting, 100_000)]);
    let mut heartbeats = 0;
    let mut now = 0;
    for tick in 1..=5 {
        now += 251;
        let batch = monitor.tick(&vec![Poll::Sampled(100_000)], now, EPOCH);
        if tick % 2 == 0 {
            assert_eq!(batch, vec![fleet_event(1, Action::Heartbeat, 100_000)]);
        } else {
            assert!(batch.is_empty());
        }
        heartbeats += batch.len();
    }
    assert_eq!(heartbeats, 2);
}

#[test]
fn batch_follows_the_order_of_the_fleet() {
    let scales = vec![fleet_scale(1, 250, 500), fleet_scale(2, 250, 500), fleet_scale(3, 250, 500)];
    let mut monitor = Monitor::new(scales, 0).unwrap();
    let polls = vec![Poll::Sampled(10), Poll::RestartFailed, Poll::Recovered(30)];
    let batch = monitor.tick(&polls, 100, EPOCH);
    assert_eq!(
        batch,
        vec![
            fleet_event(1, Action::Starting, 10),
            fleet_event(2, Action::Offline, 0),
            fleet_event(3, Action::Starting, 30),
        ]
    );
    let polls = vec![Poll::Sampled(11), Poll::RestartFailed, Poll::Sampled(31)];
    let batch = monitor.tick(&polls, 601, EPOCH);
    assert_eq!(
        batch,
        vec![
            fleet_event(1, Action::Heartbeat, 11),
            fleet_event(2, Action::Offline, 0),
            fleet_event(3, Action::Heartbeat, 31),
        ]
    );
}

#[test]
fn heartbeat_follows_the_event_of_its_scale() {
    let mut scale = Scale::with_window(Device::new(Model::LibraV0, 1), fleet_config(250, 500), 1, 3000).unwrap();
    scale.connect(Ok(())).unwrap();
    let mut monitor = Monitor::new(vec![scale], 0).unwrap();
    assert_eq!(
        monitor.tick(&vec![Poll::Sampled(100_000)], 0, EPOCH),
        vec![fleet_event(1, Action::Starting, 100_000)]
    );
    assert_eq!(
        monitor.tick(&vec![Poll::Sampled(70_000)], 501, EPOCH),
        vec![fleet_event(1, Action::Served, -30_000), fleet_event(1, Action::Heartbeat, 70_000)]
    );
}

#[test]
fn faulted_scale_stays_in_the_fleet_and_is_polled() {
    let scales = vec![fleet_scale(1, 250, 500), fleet_scale(2, 250, 500)];
    let mut monitor = Monitor::new(scales, 0).unwrap();
    let mut now = 0;
    for _ in 0..50 {
        now += 250;
        let batch = monitor.tick(&vec![Poll::RestartFailed, Poll::Sampled(5)], now, EPOCH);
        assert_eq!(batch[0], fleet_event(1, Action::Offline, 0));
        assert_eq!(monitor.len(), 2);
        assert_eq!(monitor.get_scale(0).unwrap().get_state(), ChannelState::Faulted);
        assert_eq!(monitor.get_scale(1).unwrap().get_state(), ChannelState::Connected);
    }
    let batch = monitor.tick(&vec![Poll::Recovered(8), Poll::Sampled(5)], now + 250, EPOCH);
    assert_eq!(batch[0], fleet_event(1, Action::Starting, 8));
    assert_eq!(monitor.get_scale(0).unwrap().get_state(), ChannelState::Connected);
}

#[test]
fn scale_without_a_poll_is_not_asked() {
    let scales = vec![fleet_scale(1, 250, 500), fleet_scale(2, 250, 500)];
    let mut monitor = Monitor::new(scales, 0).unwrap();
    let batch = monitor.tick(&vec![Poll::Sampled(10)], 100, EPOCH);
    assert_eq!(batch, vec![fleet_event(1, Action::Starting, 10)]);
    assert_eq!(monitor.get_scale(1).unwrap().get_current(), None);
    let batch = monitor.tick(&vec![Poll::Sampled(10), Poll::Sampled(20), Poll::Sampled(30)], 200, EPOCH);
    assert_eq!(batch, vec![fleet_event(2, Action::Starting, 20)]);
}
