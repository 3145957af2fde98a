//! From successive settled weights to served and refilled events.
use crate::data::Action;
use crate::filter::{lemma_max_of, lemma_min_of, settled, spread, StabilityFilter};
use vstd::prelude::*;

verus! {

/// The settled weight that the classifier compares the next one with.
#[derive(Clone, Copy, Debug, PartialEq, Eq, Structural)]
pub enum LastStable {
    /// The scale has not settled since it was started or restarted.
    Unset,
    Stable(i64),
}

/// Change from the remembered settled weight to the current reading.
pub open spec fn delta_from(last: LastStable, current: i64) -> int {
    match last {
        LastStable::Unset => 0,
        LastStable::Stable(value) => current - value,
    }
}

/// Whether a change is larger than the noise, in either direction. A change equal to
/// the threshold is not.
pub open spec fn exceeds_noise(delta: int, noise_threshold: int) -> bool {
    delta > noise_threshold || delta < -noise_threshold
}

/// The event of a tick at which the window is `stable` or not and `current` arrived last:
/// none while the window is unsettled, none at the first settling, none for a change
/// within the noise, else refilled for a rise and served for a fall, with the signed change.
pub open spec fn classification(
    stable: bool,
    current: i64,
    last: LastStable,
    noise_threshold: int,
) -> Option<(Action, i128)> {
    let delta = delta_from(last, current);
    if stable && last is Stable && exceeds_noise(delta, noise_threshold) {
        if delta > 0 {
            Some((Action::Refilled, delta as i128))
        } else {
            Some((Action::Served, delta as i128))
        }
    } else {
        None
    }
}

/// The settled weight to remember after that tick: the current reading at the first
/// settling and at every event, the old value otherwise.
pub open spec fn remembered(
    stable: bool,
    current: i64,
    last: LastStable,
    noise_threshold: int,
) -> LastStable {
    if stable && (last is Unset || exceeds_noise(delta_from(last, current), noise_threshold)) {
        LastStable::Stable(current)
    } else {
        last
    }
}

/// Classifies one tick and updates the remembered settled weight.
pub fn classify(stable: bool, current: i64, last_stable: &mut LastStable, noise_threshold: i64) -> (event:
    Option<(Action, i128)>)
    ensures
        event == classification(stable, current, *old(last_stable), noise_threshold as int),
        *final(last_stable) == remembered(stable, current, *old(last_stable), noise_threshold as int),
{
    if !stable {
        return None;
    }
    match *last_stable {
        LastStable::Unset => {
            *last_stable = LastStable::Stable(current);
            None
        },
        LastStable::Stable(value) => {
            let delta: i128 = current as i128 - value as i128;
            let threshold: i128 = noise_threshold as i128;
            if delta > threshold || delta < -threshold {
                *last_stable = LastStable::Stable(current);
                if delta > 0 {
                    Some((Action::Refilled, delta))
                } else {
                    Some((Action::Served, delta))
                }
            } else {
                None
            }
        },
    }
}

/// A window can only have settled below a threshold that is positive.
pub proof fn lemma_settled_threshold_is_positive(window: Seq<i64>, capacity: nat, noise_threshold: int)
    requires
        capacity >= 1,
        settled(window, capacity, noise_threshold),
    ensures
        noise_threshold > 0,
        spread(window) >= 0,
{
    lemma_max_of(window);
    lemma_min_of(window);
    let hi = choose|i: int| 0 <= i < window.len() && window[i] == crate::filter::max_of(window);
    assert(crate::filter::min_of(window) <= window[hi]);
}

/// While a stable scale keeps reading the settled weight it remembers, no event comes
/// and the remembered weight stays.
pub proof fn lemma_repeated_reading_is_silent(filter: StabilityFilter, value: i64)
    requires
        filter.wf(),
        filter.stable(),
        filter@.last() == value,
    ensures
        classification(true, value, LastStable::Stable(value), filter.spec_noise_threshold()) is None,
        remembered(true, value, LastStable::Stable(value), filter.spec_noise_threshold())
            == LastStable::Stable(value),
{
    filter.lemma_wf();
    lemma_settled_threshold_is_positive(filter@, filter.spec_capacity(), filter.spec_noise_threshold());
}

/// For a stable scale that remembers a settled weight: a rise above the threshold is
/// refilled, a fall below its negative is served, each with the signed change, and a
/// change within the threshold, its two ends included, is no event.
pub proof fn lemma_transition(filter: StabilityFilter, last: i64)
    requires
        filter.wf(),
        filter.stable(),
    ensures
        ({
            let current = filter@.last();
            let threshold = filter.spec_noise_threshold();
            let delta = current - last;
            let event = classification(true, current, LastStable::Stable(last), threshold);
            &&& event == Some((Action::Refilled, delta as i128)) <==> delta > threshold
            &&& event == Some((Action::Served, delta as i128)) <==> delta < -threshold
            &&& event is None <==> -threshold <= delta <= threshold
            &&& event matches Some((action, _)) ==> (action == Action::Refilled <==> delta > 0)
            &&& event matches Some((action, _)) ==> (action == Action::Served <==> delta < 0)
            &&& (delta == threshold || delta == -threshold) ==> event is None
        }),
{
    filter.lemma_wf();
    lemma_settled_threshold_is_positive(filter@, filter.spec_capacity(), filter.spec_noise_threshold());
}

/// The remembered settled weight is never lost: once set it stays set, and it changes
/// only to the reading that has just arrived.
pub proof fn lemma_remembered_moves_forward(
    stable: bool,
    current: i64,
    last: LastStable,
    noise_threshold: int,
)
    ensures
        last is Stable ==> remembered(stable, current, last, noise_threshold) is Stable,
        remembered(stable, current, last, noise_threshold) == last || remembered(
            stable,
            current,
            last,
            noise_threshold,
        ) == LastStable::Stable(current),
        classification(stable, current, last, noise_threshold) is Some ==> remembered(
            stable,
            current,
            last,
            noise_threshold,
        ) == LastStable::Stable(current),
{
}

} // verus!
