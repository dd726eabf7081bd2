//! Normalisation of user-supplied control parameters. A value outside its
//! accepted range is not refused: a documented default takes its place and
//! the caller is told so.

use vstd::prelude::*;
use crate::args::Auto;

verus! {

/// Shortest accepted tick interval, in seconds.
pub const MIN_INTERVAL: u64 = 5;

/// Longest accepted tick interval, in seconds.
pub const MAX_INTERVAL: u64 = 120;

/// Tick interval that replaces one out of range.
pub const DEFAULT_INTERVAL: u64 = 5;

/// Lowest accepted full-speed threshold, in degrees.
pub const MIN_THRESHOLD: u16 = 40;

/// Highest accepted full-speed threshold, in degrees.
pub const MAX_THRESHOLD: u16 = 100;

/// Threshold that replaces one out of range.
pub const DEFAULT_THRESHOLD: u16 = 70;

/// Whether a tick interval is within the accepted range.
pub open spec fn interval_accepted(interval: u64) -> bool {
    MIN_INTERVAL <= interval <= MAX_INTERVAL
}

/// Whether a threshold is within the accepted range.
pub open spec fn threshold_accepted(threshold: u16) -> bool {
    MIN_THRESHOLD <= threshold <= MAX_THRESHOLD
}

/// The interval the controller works with, given the one asked for.
pub open spec fn normal_interval(interval: u64) -> u64 {
    if interval_accepted(interval) {
        interval
    } else {
        DEFAULT_INTERVAL
    }
}

/// The threshold the controller works with, given the one asked for.
pub open spec fn normal_threshold(threshold: u16) -> u16 {
    if threshold_accepted(threshold) {
        threshold
    } else {
        DEFAULT_THRESHOLD
    }
}

/// Whether interval and threshold are both within their accepted ranges.
pub open spec fn accepted(parameters: Auto) -> bool {
    interval_accepted(parameters.interval) && threshold_accepted(parameters.threshold)
}

/// The parameters with interval and threshold normalised. Target
/// temperature, full speed and the purge settings are taken as given: their
/// documented ranges are advice to the caller and are not enforced.
pub open spec fn normalized(parameters: Auto) -> Auto {
    Auto {
        interval: normal_interval(parameters.interval),
        threshold: normal_threshold(parameters.threshold),
        ..parameters
    }
}

/// What the caller is told when the interval was replaced.
pub open spec fn interval_note() -> Seq<char> {
    "invalid interval, interval set to 5"@
}

/// What the caller is told when the threshold was replaced.
pub open spec fn threshold_note() -> Seq<char> {
    "invalid threshold, threshold set to 70"@
}

/// The outcome of validation.
#[derive(Clone, Copy, Debug, PartialEq, Eq)]
pub struct Validated {
    /// The parameters to work with.
    pub parameters: Auto,
    /// Whether the interval asked for was out of range and replaced.
    pub interval_corrected: bool,
    /// Whether the threshold asked for was out of range and replaced.
    pub threshold_corrected: bool,
}

/// What validation makes of a set of parameters.
pub open spec fn validated(parameters: Auto) -> Validated {
    Validated {
        parameters: normalized(parameters),
        interval_corrected: !interval_accepted(parameters.interval),
        threshold_corrected: !threshold_accepted(parameters.threshold),
    }
}

/// Normalises a tick interval; the flag says whether it was replaced.
pub fn validate_interval(interval: u64) -> (checked: (u64, bool))
    ensures
        checked.0 == normal_interval(interval),
        checked.1 == !interval_accepted(interval),
{
    if MIN_INTERVAL <= interval && interval <= MAX_INTERVAL {
        (interval, false)
    } else {
        (DEFAULT_INTERVAL, true)
    }
}

/// Normalises a threshold; the flag says whether it was replaced.
pub fn validate_threshold(threshold: u16) -> (checked: (u16, bool))
    ensures
        checked.0 == normal_threshold(threshold),
        checked.1 == !threshold_accepted(threshold),
{
    if MIN_THRESHOLD <= threshold && threshold <= MAX_THRESHOLD {
        (threshold, false)
    } else {
        (DEFAULT_THRESHOLD, true)
    }
}

/// Normalises a set of parameters and records what was replaced.
pub fn validate(parameters: Auto) -> (outcome: Validated)
    ensures
        outcome == validated(parameters),
        accepted(outcome.parameters),
{
    let (interval, interval_corrected) = validate_interval(parameters.interval);
    let (threshold, threshold_corrected) = validate_threshold(parameters.threshold);
    Validated {
        parameters: Auto {
            interval,
            threshold,
            target_temperature: parameters.target_temperature,
            max_fan_speed: parameters.max_fan_speed,
            clear_air_interval: parameters.clear_air_interval,
            clear_air_duration: parameters.clear_air_duration,
        },
        interval_corrected,
        threshold_corrected,
    }
}

impl Validated {
    /// The notes this outcome owes the caller, as sequences of characters.
    pub open spec fn note_texts(self) -> Seq<Seq<char>> {
        let first = if self.interval_corrected {
            seq![interval_note()]
        } else {
            Seq::<Seq<char>>::empty()
        };
        if self.threshold_corrected {
            first.push(threshold_note())
        } else {
            first
        }
    }

    /// The human-readable notes on what was replaced: none where nothing
    /// was, else one per replaced value, the interval's first.
    pub fn notes(&self) -> (notes: Vec<&'static str>)
        ensures
            notes@.len() == self.note_texts().len(),
            forall|i: int| 0 <= i < notes@.len() ==> (#[trigger] notes@[i])@ == self.note_texts()[i],
    {
        let mut notes: Vec<&'static str> = Vec::new();
        if self.interval_corrected {
            notes.push("invalid interval, interval set to 5");
        }
        if self.threshold_corrected {
            notes.push("invalid threshold, threshold set to 70");
        }
        notes
    }
}

/// Values within their ranges pass through unchanged, with nothing to note.
pub proof fn lemma_accepted_unchanged(parameters: Auto)
    requires
        accepted(parameters),
    ensures
        validated(parameters).parameters == parameters,
        validated(parameters).note_texts().len() == 0,
{
}

/// A value out of range is replaced by its default and noted; nothing else
/// is touched.
pub proof fn lemma_rejected_replaced(parameters: Auto)
    ensures
        !interval_accepted(parameters.interval) ==> validated(parameters).parameters.interval
            == DEFAULT_INTERVAL && validated(parameters).note_texts()[0] == interval_note(),
        !threshold_accepted(parameters.threshold) ==> validated(parameters).parameters.threshold
            == DEFAULT_THRESHOLD && validated(parameters).note_texts().last()
            == threshold_note(),
        validated(parameters).parameters.target_temperature == parameters.target_temperature,
        validated(parameters).parameters.max_fan_speed == parameters.max_fan_speed,
        validated(parameters).parameters.clear_air_interval == parameters.clear_air_interval,
        validated(parameters).parameters.clear_air_duration == parameters.clear_air_duration,
{
}

/// Normalised parameters are accepted, so normalising twice changes nothing
/// more.
pub proof fn lemma_normalized_accepted(parameters: Auto)
    ensures
        accepted(normalized(parameters)),
        normalized(normalized(parameters)) == normalized(parameters),
{
}

} // verus!
