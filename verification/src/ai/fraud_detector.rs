//! The fraud detector: five independent checks on one action, each with a
//! score between 0.0 and 1.0, multiplied into the authenticity score.

use crate::ai::pattern::{
    event_views,
    ActionEvent,
    EventView,
    PatternView,
    UserBehaviorPattern,
};
use crate::ai::timing::{classify_spread, spread_of, Spread};
use crate::score::{clamp_score, SCORE_ONE};
use crate::text::{contains_text, same_text, texts};
use vstd::prelude::*;
use vstd::string::*;

verus! {

/// The window, in milliseconds, over which the frequency of actions is
/// counted.
pub const FREQUENCY_WINDOW_MS: u64 = 60000;

/// More actions than this within the window halve the frequency score.
pub const MODERATE_ACTIONS_PER_MINUTE: usize = 60;

/// The thresholds of the detector.
#[derive(Clone, Copy, Debug)]
pub struct FraudDetector {
    /// The shortest interval between two actions, in milliseconds, that is
    /// not suspicious.
    pub min_action_interval: i64,
    /// The largest number of actions within a minute that is still human.
    pub max_actions_per_minute: u32,
    /// The largest number of devices that one user may have been seen on.
    pub device_switching_threshold: u32,
    /// A variance threshold kept with the others; no check reads it.
    pub timing_variance_threshold: u64,
}

/// The score of the timing check: 0.2 when the last interval is shorter
/// than the minimum; otherwise, with more than five intervals, 0.3 when
/// they are too regular and 0.4 when they are too erratic; otherwise 1.0.
pub open spec fn timing_score(min_action_interval: int, intervals: Seq<i64>) -> nat {
    if intervals.len() == 0 {
        SCORE_ONE as nat
    } else if intervals.last() < min_action_interval {
        200_000
    } else if intervals.len() > 5 {
        match spread_of(intervals) {
            Spread::Regular => 300_000,
            Spread::Erratic => 400_000,
            Spread::Natural => SCORE_ONE as nat,
        }
    } else {
        SCORE_ONE as nat
    }
}

/// The action lies within the window that ends at `now`.
pub open spec fn within_window(e: EventView, now: nat) -> bool {
    e.timestamp + FREQUENCY_WINDOW_MS > now
}

/// The number of actions of `history` within the window that ends at `now`.
pub open spec fn count_recent(history: Seq<EventView>, now: nat) -> nat
    decreases history.len(),
{
    if history.len() == 0 {
        0
    } else {
        count_recent(history.drop_last(), now) + if within_window(history.last(), now) {
            1nat
        } else {
            0nat
        }
    }
}

/// The score of the frequency check: 0.1 above the cap, 0.5 above sixty
/// actions a minute, otherwise 1.0.
pub open spec fn frequency_score(max_actions_per_minute: nat, history: Seq<EventView>, now: nat) -> nat {
    let recent = count_recent(history, now);
    if recent > max_actions_per_minute {
        100_000
    } else if recent > MODERATE_ACTIONS_PER_MINUTE {
        500_000
    } else {
        SCORE_ONE as nat
    }
}

/// The score of the device check: 0.3 with more devices seen than the
/// threshold, 0.9 on a device not seen before, otherwise 1.0.
pub open spec fn device_score(threshold: nat, seen: Seq<Seq<char>>, device: Seq<char>) -> nat {
    if seen.len() > threshold {
        300_000
    } else if !seen.contains(device) {
        900_000
    } else {
        SCORE_ONE as nat
    }
}

/// The number of actions of `history` with the type `action_type`.
pub open spec fn count_of_type(history: Seq<EventView>, action_type: Seq<char>) -> nat
    decreases history.len(),
{
    if history.len() == 0 {
        0
    } else {
        count_of_type(history.drop_last(), action_type) + if history.last().action_type
            == action_type {
            1nat
        } else {
            0nat
        }
    }
}

/// The last `window` actions of `history`, or all of them if there are
/// fewer.
pub open spec fn last_events(history: Seq<EventView>, window: nat) -> Seq<EventView> {
    if history.len() <= window {
        history
    } else {
        history.subrange(history.len() - window, history.len() as int)
    }
}

/// The score of the repetition and reputation check: 0.4 when at least
/// eight of the last ten actions have the type of the new one, 0.6 when the
/// reputation is below 0.5, otherwise 1.0.
pub open spec fn behavior_score(p: PatternView, action_type: Seq<char>) -> nat {
    if count_of_type(last_events(p.action_history, 10), action_type) >= 8 {
        400_000
    } else if p.reputation_score < 500_000 {
        600_000
    } else {
        SCORE_ONE as nat
    }
}

/// The interval is within 10 ms of 100 ms.
pub open spec fn near_hundred(interval: i64) -> bool {
    90 < interval < 110
}

/// The number of intervals within 10 ms of 100 ms.
pub open spec fn count_near_hundred(intervals: Seq<i64>) -> nat
    decreases intervals.len(),
{
    if intervals.len() == 0 {
        0
    } else {
        count_near_hundred(intervals.drop_last()) + if near_hundred(intervals.last()) {
            1nat
        } else {
            0nat
        }
    }
}

/// The score of the check that depends on the action type.
///
/// - click: 0.3 when, of more than ten intervals, over half are within
///   10 ms of 100 ms;
/// - scroll: 0.5 with more than 15 scrolls among the last 20 actions;
/// - share: 0.2 with more than 5 shares among the last 100 actions;
/// - form_submit: 0.3 with more than 3 among the last 10 actions;
/// - any other type: 0.8.
pub open spec fn action_score(action_type: Seq<char>, p: PatternView) -> nat {
    if action_type == "click"@ {
        if p.timing_patterns.len() > 10 && count_near_hundred(p.timing_patterns)
            > p.timing_patterns.len() / 2 {
            300_000
        } else {
            SCORE_ONE as nat
        }
    } else if action_type == "scroll"@ {
        if count_of_type(last_events(p.action_history, 20), "scroll"@) > 15 {
            500_000
        } else {
            SCORE_ONE as nat
        }
    } else if action_type == "share"@ {
        if count_of_type(last_events(p.action_history, 100), "share"@) > 5 {
            200_000
        } else {
            SCORE_ONE as nat
        }
    } else if action_type == "form_submit"@ {
        if count_of_type(last_events(p.action_history, 10), "form_submit"@) > 3 {
            300_000
        } else {
            SCORE_ONE as nat
        }
    } else {
        800_000
    }
}

/// The product of five scores, itself a score: in millionths, rounded down,
/// and limited to 1.0.
pub open spec fn product_score(a: nat, b: nat, c: nat, d: nat, e: nat) -> nat {
    clamp_score(
        (a * b * c * d * e) / (1_000_000_000_000_000_000_000_000nat),
    )
}

/// The authenticity score of an action of type `action_type` at `now` on
/// `device`, by a user with the pattern `p`.
pub open spec fn authenticity(
    detector: FraudDetector,
    p: PatternView,
    action_type: Seq<char>,
    now: nat,
    device: Seq<char>,
) -> nat {
    product_score(
        timing_score(detector.min_action_interval as int, p.timing_patterns),
        frequency_score(detector.max_actions_per_minute as nat, p.action_history, now),
        device_score(detector.device_switching_threshold as nat, p.device_fingerprints, device),
        behavior_score(p, action_type),
        action_score(action_type, p),
    )
}

/// Every one of the five checks gives a score of at most 1.0.
pub proof fn lemma_checks_are_scores(
    detector: FraudDetector,
    p: PatternView,
    action_type: Seq<char>,
    now: nat,
    device: Seq<char>,
)
    ensures
        timing_score(detector.min_action_interval as int, p.timing_patterns) <= SCORE_ONE,
        frequency_score(detector.max_actions_per_minute as nat, p.action_history, now)
            <= SCORE_ONE,
        device_score(detector.device_switching_threshold as nat, p.device_fingerprints, device)
            <= SCORE_ONE,
        behavior_score(p, action_type) <= SCORE_ONE,
        action_score(action_type, p) <= SCORE_ONE,
        authenticity(detector, p, action_type, now, device) <= SCORE_ONE,
{
}

/// A user without history: no action and no interval recorded.
pub open spec fn without_history(p: PatternView) -> bool {
    p.action_history.len() == 0 && p.timing_patterns.len() == 0
}

/// The action types that have a check of their own.
pub open spec fn known_action_type(action_type: Seq<char>) -> bool {
    action_type == "click"@ || action_type == "scroll"@ || action_type == "share"@ || action_type
        == "form_submit"@
}

/// For a user without history the timing, frequency and repetition checks
/// pass. The authenticity score is then the full 1.0 exactly when the
/// device is a known one of not too many, the reputation is at least 0.5,
/// and the action type has a check of its own.
pub proof fn lemma_empty_history_score(
    detector: FraudDetector,
    p: PatternView,
    action_type: Seq<char>,
    now: nat,
    device: Seq<char>,
)
    requires
        without_history(p),
    ensures
        timing_score(detector.min_action_interval as int, p.timing_patterns) == SCORE_ONE,
        frequency_score(detector.max_actions_per_minute as nat, p.action_history, now)
            == SCORE_ONE,
        count_of_type(last_events(p.action_history, 10), action_type) == 0,
        authenticity(detector, p, action_type, now, device) == SCORE_ONE <==> {
            &&& p.device_fingerprints.len() <= detector.device_switching_threshold
            &&& p.device_fingerprints.contains(device)
            &&& p.reputation_score >= 500_000
            &&& known_action_type(action_type)
        },
{
    let d = device_score(detector.device_switching_threshold as nat, p.device_fingerprints, device);
    let b = behavior_score(p, action_type);
    let a = action_score(action_type, p);
    assert(b == 600_000 || b == 1_000_000);
    assert(a == 800_000 || a == 1_000_000);
    assert(d == 300_000 || d == 900_000 || d == 1_000_000);
    let product: nat = 1_000_000 * 1_000_000 * d * b * a;
}

/// Multiplies five scores, none of them above 1.0.
pub fn multiply_scores(a: u64, b: u64, c: u64, d: u64, e: u64) -> (product: u64)
    requires
        a <= SCORE_ONE,
        b <= SCORE_ONE,
        c <= SCORE_ONE,
        d <= SCORE_ONE,
        e <= SCORE_ONE,
    ensures
        product == product_score(a as nat, b as nat, c as nat, d as nat, e as nat),
        product <= SCORE_ONE,
{
    assert(a * b <= 1_000_000 * 1_000_000) by (nonlinear_arith)
        requires
            a <= 1_000_000,
            b <= 1_000_000,
    ;
    let ab: u128 = (a as u128) * (b as u128);
    assert(ab * c <= 1_000_000 * 1_000_000 * 1_000_000) by (nonlinear_arith)
        requires
            ab <= 1_000_000 * 1_000_000,
            c <= 1_000_000,
    ;
    let abc: u128 = ab * (c as u128);
    assert(abc * d <= 1_000_000 * 1_000_000 * 1_000_000 * 1_000_000) by (nonlinear_arith)
        requires
            abc <= 1_000_000 * 1_000_000 * 1_000_000,
            d <= 1_000_000,
    ;
    let abcd: u128 = abc * (d as u128);
    assert(abcd * e <= 1_000_000 * 1_000_000 * 1_000_000 * 1_000_000 * 1_000_000)
        by (nonlinear_arith)
        requires
            abcd <= 1_000_000 * 1_000_000 * 1_000_000 * 1_000_000,
            e <= 1_000_000,
    ;
    let all: u128 = abcd * (e as u128);
    let scaled: u128 = all / 1_000_000_000_000_000_000_000_000u128;
    if scaled > SCORE_ONE as u128 {
        SCORE_ONE
    } else {
        scaled as u64
    }
}

/// Counts the actions of type `action_type` among the last `window` actions
/// of `history`.
pub fn count_type_in_window(history: &[ActionEvent], window: usize, action_type: &str) -> (count:
    usize)
    ensures
        count == count_of_type(last_events(event_views(history@), window as nat), action_type@),
        count <= window,
{
    let len: usize = history.len();
    let start: usize = if len <= window {
        0
    } else {
        len - window
    };
    let ghost events = event_views(history@);
    let ghost tail = last_events(events, window as nat);
    assert(tail =~= events.subrange(start as int, len as int));
    let wanted: String = String::from_str(action_type);
    let mut count: usize = 0;
    let mut i: usize = start;
    while i < len
        invariant
            start <= i <= len == history@.len(),
            events == event_views(history@),
            wanted@ == action_type@,
            count == count_of_type(events.subrange(start as int, i as int), action_type@),
            count <= i - start,
        decreases len - i,
    {
        proof {
            assert(events.subrange(start as int, i + 1).drop_last() =~= events.subrange(
                start as int,
                i as int,
            ));
        }
        if history[i].action_type == wanted {
            count = count + 1;
        }
        i = i + 1;
    }
    count
}

impl FraudDetector {
    /// The detector with its default thresholds: 50 ms, 120 actions a
    /// minute, 5 devices.
    pub open spec fn default_thresholds() -> FraudDetector {
        FraudDetector {
            min_action_interval: 50,
            max_actions_per_minute: 120,
            device_switching_threshold: 5,
            timing_variance_threshold: 10,
        }
    }

    /// The detector with its default thresholds.
    pub fn new() -> (detector: FraudDetector)
        ensures
            detector == Self::default_thresholds(),
    {
        FraudDetector {
            min_action_interval: 50,
            max_actions_per_minute: 120,
            device_switching_threshold: 5,
            timing_variance_threshold: 10,
        }
    }

    /// The authenticity score, in millionths, of an action of type
    /// `action_type` at `timestamp` on the device `device_fingerprint`, by
    /// the user with the pattern `user_pattern`.
    pub fn analyze_action(
        &self,
        user_pattern: &UserBehaviorPattern,
        action_type: &str,
        timestamp: u64,
        device_fingerprint: &str,
    ) -> (score: u64)
        ensures
            score == authenticity(
                *self,
                user_pattern@,
                action_type@,
                timestamp as nat,
                device_fingerprint@,
            ),
            score <= SCORE_ONE,
    {
        let timing: u64 = self.analyze_timing_patterns(
            user_pattern.timing_patterns.as_slice(),
            timestamp,
        );
        let frequency: u64 = self.analyze_action_frequency(
            user_pattern.action_history.as_slice(),
            timestamp,
        );
        let device: u64 = self.analyze_device_patterns(
            user_pattern.device_fingerprints.as_slice(),
            device_fingerprint,
        );
        let behavior: u64 = self.analyze_behavior_patterns(user_pattern, action_type);
        let specific: u64 = self.analyze_action_specific_patterns(action_type, user_pattern);
        multiply_scores(timing, frequency, device, behavior, specific)
    }

    /// The timing check. The moment of the new action plays no part in it:
    /// only the recorded intervals do.
    pub fn analyze_timing_patterns(&self, timing_patterns: &[i64], current_timestamp: u64) -> (score:
        u64)
        ensures
            score == timing_score(self.min_action_interval as int, timing_patterns@),
            score <= SCORE_ONE,
    {
        let len: usize = timing_patterns.len();
        if len == 0 {
            return SCORE_ONE;
        }
        if timing_patterns[len - 1] < self.min_action_interval {
            return 200_000;
        }
        if len > 5 {
            match classify_spread(timing_patterns) {
                Spread::Regular => 300_000,
                Spread::Erratic => 400_000,
                Spread::Natural => SCORE_ONE,
            }
        } else {
            SCORE_ONE
        }
    }

    /// The frequency check.
    pub fn analyze_action_frequency(&self, action_history: &[ActionEvent], current_timestamp: u64) -> (score:
        u64)
        ensures
            score == frequency_score(
                self.max_actions_per_minute as nat,
                event_views(action_history@),
                current_timestamp as nat,
            ),
            score <= SCORE_ONE,
    {
        let ghost events = event_views(action_history@);
        let mut recent: usize = 0;
        let mut i: usize = 0;
        while i < action_history.len()
            invariant
                i <= action_history.len(),
                events == event_views(action_history@),
                recent == count_recent(events.take(i as int), current_timestamp as nat),
                recent <= i,
            decreases action_history.len() - i,
        {
            proof {
                assert(events.take(i + 1).drop_last() =~= events.take(i as int));
            }
            if action_history[i].timestamp as u128 + FREQUENCY_WINDOW_MS as u128
                > current_timestamp as u128 {
                recent = recent + 1;
            }
            i = i + 1;
        }
        assert(events.take(action_history.len() as int) =~= events);
        if recent > self.max_actions_per_minute as usize {
            100_000
        } else if recent > MODERATE_ACTIONS_PER_MINUTE {
            500_000
        } else {
            SCORE_ONE
        }
    }

    /// The device check.
    pub fn analyze_device_patterns(&self, device_fingerprints: &[String], current_device: &str) -> (score:
        u64)
        ensures
            score == device_score(
                self.device_switching_threshold as nat,
                texts(device_fingerprints@),
                current_device@,
            ),
            score <= SCORE_ONE,
    {
        if device_fingerprints.len() > self.device_switching_threshold as usize {
            300_000
        } else if !contains_text(device_fingerprints, current_device) {
            900_000
        } else {
            SCORE_ONE
        }
    }

    /// The repetition and reputation check.
    pub fn analyze_behavior_patterns(&self, user_pattern: &UserBehaviorPattern, action_type: &str) -> (score:
        u64)
        ensures
            score == behavior_score(user_pattern@, action_type@),
            score <= SCORE_ONE,
    {
        let repeats: usize = count_type_in_window(
            user_pattern.action_history.as_slice(),
            10,
            action_type,
        );
        if repeats >= 8 {
            400_000
        } else if user_pattern.reputation_score < 500_000 {
            600_000
        } else {
            SCORE_ONE
        }
    }

    /// The check that depends on the action type.
    pub fn analyze_action_specific_patterns(
        &self,
        action_type: &str,
        user_pattern: &UserBehaviorPattern,
    ) -> (score: u64)
        ensures
            score == action_score(action_type@, user_pattern@),
            score <= SCORE_ONE,
    {
        let history: &[ActionEvent] = user_pattern.action_history.as_slice();
        if same_text(action_type, "click") {
            let intervals: &Vec<i64> = &user_pattern.timing_patterns;
            if intervals.len() > 10 {
                let mut near: usize = 0;
                let mut i: usize = 0;
                while i < intervals.len()
                    invariant
                        i <= intervals.len(),
                        near == count_near_hundred(intervals@.take(i as int)),
                        near <= i,
                    decreases intervals.len() - i,
                {
                    proof {
                        assert(intervals@.take(i + 1).drop_last() =~= intervals@.take(i as int));
                    }
                    if 90 < intervals[i] && intervals[i] < 110 {
                        near = near + 1;
                    }
                    i = i + 1;
                }
                assert(intervals@.take(intervals.len() as int) =~= intervals@);
                if near > intervals.len() / 2 {
                    return 300_000;
                }
            }
            SCORE_ONE
        } else if same_text(action_type, "scroll") {
            if count_type_in_window(history, 20, "scroll") > 15 {
                500_000
            } else {
                SCORE_ONE
            }
        } else if same_text(action_type, "share") {
            if count_type_in_window(history, 100, "share") > 5 {
                200_000
            } else {
                SCORE_ONE
            }
        } else if same_text(action_type, "form_submit") {
            if count_type_in_window(history, 10, "form_submit") > 3 {
                300_000
            } else {
                SCORE_ONE
            }
        } else {
            800_000
        }
    }
}

} // verus!
