//! The rate limits that an action has to keep before it is scored.

use crate::text::same_text;
use vstd::prelude::*;

verus! {

/// The limits of the validator. Times are in milliseconds.
#[derive(Clone, Copy, Debug)]
pub struct ActionValidator {
    min_time_between_actions: u64,
    max_actions_per_minute: u32,
    fraud_detection_enabled: bool,
}

/// The shortest time, in milliseconds, that has to lie between two actions
/// of the type `action_type`, whatever the validator asks for: none for a
/// type without a rule of its own.
pub open spec fn type_minimum(action_type: Seq<char>) -> nat {
    if action_type == "click"@ {
        50
    } else if action_type == "scroll"@ {
        500
    } else if action_type == "share"@ {
        5000
    } else if action_type == "form_submit"@ {
        1000
    } else {
        0
    }
}

/// An action at `current` after one at `last`, with `actions` actions in
/// the last minute, keeps the limits: at least `min_time` and the minimum
/// of its type lie between the two, and the number of actions is below
/// `max_actions`. An action that is not later than the one before never
/// keeps them.
pub open spec fn timing_allowed(
    min_time: nat,
    max_actions: nat,
    action_type: Seq<char>,
    current: nat,
    last: nat,
    actions: nat,
) -> bool {
    &&& current - last >= min_time
    &&& actions < max_actions
    &&& current - last >= type_minimum(action_type)
}

impl ActionValidator {
    /// The shortest time between two actions, in milliseconds.
    pub closed spec fn min_time(&self) -> nat {
        self.min_time_between_actions as nat
    }

    /// The number of actions a minute that is not allowed any more.
    pub closed spec fn max_actions(&self) -> nat {
        self.max_actions_per_minute as nat
    }

    /// Whether actions are scored for fraud.
    pub closed spec fn detects_fraud(&self) -> bool {
        self.fraud_detection_enabled
    }

    /// A validator with the default limits: 100 ms between actions, fewer
    /// than 60 actions a minute, fraud detection on.
    pub fn new() -> (validator: ActionValidator)
        ensures
            validator.min_time() == 100,
            validator.max_actions() == 60,
            validator.detects_fraud(),
    {
        ActionValidator {
            min_time_between_actions: 100,
            max_actions_per_minute: 60,
            fraud_detection_enabled: true,
        }
    }

    /// Whether actions are scored for fraud.
    pub fn fraud_detection_enabled(&self) -> (enabled: bool)
        ensures
            enabled == self.detects_fraud(),
    {
        self.fraud_detection_enabled
    }

    /// Whether an action of the type `action_type` at `current_timestamp`
    /// keeps the limits, after an action at `last_timestamp` and with
    /// `actions_in_last_minute` actions in the last minute.
    pub fn validate_action_timing(
        &self,
        action_type: &str,
        current_timestamp: u64,
        last_timestamp: u64,
        actions_in_last_minute: u32,
    ) -> (allowed: bool)
        ensures
            allowed == timing_allowed(
                self.min_time(),
                self.max_actions(),
                action_type@,
                current_timestamp as nat,
                last_timestamp as nat,
                actions_in_last_minute as nat,
            ),
    {
        if current_timestamp < last_timestamp {
            return false;
        }
        let time_diff: u64 = current_timestamp - last_timestamp;
        if time_diff < self.min_time_between_actions {
            return false;
        }
        if actions_in_last_minute >= self.max_actions_per_minute {
            return false;
        }
        if same_text(action_type, "click") {
            time_diff >= 50
        } else if same_text(action_type, "scroll") {
            time_diff >= 500
        } else if same_text(action_type, "share") {
            time_diff >= 5000
        } else if same_text(action_type, "form_submit") {
            time_diff >= 1000
        } else {
            true
        }
    }
}

} // verus!
