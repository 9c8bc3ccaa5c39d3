//! The action behaviour ledger: what is remembered of each user.

use crate::keyed::Keyed;
use crate::score::{decayed_average, lemma_decayed_average_bounds, SCORE_ONE};
use crate::text::{contains_text, texts};
use vstd::prelude::*;
use vstd::string::*;

verus! {

/// An authenticity score below this value, 0.5, counts as a suspicious
/// event.
pub const SUSPICIOUS_SCORE: u64 = 500_000;

/// One recorded action. The timestamp is in milliseconds, the authenticity
/// score in millionths.
pub struct ActionEvent {
    pub action_type: String,
    pub timestamp: u64,
    pub authenticity_score: u64,
    pub device_fingerprint: String,
}

/// What a recorded action holds, as plain mathematical values.
pub struct EventView {
    pub action_type: Seq<char>,
    pub timestamp: nat,
    pub authenticity_score: nat,
    pub device_fingerprint: Seq<char>,
}

impl View for ActionEvent {
    type V = EventView;

    open spec fn view(&self) -> EventView {
        EventView {
            action_type: self.action_type@,
            timestamp: self.timestamp as nat,
            authenticity_score: self.authenticity_score as nat,
            device_fingerprint: self.device_fingerprint@,
        }
    }
}

/// The views of a sequence of recorded actions, in order.
pub open spec fn event_views(events: Seq<ActionEvent>) -> Seq<EventView> {
    events.map_values(|e: ActionEvent| e@)
}

/// What is remembered of one user: the actions, the intervals between
/// them in milliseconds, the devices seen, the rolling reputation in
/// millionths and two counters.
pub struct UserBehaviorPattern {
    pub user_id: String,
    pub action_history: Vec<ActionEvent>,
    pub timing_patterns: Vec<i64>,
    pub device_fingerprints: Vec<String>,
    pub reputation_score: u64,
    pub total_actions: u64,
    pub suspicious_events: u32,
}

/// What a behaviour pattern holds, as plain mathematical values.
pub struct PatternView {
    pub user_id: Seq<char>,
    pub action_history: Seq<EventView>,
    pub timing_patterns: Seq<i64>,
    pub device_fingerprints: Seq<Seq<char>>,
    pub reputation_score: nat,
    pub total_actions: nat,
    pub suspicious_events: nat,
}

impl View for UserBehaviorPattern {
    type V = PatternView;

    open spec fn view(&self) -> PatternView {
        PatternView {
            user_id: self.user_id@,
            action_history: event_views(self.action_history@),
            timing_patterns: self.timing_patterns@,
            device_fingerprints: texts(self.device_fingerprints@),
            reputation_score: self.reputation_score as nat,
            total_actions: self.total_actions as nat,
            suspicious_events: self.suspicious_events as nat,
        }
    }
}

impl Keyed for UserBehaviorPattern {
    open spec fn key(&self) -> Seq<char> {
        self.user_id@
    }

    fn key_text(&self) -> (text: &String) {
        &self.user_id
    }
}

/// The views of a sequence of behaviour patterns, in order.
pub open spec fn pattern_views(patterns: Seq<UserBehaviorPattern>) -> Seq<PatternView> {
    patterns.map_values(|p: UserBehaviorPattern| p@)
}

/// The user identifiers of a sequence of behaviour patterns, in order.
pub open spec fn user_ids(patterns: Seq<PatternView>) -> Seq<Seq<char>> {
    patterns.map_values(|p: PatternView| p.user_id)
}

/// Aggregates over all users. `fraud_rate` and `average_authenticity` are in
/// millionths.
pub struct GlobalBehaviorStats {
    pub total_users: u64,
    pub total_actions: u64,
    pub fraud_rate: u64,
    pub average_authenticity: u64,
    pub peak_activity_times: Vec<u64>,
}

/// What the aggregates hold, as plain mathematical values.
pub struct StatsView {
    pub total_users: nat,
    pub total_actions: nat,
    pub fraud_rate: nat,
    pub average_authenticity: nat,
    pub peak_activity_times: Seq<u64>,
}

impl View for GlobalBehaviorStats {
    type V = StatsView;

    open spec fn view(&self) -> StatsView {
        StatsView {
            total_users: self.total_users as nat,
            total_actions: self.total_actions as nat,
            fraud_rate: self.fraud_rate as nat,
            average_authenticity: self.average_authenticity as nat,
            peak_activity_times: self.peak_activity_times@,
        }
    }
}

/// The pattern of a user of whom nothing is known yet.
pub open spec fn fresh_pattern(user_id: Seq<char>) -> PatternView {
    PatternView {
        user_id,
        action_history: Seq::empty(),
        timing_patterns: Seq::empty(),
        device_fingerprints: Seq::empty(),
        reputation_score: SCORE_ONE as nat,
        total_actions: 0,
        suspicious_events: 0,
    }
}

/// The time from `earlier` to `later` in milliseconds, negative when
/// `later` is the smaller one, and limited to what an `i64` holds.
pub open spec fn interval_between(earlier: nat, later: nat) -> int {
    let distance = later - earlier;
    if distance > i64::MAX {
        i64::MAX as int
    } else if distance < i64::MIN {
        i64::MIN as int
    } else {
        distance
    }
}

/// The pattern after an action with the authenticity score `score` was
/// recorded: the action joins the history, the interval since the previous
/// action joins the intervals, a device not seen before joins the devices,
/// the reputation moves towards the score, and a score below 0.5 counts as
/// a suspicious event.
pub open spec fn recorded(
    p: PatternView,
    action_type: Seq<char>,
    timestamp: nat,
    device_fingerprint: Seq<char>,
    score: nat,
) -> PatternView {
    PatternView {
        user_id: p.user_id,
        action_history: p.action_history.push(
            EventView { action_type, timestamp, authenticity_score: score, device_fingerprint },
        ),
        timing_patterns: if p.action_history.len() > 0 {
            p.timing_patterns.push(
                interval_between(p.action_history.last().timestamp, timestamp) as i64,
            )
        } else {
            p.timing_patterns
        },
        device_fingerprints: if p.device_fingerprints.contains(device_fingerprint) {
            p.device_fingerprints
        } else {
            p.device_fingerprints.push(device_fingerprint)
        },
        reputation_score: decayed_average(p.reputation_score, score),
        total_actions: p.total_actions + 1,
        suspicious_events: if score < SUSPICIOUS_SCORE {
            p.suspicious_events + 1
        } else {
            p.suspicious_events
        },
    }
}

/// Recording an action with a score of at most 1.0 on a pattern with a
/// reputation of at most 1.0 leaves a reputation of at most 1.0: the
/// rolling average of the two. One suspicious event is counted exactly for
/// a score below 0.5, and the action count goes up by one.
pub proof fn lemma_recorded_keeps_reputation(
    p: PatternView,
    action_type: Seq<char>,
    timestamp: nat,
    device_fingerprint: Seq<char>,
    score: nat,
)
    requires
        p.reputation_score <= SCORE_ONE,
        score <= SCORE_ONE,
    ensures
        ({
            let after = recorded(p, action_type, timestamp, device_fingerprint, score);
            &&& after.reputation_score == decayed_average(p.reputation_score, score)
            &&& after.reputation_score <= SCORE_ONE
            &&& after.total_actions == p.total_actions + 1
            &&& after.suspicious_events == p.suspicious_events + if score < SUSPICIOUS_SCORE {
                1nat
            } else {
                0nat
            }
            &&& after.action_history.len() == p.action_history.len() + 1
            &&& after.action_history.last().authenticity_score == score
        }),
{
    lemma_decayed_average_bounds(p.reputation_score, score);
}

/// The time from `earlier` to `later` in milliseconds.
pub fn interval(earlier: u64, later: u64) -> (distance: i64)
    ensures
        distance == interval_between(earlier as nat, later as nat),
{
    if later >= earlier {
        let forward: u64 = later - earlier;
        if forward > i64::MAX as u64 {
            i64::MAX
        } else {
            forward as i64
        }
    } else {
        let backward: u64 = earlier - later;
        if backward > i64::MAX as u64 {
            i64::MIN
        } else {
            -(backward as i64)
        }
    }
}

impl UserBehaviorPattern {
    /// The pattern of a user of whom nothing is known yet.
    pub fn new(user_id: &str) -> (pattern: Self)
        ensures
            pattern@ == fresh_pattern(user_id@),
    {
        let pattern = UserBehaviorPattern {
            user_id: String::from_str(user_id),
            action_history: Vec::new(),
            timing_patterns: Vec::new(),
            device_fingerprints: Vec::new(),
            reputation_score: SCORE_ONE,
            total_actions: 0,
            suspicious_events: 0,
        };
        assert(pattern@.action_history =~= Seq::empty());
        assert(pattern@.device_fingerprints =~= Seq::empty());
        pattern
    }

    /// Records an action with the authenticity score `score`.
    pub fn record(&mut self, action_type: &str, timestamp: u64, device_fingerprint: &str, score: u64)
        requires
            old(self).total_actions < u64::MAX,
            old(self).suspicious_events < u32::MAX,
        ensures
            final(self)@ == recorded(
                old(self)@,
                action_type@,
                timestamp as nat,
                device_fingerprint@,
                score as nat,
            ),
    {
        let len: usize = self.action_history.len();
        if len > 0 {
            let previous: u64 = self.action_history[len - 1].timestamp;
            self.timing_patterns.push(interval(previous, timestamp));
        }
        let event = ActionEvent {
            action_type: String::from_str(action_type),
            timestamp,
            authenticity_score: score,
            device_fingerprint: String::from_str(device_fingerprint),
        };
        self.action_history.push(event);
        self.total_actions = self.total_actions + 1;
        if !contains_text(self.device_fingerprints.as_slice(), device_fingerprint) {
            self.device_fingerprints.push(String::from_str(device_fingerprint));
        }
        self.reputation_score = crate::score::decay_towards(self.reputation_score, score);
        if score < SUSPICIOUS_SCORE {
            self.suspicious_events = self.suspicious_events + 1;
        }
        proof {
            let want = recorded(
                old(self)@,
                action_type@,
                timestamp as nat,
                device_fingerprint@,
                score as nat,
            );
            assert(self@.action_history =~= want.action_history);
            assert(self@.device_fingerprints =~= want.device_fingerprints);
        }
    }
}

} // verus!
