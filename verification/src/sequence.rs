//! The key stroke buffer and the leader sequence recognizer.

use vstd::prelude::*;
use vstd::string::StringExecFns;

use crate::config::{
    first_match, is_first_match, lemma_first_match_none, lemma_match_has_first, no_match, Config,
    ConfigView,
};
use crate::dispatch::{action_of, dispatch, Action, ActionView};
use crate::keymap::symbol_of;
use crate::modifier::{is_down, is_up};

verus! {

/// The longest gap, in milliseconds, between two strokes of one sequence.
pub const KEY_STROKE_INTERVAL: u64 = 1000;

/// The number of strokes of the shortest sequence that can match: leader
/// press, leader release and one more key.
pub const NUM_LEADER_KEY_STROKES: usize = 3;

/// One observed keyboard event.
#[derive(Debug, Clone, Copy, PartialEq, Eq)]
pub struct KeyStroke {
    /// The code of the physical key.
    pub key_code: i64,
    /// The modifier flags at the moment of the event.
    pub flag: u64,
    /// When the event was observed: milliseconds on a monotonic clock.
    pub timestamp: u64,
}

/// The recognizer: the strokes of the sequence that is forming, the time of
/// the last recorded stroke and the configuration that sequences are matched
/// against.
pub struct KeyStrokeRecorder {
    pub strokes: Vec<KeyStroke>,
    pub last_stroke_timestamp: u64,
    pub config: Config,
}

/// What the recognizer says of one key stroke.
#[derive(Debug, Clone, PartialEq, Eq)]
pub struct Verdict {
    /// The stroke belongs to a leader sequence and is to be kept from the rest
    /// of the input pipeline.
    pub suppress: bool,
    /// The action of the mapping that the stroke completed, if it completed
    /// one.
    pub action: Option<Action>,
}

/// A verdict as plain values.
pub struct VerdictView {
    pub suppress: bool,
    pub action: Option<ActionView>,
}

impl View for Verdict {
    type V = VerdictView;

    open spec fn view(&self) -> VerdictView {
        VerdictView {
            suppress: self.suppress,
            action: match self.action {
                Some(action) => Some(action@),
                None => None,
            },
        }
    }
}

/// The stroke at `now` comes too late after the one at `last` to continue its
/// sequence. A stroke that is not later than the last one is never too late.
pub open spec fn gap_exceeded(last: int, now: int) -> bool {
    now - last > KEY_STROKE_INTERVAL
}

/// The buffer after a stroke arrives: the stroke alone where the gap since
/// the last stroke exceeds the interval, else the old buffer and the stroke.
pub open spec fn recorded(strokes: Seq<KeyStroke>, last: int, stroke: KeyStroke) -> Seq<KeyStroke> {
    if gap_exceeded(last, stroke.timestamp as int) {
        seq![stroke]
    } else {
        strokes.push(stroke)
    }
}

/// Each stroke came within the interval of the one before it.
pub open spec fn within_interval(strokes: Seq<KeyStroke>) -> bool {
    forall|i: int|
        0 < i < strokes.len() ==> !gap_exceeded(
            strokes[i - 1].timestamp as int,
            (#[trigger] strokes[i]).timestamp as int,
        )
}

/// The symbols of `strokes`, one after the other.
pub open spec fn symbols_of(strokes: Seq<KeyStroke>) -> Seq<char>
    decreases strokes.len(),
{
    if strokes.len() == 0 {
        Seq::empty()
    } else {
        symbols_of(strokes.drop_last()) + symbol_of(strokes.last().key_code as int)
    }
}

/// The key-sequence string of a buffer: the symbols of every stroke after the
/// two leader strokes.
pub open spec fn key_sequence(strokes: Seq<KeyStroke>) -> Seq<char> {
    if strokes.len() <= 2 {
        Seq::empty()
    } else {
        symbols_of(strokes.skip(2))
    }
}

/// The first two strokes are the leader key, pressed and then released.
pub open spec fn leader_armed(strokes: Seq<KeyStroke>, leader: Seq<char>) -> bool {
    &&& strokes.len() >= 2
    &&& symbol_of(strokes[0].key_code as int) == leader
    &&& symbol_of(strokes[1].key_code as int) == leader
    &&& is_down(strokes[0].key_code as int, strokes[0].flag)
    &&& is_up(strokes[1].key_code as int, strokes[1].flag)
}

/// The buffer is a leader sequence: it is leader-armed and its third stroke,
/// if it has one, is not the leader key again.
pub open spec fn in_sequence(strokes: Seq<KeyStroke>, leader: Seq<char>) -> bool {
    &&& leader_armed(strokes, leader)
    &&& strokes.len() >= 3 ==> symbol_of(strokes[2].key_code as int) != leader
}

/// The action that a buffer resolves to: none below three strokes, else the
/// action of the first mapping whose keys are the buffer's key-sequence
/// string.
pub open spec fn resolve(strokes: Seq<KeyStroke>, config: ConfigView) -> Option<ActionView> {
    if strokes.len() < 3 {
        None
    } else {
        match first_match(config.mappings, key_sequence(strokes)) {
            Some(mapping) => Some(action_of(mapping)),
            None => None,
        }
    }
}

/// The buffer after matching: empty after a hit, untouched after a miss.
pub open spec fn after_check(strokes: Seq<KeyStroke>, config: ConfigView) -> Seq<KeyStroke> {
    if resolve(strokes, config) is Some {
        Seq::empty()
    } else {
        strokes
    }
}

/// The verdict on a stroke, given the buffer that holds it as its last
/// element: the stroke is suppressed where the buffer is a leader sequence,
/// and only then is the buffer matched.
pub open spec fn judge(buffer: Seq<KeyStroke>, config: ConfigView) -> VerdictView {
    if in_sequence(buffer, config.leader_key) {
        VerdictView { suppress: true, action: resolve(buffer, config) }
    } else {
        VerdictView { suppress: false, action: None }
    }
}

/// A stroke that comes more than the interval after the last one replaces
/// the buffer; any other stroke is appended, and the buffer grows by one.
pub proof fn lemma_record_resets_or_appends(strokes: Seq<KeyStroke>, last: int, stroke: KeyStroke)
    ensures
        stroke.timestamp - last > 1000 ==> recorded(strokes, last, stroke) == seq![stroke],
        stroke.timestamp - last <= 1000 ==> recorded(strokes, last, stroke) == strokes.push(stroke)
            && recorded(strokes, last, stroke).len() == strokes.len() + 1,
{
}

/// Recording keeps the buffer free of stale strokes.
pub proof fn lemma_record_keeps_interval(strokes: Seq<KeyStroke>, stroke: KeyStroke)
    requires
        within_interval(strokes),
        strokes.len() > 0,
    ensures
        within_interval(recorded(strokes, strokes.last().timestamp as int, stroke)),
{
}

/// A miss changes nothing: where no mapping has the buffer's key-sequence
/// string, or the buffer is shorter than three strokes, matching yields no
/// action and leaves the buffer as it is.
pub proof fn lemma_miss_keeps_buffer(strokes: Seq<KeyStroke>, config: ConfigView)
    requires
        strokes.len() < 3 || no_match(config.mappings, key_sequence(strokes)),
    ensures
        resolve(strokes, config) is None,
        after_check(strokes, config) == strokes,
{
    if strokes.len() >= 3 {
        lemma_first_match_none(config.mappings, key_sequence(strokes));
    }
}

/// A hit dispatches once: where the mapping at `j` has the buffer's
/// key-sequence string, matching yields the action of the first mapping with
/// that string, which stands at or before `j`, and clears the buffer, so that
/// matching again yields nothing.
pub proof fn lemma_hit_dispatches_first(
    strokes: Seq<KeyStroke>,
    config: ConfigView,
    j: int,
) -> (i: int)
    requires
        strokes.len() >= 3,
        0 <= j < config.mappings.len(),
        config.mappings[j].keys == key_sequence(strokes),
    ensures
        0 <= i <= j,
        is_first_match(config.mappings, key_sequence(strokes), i),
        resolve(strokes, config) == Some(action_of(config.mappings[i])),
        after_check(strokes, config) == Seq::<KeyStroke>::empty(),
        resolve(after_check(strokes, config), config) is None,
{
    lemma_match_has_first(config.mappings, key_sequence(strokes), j)
}

/// A buffer whose third stroke is the leader key again is no leader
/// sequence.
pub proof fn lemma_repeated_leader_is_no_sequence(strokes: Seq<KeyStroke>, leader: Seq<char>)
    requires
        strokes.len() >= 3,
        symbol_of(strokes[2].key_code as int) == leader,
    ensures
        !in_sequence(strokes, leader),
{
}

/// A buffer that a late stroke has reset holds that stroke alone and is no
/// leader sequence.
pub proof fn lemma_reset_is_no_sequence(
    strokes: Seq<KeyStroke>,
    last: int,
    stroke: KeyStroke,
    leader: Seq<char>,
)
    requires
        stroke.timestamp - last > 1000,
    ensures
        recorded(strokes, last, stroke) == seq![stroke],
        !in_sequence(recorded(strokes, last, stroke), leader),
{
}

impl KeyStrokeRecorder {
    /// The buffer holds no stale stroke, and the time of the last stroke is
    /// that of the buffer's last element.
    pub open spec fn wf(&self) -> bool {
        &&& within_interval(self.strokes@)
        &&& self.strokes@.len() > 0 ==> self.last_stroke_timestamp
            == self.strokes@.last().timestamp
    }

    /// A recognizer with an empty buffer that matches against `config`.
    pub fn new(config: Config) -> (recorder: Self)
        ensures
            recorder.strokes@ == Seq::<KeyStroke>::empty(),
            recorder.last_stroke_timestamp == 0,
            recorder.config == config,
            recorder.wf(),
    {
        KeyStrokeRecorder { strokes: Vec::new(), last_stroke_timestamp: 0, config }
    }

    /// Takes a stroke into the buffer. Where it comes more than the interval
    /// after the last stroke, the buffer is dropped first.
    pub fn record(&mut self, key_stroke: KeyStroke)
        ensures
            final(self).strokes@ == recorded(
                old(self).strokes@,
                old(self).last_stroke_timestamp as int,
                key_stroke,
            ),
            final(self).last_stroke_timestamp == key_stroke.timestamp,
            final(self).config == old(self).config,
            old(self).wf() ==> final(self).wf(),
    {
        let last = self.last_stroke_timestamp;
        let late = key_stroke.timestamp > last && key_stroke.timestamp - last > KEY_STROKE_INTERVAL;
        if late {
            self.strokes = Vec::new();
        }
        self.strokes.push(key_stroke);
        self.last_stroke_timestamp = key_stroke.timestamp;
        proof {
            if late {
                assert(self.strokes@ =~= seq![key_stroke]);
            }
        }
    }

    /// Whether the key with code `code` is the configured leader key. The
    /// leader's symbol is read from the configuration at each call.
    pub fn is_leader_key(&self, code: i64) -> (leader: bool)
        ensures
            leader == (symbol_of(code as int) == self.config@.leader_key),
    {
        String::from_str(Self::key_code_to_name(code)) == self.config.leader_key
    }

    /// Whether the buffer is a leader sequence.
    pub fn is_in_sequence(&self) -> (armed: bool)
        ensures
            armed == in_sequence(self.strokes@, self.config@.leader_key),
    {
        if self.strokes.len() < 2 {
            return false;
        }
        if self.strokes.len() >= NUM_LEADER_KEY_STROKES {
            let third_key = &self.strokes[2];
            if self.is_leader_key(third_key.key_code) {
                return false;
            }
        }
        let first_key = &self.strokes[0];
        let second_key = &self.strokes[1];

        self.is_leader_key(first_key.key_code)
            && self.is_leader_key(second_key.key_code)
            && Self::leader_key_down(first_key.key_code, first_key.flag)
            && Self::leader_key_up(second_key.key_code, second_key.flag)
    }

    /// The key-sequence string of the buffer.
    pub fn key_sequence(&self) -> (keys: String)
        ensures
            keys@ == key_sequence(self.strokes@),
    {
        let mut keys = String::new();
        let mut i: usize = 2;
        while i < self.strokes.len()
            invariant
                2 <= i,
                i <= self.strokes.len() || self.strokes.len() < 2,
                self.strokes.len() >= 2 ==> keys@ == symbols_of(
                    self.strokes@.subrange(2, i as int),
                ),
                self.strokes.len() < 2 ==> keys@ == Seq::<char>::empty(),
            decreases self.strokes.len() - i,
        {
            proof {
                assert(self.strokes@.subrange(2, i + 1).drop_last() =~= self.strokes@.subrange(
                    2,
                    i as int,
                ));
            }
            keys.append(Self::key_code_to_name(self.strokes[i].key_code));
            i += 1;
        }
        proof {
            if self.strokes.len() > 2 {
                assert(self.strokes@.subrange(2, i as int) =~= self.strokes@.skip(2));
            }
        }
        keys
    }

    /// Matches the buffer against the configuration. On a hit the buffer is
    /// cleared and the action of the first matching mapping is returned; on a
    /// miss the buffer stays as it is.
    pub fn check_sequence(&mut self) -> (action: Option<Action>)
        ensures
            match action {
                Some(action) => resolve(old(self).strokes@, old(self).config@) == Some(action@),
                None => resolve(old(self).strokes@, old(self).config@) is None,
            },
            final(self).strokes@ == after_check(old(self).strokes@, old(self).config@),
            final(self).last_stroke_timestamp == old(self).last_stroke_timestamp,
            final(self).config == old(self).config,
            old(self).wf() ==> final(self).wf(),
    {
        if self.strokes.len() < NUM_LEADER_KEY_STROKES {
            return None;
        }
        let keys = self.key_sequence();
        let action = match self.config.lookup(&keys) {
            Some(mapping) => Some(dispatch(mapping)),
            None => None,
        };
        if action.is_some() {
            self.strokes.clear();
        }
        action
    }

    /// One step of the recognizer: records the stroke, and where the buffer
    /// then is a leader sequence, matches it. The verdict says whether the
    /// stroke is to be suppressed and which action, if any, it completed.
    pub fn handle(&mut self, key_stroke: KeyStroke) -> (verdict: Verdict)
        ensures
            ({
                let buffer = recorded(
                    old(self).strokes@,
                    old(self).last_stroke_timestamp as int,
                    key_stroke,
                );
                let config = old(self).config@;
                &&& verdict@ == judge(buffer, config)
                &&& final(self).strokes@ == if verdict.suppress {
                    after_check(buffer, config)
                } else {
                    buffer
                }
            }),
            final(self).last_stroke_timestamp == key_stroke.timestamp,
            final(self).config == old(self).config,
            old(self).wf() ==> final(self).wf(),
    {
        self.record(key_stroke);
        if self.is_in_sequence() {
            let action = self.check_sequence();
            Verdict { suppress: true, action }
        } else {
            Verdict { suppress: false, action: None }
        }
    }
}

} // verus!
