//! The capture scheduler: the timing rule that holds capture-and-detect
//! cycles to at most one per second, the policy that decides what each
//! cycle's result does to the displayed sentence set, and the step that ties
//! detection to a successful capture.
//!
//! The host's render loop runs far faster than cycles are allowed to; every
//! tick it asks whether a cycle is due, performs the external capture and
//! detection calls when one is, and hands the outcome back here.

use vstd::prelude::*;
use crate::capture::CaptureError;
use crate::detection::{
    all_boxes_valid,
    sentences_from_detection,
    sentences_match_raw,
    DetectionError,
    RawSentence,
};
use crate::geometry::Sentence;

verus! {

/// The minimum wall-clock time between two capture attempts.
pub const CYCLE_INTERVAL_MS: u64 = 1000;

/// How one capture-and-detect cycle ended. A successful detection carries
/// the new sentence set; either failure clears it.
pub enum CycleOutcome {
    CaptureFailed,
    DetectionFailed,
    Detected(Vec<Sentence>),
}

/// The sentence set a cycle outcome leaves behind: the detected list on
/// success, empty on any failure — stale text is dropped, never kept.
pub open spec fn outcome_sentences(outcome: CycleOutcome) -> Seq<Sentence> {
    match outcome {
        CycleOutcome::Detected(v) => v@,
        _ => Seq::<Sentence>::empty(),
    }
}

pub open spec fn outcome_wf(outcome: CycleOutcome) -> bool {
    forall|i: int| 0 <= i < outcome_sentences(outcome).len() ==> (#[trigger] outcome_sentences(
        outcome,
    )[i]).wf()
}

/// What follows a capture attempt: detection on the captured image, or no
/// detection at all.
pub enum DetectStep {
    Detect(String),
    SkipCycle,
}

/// Detection is attempted exactly when capture produced an image, and on
/// that image; a failed capture ends the cycle with no detection call.
pub fn after_capture(capture: Result<String, CaptureError>) -> (step: DetectStep)
    ensures
        step is Detect <==> capture is Ok,
        capture is Ok ==> step->Detect_0@ == capture->Ok_0@,
{
    match capture {
        Ok(image_path) => DetectStep::Detect(image_path),
        Err(_) => DetectStep::SkipCycle,
    }
}

/// Fold the detection call's reply into the cycle outcome: a backend
/// failure or a malformed reply clears the overlay, a well-formed reply
/// becomes the new sentence set, order and texts kept.
pub fn outcome_from_detection(reply: Result<Vec<RawSentence>, DetectionError>) -> (outcome:
    CycleOutcome)
    ensures
        outcome is Detected <==> (reply is Ok && all_boxes_valid(reply->Ok_0@)),
        outcome is Detected ==> sentences_match_raw(outcome->Detected_0@, reply->Ok_0@),
        !(outcome is Detected) ==> outcome is DetectionFailed,
        outcome_wf(outcome),
{
    match reply {
        Ok(raw) => match sentences_from_detection(&raw) {
            Ok(sentences) => CycleOutcome::Detected(sentences),
            Err(_) => CycleOutcome::DetectionFailed,
        },
        Err(_) => CycleOutcome::DetectionFailed,
    }
}

/// The scheduler's state: the time of the last capture attempt and the
/// sentence set of the most recently completed cycle. The set displayed at
/// any tick is exactly this one — replaced wholesale, never merged.
pub struct Scheduler {
    pub last_update_ms: u64,
    pub sentences: Vec<Sentence>,
}

/// A completed cycle relates the state before and after it: the clock is
/// stamped with the tick time and the sentence set is exactly what the
/// outcome dictates.
pub open spec fn spec_completed(post: Scheduler, now_ms: u64, outcome: CycleOutcome) -> bool {
    post.last_update_ms == now_ms && post.sentences@ == outcome_sentences(outcome)
}

impl Scheduler {
    pub open spec fn wf(self) -> bool {
        forall|i: int| 0 <= i < self.sentences@.len() ==> (#[trigger] self.sentences@[i]).wf()
    }

    /// A cycle is due when at least one interval has passed since the last
    /// capture attempt.
    pub open spec fn spec_due(self, now_ms: u64) -> bool {
        now_ms >= self.last_update_ms + CYCLE_INTERVAL_MS
    }

    pub fn new(now_ms: u64, sentences: Vec<Sentence>) -> (r: Scheduler)
        requires
            forall|i: int| 0 <= i < sentences@.len() ==> (#[trigger] sentences@[i]).wf(),
        ensures
            r.last_update_ms == now_ms,
            r.sentences@ == sentences@,
            r.wf(),
    {
        Scheduler { last_update_ms: now_ms, sentences }
    }

    /// The timing query a tick consults. When no cycle is due the tick
    /// renders only: no capture, and — this being a read-only query — the
    /// sentence set and the clock stay as they were.
    pub fn cycle_due(&self, now_ms: u64) -> (r: bool)
        ensures
            r == self.spec_due(now_ms),
    {
        now_ms >= self.last_update_ms && now_ms - self.last_update_ms >= CYCLE_INTERVAL_MS
    }

    /// Record a finished cycle: the clock is stamped with the tick time
    /// whatever the outcome was — so a failure waits out the same interval
    /// as a success instead of retrying hot — and the sentence set becomes
    /// exactly what the outcome dictates.
    pub fn complete_cycle(&mut self, now_ms: u64, outcome: CycleOutcome)
        requires
            old(self).spec_due(now_ms),
            outcome_wf(outcome),
        ensures
            spec_completed(*final(self), now_ms, outcome),
            final(self).wf(),
    {
        match outcome {
            CycleOutcome::Detected(sentences) => {
                self.sentences = sentences;
            },
            _ => {
                self.sentences = Vec::new();
            },
        }
        self.last_update_ms = now_ms;
    }
}

/// Below one interval of elapsed time no cycle is ever due: such a tick
/// performs no capture and leaves the scheduler untouched.
pub proof fn lemma_no_cycle_before_interval(s: Scheduler, now_ms: u64)
    requires
        now_ms < s.last_update_ms + CYCLE_INTERVAL_MS,
    ensures
        !s.spec_due(now_ms),
{
}

/// Every completed cycle stamps the clock with its tick time — capture
/// failure, detection failure and success all enforce the same minimum
/// retry interval — and a cycle that did not end in a successful detection
/// leaves the sentence set empty.
pub proof fn lemma_cycle_always_stamps(post: Scheduler, now_ms: u64, outcome: CycleOutcome)
    requires
        spec_completed(post, now_ms, outcome),
    ensures
        post.last_update_ms == now_ms,
        !(outcome is Detected) ==> post.sentences@ == Seq::<Sentence>::empty(),
{
}

} // verus!
