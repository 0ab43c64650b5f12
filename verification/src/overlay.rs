//! The overlay's state: the detection gateway, the fixed source language,
//! and the capture scheduler with the current sentence set. The host's
//! window loop owns one value of this and drives it every tick; everything
//! the loop decides, it decides by calling into this crate.

use vstd::prelude::*;
use crate::detection::Detection;
use crate::geometry::Sentence;
use crate::scheduler::Scheduler;

verus! {

/// The whole overlay core. `S` is the host's backend-session type.
pub struct Overlay<S> {
    pub detection: Detection<S>,
    pub lang: String,
    pub scheduler: Scheduler,
}

impl<S> Overlay<S> {
    pub open spec fn wf(self) -> bool {
        self.scheduler.wf()
    }

    /// A fresh overlay: a gateway holding the credential and no session
    /// yet, the fixed source language, the starting sentence set, and the
    /// schedule clock set to the creation instant — so the first capture
    /// runs one interval after launch.
    pub fn new(api_key: String, lang: String, sentences: Vec<Sentence>, now_ms: u64) -> (r:
        Overlay<S>)
        requires
            forall|i: int| 0 <= i < sentences@.len() ==> (#[trigger] sentences@[i]).wf(),
        ensures
            !r.detection.has_session(),
            r.detection.api_key@ == api_key@,
            r.lang@ == lang@,
            r.scheduler.last_update_ms == now_ms,
            r.scheduler.sentences@ == sentences@,
            r.wf(),
    {
        Overlay {
            detection: Detection::new(api_key),
            lang,
            scheduler: Scheduler::new(now_ms, sentences),
        }
    }
}

} // verus!
