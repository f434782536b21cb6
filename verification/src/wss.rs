//! The receiving side of the upstream push connection: what each binary
//! frame yields, how failures count towards a broken session, and how long
//! to wait before reconnecting.

use vstd::prelude::*;

use crate::config::WssConfig;
use crate::decoder::{frame_response, WssDecoder};
use crate::dedup::MsgDedup;
use crate::dispatcher::{dispatch_all, events_view, Dispatcher};
use crate::error::CoreError;
use crate::event::BarrageEvent;
use crate::filter::EventFilter;
use crate::pipeline::{memory_of, select_events, select_spec};
use crate::resilience::backoff_ms;
use crate::session::{step_error, SessionFaultDetector, SessionFaultReason};

verus! {

/// What a frame yields: the events to push, and a fault if the frame's
/// failure broke the session.
#[derive(Debug, Clone, PartialEq, Eq)]
pub struct FrameOutcome {
    pub events: Vec<BarrageEvent>,
    pub fault: Option<SessionFaultReason>,
}

/// A frame whose first byte cannot start protobuf: skipped without
/// counting as a failure.
pub open spec fn frame_not_protobuf(frame: Seq<u8>) -> bool {
    frame.len() > 0 && frame[0] & 7 > 5
}

/// Only a frame whose first byte carries wire type 6 or 7 is skipped: an
/// empty frame, or one that starts as protobuf may and still fails to
/// decode (outer message, gzip payload or inner message), is a failure.
pub proof fn lemma_skipped_frames(frame: Seq<u8>)
    ensures
        frame_not_protobuf(frame) <==> (frame.len() > 0 && frame[0] & 7 > 5),
        frame_not_protobuf(frame) ==> frame_response(frame, false) is None,
{
}

/// The state of one upstream connection's receiving side.
#[derive(Debug)]
pub struct WssConnectionManager {
    config: WssConfig,
    decoder: WssDecoder,
    dispatcher: Dispatcher,
    filter: EventFilter,
    dedup: MsgDedup,
    fault_detector: SessionFaultDetector,
}

impl WssConnectionManager {
    pub closed spec fn spec_config(&self) -> WssConfig {
        self.config
    }

    pub closed spec fn spec_filter(&self) -> EventFilter {
        self.filter
    }

    pub closed spec fn spec_dedup(&self) -> MsgDedup {
        self.dedup
    }

    pub closed spec fn spec_detector(&self) -> SessionFaultDetector {
        self.fault_detector
    }

    pub open spec fn wf(&self) -> bool {
        self.spec_dedup().wf() && self.spec_detector().wf()
    }

    /// A fresh receiving side: nothing remembered, no failure counted.
    pub fn new(config: WssConfig, filter: EventFilter) -> (r: Self)
        ensures
            r.wf(),
            r.spec_config() == config,
            r.spec_filter() == filter,
            r.spec_dedup().cap() == 300,
            r.spec_dedup().entries().len() == 0,
            r.spec_detector().count() == 0,
    {
        WssConnectionManager {
            config,
            decoder: WssDecoder::new(),
            dispatcher: Dispatcher::new(),
            filter,
            dedup: MsgDedup::default(),
            fault_detector: SessionFaultDetector::new(),
        }
    }

    /// Handles one binary frame.  A frame that decodes resets the failure
    /// count and yields its new allowed events; a frame that cannot start
    /// protobuf is skipped; any other frame counts as a failure, and the
    /// failure that reaches the limit is a fault.
    pub fn handle_binary_frame(&mut self, frame: &[u8]) -> (r: FrameOutcome)
        requires
            old(self).wf(),
        ensures
            final(self).wf(),
            final(self).spec_config() == old(self).spec_config(),
            final(self).spec_filter() == old(self).spec_filter(),
            final(self).spec_dedup().cap() == old(self).spec_dedup().cap(),
            match frame_response(frame@, false) {
                Some(resp) => {
                    let sel = select_spec(
                        dispatch_all(resp.messages),
                        old(self).spec_filter()@,
                        memory_of(old(self).spec_dedup()),
                        old(self).spec_dedup().cap(),
                    );
                    &&& events_view(r.events@) == sel.0
                    &&& memory_of(final(self).spec_dedup()) == sel.1
                    &&& final(self).spec_detector().count() == 0
                    &&& r.fault is None
                },
                None => {
                    &&& r.events@.len() == 0
                    &&& final(self).spec_dedup() == old(self).spec_dedup()
                    &&& frame_not_protobuf(frame@) ==> final(self).spec_detector()
                        == old(self).spec_detector() && r.fault is None
                    &&& !frame_not_protobuf(frame@) ==> {
                        let (c, faulted) = step_error(old(self).spec_detector().count());
                        &&& final(self).spec_detector().count() == c
                        &&& r.fault is Some == faulted
                    }
                    &&& (frame@.len() == 0 || frame@[0] & 7 <= 5) ==> {
                        let (c, faulted) = step_error(old(self).spec_detector().count());
                        &&& final(self).spec_detector().count() == c
                        &&& r.fault is Some == faulted
                    }
                },
            },
    {
        match self.decoder.decode(frame, false) {
            Ok((_wss, response)) => {
                self.fault_detector.record_success();
                let events = match self.dispatcher.dispatch_response(&response) {
                    Ok(events) => events,
                    Err(_) => Vec::new(),
                };
                let selected = select_events(events, &self.filter, &mut self.dedup);
                FrameOutcome { events: selected, fault: None }
            },
            Err(CoreError::InvalidWireType(_)) => FrameOutcome { events: Vec::new(), fault: None },
            Err(_) => {
                let fault = self.fault_detector.record_error();
                FrameOutcome { events: Vec::new(), fault }
            },
        }
    }

    /// The wait before reconnect `attempt`, in seconds:
    /// `initial * 2^min(attempt, 20)`, saturating, capped at the maximum.
    pub fn backoff_delay(&self, attempt: u32) -> (r: u64)
        ensures
            r == backoff_ms(
                self.spec_config().reconnect_initial_secs,
                self.spec_config().reconnect_max_secs,
                attempt,
            ),
    {
        let policy = crate::resilience::RetryPolicy {
            initial_delay: self.config.reconnect_initial_secs,
            max_delay: self.config.reconnect_max_secs,
            max_attempts: 0,
            jitter: false,
        };
        policy.base_delay(attempt)
    }

    /// Whether to stop reconnecting before attempt `attempt` (counted from
    /// 0): only when a limit is set and reached.
    pub fn attempts_exhausted(&self, attempt: u32) -> (r: bool)
        ensures
            r == (self.spec_config().max_reconnect_attempts > 0 && attempt
                >= self.spec_config().max_reconnect_attempts),
    {
        self.config.max_reconnect_attempts > 0 && attempt >= self.config.max_reconnect_attempts
    }

    /// Forces a session fault by counting more failures than the limit.
    pub fn trigger_session_fault(&mut self) -> (r: Option<SessionFaultReason>)
        requires
            old(self).wf(),
        ensures
            final(self).wf(),
            final(self).spec_config() == old(self).spec_config(),
            final(self).spec_filter() == old(self).spec_filter(),
            final(self).spec_dedup() == old(self).spec_dedup(),
            final(self).spec_detector().count() == (old(self).spec_detector().count() + 6) % 5,
            r == Some(SessionFaultReason::ConsecutiveDecodeFailures(5)),
    {
        let mut fault: Option<SessionFaultReason> = None;
        let mut i: u32 = 0;
        while i < 6
            invariant
                i <= 6,
                self.fault_detector.wf(),
                self.dedup == old(self).dedup,
                self.config == old(self).config,
                self.filter == old(self).filter,
                old(self).fault_detector.wf(),
                self.fault_detector.count() == (old(self).fault_detector.count() + i) % 5,
                (fault is Some) == (old(self).fault_detector.count() + i >= 5),
                fault is Some ==> fault == Some(SessionFaultReason::ConsecutiveDecodeFailures(5)),
            decreases 6 - i,
        {
            let r = self.fault_detector.record_error();
            if r.is_some() {
                fault = r;
            }
            i = i + 1;
        }
        fault
    }

    /// The session's failure counter.
    pub fn fault_detector(&self) -> (r: &SessionFaultDetector)
        ensures
            *r == self.spec_detector(),
    {
        &self.fault_detector
    }

    /// The connection settings.
    pub fn config(&self) -> (r: &WssConfig)
        ensures
            *r == self.spec_config(),
    {
        &self.config
    }
}

} // verus!
