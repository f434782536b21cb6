//! The polling consumer: which captured responses are fetch answers, and
//! which events each answer's body yields.

use base64::Engine;
use vstd::prelude::*;
use vstd::string::StringSliceAdditionalSpecFns;

use crate::dedup::MsgDedup;
use crate::decoder::WssDecoder;
use crate::dispatcher::{dispatch_all, events_view, Dispatcher};
use crate::event::BarrageEvent;
use crate::filter::EventFilter;
use crate::pipeline::{memory_of, select_events, select_spec};
use crate::proto::{response_default, spec_decode, Response};
use crate::signer::{is_im_fetch_url, spec_is_im_fetch_url};

verus! {

/// Settings of the polling consumer.  Durations are in milliseconds.
#[derive(Debug, Clone, PartialEq, Eq)]
pub struct FetchConsumerConfig {
    pub edge_path: String,
    pub user_data_dir: String,
    pub cdp_port: u16,
    pub extra_args: Vec<String>,
    pub web_rid: String,
    pub auth_cookies: Vec<(String, String)>,
    pub keepalive_interval: u64,
    pub navigation_timeout: u64,
}

impl FetchConsumerConfig {
    /// The usual browser location, its own profile directory, port 9222,
    /// a keep-alive every 5 s and 30 s to load the room page.
    pub fn default() -> (r: Self)
        ensures
            r.edge_path@ == "C:\\Program Files (x86)\\Microsoft\\Edge\\Application\\msedge.exe"@,
            r.user_data_dir@ == "./data/fetch-consumer"@,
            r.cdp_port == 9222,
            r.extra_args@.len() == 0,
            r.web_rid@ == Seq::<char>::empty(),
            r.auth_cookies@.len() == 0,
            r.keepalive_interval == 5000,
            r.navigation_timeout == 30_000,
    {
        FetchConsumerConfig {
            edge_path: "C:\\Program Files (x86)\\Microsoft\\Edge\\Application\\msedge.exe".to_owned(),
            user_data_dir: "./data/fetch-consumer".to_owned(),
            cdp_port: 9222,
            extra_args: Vec::new(),
            web_rid: String::new(),
            auth_cookies: Vec::new(),
            keepalive_interval: 5000,
            navigation_timeout: 30_000,
        }
    }
}

/// The bytes that base64 text decodes to under the standard alphabet with
/// canonical padding, or `None` where it is not such text.
pub uninterp spec fn standard_base64_decoding(text: Seq<char>) -> Option<Seq<u8>>;

/// `base64::engine::general_purpose::STANDARD.decode`: its bytes where the
/// text decodes, `None` where the decoder reports an error.  What it decodes
/// to is left to the name above.
#[verifier::external_body]
fn decode_standard_base64(text: &str) -> (r: Option<Vec<u8>>)
    ensures
        match r {
            Some(v) => standard_base64_decoding(text@) == Some(v@),
            None => standard_base64_decoding(text@) is None,
        },
{
    base64::engine::general_purpose::STANDARD.decode(text).ok()
}

/// The bytes of a captured response body: base64-decoded where the browser
/// reports it encoded, else the body's own UTF-8 bytes.
pub open spec fn body_bytes_spec(body: &str, base64_encoded: bool) -> Option<Seq<u8>> {
    if base64_encoded {
        standard_base64_decoding(body@)
    } else {
        Some(body.spec_bytes())
    }
}

/// The bytes of a captured response body, `None` where the body is
/// reported base64-encoded and does not decode.
pub fn response_body_bytes(body: &str, base64_encoded: bool) -> (r: Option<Vec<u8>>)
    ensures
        match r {
            Some(v) => body_bytes_spec(body, base64_encoded) == Some(v@),
            None => body_bytes_spec(body, base64_encoded) is None,
        },
{
    if base64_encoded {
        decode_standard_base64(body)
    } else {
        Some(vstd::slice::slice_to_vec(body.as_bytes()))
    }
}

/// The ids remembered per method by the consumer's de-duplicator.
pub const DEFAULT_DEDUP_CAPACITY: usize = 300;

/// The consumer's state: what it has pushed, and the fetch requests whose
/// answers it waits for.
#[derive(Debug)]
pub struct FetchConsumer {
    config: FetchConsumerConfig,
    decoder: WssDecoder,
    dispatcher: Dispatcher,
    dedup: MsgDedup,
    pending: Vec<String>,
}

impl FetchConsumer {
    pub closed spec fn spec_config(&self) -> FetchConsumerConfig {
        self.config
    }

    pub closed spec fn spec_dedup(&self) -> MsgDedup {
        self.dedup
    }

    /// The ids of the fetch requests awaiting their answer.
    pub closed spec fn spec_pending(&self) -> Seq<Seq<char>> {
        self.pending@.map_values(|s: String| s@)
    }

    /// The de-duplicator is well formed and no request id is awaited twice.
    pub open spec fn wf(&self) -> bool {
        &&& self.spec_dedup().wf()
        &&& self.spec_pending().no_duplicates()
    }

    pub fn new(config: FetchConsumerConfig) -> (r: Self)
        ensures
            r.wf(),
            r.spec_config() == config,
            r.spec_dedup().cap() == DEFAULT_DEDUP_CAPACITY,
            r.spec_dedup().entries().len() == 0,
            r.spec_pending().len() == 0,
    {
        let r = FetchConsumer {
            config,
            decoder: WssDecoder::new(),
            dispatcher: Dispatcher::new(),
            dedup: MsgDedup::new(DEFAULT_DEDUP_CAPACITY),
            pending: Vec::new(),
        };
        assert(r.spec_pending() =~= Seq::<Seq<char>>::empty());
        r
    }

    /// A request was sent: a fetch request is awaited.
    pub fn on_request(&mut self, request_id: String, url: &str)
        requires
            old(self).wf(),
        ensures
            final(self).wf(),
            final(self).spec_dedup() == old(self).spec_dedup(),
            final(self).spec_config() == old(self).spec_config(),
            final(self).spec_pending() == if spec_is_im_fetch_url(url@) && !old(
                self,
            ).spec_pending().contains(request_id@) {
                old(self).spec_pending().push(request_id@)
            } else {
                old(self).spec_pending()
            },
    {
        if is_im_fetch_url(url) && !self.is_pending(request_id.as_str()) {
            let ghost before = self.spec_pending();
            let ghost id = request_id@;
            self.pending.push(request_id);
            assert(self.spec_pending() =~= before.push(id));
            proof {
                assert forall|a: int, b: int|
                    0 <= a < self.spec_pending().len() && 0 <= b < self.spec_pending().len() && a
                        != b implies self.spec_pending()[a] != self.spec_pending()[b] by {
                    if a < before.len() && b < before.len() {
                    } else if a == before.len() {
                        assert(before[b] == self.spec_pending()[b]);
                    } else {
                        assert(before[a] == self.spec_pending()[a]);
                    }
                }
            }
        }
    }

    /// Whether the request `request_id` is awaited.
    fn is_pending(&self, request_id: &str) -> (r: bool)
        ensures
            r == self.spec_pending().contains(request_id@),
    {
        let key = request_id.to_owned();
        let mut j: usize = 0;
        while j < self.pending.len()
            invariant
                j <= self.pending@.len(),
                key@ == request_id@,
                forall|t: int| 0 <= t < j ==> self.spec_pending()[t] != request_id@,
            decreases self.pending@.len() - j,
        {
            if self.pending[j] == key {
                assert(self.spec_pending()[j as int] == request_id@);
                return true;
            }
            j = j + 1;
        }
        false
    }

    /// A response arrived: whether it answers an awaited fetch request,
    /// which is then no longer awaited (one occurrence of its id goes).
    pub fn on_response(&mut self, request_id: &str) -> (r: bool)
        requires
            old(self).wf(),
        ensures
            final(self).wf(),
            final(self).spec_dedup() == old(self).spec_dedup(),
            final(self).spec_config() == old(self).spec_config(),
            r == old(self).spec_pending().contains(request_id@),
            !final(self).spec_pending().contains(request_id@),
            r ==> exists|j: int|
                0 <= j < old(self).spec_pending().len() && old(self).spec_pending()[j] == request_id@
                    && final(self).spec_pending() == old(self).spec_pending().remove(j),
            !r ==> final(self).spec_pending() == old(self).spec_pending(),
    {
        let key = request_id.to_owned();
        let ghost pv = self.spec_pending();
        let mut j: usize = 0;
        while j < self.pending.len()
            invariant
                j <= self.pending@.len(),
                pv == self.spec_pending(),
                pv == old(self).spec_pending(),
                self.dedup == old(self).dedup,
                self.config == old(self).config,
                self.dedup.wf(),
                pv.no_duplicates(),
                key@ == request_id@,
                forall|t: int| 0 <= t < j ==> pv[t] != request_id@,
            decreases self.pending@.len() - j,
        {
            if self.pending[j] == key {
                self.pending.remove(j);
                proof {
                    assert(self.spec_pending() =~= pv.remove(j as int));
                    assert(pv[j as int] == request_id@);
                    let after = pv.remove(j as int);
                    assert forall|t: int| 0 <= t < after.len() implies after[t] != request_id@ by {
                        if t < j {
                            assert(after[t] == pv[t]);
                        } else {
                            assert(after[t] == pv[t + 1]);
                        }
                    }
                    assert forall|a: int, b: int|
                        0 <= a < after.len() && 0 <= b < after.len() && a != b implies after[a]
                        != after[b] by {
                        let a2 = if a < j { a } else { a + 1 };
                        let b2 = if b < j { b } else { b + 1 };
                        assert(after[a] == pv[a2] && after[b] == pv[b2]);
                    }
                }
                return true;
            }
            j = j + 1;
        }
        false
    }

    /// The events a fetch answer's body yields: none for an empty body or
    /// one that does not decode; else its allowed events not pushed yet,
    /// which are then remembered.
    pub fn process_body_bytes(&mut self, body: &[u8], filter: &EventFilter) -> (r: Vec<BarrageEvent>)
        requires
            old(self).wf(),
        ensures
            final(self).wf(),
            final(self).spec_config() == old(self).spec_config(),
            final(self).spec_pending() == old(self).spec_pending(),
            final(self).spec_dedup().cap() == old(self).spec_dedup().cap(),
            body@.len() == 0 ==> r@.len() == 0 && final(self).spec_dedup() == old(self).spec_dedup(),
            body@.len() > 0 ==> match spec_decode::<Response>(body@, response_default()) {
                None => r@.len() == 0 && final(self).spec_dedup() == old(self).spec_dedup(),
                Some(resp) => {
                    let sel = select_spec(
                        dispatch_all(resp.messages),
                        filter@,
                        memory_of(old(self).spec_dedup()),
                        old(self).spec_dedup().cap(),
                    );
                    &&& events_view(r@) == sel.0
                    &&& memory_of(final(self).spec_dedup()) == sel.1
                },
            },
    {
        if body.len() == 0 {
            return Vec::new();
        }
        let response = match self.decoder.decode_fetch_body(body) {
            Ok(r) => r,
            Err(_) => {
                return Vec::new();
            },
        };
        let events = match self.dispatcher.dispatch_response(&response) {
            Ok(events) => events,
            Err(_) => Vec::new(),
        };
        select_events(events, filter, &mut self.dedup)
    }
}

} // verus!
