//! The health endpoint's answer.

use vstd::prelude::*;

use crate::pool::{BrowserHealth, PoolHealth};

verus! {

/// The pool's counts.
#[derive(Debug, Clone, Copy, PartialEq, Eq)]
pub struct PoolHealthView {
    pub size: usize,
    pub ready: usize,
    pub busy: usize,
    pub dead: usize,
}

/// The health answer: `ok` or `degraded`, the counts, and each browser.
#[derive(Debug, Clone, PartialEq, Eq)]
pub struct HealthResponse {
    pub status: String,
    pub pool: PoolHealthView,
    pub browsers: Vec<BrowserHealth>,
}

/// The pool is healthy when no browser is dead.
pub fn is_healthy(ready: usize, dead: usize) -> (r: bool)
    ensures
        r == (dead == 0),
{
    dead == 0
}

/// The health answer and its HTTP status: 200 when healthy, else 503.
pub fn health_response(h: PoolHealth) -> (r: (u16, HealthResponse))
    ensures
        h.dead == 0 ==> r.0 == 200 && r.1.status@ == "ok"@,
        h.dead != 0 ==> r.0 == 503 && r.1.status@ == "degraded"@,
        r.1.pool == (PoolHealthView { size: h.size, ready: h.ready, busy: h.busy, dead: h.dead }),
        r.1.browsers == h.browsers,
{
    let healthy = is_healthy(h.ready, h.dead);
    let pool = PoolHealthView { size: h.size, ready: h.ready, busy: h.busy, dead: h.dead };
    let status = if healthy {
        "ok".to_owned()
    } else {
        "degraded".to_owned()
    };
    let code: u16 = if healthy {
        200
    } else {
        503
    };
    (code, HealthResponse { status, pool, browsers: h.browsers })
}

} // verus!
