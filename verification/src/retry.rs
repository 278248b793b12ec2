use vstd::prelude::*;

use crate::error::Error;

verus! {

/// How many times one logical operation may hit the wire before a
/// transient failure becomes terminal.
pub const MAXIMUM_RETRY: u32 = 5;

/// What one attempt at the wire was seen to do, after the response body
/// has been classified.
#[derive(Debug)]
pub enum Observed {
    /// The request never completed: connection or I/O failure.
    Transport(String),
    /// The transport completed but the payload reports an expired access
    /// token.
    TokenExpired,
    /// The transport completed with this status and body.
    Response { status: u16, body: Vec<u8> },
}

/// What the orchestrator asks its driver to do next.
#[derive(Debug)]
pub enum Directive {
    /// Sleep a random duration below `backoff_cap_ms` milliseconds, then
    /// re-issue the byte-identical request. A cap of zero means send at
    /// once.
    Resend { backoff_cap_ms: u64 },
    /// Exchange the refresh token for a new access token, then report back.
    Reauthorize,
    /// Give up with this terminal error.
    Abort(Error),
    /// The operation is complete; hand the caller this response.
    Deliver { status: u16, body: Vec<u8> },
}

/// An input to one run of the orchestrator: either a classified attempt
/// outcome, or the result of a requested reauthorization.
#[derive(Debug)]
pub enum RunEvent {
    Got(Observed),
    RefreshOk,
    RefreshErr(Error),
}

/// The per-operation state of the retry orchestrator. It lives for one
/// logical remote operation and is dropped afterwards.
#[derive(Debug, PartialEq, Eq, Structural, Clone, Copy)]
pub struct Orchestrator {
    /// Whether this operation carries a bearer token.
    pub requires_auth: bool,
    /// Transient failures observed since the last (re)start.
    pub retry_count: u32,
    /// Whether the single allowed reauthorization was already spent.
    pub reauthorized: bool,
    /// Whether a requested reauthorization is still outstanding.
    pub awaiting_refresh: bool,
}

/// The randomized exponential backoff ceiling before the `retry_count`-th
/// re-send: it starts at one second and doubles on every retry, up to
/// eight doublings.
pub open spec fn spec_backoff_cap(retry_count: u32) -> u64
    recommends
        retry_count >= 1,
{
    if retry_count <= 1 {
        1000
    } else if retry_count == 2 {
        2000
    } else if retry_count == 3 {
        4000
    } else if retry_count == 4 {
        8000
    } else if retry_count == 5 {
        16000
    } else if retry_count == 6 {
        32000
    } else if retry_count == 7 {
        64000
    } else if retry_count == 8 {
        128000
    } else {
        256000
    }
}

pub fn backoff_cap_ms(retry_count: u32) -> (r: u64)
    requires
        retry_count >= 1,
    ensures
        r == spec_backoff_cap(retry_count),
{
    if retry_count <= 1 {
        1000
    } else if retry_count == 2 {
        2000
    } else if retry_count == 3 {
        4000
    } else if retry_count == 4 {
        8000
    } else if retry_count == 5 {
        16000
    } else if retry_count == 6 {
        32000
    } else if retry_count == 7 {
        64000
    } else if retry_count == 8 {
        128000
    } else {
        256000
    }
}

/// Relies on rand::random_range: returns a value drawn uniformly from the
/// given range, and panics only when the range is empty.
#[verifier::external_body]
pub fn draw_backoff_ms(cap: u64) -> (r: u64)
    requires
        cap >= 1,
    ensures
        r < cap,
{
    rand::random_range(0..cap)
}

/// The state a fresh operation starts in.
pub open spec fn initial_state(requires_auth: bool) -> Orchestrator {
    Orchestrator { requires_auth, retry_count: 0, reauthorized: false, awaiting_refresh: false }
}

impl Orchestrator {
    /// The retry counter never reaches the ceiling while the operation is
    /// still running.
    pub open spec fn inv(self) -> bool {
        self.retry_count < MAXIMUM_RETRY
    }

    /// Begin one logical operation. The accompanying directive is the
    /// initial send (no backoff).
    pub fn start(requires_auth: bool) -> (r: (Orchestrator, Directive))
        ensures
            r.0 == initial_state(requires_auth),
            r.0.inv(),
            r.1 == (Directive::Resend { backoff_cap_ms: 0u64 }),
    {
        (
            Orchestrator { requires_auth, retry_count: 0, reauthorized: false, awaiting_refresh: false },
            Directive::Resend { backoff_cap_ms: 0 },
        )
    }

    /// React to the classified outcome of one attempt.
    pub fn observe(&mut self, o: Observed) -> (d: Directive)
        requires
            old(self).inv(),
        ensures
            final(self).inv(),
            ({
                let (s2, d2) = spec_observe(*old(self), o);
                *final(self) == s2 && d == d2
            }),
    {
        match o {
            Observed::Transport(msg) => {
                if self.retry_count + 1 >= MAXIMUM_RETRY {
                    Directive::Abort(Error::Transport(msg))
                } else {
                    self.retry_count = self.retry_count + 1;
                    Directive::Resend { backoff_cap_ms: backoff_cap_ms(self.retry_count) }
                }
            },
            Observed::TokenExpired => {
                if !self.requires_auth {
                    Directive::Abort(Error::ProtocolViolation)
                } else if self.reauthorized {
                    Directive::Abort(Error::ExpiredToken)
                } else {
                    self.reauthorized = true;
                    self.awaiting_refresh = true;
                    Directive::Reauthorize
                }
            },
            Observed::Response { status, body } => {
                if 500 <= status && status < 600 {
                    if self.retry_count + 1 >= MAXIMUM_RETRY {
                        Directive::Abort(Error::ServerError { status, body })
                    } else {
                        self.retry_count = self.retry_count + 1;
                        Directive::Resend { backoff_cap_ms: backoff_cap_ms(self.retry_count) }
                    }
                } else {
                    Directive::Deliver { status, body }
                }
            },
        }
    }

    /// React to a successful reauthorization. If one was outstanding, the
    /// retry budget is restored and the request is re-issued at once; an
    /// unsolicited report is a driver bug and terminal.
    pub fn refresh_succeeded(&mut self) -> (d: Directive)
        requires
            old(self).inv(),
        ensures
            *final(self) == spec_run_event(*old(self), RunEvent::RefreshOk).0,
            d == spec_run_event(*old(self), RunEvent::RefreshOk).1,
            final(self).inv(),
    {
        if self.awaiting_refresh {
            self.retry_count = 0;
            self.reauthorized = true;
            self.awaiting_refresh = false;
            Directive::Resend { backoff_cap_ms: 0 }
        } else {
            Directive::Abort(Error::ProtocolViolation)
        }
    }

    /// React to a failed reauthorization: the operation is over.
    pub fn refresh_failed(&mut self, e: Error) -> (d: Directive)
        requires
            old(self).inv(),
        ensures
            *final(self) == spec_run_event(*old(self), RunEvent::RefreshErr(e)).0,
            d == spec_run_event(*old(self), RunEvent::RefreshErr(e)).1,
            final(self).inv(),
    {
        Directive::Abort(e)
    }
}

/// The transition relation of the orchestrator on a classified attempt
/// outcome.
pub open spec fn spec_observe(s: Orchestrator, o: Observed) -> (Orchestrator, Directive) {
    match o {
        Observed::Transport(msg) => {
            if s.retry_count + 1 >= MAXIMUM_RETRY {
                (s, Directive::Abort(Error::Transport(msg)))
            } else {
                (
                    Orchestrator {
                        requires_auth: s.requires_auth,
                        retry_count: (s.retry_count + 1) as u32,
                        reauthorized: s.reauthorized,
                        awaiting_refresh: s.awaiting_refresh,
                    },
                    Directive::Resend {
                        backoff_cap_ms: spec_backoff_cap((s.retry_count + 1) as u32),
                    },
                )
            }
        },
        Observed::TokenExpired => {
            if !s.requires_auth {
                (s, Directive::Abort(Error::ProtocolViolation))
            } else if s.reauthorized {
                (s, Directive::Abort(Error::ExpiredToken))
            } else {
                (
                    Orchestrator {
                        requires_auth: s.requires_auth,
                        retry_count: s.retry_count,
                        reauthorized: true,
                        awaiting_refresh: true,
                    },
                    Directive::Reauthorize,
                )
            }
        },
        Observed::Response { status, body } => {
            if 500 <= status < 600 {
                if s.retry_count + 1 >= MAXIMUM_RETRY {
                    (s, Directive::Abort(Error::ServerError { status, body }))
                } else {
                    (
                        Orchestrator {
                            requires_auth: s.requires_auth,
                            retry_count: (s.retry_count + 1) as u32,
                            reauthorized: s.reauthorized,
                            awaiting_refresh: s.awaiting_refresh,
                        },
                        Directive::Resend {
                            backoff_cap_ms: spec_backoff_cap((s.retry_count + 1) as u32),
                        },
                    )
                }
            } else {
                (s, Directive::Deliver { status, body })
            }
        },
    }
}

/// The transition relation on any driver input.
pub open spec fn spec_run_event(s: Orchestrator, e: RunEvent) -> (Orchestrator, Directive) {
    match e {
        RunEvent::Got(o) => spec_observe(s, o),
        RunEvent::RefreshOk => if s.awaiting_refresh {
            (
                Orchestrator {
                    requires_auth: s.requires_auth,
                    retry_count: 0,
                    reauthorized: true,
                    awaiting_refresh: false,
                },
                Directive::Resend { backoff_cap_ms: 0u64 },
            )
        } else {
            (s, Directive::Abort(Error::ProtocolViolation))
        },
        RunEvent::RefreshErr(err) => (s, Directive::Abort(err)),
    }
}

/// A directive that ends the operation.
pub open spec fn is_terminal(d: Directive) -> bool {
    d is Abort || d is Deliver
}

/// How many reauthorizations a run requests before it terminates.
pub open spec fn count_reauths(s: Orchestrator, evs: Seq<RunEvent>) -> nat
    decreases evs.len(),
{
    if evs.len() == 0 {
        0
    } else {
        let (s2, d) = spec_run_event(s, evs[0]);
        let here: nat = if d is Reauthorize {
            1
        } else {
            0
        };
        if is_terminal(d) {
            here
        } else {
            here + count_reauths(s2, evs.skip(1))
        }
    }
}

/// How many re-sends a run performs before it terminates.
pub open spec fn count_resends(s: Orchestrator, evs: Seq<RunEvent>) -> nat
    decreases evs.len(),
{
    if evs.len() == 0 {
        0
    } else {
        let (s2, d) = spec_run_event(s, evs[0]);
        let here: nat = if d is Resend {
            1
        } else {
            0
        };
        if is_terminal(d) {
            here
        } else {
            here + count_resends(s2, evs.skip(1))
        }
    }
}

/// The terminal directive of a run, if the run terminates within `evs`.
pub open spec fn final_directive(s: Orchestrator, evs: Seq<RunEvent>) -> Option<Directive>
    decreases evs.len(),
{
    if evs.len() == 0 {
        None
    } else {
        let (s2, d) = spec_run_event(s, evs[0]);
        if is_terminal(d) {
            Some(d)
        } else {
            final_directive(s2, evs.skip(1))
        }
    }
}

/// Law: one logical operation reauthorizes at most once, whatever the
/// server does — once the single refresh is spent, a further expired-token
/// report is terminal instead of looping.
pub proof fn lemma_at_most_one_reauthorization(s: Orchestrator, evs: Seq<RunEvent>)
    ensures
        count_reauths(s, evs) <= if s.reauthorized {
            0int
        } else {
            1int
        },
    decreases evs.len(),
{
    if evs.len() > 0 {
        let (s2, d) = spec_run_event(s, evs[0]);
        lemma_at_most_one_reauthorization(s2, evs.skip(1));
    }
}

/// Law: against a server that always reports an expired token, an
/// authorized operation requests exactly one refresh, re-sends once, and
/// then surfaces a terminal expired-token error.
pub proof fn lemma_always_expired_single_refresh()
    ensures
        spec_observe(initial_state(true), Observed::TokenExpired).1 == Directive::Reauthorize,
        spec_run_event(
            spec_observe(initial_state(true), Observed::TokenExpired).0,
            RunEvent::RefreshOk,
        ).1 == (Directive::Resend { backoff_cap_ms: 0u64 }),
        spec_observe(
            spec_run_event(
                spec_observe(initial_state(true), Observed::TokenExpired).0,
                RunEvent::RefreshOk,
            ).0,
            Observed::TokenExpired,
        ).1 == Directive::Abort(Error::ExpiredToken),
{
}

/// Everything an event sequence may hold when the transport always fails.
pub open spec fn all_transport(evs: Seq<RunEvent>) -> bool {
    forall|i: int|
        0 <= i < evs.len() ==> (#[trigger] evs[i]) matches RunEvent::Got(Observed::Transport(_))
}

/// Law: a request that always fails transport is re-sent until exactly
/// `MAXIMUM_RETRY` attempts have been made (the initial send plus the
/// re-sends counted here), and then surfaces a terminal transport error.
pub proof fn lemma_transport_exhausts_retries(s: Orchestrator, evs: Seq<RunEvent>)
    requires
        s.inv(),
        all_transport(evs),
        evs.len() + s.retry_count >= MAXIMUM_RETRY,
    ensures
        count_resends(s, evs) == MAXIMUM_RETRY - 1 - s.retry_count,
        final_directive(s, evs) matches Some(d) && d matches Directive::Abort(Error::Transport(_)),
    decreases evs.len(),
{
    let (s2, d) = spec_run_event(s, evs[0]);
    if s.retry_count + 1 < MAXIMUM_RETRY {
        lemma_transport_exhausts_retries(s2, evs.skip(1));
    }
}

/// Law: the retry ceiling holds for a fresh operation: exactly
/// `MAXIMUM_RETRY` attempts in all.
pub proof fn lemma_retry_ceiling_from_start(requires_auth: bool, evs: Seq<RunEvent>)
    requires
        all_transport(evs),
        evs.len() >= MAXIMUM_RETRY,
    ensures
        count_resends(initial_state(requires_auth), evs) == MAXIMUM_RETRY - 1,
        final_directive(initial_state(requires_auth), evs) matches Some(d) && d matches Directive::Abort(Error::Transport(_)),
{
    lemma_transport_exhausts_retries(initial_state(requires_auth), evs);
}

/// Law: the backoff ceiling strictly increases with every consecutive
/// retry until the eighth doubling.
pub proof fn lemma_backoff_strictly_increases(r1: u32, r2: u32)
    requires
        1 <= r1 < r2 <= 9,
    ensures
        spec_backoff_cap(r1) < spec_backoff_cap(r2),
{
}

/// Law: the backoff ceiling exactly doubles from one retry to the next,
/// up to the eighth doubling.
pub proof fn lemma_backoff_doubles(r: u32)
    requires
        1 <= r <= 8,
    ensures
        spec_backoff_cap((r + 1) as u32) == 2 * spec_backoff_cap(r),
{
}

/// Law: whatever the server and the network do, one logical operation
/// performs a bounded number of sends: the retry budget, plus at most one
/// refreshed budget.
pub proof fn lemma_bounded_sends(s: Orchestrator, evs: Seq<RunEvent>)
    requires
        s.inv(),
    ensures
        count_resends(s, evs) <= (MAXIMUM_RETRY - 1 - s.retry_count) + if s.awaiting_refresh
            || !s.reauthorized {
            MAXIMUM_RETRY as int
        } else {
            0int
        },
    decreases evs.len(),
{
    if evs.len() > 0 {
        let (s2, d) = spec_run_event(s, evs[0]);
        if !is_terminal(d) {
            lemma_bounded_sends(s2, evs.skip(1));
        }
    }
}

} // verus!
