//! Round-trip-time estimation and the forward delay used as message age.
//! Times are in milliseconds.
use vstd::prelude::*;
use crate::clock::wall_clock_millis;

verus! {

/// How many round-trip samples the window keeps.
pub const PING_WINDOW: usize = 10;

/// The bound on a single time value that the service takes.
pub const PING_TIME_LIMIT: i64 = 0x0010_0000_0000_0000;

pub open spec fn ping_time_ok(t: i64) -> bool {
    -PING_TIME_LIMIT <= t <= PING_TIME_LIMIT
}

/// A round-trip sample: never negative.
pub open spec fn rtt_ok(t: i64) -> bool {
    0 <= t <= PING_TIME_LIMIT
}

pub open spec fn sum_of(s: Seq<i64>) -> int
    decreases s.len(),
{
    if s.len() == 0 {
        0
    } else {
        sum_of(s.drop_last()) + s.last()
    }
}

/// The moving average of the kept samples, rounded toward zero; zero with no
/// samples.
pub open spec fn average_of(s: Seq<i64>) -> int {
    if s.len() == 0 {
        0
    } else {
        sum_of(s) / (s.len() as int)
    }
}

/// `max(0, (now - client_latency_calc - server_rtt) / 2)`, halved toward zero.
pub open spec fn forward_delay_of(now: int, client_latency_calc: int, server_rtt: int) -> int {
    let d = (now - client_latency_calc - server_rtt) / 2;
    if d > 0 {
        d
    } else {
        0
    }
}

/// The sample window after recording `rtt`: the oldest sample leaves once
/// the window is full.
pub open spec fn window_after(s: Seq<i64>, rtt: i64) -> Seq<i64> {
    let t = s.push(rtt);
    if t.len() > PING_WINDOW {
        t.subrange(t.len() - PING_WINDOW, t.len() as int)
    } else {
        t
    }
}

pub struct PingService {
    samples: Vec<i64>,
    forward_delay: i64,
}

proof fn lemma_sum_bounds(s: Seq<i64>)
    requires
        forall|k: int| 0 <= k < s.len() ==> rtt_ok(#[trigger] s[k]),
    ensures
        0 <= sum_of(s) <= PING_TIME_LIMIT * s.len(),
    decreases s.len(),
{
    if s.len() > 0 {
        assert forall|k: int| 0 <= k < s.drop_last().len() implies rtt_ok(
            #[trigger] s.drop_last()[k],
        ) by {
            assert(s.drop_last()[k] == s[k]);
        }
        lemma_sum_bounds(s.drop_last());
        assert(rtt_ok(s[s.len() - 1]));
        assert(PING_TIME_LIMIT * (s.len() - 1) + PING_TIME_LIMIT == PING_TIME_LIMIT * s.len())
            by (nonlinear_arith);
    }
}

impl PingService {
    pub closed spec fn samples(&self) -> Seq<i64> {
        self.samples@
    }

    pub closed spec fn forward_delay(&self) -> i64 {
        self.forward_delay
    }

    pub open spec fn wf(&self) -> bool {
        &&& self.samples().len() <= PING_WINDOW
        &&& forall|k: int| 0 <= k < self.samples().len() ==> rtt_ok(#[trigger] self.samples()[k])
    }

    pub fn new() -> (r: Self)
        ensures
            r.wf(),
            r.samples() == Seq::<i64>::empty(),
            r.forward_delay() == 0,
    {
        PingService { samples: Vec::new(), forward_delay: 0 }
    }

    /// Adds one round-trip sample.
    pub fn record_sample(&mut self, rtt: i64)
        requires
            old(self).wf(),
            rtt_ok(rtt),
        ensures
            final(self).wf(),
            final(self).samples() == window_after(old(self).samples(), rtt),
            final(self).forward_delay() == old(self).forward_delay(),
    {
        self.samples.push(rtt);
        if self.samples.len() > PING_WINDOW {
            self.samples.remove(0);
            proof {
                assert(self.samples@ =~= window_after(old(self).samples@, rtt));
            }
        }
    }

    /// The moving average of the window.
    pub fn get_rtt(&self) -> (r: i64)
        requires
            self.wf(),
        ensures
            r == average_of(self.samples()),
    {
        let n = self.samples.len();
        if n == 0 {
            return 0;
        }
        let mut total: i64 = 0;
        let mut i: usize = 0;
        while i < n
            invariant
                n == self.samples@.len(),
                n <= PING_WINDOW,
                i <= n,
                forall|k: int| 0 <= k < n ==> rtt_ok(#[trigger] self.samples@[k]),
                total == sum_of(self.samples@.subrange(0, i as int)),
            decreases n - i,
        {
            proof {
                let next = self.samples@.subrange(0, i + 1);
                assert(next.drop_last() =~= self.samples@.subrange(0, i as int));
                lemma_sum_bounds(self.samples@.subrange(0, i as int));
                assert forall|k: int| 0 <= k < i implies rtt_ok(
                    #[trigger] self.samples@.subrange(0, i as int)[k],
                ) by {}
                assert(rtt_ok(self.samples@[i as int]));
            }
            total = total + self.samples[i];
            i = i + 1;
        }
        proof {
            assert(self.samples@.subrange(0, n as int) =~= self.samples@);
            lemma_sum_bounds(self.samples@);
        }
        total / (n as i64)
    }

    /// The current forward-delay estimate.
    pub fn get_forward_delay(&self) -> (r: i64)
        ensures
            r == self.forward_delay(),
    {
        self.forward_delay
    }

    /// Updates the forward delay from a server ping at time `now`.
    pub fn receive_message(&mut self, now: i64, client_latency_calc: i64, server_rtt: i64)
        requires
            old(self).wf(),
            ping_time_ok(now),
            ping_time_ok(client_latency_calc),
            ping_time_ok(server_rtt),
        ensures
            final(self).wf(),
            final(self).samples() == old(self).samples(),
            final(self).forward_delay() == forward_delay_of(
                now as int,
                client_latency_calc as int,
                server_rtt as int,
            ),
    {
        let d = (now - client_latency_calc - server_rtt) / 2;
        self.forward_delay = if d > 0 {
            d
        } else {
            0
        };
    }
}

/// A wall-clock timestamp for the `clientLatencyCalculation` field.
pub fn new_timestamp() -> i64 {
    wall_clock_millis()
}

} // verus!
