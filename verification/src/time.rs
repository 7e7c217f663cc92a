//! Spans of time to the nanosecond, and stopwatches that accumulate them.

use vstd::prelude::*;

verus! {

pub const NANOS_PER_SEC: u32 = 1_000_000_000;

/// Nanoseconds in the longest span.
pub open spec fn longest() -> nat {
    (u64::MAX * NANOS_PER_SEC + (NANOS_PER_SEC - 1)) as nat
}

/// A length of time.
#[derive(Clone, Copy, Debug, PartialEq, Eq)]
pub struct TimeSpan {
    secs: u64,
    nanos: u32,
}

impl View for TimeSpan {
    type V = nat;

    /// The length in nanoseconds.
    closed spec fn view(&self) -> nat {
        (self.secs * NANOS_PER_SEC + self.nanos) as nat
    }
}

impl TimeSpan {
    #[verifier::type_invariant]
    closed spec fn wf(self) -> bool {
        self.nanos < NANOS_PER_SEC
    }

    /// The span of that many nanoseconds, up to the longest.
    pub closed spec fn of(nanos: nat) -> TimeSpan {
        TimeSpan {
            secs: (nanos / NANOS_PER_SEC as nat) as u64,
            nanos: (nanos % NANOS_PER_SEC as nat) as u32,
        }
    }

    /// `secs` seconds and `nanos` nanoseconds.
    pub fn new(secs: u64, nanos: u32) -> (r: TimeSpan)
        requires
            nanos < NANOS_PER_SEC,
        ensures
            r@ == secs * NANOS_PER_SEC + nanos,
            r == TimeSpan::of((secs * NANOS_PER_SEC + nanos) as nat),
    {
        proof {
            lemma_of_view(TimeSpan { secs, nanos });
        }
        TimeSpan { secs, nanos }
    }

    pub fn zero() -> (r: TimeSpan)
        ensures
            r@ == 0,
            r == TimeSpan::of(0),
    {
        TimeSpan { secs: 0, nanos: 0 }
    }

    /// The longest span there is.
    pub fn max() -> (r: TimeSpan)
        ensures
            r@ == longest(),
            r == TimeSpan::of(longest()),
    {
        proof {
            lemma_of_view(TimeSpan { secs: u64::MAX, nanos: (NANOS_PER_SEC - 1) as u32 });
        }
        TimeSpan { secs: u64::MAX, nanos: NANOS_PER_SEC - 1 }
    }

    /// The whole seconds.
    pub fn secs(&self) -> (r: u64)
        ensures
            r == self@ / NANOS_PER_SEC as nat,
    {
        proof {
            use_type_invariant(self);
        }
        self.secs
    }

    /// The nanoseconds past the whole seconds.
    pub fn subsec_nanos(&self) -> (r: u32)
        ensures
            r == self@ % NANOS_PER_SEC as nat,
    {
        proof {
            use_type_invariant(self);
        }
        self.nanos
    }

    /// Whether this span is shorter than `other`.
    pub fn shorter_than(&self, other: &TimeSpan) -> (r: bool)
        ensures
            r == (self@ < other@),
    {
        proof {
            use_type_invariant(self);
            use_type_invariant(other);
        }
        self.secs < other.secs || self.secs == other.secs && self.nanos < other.nanos
    }

    /// What is left of this span after `other`.
    pub fn minus(&self, other: &TimeSpan) -> (r: TimeSpan)
        requires
            other@ <= self@,
        ensures
            r@ == self@ - other@,
    {
        proof {
            use_type_invariant(self);
            use_type_invariant(other);
        }
        if self.nanos >= other.nanos {
            TimeSpan { secs: self.secs - other.secs, nanos: self.nanos - other.nanos }
        } else {
            TimeSpan {
                secs: self.secs - other.secs - 1,
                nanos: self.nanos + (NANOS_PER_SEC - other.nanos),
            }
        }
    }
}

/// A span is the one of its own length.
proof fn lemma_of_view(span: TimeSpan)
    requires
        span.wf(),
    ensures
        span == TimeSpan::of(span@),
{
    assert((span.secs * NANOS_PER_SEC + span.nanos) / NANOS_PER_SEC as int == span.secs);
    assert((span.secs * NANOS_PER_SEC + span.nanos) % NANOS_PER_SEC as int == span.nanos);
}

/// Every length up to the longest is that of a span.
pub broadcast proof fn lemma_view_of(nanos: nat)
    requires
        nanos <= longest(),
    ensures
        #[trigger] TimeSpan::of(nanos)@ == nanos,
{
    assert(nanos / NANOS_PER_SEC as nat <= u64::MAX);
}

/// The sum of two lengths, held at the longest span.
pub open spec fn saturating_sum(a: nat, b: nat) -> nat {
    if a + b <= longest() {
        a + b
    } else {
        longest()
    }
}

/// `bevy_time::Stopwatch::tick`, on a running stopwatch that shows `elapsed`:
/// afterwards it shows the sum with `delta`, or the longest span where the sum
/// exceeds it.
#[verifier::external_body]
fn tick_running(elapsed: TimeSpan, delta: TimeSpan) -> (r: TimeSpan)
    ensures
        r@ == saturating_sum(elapsed@, delta@),
{
    let mut watch = bevy_time::Stopwatch::new();
    watch.set_elapsed(core::time::Duration::new(elapsed.secs, elapsed.nanos));
    watch.tick(core::time::Duration::new(delta.secs, delta.nanos));
    TimeSpan { secs: watch.elapsed().as_secs(), nanos: watch.elapsed().subsec_nanos() }
}

/// Accumulates the time it is told to have passed, unless paused.
#[derive(Clone, Copy, Debug, PartialEq, Eq)]
pub struct Stopwatch {
    pub elapsed: TimeSpan,
    pub paused: bool,
}

impl Stopwatch {
    /// Running and at that many nanoseconds.
    pub open spec fn running_at(nanos: nat) -> Stopwatch {
        Stopwatch { elapsed: TimeSpan::of(nanos), paused: false }
    }

    /// The stopwatch back at zero; a paused one stays paused.
    pub open spec fn cleared(self) -> Stopwatch {
        Stopwatch { elapsed: TimeSpan::of(0), ..self }
    }

    /// The stopwatch after that many nanoseconds, which a paused one ignores.
    pub open spec fn advanced(self, nanos: nat) -> Stopwatch {
        if self.paused {
            self
        } else {
            Stopwatch { elapsed: TimeSpan::of(saturating_sum(self.elapsed@, nanos)), ..self }
        }
    }

    /// A running stopwatch at zero.
    pub fn new() -> (r: Stopwatch)
        ensures
            r == Stopwatch::running_at(0),
            r.elapsed@ == 0,
    {
        Stopwatch { elapsed: TimeSpan::zero(), paused: false }
    }

    /// A running stopwatch at the longest span: nothing counts as recent.
    pub fn expired() -> (r: Stopwatch)
        ensures
            r == Stopwatch::running_at(longest()),
            r.elapsed@ == longest(),
    {
        Stopwatch { elapsed: TimeSpan::max(), paused: false }
    }

    /// The stopwatch with another reading.
    pub open spec fn showing(self, time: TimeSpan) -> Stopwatch {
        Stopwatch { elapsed: time, ..self }
    }

    pub fn set_elapsed(&mut self, time: TimeSpan)
        ensures
            *final(self) == (Stopwatch { elapsed: time, ..*old(self) }),
            *final(self) == old(self).showing(time),
    {
        self.elapsed = time;
    }

    pub fn reset(&mut self)
        ensures
            *final(self) == old(self).cleared(),
            final(self).elapsed@ == 0,
    {
        self.elapsed = TimeSpan::zero();
    }

    /// Lets `delta` pass.
    pub fn tick(&mut self, delta: TimeSpan)
        ensures
            *final(self) == old(self).advanced(delta@),
            !old(self).paused ==> final(self).elapsed@ == saturating_sum(
                old(self).elapsed@,
                delta@,
            ),
    {
        if !self.paused {
            let elapsed = tick_running(self.elapsed, delta);
            proof {
                use_type_invariant(&elapsed);
                lemma_of_view(elapsed);
            }
            self.elapsed = elapsed;
        }
    }
}

/// Ticks add up: two of them move a stopwatch as far as one of both lengths
/// together.
pub proof fn law_ticks_add_up(watch: Stopwatch, a: nat, b: nat)
    requires
        watch.elapsed@ <= longest(),
    ensures
        watch.advanced(a).advanced(b) == watch.advanced(a + b),
{
    broadcast use lemma_view_of;

}

/// A stopwatch counts what passes while it runs, up to the longest span, and
/// nothing while it is paused. Setting it back, or to a span, neither pauses nor
/// starts it. Only a later reading is reached by letting time pass.
pub proof fn law_stopwatch_counts_time(watch: Stopwatch, nanos: nat, time: TimeSpan)
    requires
        watch.elapsed@ <= longest(),
    ensures
        watch.advanced(nanos).paused == watch.paused,
        watch.paused ==> watch.advanced(nanos).elapsed@ == watch.elapsed@,
        !watch.paused && watch.elapsed@ + nanos <= longest() ==> watch.advanced(nanos).elapsed@
            == watch.elapsed@ + nanos,
        !watch.paused && watch.elapsed@ + nanos > longest() ==> watch.advanced(nanos).elapsed@
            == longest(),
        watch.elapsed@ <= watch.advanced(nanos).elapsed@ <= longest(),
        watch.cleared().elapsed@ == 0 && watch.cleared().paused == watch.paused,
        watch.showing(time).elapsed == time && watch.showing(time).paused == watch.paused,
        nanos <= longest() ==> Stopwatch::running_at(nanos).elapsed@ == nanos,
        !Stopwatch::running_at(nanos).paused,
        longest() == 18_446_744_073_709_551_615 * 1_000_000_000 + 999_999_999,
        NANOS_PER_SEC == 1_000_000_000,
{
    broadcast use lemma_view_of;

}

}
