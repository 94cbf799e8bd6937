//! Which spans are timed, the names of their histograms, and the busy/idle
//! accounting of a span that is entered and exited many times.

use vstd::prelude::*;

verus! {

/// Whether two strings are equal.
pub fn str_eq(a: &str, b: &str) -> (r: bool)
    ensures
        r <==> a@ == b@,
{
    let n = a.unicode_len();
    if n != b.unicode_len() {
        return false;
    }
    let mut i: usize = 0;
    while i < n
        invariant
            n == a@.len(),
            a@.len() == b@.len(),
            i <= n,
            forall|k: int| 0 <= k < i ==> a@[k] == b@[k],
        decreases n - i,
    {
        if a.get_char(i) != b.get_char(i) {
            return false;
        }
        i = i + 1;
    }
    assert(a@ =~= b@);
    true
}

/// Whether `names` holds `name`.
pub open spec fn names_include(names: Seq<String>, name: Seq<char>) -> bool {
    exists|i: int| 0 <= i < names.len() && (#[trigger] names[i])@ == name
}

fn names_contain(names: &Vec<String>, name: &str) -> (r: bool)
    ensures
        r == names_include(names@, name@),
{
    let mut i: usize = 0;
    while i < names.len()
        invariant
            i <= names@.len(),
            forall|k: int| 0 <= k < i ==> (#[trigger] names@[k])@ != name@,
        decreases names@.len() - i,
    {
        if str_eq(names[i].as_str(), name) {
            assert(names@[i as int]@ == name@);
            return true;
        }
        i = i + 1;
    }
    false
}

/// The spans whose timings are recorded.
#[derive(Debug)]
pub enum TrackedSpans {
    All,
    Specific(Vec<String>),
}

impl TrackedSpans {
    /// Whether the span named `name` is recorded.
    pub open spec fn tracks(&self, name: Seq<char>) -> bool {
        match self {
            TrackedSpans::All => true,
            TrackedSpans::Specific(names) => names_include(names@, name),
        }
    }

    pub fn contains(&self, span_name: &str) -> (r: bool)
        ensures
            r == self.tracks(span_name@),
    {
        match self {
            TrackedSpans::All => true,
            TrackedSpans::Specific(names) => names_contain(names, span_name),
        }
    }

    /// Tracks exactly the spans named in `spans`.
    pub fn from_names(spans: &[&str]) -> (r: TrackedSpans)
        ensures
            forall|name: Seq<char>|
                r.tracks(name) <==> exists|i: int|
                    0 <= i < spans@.len() && (#[trigger] spans@[i])@ == name,
    {
        let mut names: Vec<String> = Vec::new();
        let mut i: usize = 0;
        while i < spans.len()
            invariant
                i <= spans@.len(),
                names@.len() == i,
                forall|k: int| 0 <= k < i ==> (#[trigger] names@[k])@ == spans@[k]@,
            decreases spans@.len() - i,
        {
            names.push(String::from_str(spans[i]));
            i = i + 1;
        }
        let ghost nv = names@;
        assert forall|name: Seq<char>|
            names_include(nv, name) <==> exists|i: int|
                0 <= i < spans@.len() && (#[trigger] spans@[i])@ == name by {
            if names_include(nv, name) {
                let k = choose|k: int| 0 <= k < nv.len() && (#[trigger] nv[k])@ == name;
                assert(spans@[k]@ == name);
            }
            if exists|i: int| 0 <= i < spans@.len() && (#[trigger] spans@[i])@ == name {
                let k = choose|k: int| 0 <= k < spans@.len() && (#[trigger] spans@[k])@ == name;
                assert(nv[k]@ == name);
            }
        }
        TrackedSpans::Specific(names)
    }
}

/// Records the busy and idle time of spans.
#[derive(Debug)]
pub struct FutureHistogramLayer {
    pub tracked_spans: TrackedSpans,
}

impl FutureHistogramLayer {
    pub fn new(tracked_spans: TrackedSpans) -> (r: FutureHistogramLayer)
        ensures
            r.tracked_spans == tracked_spans,
    {
        FutureHistogramLayer { tracked_spans }
    }

    /// A layer that records every span.
    pub fn with_all_spans() -> (r: FutureHistogramLayer)
        ensures
            forall|name: Seq<char>| r.tracked_spans.tracks(name),
    {
        FutureHistogramLayer::new(TrackedSpans::All)
    }

    /// A layer that records only the spans named in `spans`.
    pub fn with_specific_spans(spans: &[&str]) -> (r: FutureHistogramLayer)
        ensures
            forall|name: Seq<char>|
                r.tracked_spans.tracks(name) <==> exists|i: int|
                    0 <= i < spans@.len() && (#[trigger] spans@[i])@ == name,
    {
        FutureHistogramLayer::new(TrackedSpans::from_names(spans))
    }

    /// Whether the span named `span_name` is recorded.
    pub fn is_span_tracked(&self, span_name: &str) -> (r: bool)
        ensures
            r == self.tracked_spans.tracks(span_name@),
    {
        self.tracked_spans.contains(span_name)
    }
}

/// The time a span has spent running and waiting, in microseconds, and the
/// instant of its last change. Sums stop at `u64::MAX`.
#[derive(Clone, Copy, Debug)]
pub struct Timings {
    pub idle: u64,
    pub busy: u64,
    pub last: u64,
}

pub open spec fn elapsed(from: u64, to: u64) -> u64 {
    if to >= from {
        (to - from) as u64
    } else {
        0
    }
}

pub open spec fn sat_add(a: u64, b: u64) -> u64 {
    if a + b > u64::MAX {
        u64::MAX
    } else {
        (a + b) as u64
    }
}

impl Timings {
    /// A span opened at `now`.
    pub fn new(now: u64) -> (r: Timings)
        ensures
            r.idle == 0 && r.busy == 0 && r.last == now,
    {
        Timings { idle: 0, busy: 0, last: now }
    }

    /// The span is entered at `now`: the time since the last change was idle.
    pub fn enter(&mut self, now: u64)
        ensures
            final(self).idle == sat_add(old(self).idle, elapsed(old(self).last, now)),
            final(self).busy == old(self).busy,
            final(self).last == now,
    {
        let d = if now >= self.last { now - self.last } else { 0 };
        self.idle = self.idle.saturating_add(d);
        self.last = now;
    }

    /// The span is exited at `now`: the time since the last change was busy.
    pub fn exit(&mut self, now: u64)
        ensures
            final(self).busy == sat_add(old(self).busy, elapsed(old(self).last, now)),
            final(self).idle == old(self).idle,
            final(self).last == now,
    {
        let d = if now >= self.last { now - self.last } else { 0 };
        self.busy = self.busy.saturating_add(d);
        self.last = now;
    }

    /// The span closes at `now`: its busy and idle totals, the time since the
    /// last change counted as idle.
    pub fn close(&self, now: u64) -> (r: (u64, u64))
        ensures
            r.0 == self.busy,
            r.1 == sat_add(self.idle, elapsed(self.last, now)),
    {
        let d = if now >= self.last { now - self.last } else { 0 };
        (self.busy, self.idle.saturating_add(d))
    }
}

/// The operations whose timings the enclave gateway records.
#[derive(Clone, Copy, Debug, PartialEq, Eq, Structural)]
pub enum FutureTimingMetric {
    BuildingVsocksConnection,
    SendingTeeRequest,
    Health,
    GenerateProof,
    TeePublicKey,
}

impl FutureTimingMetric {
    /// The span name of the metric.
    pub open spec fn spec_name(self) -> Seq<char> {
        match self {
            FutureTimingMetric::BuildingVsocksConnection => "Building_VSOCK_connection"@,
            FutureTimingMetric::SendingTeeRequest => "Sending_TEE_request"@,
            FutureTimingMetric::Health => "health"@,
            FutureTimingMetric::GenerateProof => "generate_proof"@,
            FutureTimingMetric::TeePublicKey => "tee_public_key"@,
        }
    }

    pub fn name(&self) -> (r: &'static str)
        ensures
            r@ == self.spec_name(),
    {
        match self {
            FutureTimingMetric::BuildingVsocksConnection => "Building_VSOCK_connection",
            FutureTimingMetric::SendingTeeRequest => "Sending_TEE_request",
            FutureTimingMetric::Health => "health",
            FutureTimingMetric::GenerateProof => "generate_proof",
            FutureTimingMetric::TeePublicKey => "tee_public_key",
        }
    }

    /// The metric whose span name is `name`.
    pub fn by_name(name: &str) -> (r: Option<FutureTimingMetric>)
        ensures
            r is Some <==> exists|m: FutureTimingMetric| m.spec_name() == name@,
            r is Some ==> r->Some_0.spec_name() == name@,
    {
        proof {
            reveal_strlit("Building_VSOCK_connection");
            reveal_strlit("Sending_TEE_request");
            reveal_strlit("health");
            reveal_strlit("generate_proof");
            reveal_strlit("tee_public_key");
        }
        let all = [
            FutureTimingMetric::BuildingVsocksConnection,
            FutureTimingMetric::SendingTeeRequest,
            FutureTimingMetric::Health,
            FutureTimingMetric::GenerateProof,
            FutureTimingMetric::TeePublicKey,
        ];
        let mut i: usize = 0;
        while i < 5
            invariant
                i <= 5,
                all@ == seq![
                    FutureTimingMetric::BuildingVsocksConnection,
                    FutureTimingMetric::SendingTeeRequest,
                    FutureTimingMetric::Health,
                    FutureTimingMetric::GenerateProof,
                    FutureTimingMetric::TeePublicKey,
                ],
                forall|k: int| 0 <= k < i ==> (#[trigger] all@[k]).spec_name() != name@,
            decreases 5 - i,
        {
            let m = all[i];
            if str_eq(m.name(), name) {
                return Some(m);
            }
            i = i + 1;
        }
        proof {
            assert forall|m: FutureTimingMetric| m.spec_name() != name@ by {
                match m {
                    FutureTimingMetric::BuildingVsocksConnection => assert(all@[0] == m),
                    FutureTimingMetric::SendingTeeRequest => assert(all@[1] == m),
                    FutureTimingMetric::Health => assert(all@[2] == m),
                    FutureTimingMetric::GenerateProof => assert(all@[3] == m),
                    FutureTimingMetric::TeePublicKey => assert(all@[4] == m),
                }
            }
        }
        None
    }

    /// The name of the histogram of the metric's busy time.
    pub fn busy_histogram(&self) -> (r: String)
        ensures
            r@ == self.spec_name() + "_busy"@,
    {
        String::from_str(self.name()).concat("_busy")
    }

    /// The name of the histogram of the metric's idle time.
    pub fn idle_histogram_name(&self) -> (r: String)
        ensures
            r@ == self.spec_name() + "_idle"@,
    {
        String::from_str(self.name()).concat("_idle")
    }
}

} // verus!
