//! The decisions of the live-capture loop. The caller polls the capture
//! device, hands each outcome to a [`CaptureLoop`], and does what it answers.

use vstd::prelude::*;

verus! {

/// Whether `needle` occurs in `hay` as consecutive characters.
pub open spec fn contains_text(hay: Seq<char>, needle: Seq<char>) -> bool {
    exists|i: int|
        0 <= i && i + needle.len() <= hay.len() && #[trigger] hay.subrange(i, i + needle.len())
            == needle
}

fn occurs_at(hay: &str, needle: &str, i: usize, n: usize) -> (r: bool)
    requires
        n == needle@.len(),
        i + n <= hay@.len(),
        hay@.len() <= usize::MAX,
    ensures
        r == (hay@.subrange(i as int, i + n) == needle@),
{
    let mut k: usize = 0;
    while k < n
        invariant
            k <= n,
            n == needle@.len(),
            i + n <= hay@.len(),
            hay@.len() <= usize::MAX,
            forall|j: int| 0 <= j < k ==> hay@[i + j] == needle@[j],
        decreases n - k,
    {
        if hay.get_char(i + k) != needle.get_char(k) {
            assert(hay@.subrange(i as int, i + n)[k as int] != needle@[k as int]);
            return false;
        }
        k = k + 1;
    }
    assert(hay@.subrange(i as int, i + n) =~= needle@);
    true
}

/// Whether `needle` occurs in `hay`.
pub fn contains(hay: &str, needle: &str) -> (r: bool)
    ensures
        r == contains_text(hay@, needle@),
{
    let h = hay.unicode_len();
    let n = needle.unicode_len();
    if n > h {
        return false;
    }
    if n == 0 {
        assert(hay@.subrange(0, 0 + needle@.len() as int) =~= needle@);
        return true;
    }
    let mut i: usize = 0;
    while i <= h - n
        invariant
            0 < n <= h,
            h == hay@.len(),
            n == needle@.len(),
            i <= h - n + 1,
            forall|j: int| 0 <= j < i ==> #[trigger] hay@.subrange(j, j + n) != needle@,
        decreases h - i,
    {
        if occurs_at(hay, needle, i, n) {
            return true;
        }
        i = i + 1;
    }
    false
}

/// The device's packet counters, as the capture library reports them.
#[derive(Debug, Clone, Copy, PartialEq, Eq)]
pub struct CaptureStats {
    pub received: u32,
    pub dropped: u32,
    pub if_dropped: u32,
}

/// Counters that changed since the last report, and how many received
/// packets have not been processed yet.
#[derive(Debug, Clone, Copy)]
pub struct StatsReport {
    pub stats: CaptureStats,
    pub unprocessed: u64,
}

/// What one attempt to read a packet came to.
#[derive(Debug, Clone, Copy, PartialEq, Eq)]
pub enum ReadOutcome {
    /// A packet was read.
    Packet,
    /// No packet was ready.
    NotAvailable,
    /// The read timed out.
    TimedOut,
    /// The capture was interrupted.
    Interrupted,
    /// The process may not capture.
    NotPermitted,
    /// Any other failure.
    Failed,
}

/// What the loop does next.
#[derive(Debug, Clone, Copy, PartialEq, Eq)]
pub enum LoopStep {
    /// Poll again at once.
    Continue,
    /// Sleep briefly, then poll again.
    Wait,
    /// Leave the loop.
    Stop,
}

/// The outcome for a failure that the capture library reports with a message.
pub open spec fn message_outcome(msg: Seq<char>) -> ReadOutcome {
    if contains_text(msg, "Packets are not available"@) {
        ReadOutcome::NotAvailable
    } else if contains_text(msg, "Interrupted"@) {
        ReadOutcome::Interrupted
    } else if contains_text(msg, "Operation not permitted"@) {
        ReadOutcome::NotPermitted
    } else {
        ReadOutcome::Failed
    }
}

/// Classifies a failure that the capture library reports with a message.
pub fn classify_message(msg: &str) -> (r: ReadOutcome)
    ensures
        r == message_outcome(msg@),
{
    if contains(msg, "Packets are not available") {
        ReadOutcome::NotAvailable
    } else if contains(msg, "Interrupted") {
        ReadOutcome::Interrupted
    } else if contains(msg, "Operation not permitted") {
        ReadOutcome::NotPermitted
    } else {
        ReadOutcome::Failed
    }
}

/// The step that follows a read outcome.
pub open spec fn step_after(o: ReadOutcome) -> LoopStep {
    match o {
        ReadOutcome::Packet => LoopStep::Continue,
        ReadOutcome::NotAvailable | ReadOutcome::TimedOut => LoopStep::Wait,
        _ => LoopStep::Stop,
    }
}

/// Packets received but not yet processed; none where more were processed.
pub open spec fn unprocessed(received: u32, count: u64) -> u64 {
    if received >= count {
        (received - count) as u64
    } else {
        0
    }
}

/// The state of a capture loop: packets processed, and the counters last reported.
pub struct CaptureLoop {
    pub count: u64,
    pub last_stats: Option<CaptureStats>,
}

impl CaptureLoop {
    /// A loop that has processed nothing and reported nothing.
    pub fn new() -> (r: CaptureLoop)
        ensures
            r.count == 0,
            r.last_stats is None,
    {
        CaptureLoop { count: 0, last_stats: None }
    }

    /// Takes fresh counters: a report where they differ from the last ones
    /// reported, nothing where they are the same.
    pub fn on_stats(&mut self, stats: CaptureStats) -> (r: Option<StatsReport>)
        ensures
            final(self).count == old(self).count,
            final(self).last_stats == Some(stats),
            old(self).last_stats == Some(stats) ==> r is None,
            old(self).last_stats != Some(stats) ==> r == Some(
                (StatsReport { stats, unprocessed: unprocessed(stats.received, old(self).count) }),
            ),
    {
        let same = match self.last_stats {
            Some(last) => last.received == stats.received && last.dropped == stats.dropped
                && last.if_dropped == stats.if_dropped,
            None => false,
        };
        if same {
            return None;
        }
        self.last_stats = Some(stats);
        let received = stats.received as u64;
        let unprocessed = if received >= self.count {
            received - self.count
        } else {
            0
        };
        Some(StatsReport { stats, unprocessed })
    }

    /// Takes the outcome of a read: counts a packet, and says what to do next.
    pub fn on_read(&mut self, outcome: ReadOutcome) -> (r: LoopStep)
        ensures
            r == step_after(outcome),
            final(self).last_stats == old(self).last_stats,
            final(self).count == if outcome == ReadOutcome::Packet && old(self).count < u64::MAX {
                old(self).count + 1
            } else {
                old(self).count as int
            },
    {
        match outcome {
            ReadOutcome::Packet => {
                if self.count < u64::MAX {
                    self.count = self.count + 1;
                }
                LoopStep::Continue
            },
            ReadOutcome::NotAvailable | ReadOutcome::TimedOut => LoopStep::Wait,
            _ => LoopStep::Stop,
        }
    }
}

/// How the program captures.
#[derive(Debug, Clone, Copy, PartialEq, Eq)]
pub enum CaptureMode {
    /// Decode and log every frame.
    Basic,
    /// As basic, and also have the first packet's security analysed.
    Ai,
}

/// The mode for a menu choice: 1 is basic, 2 is analysis, anything else none.
pub fn select_mode(choice: u8) -> (r: Option<CaptureMode>)
    ensures
        choice == 1 ==> r == Some(CaptureMode::Basic),
        choice == 2 ==> r == Some(CaptureMode::Ai),
        choice != 1 && choice != 2 ==> r is None,
{
    match choice {
        1 => Some(CaptureMode::Basic),
        2 => Some(CaptureMode::Ai),
        _ => None,
    }
}

} // verus!
