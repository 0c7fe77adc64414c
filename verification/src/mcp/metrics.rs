//! Message processing metrics: counters per priority, a sliding window of
//! processing times, and the alerts raised when queues or processing times cross
//! their thresholds.

use crate::mcp::buffer::Priority;
use crate::text::{decimal, push_decimal, push_str};
use vstd::prelude::*;

verus! {

/// Number of processing-time samples kept per priority.
pub const SAMPLE_WINDOW: usize = 100;

/// The priority whose level is `lvl`.
pub open spec fn priority_of(lvl: int) -> Priority {
    if lvl == 0 {
        Priority::Low
    } else if lvl == 1 {
        Priority::Normal
    } else if lvl == 2 {
        Priority::High
    } else {
        Priority::Critical
    }
}

fn priority_at(lvl: usize) -> (p: Priority)
    requires
        lvl < 4,
    ensures
        p == priority_of(lvl as int),
        p.level() == lvl,
{
    if lvl == 0 {
        Priority::Low
    } else if lvl == 1 {
        Priority::Normal
    } else if lvl == 2 {
        Priority::High
    } else {
        Priority::Critical
    }
}

/// The name of a priority as its `Debug` form prints it.
pub open spec fn priority_name(p: Priority) -> Seq<char> {
    match p {
        Priority::Low => "Low"@,
        Priority::Normal => "Normal"@,
        Priority::High => "High"@,
        Priority::Critical => "Critical"@,
    }
}

/// Appends the name of `p`.
pub fn push_priority_name(s: &mut String, p: Priority)
    ensures
        final(s)@ == old(s)@ + priority_name(p),
{
    match p {
        Priority::Low => push_str(s, "Low"),
        Priority::Normal => push_str(s, "Normal"),
        Priority::High => push_str(s, "High"),
        Priority::Critical => push_str(s, "Critical"),
    }
}

/// Sum of a sequence of samples.
pub open spec fn sum(s: Seq<u64>) -> int
    decreases s.len(),
{
    if s.len() == 0 {
        0
    } else {
        sum(s.drop_last()) + s.last()
    }
}

proof fn lemma_sum_bound(s: Seq<u64>)
    ensures
        0 <= sum(s) <= s.len() * (u64::MAX as int),
    decreases s.len(),
{
    if s.len() > 0 {
        lemma_sum_bound(s.drop_last());
    }
}

/// The window after recording `t`: the oldest sample leaves once more than
/// [`SAMPLE_WINDOW`] are held.
pub open spec fn window_after(s: Seq<u64>, t: u64) -> Seq<u64> {
    let w = s.push(t);
    if w.len() > SAMPLE_WINDOW {
        w.drop_first()
    } else {
        w
    }
}

/// Message processing metrics. Times are nanoseconds; timestamps milliseconds since the epoch.
#[derive(Debug, Clone)]
pub struct MessageMetrics {
    /// Total messages processed
    pub total_processed: u64,
    /// Messages processed per priority level, indexed by level
    pub processed_by_priority: Vec<u64>,
    /// Average processing time per priority level, indexed by level
    pub avg_processing_time_ns: Vec<u64>,
    /// Failed message count
    pub failed_count: u64,
    /// Retry count
    pub retry_count: u64,
    /// Current queue sizes by priority level, where reported
    pub queue_sizes: Vec<Option<usize>>,
    /// Last update timestamp
    pub last_updated_ms: u64,
}

impl MessageMetrics {
    /// The shape every metrics record keeps: one entry per priority level.
    pub open spec fn wf(&self) -> bool {
        &&& self.processed_by_priority@.len() == 4
        &&& self.avg_processing_time_ns@.len() == 4
        &&& self.queue_sizes@.len() == 4
    }

    /// Fresh metrics, all zero, with every priority present.
    pub fn new(now_ms: u64) -> (m: Self)
        ensures
            m.wf(),
            m.total_processed == 0,
            m.failed_count == 0,
            m.retry_count == 0,
            m.last_updated_ms == now_ms,
            forall|i: int|
                0 <= i < 4 ==> #[trigger] m.processed_by_priority@[i] == 0
                    && m.avg_processing_time_ns@[i] == 0 && m.queue_sizes@[i] == Some(0usize),
    {
        MessageMetrics {
            total_processed: 0,
            processed_by_priority: vec![0, 0, 0, 0],
            avg_processing_time_ns: vec![0, 0, 0, 0],
            failed_count: 0,
            retry_count: 0,
            queue_sizes: vec![Some(0), Some(0), Some(0), Some(0)],
            last_updated_ms: now_ms,
        }
    }
}

/// Metrics collector for message processing.
#[derive(Debug)]
pub struct MetricsCollector {
    metrics: MessageMetrics,
    samples_low: Vec<u64>,
    samples_normal: Vec<u64>,
    samples_high: Vec<u64>,
    samples_critical: Vec<u64>,
    messages_since_last_calc: u64,
}

impl MetricsCollector {
    /// The current metrics.
    pub closed spec fn spec_metrics(&self) -> MessageMetrics {
        self.metrics
    }

    /// The processing-time samples held for level `lvl`.
    pub closed spec fn samples(&self, lvl: int) -> Seq<u64> {
        if lvl == 0 {
            self.samples_low@
        } else if lvl == 1 {
            self.samples_normal@
        } else if lvl == 2 {
            self.samples_high@
        } else {
            self.samples_critical@
        }
    }

    /// Messages recorded since the throughput was last computed.
    pub closed spec fn pending_count(&self) -> u64 {
        self.messages_since_last_calc
    }

    /// Each window holds at most [`SAMPLE_WINDOW`] samples, and every average is the
    /// average of its window.
    pub closed spec fn wf(&self) -> bool {
        &&& self.metrics.wf()
        &&& self.metrics.total_processed == self.metrics.processed_by_priority@[0]
            + self.metrics.processed_by_priority@[1] + self.metrics.processed_by_priority@[2]
            + self.metrics.processed_by_priority@[3]
        &&& forall|i: int|
            0 <= i < 4 ==> {
                &&& (#[trigger] self.samples(i)).len() <= SAMPLE_WINDOW
                &&& self.samples(i).len() > 0 ==> self.metrics.avg_processing_time_ns@[i] == sum(
                    self.samples(i),
                ) / (self.samples(i).len() as int)
            }
    }

    /// A collector with zeroed metrics and no samples.
    pub fn new(now_ms: u64) -> (c: Self)
        ensures
            c.wf(),
            c.spec_metrics().wf(),
            c.spec_metrics().total_processed == 0,
            c.spec_metrics().failed_count == 0,
            c.spec_metrics().retry_count == 0,
            c.spec_metrics().last_updated_ms == now_ms,
            forall|i: int|
                0 <= i < 4 ==> #[trigger] c.spec_metrics().processed_by_priority@[i] == 0
                    && c.spec_metrics().avg_processing_time_ns@[i] == 0
                    && c.spec_metrics().queue_sizes@[i] == Some(0usize) && c.samples(i).len() == 0,
            c.pending_count() == 0,
    {
        MetricsCollector {
            metrics: MessageMetrics::new(now_ms),
            samples_low: Vec::new(),
            samples_normal: Vec::new(),
            samples_high: Vec::new(),
            samples_critical: Vec::new(),
            messages_since_last_calc: 0,
        }
    }

    /// The current metrics.
    pub fn get_metrics(&self) -> (m: &MessageMetrics)
        ensures
            *m == self.spec_metrics(),
            self.wf() ==> m.wf(),
    {
        &self.metrics
    }

    /// Add a sample to a window and return the window's new average.
    fn window_push(w: &mut Vec<u64>, t: u64) -> (avg: u64)
        requires
            old(w)@.len() <= SAMPLE_WINDOW,
        ensures
            final(w)@ == window_after(old(w)@, t),
            final(w)@.len() <= SAMPLE_WINDOW,
            final(w)@.len() > 0,
            avg == sum(final(w)@) / (final(w)@.len() as int),
    {
        w.push(t);
        if w.len() > SAMPLE_WINDOW {
            w.remove(0);
            assert(w@ =~= old(w)@.push(t).drop_first());
        }
        let n = w.len();
        let mut total: u128 = 0;
        let mut i: usize = 0;
        while i < n
            invariant
                n == w@.len(),
                0 < n <= SAMPLE_WINDOW,
                i <= n,
                total == sum(w@.take(i as int)),
                total <= i * (u64::MAX as int),
            decreases n - i,
        {
            proof {
                assert(w@.take(i as int + 1).drop_last() =~= w@.take(i as int));
            }
            total = total + w[i] as u128;
            i = i + 1;
        }
        assert(w@.take(n as int) =~= w@);
        proof {
            assert((total as int) / (n as int) <= u64::MAX as int) by (nonlinear_arith)
                requires
                    (total as int) <= (n as int) * (u64::MAX as int),
                    n > 0,
            ;
        }
        (total / (n as u128)) as u64
    }

    /// Every processed message is counted under exactly one priority, and the metrics
    /// hold one entry per priority level.
    pub proof fn lemma_total_is_sum_of_levels(&self)
        requires
            self.wf(),
        ensures
            self.spec_metrics().wf(),
            self.spec_metrics().total_processed == self.spec_metrics().processed_by_priority@[0]
                + self.spec_metrics().processed_by_priority@[1]
                + self.spec_metrics().processed_by_priority@[2]
                + self.spec_metrics().processed_by_priority@[3],
    {
    }

    /// Record a successful processing of a message of `priority` that took `time_ns`.
    pub fn record_success(&mut self, priority: Priority, time_ns: u64, now_ms: u64)
        requires
            old(self).wf(),
            old(self).spec_metrics().total_processed < u64::MAX,
            old(self).spec_metrics().processed_by_priority@[priority.level()] < u64::MAX,
            old(self).pending_count() < u64::MAX,
        ensures
            final(self).wf(),
            final(self).spec_metrics().wf(),
            final(self).spec_metrics().total_processed == old(self).spec_metrics().total_processed
                + 1,
            final(self).spec_metrics().processed_by_priority@ == old(self).spec_metrics().processed_by_priority@.update(
                priority.level(),
                (old(self).spec_metrics().processed_by_priority@[priority.level()] + 1) as u64,
            ),
            final(self).samples(priority.level()) == window_after(
                old(self).samples(priority.level()),
                time_ns,
            ),
            forall|i: int|
                0 <= i < 4 && i != priority.level() ==> #[trigger] final(self).samples(i) == old(self).samples(i),
            final(self).spec_metrics().avg_processing_time_ns@[priority.level()] == sum(
                final(self).samples(priority.level()),
            ) / (final(self).samples(priority.level()).len() as int),
            final(self).spec_metrics().failed_count == old(self).spec_metrics().failed_count,
            final(self).spec_metrics().retry_count == old(self).spec_metrics().retry_count,
            final(self).spec_metrics().queue_sizes == old(self).spec_metrics().queue_sizes,
            final(self).spec_metrics().last_updated_ms == now_ms,
            final(self).pending_count() == old(self).pending_count() + 1,
    {
        let lvl = priority.index();
        assert(self.samples(lvl as int).len() <= SAMPLE_WINDOW);
        self.metrics.total_processed = self.metrics.total_processed + 1;
        let c = self.metrics.processed_by_priority[lvl];
        self.metrics.processed_by_priority.set(lvl, c + 1);
        let avg = match priority {
            Priority::Low => Self::window_push(&mut self.samples_low, time_ns),
            Priority::Normal => Self::window_push(&mut self.samples_normal, time_ns),
            Priority::High => Self::window_push(&mut self.samples_high, time_ns),
            Priority::Critical => Self::window_push(&mut self.samples_critical, time_ns),
        };
        self.metrics.avg_processing_time_ns.set(lvl, avg);
        self.messages_since_last_calc = self.messages_since_last_calc + 1;
        self.metrics.last_updated_ms = now_ms;
        assert forall|i: int| 0 <= i < 4 implies {
            &&& (#[trigger] self.samples(i)).len() <= SAMPLE_WINDOW
            &&& self.samples(i).len() > 0 ==> self.metrics.avg_processing_time_ns@[i] == sum(
                self.samples(i),
            ) / (self.samples(i).len() as int)
        } by {
            assert(old(self).samples(i).len() <= SAMPLE_WINDOW);
        }
    }

    proof fn lemma_wf_frame(a: &Self, b: &Self)
        requires
            a.wf(),
            b.metrics.wf(),
            b.metrics.avg_processing_time_ns@ == a.metrics.avg_processing_time_ns@,
            b.metrics.total_processed == a.metrics.total_processed,
            b.metrics.processed_by_priority@ == a.metrics.processed_by_priority@,
            forall|i: int| 0 <= i < 4 ==> #[trigger] b.samples(i) == a.samples(i),
        ensures
            b.wf(),
    {
        assert forall|i: int| 0 <= i < 4 implies {
            &&& (#[trigger] b.samples(i)).len() <= SAMPLE_WINDOW
            &&& b.samples(i).len() > 0 ==> b.metrics.avg_processing_time_ns@[i] == sum(
                b.samples(i),
            ) / (b.samples(i).len() as int)
        } by {
            assert(a.samples(i) == b.samples(i));
        }
    }

    /// Record a failed message processing.
    pub fn record_failure(&mut self, now_ms: u64)
        requires
            old(self).wf(),
            old(self).spec_metrics().failed_count < u64::MAX,
        ensures
            final(self).wf(),
            final(self).spec_metrics().wf(),
            final(self).spec_metrics() == (MessageMetrics {
                failed_count: (old(self).spec_metrics().failed_count + 1) as u64,
                last_updated_ms: now_ms,
                ..old(self).spec_metrics()
            }),
            forall|i: int| 0 <= i < 4 ==> #[trigger] final(self).samples(i) == old(self).samples(i),
            final(self).pending_count() == old(self).pending_count(),
    {
        self.metrics.failed_count = self.metrics.failed_count + 1;
        self.metrics.last_updated_ms = now_ms;
        proof {
            Self::lemma_wf_frame(old(self), self);
        }
    }

    /// Record a message retry.
    pub fn record_retry(&mut self, now_ms: u64)
        requires
            old(self).wf(),
            old(self).spec_metrics().retry_count < u64::MAX,
        ensures
            final(self).wf(),
            final(self).spec_metrics().wf(),
            final(self).spec_metrics() == (MessageMetrics {
                retry_count: (old(self).spec_metrics().retry_count + 1) as u64,
                last_updated_ms: now_ms,
                ..old(self).spec_metrics()
            }),
            forall|i: int| 0 <= i < 4 ==> #[trigger] final(self).samples(i) == old(self).samples(i),
            final(self).pending_count() == old(self).pending_count(),
    {
        self.metrics.retry_count = self.metrics.retry_count + 1;
        self.metrics.last_updated_ms = now_ms;
        proof {
            Self::lemma_wf_frame(old(self), self);
        }
    }

    /// Replace the reported queue sizes, one entry per priority level.
    pub fn update_queue_sizes(&mut self, sizes: Vec<Option<usize>>, now_ms: u64)
        requires
            old(self).wf(),
            sizes@.len() == 4,
        ensures
            final(self).wf(),
            final(self).spec_metrics().wf(),
            final(self).spec_metrics() == (MessageMetrics {
                queue_sizes: sizes,
                last_updated_ms: now_ms,
                ..old(self).spec_metrics()
            }),
            forall|i: int| 0 <= i < 4 ==> #[trigger] final(self).samples(i) == old(self).samples(i),
            final(self).pending_count() == old(self).pending_count(),
    {
        self.metrics.queue_sizes = sizes;
        self.metrics.last_updated_ms = now_ms;
        proof {
            Self::lemma_wf_frame(old(self), self);
        }
    }

    /// Hand out the number of messages recorded since the last call, and start counting again.
    pub fn take_throughput_count(&mut self) -> (n: u64)
        requires
            old(self).wf(),
        ensures
            final(self).wf(),
            final(self).spec_metrics().wf(),
            n == old(self).pending_count(),
            final(self).pending_count() == 0,
            final(self).spec_metrics() == old(self).spec_metrics(),
            forall|i: int| 0 <= i < 4 ==> #[trigger] final(self).samples(i) == old(self).samples(i),
    {
        let n = self.messages_since_last_calc;
        self.messages_since_last_calc = 0;
        proof {
            Self::lemma_wf_frame(old(self), self);
        }
        n
    }
}

/// Thresholds on queue sizes, processing times, throughput and error rate. The
/// throughput (messages per second) and error rate (percent) thresholds are
/// double-precision numbers, held as their bit patterns; the alerts on them are raised
/// by the caller, which computes those rates.
#[derive(Debug, Clone, Copy)]
pub struct AlertThresholds {
    /// Queue size from which a warning is raised
    pub queue_size_warning: usize,
    /// Queue size from which a critical alert is raised
    pub queue_size_critical: usize,
    /// Processing time (ms) from which a warning is raised
    pub processing_time_warning_ms: u64,
    /// Processing time (ms) from which a critical alert is raised
    pub processing_time_critical_ms: u64,
    /// Throughput below which a warning is raised (bits of a double)
    pub min_throughput_warning_bits: u64,
    /// Error rate above which a warning is raised (bits of a double)
    pub error_rate_warning_bits: u64,
}

/// The bit pattern of the double 100.0, the default least throughput.
pub const MIN_THROUGHPUT_BITS: u64 = 0x4059000000000000;

/// The bit pattern of the double 5.0, the default greatest error rate.
pub const ERROR_RATE_BITS: u64 = 0x4014000000000000;

impl Default for AlertThresholds {
    fn default() -> (t: Self)
        ensures
            t.queue_size_warning == 1000,
            t.queue_size_critical == 5000,
            t.processing_time_warning_ms == 1000,
            t.processing_time_critical_ms == 5000,
            t.min_throughput_warning_bits == MIN_THROUGHPUT_BITS,
            t.error_rate_warning_bits == ERROR_RATE_BITS,
    {
        AlertThresholds {
            queue_size_warning: 1000,
            queue_size_critical: 5000,
            processing_time_warning_ms: 1000,
            processing_time_critical_ms: 5000,
            min_throughput_warning_bits: MIN_THROUGHPUT_BITS,
            error_rate_warning_bits: ERROR_RATE_BITS,
        }
    }
}

/// Alert severity levels.
#[derive(Debug, Clone, Copy, PartialEq, Eq, Structural)]
pub enum AlertSeverity {
    Info,
    Warning,
    Critical,
}

/// A message processing alert.
#[derive(Debug, Clone)]
pub struct ProcessingAlert {
    /// Alert message
    pub message: String,
    /// Alert severity
    pub severity: AlertSeverity,
    /// When the alert was raised (milliseconds since the epoch)
    pub timestamp_ms: u64,
}

/// The severity and text of an alert.
pub open spec fn alert_view(a: ProcessingAlert) -> (AlertSeverity, Seq<char>) {
    (a.severity, a.message@)
}

/// The alert on a queue of level `lvl` holding `size` messages, if any.
pub open spec fn queue_alert(lvl: int, size: Option<usize>, th: AlertThresholds) -> Option<
    (AlertSeverity, Seq<char>),
> {
    match size {
        None => None,
        Some(n) => if n >= th.queue_size_critical {
            Some(
                (
                    AlertSeverity::Critical,
                    priority_name(priority_of(lvl)) + " priority queue is critically full ("@
                        + decimal(n as nat) + " messages)"@,
                ),
            )
        } else if n >= th.queue_size_warning {
            Some(
                (
                    AlertSeverity::Warning,
                    priority_name(priority_of(lvl)) + " priority queue is near capacity ("@
                        + decimal(n as nat) + " messages)"@,
                ),
            )
        } else {
            None
        },
    }
}

/// The alert on an average processing time of `ns` nanoseconds at level `lvl`, if any.
pub open spec fn time_alert(lvl: int, ns: u64, th: AlertThresholds) -> Option<
    (AlertSeverity, Seq<char>),
> {
    let ms = ns / 1_000_000;
    if ms >= th.processing_time_critical_ms {
        Some(
            (
                AlertSeverity::Critical,
                priority_name(priority_of(lvl)) + " priority messages are processing very slowly ("@
                    + decimal(ms as nat) + " ms)"@,
            ),
        )
    } else if ms >= th.processing_time_warning_ms {
        Some(
            (
                AlertSeverity::Warning,
                priority_name(priority_of(lvl)) + " priority messages are processing slowly ("@
                    + decimal(ms as nat) + " ms)"@,
            ),
        )
    } else {
        None
    }
}

/// A queue raises a critical alert exactly when it holds at least
/// `queue_size_critical` messages, a warning exactly when it holds at least
/// `queue_size_warning` but fewer than `queue_size_critical`, and no alert otherwise or
/// when its size is not reported.
pub proof fn law_queue_alert_severity(lvl: int, n: usize, th: AlertThresholds)
    ensures
        (queue_alert(lvl, Some(n), th) matches Some(a) && a.0 == AlertSeverity::Critical) == (n
            >= th.queue_size_critical),
        (queue_alert(lvl, Some(n), th) matches Some(a) && a.0 == AlertSeverity::Warning) == (
        th.queue_size_warning <= n < th.queue_size_critical),
        queue_alert(lvl, Some(n), th) is None == (n < th.queue_size_warning && n < th.queue_size_critical),
        queue_alert(lvl, None, th) is None,
        !(queue_alert(lvl, Some(n), th) matches Some(a) && a.0 == AlertSeverity::Info),
{
}

/// Messages of a level raise a critical alert exactly when their average processing
/// time, in whole milliseconds, is at least `processing_time_critical_ms`, a warning
/// exactly when it is at least `processing_time_warning_ms` but below the critical one,
/// and no alert otherwise.
pub proof fn law_time_alert_severity(lvl: int, ns: u64, th: AlertThresholds)
    ensures
        (time_alert(lvl, ns, th) matches Some(a) && a.0 == AlertSeverity::Critical) == (ns / 1_000_000
            >= th.processing_time_critical_ms),
        (time_alert(lvl, ns, th) matches Some(a) && a.0 == AlertSeverity::Warning) == (
        th.processing_time_warning_ms <= ns / 1_000_000 < th.processing_time_critical_ms),
        time_alert(lvl, ns, th) is None == (ns / 1_000_000 < th.processing_time_warning_ms && ns
            / 1_000_000 < th.processing_time_critical_ms),
        !(time_alert(lvl, ns, th) matches Some(a) && a.0 == AlertSeverity::Info),
{
}

/// The elements of an option, as a sequence of zero or one.
pub open spec fn opt_seq<T>(o: Option<T>) -> Seq<T> {
    match o {
        None => Seq::empty(),
        Some(x) => seq![x],
    }
}

/// Queue alerts for the levels below `n`, in level order.
pub open spec fn queue_alerts_upto(m: MessageMetrics, th: AlertThresholds, n: int) -> Seq<
    (AlertSeverity, Seq<char>),
>
    decreases n,
{
    if n <= 0 {
        Seq::empty()
    } else {
        queue_alerts_upto(m, th, n - 1) + opt_seq(queue_alert(n - 1, m.queue_sizes@[n - 1], th))
    }
}

/// Processing-time alerts for the levels below `n`, in level order.
pub open spec fn time_alerts_upto(m: MessageMetrics, th: AlertThresholds, n: int) -> Seq<
    (AlertSeverity, Seq<char>),
>
    decreases n,
{
    if n <= 0 {
        Seq::empty()
    } else {
        time_alerts_upto(m, th, n - 1) + opt_seq(
            time_alert(n - 1, m.avg_processing_time_ns@[n - 1], th),
        )
    }
}

/// All alerts on queue sizes, then all on processing times.
pub open spec fn expected_alerts(m: MessageMetrics, th: AlertThresholds) -> Seq<
    (AlertSeverity, Seq<char>),
> {
    queue_alerts_upto(m, th, 4) + time_alerts_upto(m, th, 4)
}

/// The alerts come level by level, first those on the queues of levels 0 to 3, then
/// those on the processing times of levels 0 to 3, each level giving at most one.
pub proof fn law_alerts_in_level_order(m: MessageMetrics, th: AlertThresholds)
    ensures
        expected_alerts(m, th) == opt_seq(queue_alert(0, m.queue_sizes@[0], th)) + opt_seq(
            queue_alert(1, m.queue_sizes@[1], th),
        ) + opt_seq(queue_alert(2, m.queue_sizes@[2], th)) + opt_seq(
            queue_alert(3, m.queue_sizes@[3], th),
        ) + opt_seq(time_alert(0, m.avg_processing_time_ns@[0], th)) + opt_seq(
            time_alert(1, m.avg_processing_time_ns@[1], th),
        ) + opt_seq(time_alert(2, m.avg_processing_time_ns@[2], th)) + opt_seq(
            time_alert(3, m.avg_processing_time_ns@[3], th),
        ),
{
    reveal_with_fuel(queue_alerts_upto, 5);
    reveal_with_fuel(time_alerts_upto, 5);
    assert(queue_alerts_upto(m, th, 0) =~= Seq::empty());
    assert(time_alerts_upto(m, th, 0) =~= Seq::empty());
    let q = queue_alerts_upto(m, th, 4);
    let t = time_alerts_upto(m, th, 4);
    let q0 = opt_seq(queue_alert(0, m.queue_sizes@[0], th));
    let q1 = opt_seq(queue_alert(1, m.queue_sizes@[1], th));
    let q2 = opt_seq(queue_alert(2, m.queue_sizes@[2], th));
    let q3 = opt_seq(queue_alert(3, m.queue_sizes@[3], th));
    let t0 = opt_seq(time_alert(0, m.avg_processing_time_ns@[0], th));
    let t1 = opt_seq(time_alert(1, m.avg_processing_time_ns@[1], th));
    let t2 = opt_seq(time_alert(2, m.avg_processing_time_ns@[2], th));
    let t3 = opt_seq(time_alert(3, m.avg_processing_time_ns@[3], th));
    assert(q =~= q0 + q1 + q2 + q3);
    assert(t =~= t0 + t1 + t2 + t3);
    assert(q + t =~= q0 + q1 + q2 + q3 + t0 + t1 + t2 + t3);
}

fn make_alert(p: Priority, middle: &str, n: u64, tail: &str, severity: AlertSeverity, now_ms: u64) -> (a: ProcessingAlert)
    ensures
        a.message@ == priority_name(p) + middle@ + decimal(n as nat) + tail@,
        a.severity == severity,
        a.timestamp_ms == now_ms,
{
    let mut s = String::new();
    push_priority_name(&mut s, p);
    push_str(&mut s, middle);
    push_decimal(&mut s, n);
    push_str(&mut s, tail);
    assert(s@ =~= priority_name(p) + middle@ + decimal(n as nat) + tail@);
    ProcessingAlert { message: s, severity, timestamp_ms: now_ms }
}

/// Checks metrics against thresholds.
#[derive(Debug)]
pub struct AlertChecker {
    /// Alert thresholds
    pub thresholds: AlertThresholds,
}

impl AlertChecker {
    pub fn new(thresholds: AlertThresholds) -> (c: Self)
        ensures
            c.thresholds == thresholds,
    {
        AlertChecker { thresholds }
    }

    /// Alerts on queue sizes (for each reported level) and on average processing
    /// times, in level order, each stamped with `now_ms`.
    pub fn check_alerts(&self, metrics: &MessageMetrics, now_ms: u64) -> (alerts: Vec<ProcessingAlert>)
        requires
            metrics.wf(),
        ensures
            alerts@.map_values(|a: ProcessingAlert| alert_view(a)) == expected_alerts(
                *metrics,
                self.thresholds,
            ),
            forall|k: int| 0 <= k < alerts@.len() ==> (#[trigger] alerts@[k]).timestamp_ms == now_ms,
    {
        let th = &self.thresholds;
        let mut alerts: Vec<ProcessingAlert> = Vec::new();
        let mut lvl: usize = 0;
        while lvl < 4
            invariant
                lvl <= 4,
                metrics.wf(),
                *th == self.thresholds,
                alerts@.map_values(|a: ProcessingAlert| alert_view(a)) == queue_alerts_upto(
                    *metrics,
                    *th,
                    lvl as int,
                ),
                forall|k: int| 0 <= k < alerts@.len() ==> (#[trigger] alerts@[k]).timestamp_ms == now_ms,
            decreases 4 - lvl,
        {
            let p = priority_at(lvl);
            let ghost before = alerts@;
            match metrics.queue_sizes[lvl] {
                None => {},
                Some(size) => {
                    if size >= th.queue_size_critical {
                        let a = make_alert(
                            p,
                            " priority queue is critically full (",
                            size as u64,
                            " messages)",
                            AlertSeverity::Critical,
                            now_ms,
                        );
                        alerts.push(a);
                    } else if size >= th.queue_size_warning {
                        let a = make_alert(
                            p,
                            " priority queue is near capacity (",
                            size as u64,
                            " messages)",
                            AlertSeverity::Warning,
                            now_ms,
                        );
                        alerts.push(a);
                    }
                },
            }
            assert(alerts@.map_values(|a: ProcessingAlert| alert_view(a)) =~= before.map_values(
                |a: ProcessingAlert| alert_view(a),
            ) + opt_seq(queue_alert(lvl as int, metrics.queue_sizes@[lvl as int], *th)));
            lvl = lvl + 1;
        }
        let ghost qa = alerts@;
        let mut lvl: usize = 0;
        while lvl < 4
            invariant
                lvl <= 4,
                metrics.wf(),
                *th == self.thresholds,
                qa.map_values(|a: ProcessingAlert| alert_view(a)) == queue_alerts_upto(
                    *metrics,
                    *th,
                    4,
                ),
                alerts@.map_values(|a: ProcessingAlert| alert_view(a)) == qa.map_values(
                    |a: ProcessingAlert| alert_view(a),
                ) + time_alerts_upto(*metrics, *th, lvl as int),
                forall|k: int| 0 <= k < alerts@.len() ==> (#[trigger] alerts@[k]).timestamp_ms == now_ms,
            decreases 4 - lvl,
        {
            let p = priority_at(lvl);
            let ghost before = alerts@;
            let ms = metrics.avg_processing_time_ns[lvl] / 1_000_000;
            if ms >= th.processing_time_critical_ms {
                let a = make_alert(
                    p,
                    " priority messages are processing very slowly (",
                    ms,
                    " ms)",
                    AlertSeverity::Critical,
                    now_ms,
                );
                alerts.push(a);
            } else if ms >= th.processing_time_warning_ms {
                let a = make_alert(
                    p,
                    " priority messages are processing slowly (",
                    ms,
                    " ms)",
                    AlertSeverity::Warning,
                    now_ms,
                );
                alerts.push(a);
            }
            assert(alerts@.map_values(|a: ProcessingAlert| alert_view(a)) =~= before.map_values(
                |a: ProcessingAlert| alert_view(a),
            ) + opt_seq(time_alert(lvl as int, metrics.avg_processing_time_ns@[lvl as int], *th)));
            lvl = lvl + 1;
        }
        alerts
    }
}

} // verus!
