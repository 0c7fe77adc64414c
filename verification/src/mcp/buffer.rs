//! Priority message buffer: one FIFO queue per priority level, a bounded total
//! size, a maximum payload size and time-based expiry of old messages.

use std::collections::VecDeque;
use vstd::prelude::*;

verus! {

/// Message priority levels, from lowest to highest.
#[derive(Debug, Clone, Copy, PartialEq, Eq, Structural, Hash)]
pub enum Priority {
    Low,
    Normal,
    High,
    Critical,
}

impl Priority {
    /// The level of the priority: 0 for `Low` up to 3 for `Critical`.
    pub open spec fn level(self) -> int {
        match self {
            Priority::Low => 0,
            Priority::Normal => 1,
            Priority::High => 2,
            Priority::Critical => 3,
        }
    }

    /// The level of the priority as an index.
    pub fn index(&self) -> (i: usize)
        ensures
            i == self.level(),
    {
        match self {
            Priority::Low => 0,
            Priority::Normal => 1,
            Priority::High => 2,
            Priority::Critical => 3,
        }
    }
}

/// A message held in the buffer. Times are milliseconds since the Unix epoch.
#[derive(Debug, Clone)]
pub struct BufferedMessage {
    /// Unique message ID
    pub id: u128,
    /// Message payload
    pub payload: Vec<u8>,
    /// Message priority
    pub priority: Priority,
    /// When the message was created
    pub created_at_ms: u64,
    /// Number of delivery attempts
    pub attempts: u32,
    /// Maximum number of delivery attempts
    pub max_attempts: u32,
    /// Optional delay before processing
    pub delay_until_ms: Option<u64>,
}

/// Configuration for the message buffer. Durations are in milliseconds.
#[derive(Debug, Clone, Copy)]
pub struct BufferConfig {
    /// Maximum buffer capacity
    pub capacity: usize,
    /// Maximum message size in bytes
    pub max_message_size: usize,
    /// Message time to live
    pub message_ttl_ms: u64,
    /// Maximum delivery attempts
    pub max_attempts: u32,
    /// Cleanup interval
    pub cleanup_interval_ms: u64,
}

impl Default for BufferConfig {
    fn default() -> (c: Self)
        ensures
            c.capacity == 10000,
            c.max_message_size == 1024 * 1024,
            c.message_ttl_ms == 3_600_000,
            c.max_attempts == 3,
            c.cleanup_interval_ms == 60_000,
    {
        BufferConfig {
            capacity: 10000,
            max_message_size: 1024 * 1024,
            message_ttl_ms: 3_600_000,
            max_attempts: 3,
            cleanup_interval_ms: 60_000,
        }
    }
}

/// Total number of messages in the four queues.
pub open spec fn total(q: Seq<Seq<BufferedMessage>>) -> int {
    (q[0].len() + q[1].len() + q[2].len() + q[3].len()) as int
}

/// Every message sits in the queue of its own priority.
pub open spec fn levels_consistent(q: Seq<Seq<BufferedMessage>>) -> bool {
    forall|i: int, k: int|
        0 <= i < 4 && 0 <= k < q[i].len() ==> (#[trigger] q[i][k]).priority.level() == i
}

/// Queues after appending `m` to the queue of its priority.
pub open spec fn pushed(q: Seq<Seq<BufferedMessage>>, m: BufferedMessage) -> Seq<
    Seq<BufferedMessage>,
> {
    q.update(m.priority.level(), q[m.priority.level()].push(m))
}

/// Whether a message created at `created_at` is still alive at `now` under `ttl`.
pub open spec fn alive(created_at: u64, now: u64, ttl: u64) -> bool {
    created_at <= now && now - created_at < ttl
}

/// The messages of `s` that are still alive at `now`.
pub open spec fn alive_only(s: Seq<BufferedMessage>, now: u64, ttl: u64) -> Seq<BufferedMessage> {
    s.filter(|m: BufferedMessage| alive(m.created_at_ms, now, ttl))
}

/// How many messages at the front of `s` have expired at `now`: the position of the
/// first live one, or the length of `s` when none is live.
pub open spec fn first_alive(s: Seq<BufferedMessage>, now: u64, ttl: u64) -> nat
    decreases s.len(),
{
    if s.len() == 0 {
        0
    } else if alive(s[0].created_at_ms, now, ttl) {
        0
    } else {
        1 + first_alive(s.drop_first(), now, ttl)
    }
}

/// What taking from queue `s` at `now` gives: its first live message, if any.
pub open spec fn taken(s: Seq<BufferedMessage>, now: u64, ttl: u64) -> Option<BufferedMessage> {
    let k = first_alive(s, now, ttl);
    if k < s.len() {
        Some(s[k as int])
    } else {
        None
    }
}

/// Queue `s` after taking from it at `now`: the expired messages ahead of the first
/// live one are dropped with it; with no live one, the queue is emptied.
pub open spec fn after_take(s: Seq<BufferedMessage>, now: u64, ttl: u64) -> Seq<BufferedMessage> {
    let k = first_alive(s, now, ttl);
    if k < s.len() {
        s.skip(k as int + 1)
    } else {
        Seq::empty()
    }
}

/// `first_alive` is the position of the first live message: every message before it
/// has expired.
proof fn lemma_first_alive(s: Seq<BufferedMessage>, now: u64, ttl: u64)
    ensures
        first_alive(s, now, ttl) <= s.len(),
        forall|j: int| 0 <= j < first_alive(s, now, ttl) ==> !alive(#[trigger] s[j].created_at_ms, now, ttl),
        first_alive(s, now, ttl) < s.len() ==> alive(s[first_alive(s, now, ttl) as int].created_at_ms, now, ttl),
    decreases s.len(),
{
    if s.len() > 0 && !alive(s[0].created_at_ms, now, ttl) {
        lemma_first_alive(s.drop_first(), now, ttl);
        assert forall|j: int| 0 <= j < first_alive(s, now, ttl) implies !alive(#[trigger] s[j].created_at_ms, now, ttl) by {
            if j > 0 {
                assert(s[j] == s.drop_first()[j - 1]);
            }
        }
    }
}

/// A position with every message before it expired and a live one at it (or at the end)
/// is `first_alive`.
proof fn lemma_first_alive_at(s: Seq<BufferedMessage>, now: u64, ttl: u64, i: int)
    requires
        0 <= i <= s.len(),
        forall|j: int| 0 <= j < i ==> !alive(#[trigger] s[j].created_at_ms, now, ttl),
        i < s.len() ==> alive(s[i].created_at_ms, now, ttl),
    ensures
        first_alive(s, now, ttl) == i,
{
    lemma_first_alive(s, now, ttl);
    let k = first_alive(s, now, ttl) as int;
    if k < i {
        assert(!alive(s[k].created_at_ms, now, ttl));
    } else if k > i {
        assert(!alive(s[i].created_at_ms, now, ttl));
    }
}

/// The highest level whose queue holds a live message at `now`, or -1.
pub open spec fn highest_alive(q: Seq<Seq<BufferedMessage>>, now: u64, ttl: u64) -> int {
    if taken(q[3], now, ttl) is Some {
        3
    } else if taken(q[2], now, ttl) is Some {
        2
    } else if taken(q[1], now, ttl) is Some {
        1
    } else if taken(q[0], now, ttl) is Some {
        0
    } else {
        -1
    }
}

/// What `pop_any` takes at `now`: the first live message of the highest level that
/// has one.
pub open spec fn pop_any_taken(q: Seq<Seq<BufferedMessage>>, now: u64, ttl: u64) -> Option<BufferedMessage> {
    let h = highest_alive(q, now, ttl);
    if h < 0 {
        None
    } else {
        taken(q[h], now, ttl)
    }
}

/// Queues after `pop_any` at `now`: the levels above the one taken from hold only
/// expired messages, which are dropped; the level taken from loses the message and
/// the expired ones ahead of it; the levels below are left alone.
pub open spec fn pop_any_after(q: Seq<Seq<BufferedMessage>>, now: u64, ttl: u64) -> Seq<Seq<BufferedMessage>> {
    let h = highest_alive(q, now, ttl);
    Seq::new(4, |i: int| if i >= h { after_take(q[i], now, ttl) } else { q[i] })
}

/// Filtering keeps every message's priority level.
proof fn lemma_alive_only_levels(s: Seq<BufferedMessage>, lvl: int, now: u64, ttl: u64)
    requires
        forall|k: int| 0 <= k < s.len() ==> (#[trigger] s[k]).priority.level() == lvl,
    ensures
        forall|k: int|
            0 <= k < alive_only(s, now, ttl).len() ==> (#[trigger] alive_only(s, now, ttl)[k]).priority.level()
                == lvl,
{
    let f = alive_only(s, now, ttl);
    assert forall|k: int| 0 <= k < f.len() implies (#[trigger] f[k]).priority.level() == lvl by {
        assert(f.contains(f[k]));
        s.lemma_filter_contains_rev(|m: BufferedMessage| alive(m.created_at_ms, now, ttl), f[k]);
    }
}

/// Message buffer with one FIFO queue per priority.
#[derive(Debug)]
pub struct MessageBuffer {
    low: VecDeque<BufferedMessage>,
    normal: VecDeque<BufferedMessage>,
    high: VecDeque<BufferedMessage>,
    critical: VecDeque<BufferedMessage>,
    /// Buffer configuration
    pub config: BufferConfig,
    size: usize,
}

impl MessageBuffer {
    /// The four queues, indexed by priority level.
    pub closed spec fn queues(&self) -> Seq<Seq<BufferedMessage>> {
        seq![self.low@, self.normal@, self.high@, self.critical@]
    }

    /// The buffer's configuration.
    pub closed spec fn spec_config(&self) -> BufferConfig {
        self.config
    }

    /// The queue of priority `p`.
    pub open spec fn queue(&self, p: Priority) -> Seq<BufferedMessage> {
        self.queues()[p.level()]
    }

    /// The recorded size agrees with the queues.
    pub closed spec fn wf(&self) -> bool {
        &&& self.size == total(self.queues())
        &&& forall|i: int| 0 <= i < 4 ==> #[trigger] self.queues()[i].len() <= usize::MAX
        &&& levels_consistent(self.queues())
    }

    /// The number of messages held.
    pub closed spec fn spec_len(&self) -> nat {
        self.size as nat
    }

    /// There is one queue per priority level, and a well-formed buffer's size is the
    /// number of messages its queues hold together.
    pub proof fn lemma_queues_shape(&self)
        ensures
            self.queues().len() == 4,
            self.wf() ==> self.spec_len() == total(self.queues()),
    {
    }

    /// Create a new, empty message buffer.
    pub fn new(config: BufferConfig) -> (b: Self)
        ensures
            b.wf(),
            b.spec_config() == config,
            forall|i: int| 0 <= i < 4 ==> #[trigger] b.queues()[i] == Seq::<BufferedMessage>::empty(),
            b.spec_len() == 0,
    {
        let b = MessageBuffer {
            low: VecDeque::new(),
            normal: VecDeque::new(),
            high: VecDeque::new(),
            critical: VecDeque::new(),
            config,
            size: 0,
        };
        assert(b.queues()[0] =~= Seq::<BufferedMessage>::empty());
        b
    }

    /// Current number of buffered messages.
    pub fn len(&self) -> (n: usize)
        ensures
            n == self.spec_len(),
    {
        self.size
    }

    /// Whether the buffer holds no message.
    pub fn is_empty(&self) -> (r: bool)
        ensures
            r == (self.spec_len() == 0),
    {
        self.size == 0
    }

    /// Publish a message to the buffer. It is refused when its payload is larger than
    /// the configured maximum, or when the buffer already holds `capacity` messages.
    pub fn publish(&mut self, msg: BufferedMessage) -> (r: Result<(), String>)
        requires
            old(self).wf(),
        ensures
            final(self).wf(),
            final(self).spec_config() == old(self).spec_config(),
            msg.payload.len() > old(self).spec_config().max_message_size ==> (r matches Err(e) && e@
                == "Message exceeds maximum size"@),
            msg.payload.len() <= old(self).spec_config().max_message_size && old(self).spec_len()
                >= old(self).spec_config().capacity ==> (r matches Err(e) && e@ == "Buffer is full"@),
            r is Ok <==> (msg.payload.len() <= old(self).spec_config().max_message_size
                && old(self).spec_len() < old(self).spec_config().capacity),
            r is Ok ==> final(self).queues() == pushed(old(self).queues(), msg),
            r is Ok ==> final(self).spec_len() == old(self).spec_len() + 1,
            r is Err ==> final(self).queues() == old(self).queues() && final(self).spec_len()
                == old(self).spec_len(),
    {
        if msg.payload.len() > self.config.max_message_size {
            return Err(crate::text::owned("Message exceeds maximum size"));
        }
        if self.size >= self.config.capacity {
            return Err(crate::text::owned("Buffer is full"));
        }
        let ghost q0 = self.queues();
        let ghost m = msg;
        match msg.priority {
            Priority::Low => self.low.push_back(msg),
            Priority::Normal => self.normal.push_back(msg),
            Priority::High => self.high.push_back(msg),
            Priority::Critical => self.critical.push_back(msg),
        }
        self.size = self.size + 1;
        assert(self.queues() =~= pushed(q0, m));
        Ok(())
    }

    /// Take the first live message from one queue, dropping the expired ones ahead of
    /// it; returns the message and how many messages left the queue.
    fn take_alive(q: &mut VecDeque<BufferedMessage>, now_ms: u64, ttl_ms: u64) -> (r: (
        Option<BufferedMessage>,
        usize,
    ))
        ensures
            r.0 == taken(old(q)@, now_ms, ttl_ms),
            final(q)@ == after_take(old(q)@, now_ms, ttl_ms),
            r.1 == old(q)@.len() - final(q)@.len(),
    {
        let ghost orig = q@;
        let n = q.len();
        let mut i: usize = 0;
        while q.len() > 0
            invariant
                n == orig.len(),
                orig == old(q)@,
                i <= orig.len(),
                q@ == orig.skip(i as int),
                forall|j: int| 0 <= j < i ==> !alive(#[trigger] orig[j].created_at_ms, now_ms, ttl_ms),
            decreases orig.len() - i,
        {
            let m = q.pop_front().unwrap();
            assert(m == orig[i as int]);
            assert(orig.skip(i as int + 1) =~= orig.skip(i as int).drop_first());
            if m.created_at_ms <= now_ms && now_ms - m.created_at_ms < ttl_ms {
                proof {
                    lemma_first_alive_at(orig, now_ms, ttl_ms, i as int);
                    assert(taken(orig, now_ms, ttl_ms) == Some(m));
                    assert(after_take(orig, now_ms, ttl_ms) =~= q@);
                }
                return (Some(m), i + 1);
            }
            i = i + 1;
        }
        proof {
            lemma_first_alive_at(orig, now_ms, ttl_ms, i as int);
        }
        assert(q@ =~= Seq::<BufferedMessage>::empty());
        (None, i)
    }

    /// Take the oldest live message of the given priority at `now_ms`: the expired
    /// messages ahead of it (those older than the time to live, or made after
    /// `now_ms`) are dropped on the way, and with no live message the queue is emptied.
    pub fn pop(&mut self, priority: Priority, now_ms: u64) -> (r: Option<BufferedMessage>)
        requires
            old(self).wf(),
        ensures
            final(self).wf(),
            final(self).spec_config() == old(self).spec_config(),
            r == taken(old(self).queue(priority), now_ms, old(self).spec_config().message_ttl_ms),
            final(self).queues() == old(self).queues().update(
                priority.level(),
                after_take(old(self).queue(priority), now_ms, old(self).spec_config().message_ttl_ms),
            ),
            final(self).spec_len() == total(final(self).queues()),
    {
        let ghost q0 = self.queues();
        let ttl = self.config.message_ttl_ms;
        let (r, removed) = match priority {
            Priority::Low => Self::take_alive(&mut self.low, now_ms, ttl),
            Priority::Normal => Self::take_alive(&mut self.normal, now_ms, ttl),
            Priority::High => Self::take_alive(&mut self.high, now_ms, ttl),
            Priority::Critical => Self::take_alive(&mut self.critical, now_ms, ttl),
        };
        self.size = self.size - removed;
        let ghost lvl = priority.level();
        assert(self.queues() =~= q0.update(lvl, after_take(q0[lvl], now_ms, ttl)));
        proof {
            lemma_first_alive(q0[lvl], now_ms, ttl);
            assert forall|i: int, k: int|
                0 <= i < 4 && 0 <= k < self.queues()[i].len() implies (
                #[trigger] self.queues()[i][k]).priority.level() == i by {
                if i == lvl {
                    let f = first_alive(q0[lvl], now_ms, ttl) as int;
                    assert(self.queues()[i][k] == q0[i][k + f + 1]);
                } else {
                    assert(self.queues()[i][k] == q0[i][k]);
                }
            }
        }
        r
    }

    /// Take, at `now_ms`, the oldest live message of the highest priority that has
    /// one; the expired messages met on the way are dropped.
    pub fn pop_any(&mut self, now_ms: u64) -> (r: Option<BufferedMessage>)
        requires
            old(self).wf(),
        ensures
            final(self).wf(),
            final(self).spec_config() == old(self).spec_config(),
            r == pop_any_taken(old(self).queues(), now_ms, old(self).spec_config().message_ttl_ms),
            final(self).queues() == pop_any_after(
                old(self).queues(),
                now_ms,
                old(self).spec_config().message_ttl_ms,
            ),
            final(self).spec_len() == total(final(self).queues()),
    {
        let ghost q0 = self.queues();
        let ghost ttl = self.config.message_ttl_ms;
        let r = self.pop(Priority::Critical, now_ms);
        if r.is_some() {
            assert(self.queues() =~= pop_any_after(q0, now_ms, ttl));
            return r;
        }
        let r = self.pop(Priority::High, now_ms);
        if r.is_some() {
            assert(self.queues() =~= pop_any_after(q0, now_ms, ttl));
            return r;
        }
        let r = self.pop(Priority::Normal, now_ms);
        if r.is_some() {
            assert(self.queues() =~= pop_any_after(q0, now_ms, ttl));
            return r;
        }
        let r = self.pop(Priority::Low, now_ms);
        assert(self.queues() =~= pop_any_after(q0, now_ms, ttl));
        r
    }

    /// Remove the messages of one queue that are no longer alive; returns how many went.
    fn retain_alive(q: &mut VecDeque<BufferedMessage>, now_ms: u64, ttl_ms: u64) -> (removed: usize)
        ensures
            final(q)@ == alive_only(old(q)@, now_ms, ttl_ms),
            removed == old(q)@.len() - final(q)@.len(),
    {
        let ghost orig = q@;
        let n = q.len();
        let mut kept: VecDeque<BufferedMessage> = VecDeque::new();
        let mut i: usize = 0;
        while i < n
            invariant
                n == orig.len(),
                i <= n,
                q@ == orig.skip(i as int),
                kept@ == alive_only(orig.take(i as int), now_ms, ttl_ms),
                kept@.len() <= i,
            decreases n - i,
        {
            let m = q.pop_front().unwrap();
            proof {
                assert(orig.take(i as int + 1).drop_last() =~= orig.take(i as int));
                assert(orig.take(i as int + 1).last() == m);
                assert(orig.skip(i as int + 1) =~= orig.skip(i as int).drop_first());
                reveal_with_fuel(Seq::filter, 1);
            }
            if m.created_at_ms <= now_ms && now_ms - m.created_at_ms < ttl_ms {
                kept.push_back(m);
            }
            i = i + 1;
        }
        let removed = n - kept.len();
        assert(orig.take(n as int) =~= orig);
        *q = kept;
        removed
    }

    /// Remove every message that has outlived the configured time to live at `now_ms`,
    /// or whose creation time lies after `now_ms`.
    pub fn cleanup(&mut self, now_ms: u64)
        requires
            old(self).wf(),
        ensures
            final(self).wf(),
            final(self).spec_config() == old(self).spec_config(),
            forall|i: int|
                0 <= i < 4 ==> #[trigger] final(self).queues()[i] == alive_only(
                    old(self).queues()[i],
                    now_ms,
                    old(self).spec_config().message_ttl_ms,
                ),
            final(self).spec_len() == total(final(self).queues()),
    {
        let ttl = self.config.message_ttl_ms;
        let ghost q0 = self.queues();
        let mut total_removed: usize = 0;
        let r0 = Self::retain_alive(&mut self.low, now_ms, ttl);
        total_removed = total_removed + r0;
        let r1 = Self::retain_alive(&mut self.normal, now_ms, ttl);
        total_removed = total_removed + r1;
        let r2 = Self::retain_alive(&mut self.high, now_ms, ttl);
        total_removed = total_removed + r2;
        let r3 = Self::retain_alive(&mut self.critical, now_ms, ttl);
        total_removed = total_removed + r3;
        self.size = self.size - total_removed;
        assert(self.queues()[0] == alive_only(q0[0], now_ms, ttl));
        assert(self.queues()[1] == alive_only(q0[1], now_ms, ttl));
        assert(self.queues()[2] == alive_only(q0[2], now_ms, ttl));
        assert(self.queues()[3] == alive_only(q0[3], now_ms, ttl));
        proof {
            assert forall|i: int, k: int|
                0 <= i < 4 && 0 <= k < self.queues()[i].len() implies (
                #[trigger] self.queues()[i][k]).priority.level() == i by {
                assert forall|j: int| 0 <= j < q0[i].len() implies (#[trigger] q0[i][j]).priority.level() == i by {
                    assert(levels_consistent(q0));
                }
                lemma_alive_only_levels(q0[i], i, now_ms, ttl);
            }
            assert(levels_consistent(self.queues()));
        }
    }
}

} // verus!

verus! {

/// No message that has expired is handed out: what a queue gives at `now` is live
/// then, and every message dropped on the way had expired.
pub proof fn law_only_live_taken(s: Seq<BufferedMessage>, now: u64, ttl: u64)
    ensures
        taken(s, now, ttl) matches Some(m) ==> alive(m.created_at_ms, now, ttl),
        forall|j: int|
            0 <= j < s.len() - after_take(s, now, ttl).len() - (if taken(s, now, ttl) is Some {
                1int
            } else {
                0int
            }) ==> !alive(#[trigger] s[j].created_at_ms, now, ttl),
        after_take(s, now, ttl).len() <= s.len(),
{
    lemma_first_alive(s, now, ttl);
}

/// Within one priority, live messages leave in the order in which they were
/// published.
pub proof fn law_fifo_within_priority(
    q: Seq<Seq<BufferedMessage>>,
    a: BufferedMessage,
    b: BufferedMessage,
    now: u64,
    ttl: u64,
)
    requires
        q.len() == 4,
        a.priority == b.priority,
        q[a.priority.level()].len() == 0,
        alive(a.created_at_ms, now, ttl),
        alive(b.created_at_ms, now, ttl),
    ensures
        ({
            let l = a.priority.level();
            let s = pushed(pushed(q, a), b)[l];
            &&& taken(s, now, ttl) == Some(a)
            &&& taken(after_take(s, now, ttl), now, ttl) == Some(b)
            &&& after_take(after_take(s, now, ttl), now, ttl).len() == 0
        }),
{
    let l = a.priority.level();
    let s = pushed(pushed(q, a), b)[l];
    assert(s =~= seq![a, b]);
    assert(after_take(s, now, ttl) =~= seq![b]);
    assert(after_take(seq![b], now, ttl) =~= Seq::<BufferedMessage>::empty());
}

/// From an empty buffer, a live message of higher priority leaves before a live one of
/// lower priority, whatever order they were published in.
pub proof fn law_higher_priority_first(
    q: Seq<Seq<BufferedMessage>>,
    lo: BufferedMessage,
    hi: BufferedMessage,
    now: u64,
    ttl: u64,
)
    requires
        q.len() == 4,
        forall|i: int| 0 <= i < 4 ==> #[trigger] q[i].len() == 0,
        lo.priority.level() < hi.priority.level(),
        alive(lo.created_at_ms, now, ttl),
        alive(hi.created_at_ms, now, ttl),
    ensures
        pop_any_taken(pushed(pushed(q, lo), hi), now, ttl) == Some(hi),
        pop_any_taken(pop_any_after(pushed(pushed(q, lo), hi), now, ttl), now, ttl) == Some(lo),
        pop_any_after(pop_any_after(pushed(pushed(q, lo), hi), now, ttl), now, ttl) =~= q,
{
    let q2 = pushed(pushed(q, lo), hi);
    assert(q[0].len() == 0 && q[1].len() == 0 && q[2].len() == 0 && q[3].len() == 0);
    let e = Seq::<BufferedMessage>::empty();
    assert(q[0] =~= e && q[1] =~= e && q[2] =~= e && q[3] =~= e);
    assert(q2[hi.priority.level()] =~= seq![hi]);
    assert(q2[lo.priority.level()] =~= seq![lo]);
    assert(after_take(seq![hi], now, ttl) =~= e);
    assert(after_take(seq![lo], now, ttl) =~= e);
    assert(after_take(e, now, ttl) =~= e);
    let q3 = pop_any_after(q2, now, ttl);
    assert(q3[lo.priority.level()] =~= seq![lo]);
    let q4 = pop_any_after(q3, now, ttl);
    assert forall|i: int| 0 <= i < 4 implies #[trigger] q4[i] =~= q[i] by {}
}

/// On an empty buffer, a published message is what `pop_any` gives back while it lives,
/// and nothing once it has expired; either way the buffer is empty afterwards.
pub proof fn law_publish_then_pop_any(q: Seq<Seq<BufferedMessage>>, m: BufferedMessage, now: u64, ttl: u64)
    requires
        q.len() == 4,
        forall|i: int| 0 <= i < 4 ==> #[trigger] q[i].len() == 0,
    ensures
        pop_any_taken(pushed(q, m), now, ttl) == (if alive(m.created_at_ms, now, ttl) {
            Some(m)
        } else {
            None
        }),
        total(pushed(q, m)) == total(q) + 1,
        pop_any_after(pushed(q, m), now, ttl) =~= q,
{
    let q1 = pushed(q, m);
    let e = Seq::<BufferedMessage>::empty();
    assert(q[0] =~= e && q[1] =~= e && q[2] =~= e && q[3] =~= e);
    assert(q1[m.priority.level()] =~= seq![m]);
    assert(after_take(seq![m], now, ttl) =~= e);
    assert(after_take(e, now, ttl) =~= e);
    let q2 = pop_any_after(q1, now, ttl);
    assert forall|i: int| 0 <= i < 4 implies #[trigger] q2[i] =~= q[i] by {}
}

/// Cleaning up twice at the same moment removes nothing more than cleaning up once.
pub proof fn law_cleanup_idempotent(s: Seq<BufferedMessage>, now: u64, ttl: u64)
    ensures
        alive_only(alive_only(s, now, ttl), now, ttl) == alive_only(s, now, ttl),
    decreases s.len(),
{
    reveal_with_fuel(Seq::filter, 1);
    if s.len() > 0 {
        law_cleanup_idempotent(s.drop_last(), now, ttl);
        let f = alive_only(s.drop_last(), now, ttl);
        if alive(s.last().created_at_ms, now, ttl) {
            assert(f.push(s.last()).drop_last() =~= f);
        }
    }
}

/// Cleanup keeps every message that is still alive and drops every one that is not.
pub proof fn law_cleanup_keeps_exactly_alive(s: Seq<BufferedMessage>, now: u64, ttl: u64)
    ensures
        forall|k: int|
            0 <= k < s.len() && alive(s[k].created_at_ms, now, ttl) ==> alive_only(
                s,
                now,
                ttl,
            ).contains(#[trigger] s[k]),
        forall|k: int|
            0 <= k < alive_only(s, now, ttl).len() ==> alive(
                (#[trigger] alive_only(s, now, ttl)[k]).created_at_ms,
                now,
                ttl,
            ),
{
    let p = |m: BufferedMessage| alive(m.created_at_ms, now, ttl);
    assert forall|k: int| 0 <= k < s.len() && alive(s[k].created_at_ms, now, ttl) implies alive_only(
        s,
        now,
        ttl,
    ).contains(#[trigger] s[k]) by {
        s.lemma_filter_contains(p, k);
    }
    assert forall|k: int| 0 <= k < alive_only(s, now, ttl).len() implies alive(
        (#[trigger] alive_only(s, now, ttl)[k]).created_at_ms,
        now,
        ttl,
    ) by {
        s.lemma_filter_pred(p, k);
    }
}

} // verus!
