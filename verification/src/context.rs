//! The context kept for code generation: frames of text with their kind, importance
//! and content hash, a bounded history of them, the prompt built from that history,
//! and the count of words used to decide when to prune it. Times are milliseconds
//! since the Unix epoch; the entropy and similarity measures, which are floating
//! point, are computed by the caller and handed in as yes-or-no answers.

use crate::text::{chars_of, is_whitespace, is_ws, owned, push_str};
use std::collections::VecDeque;
use vstd::prelude::*;

verus! {

/// What a frame holds.
#[derive(Debug, Clone, Copy, PartialEq, Eq, Structural)]
pub enum FrameType {
    Code,
    Conversation,
    SystemPrompt,
    UserQuery,
}

/// Where a frame comes from, what it is and how much it matters.
#[derive(Debug, Clone)]
pub struct FrameMetadata {
    pub source: String,
    pub frame_type: FrameType,
    pub importance: u8,
    pub tags: Vec<String>,
}

/// A frame of context.
#[derive(Debug)]
pub struct ContextFrame {
    pub timestamp_ms: i64,
    pub content: String,
    pub metadata: FrameMetadata,
    pub hash: String,
}

/// The SHA-256 digest of the UTF-8 bytes of `content`, in lower-case hexadecimal.
pub uninterp spec fn sha256_hex(content: Seq<char>) -> Seq<char>;

/// Whether `c` is a lower-case hexadecimal digit.
pub open spec fn is_lower_hex(c: char) -> bool {
    ('0' <= c <= '9') || ('a' <= c <= 'f')
}

/// Calls `sha2::Sha256` on the UTF-8 bytes of `content` and writes the digest with
/// `{:x}`, which `generic_array` renders as two lower-case hexadecimal digits per byte;
/// the digest has 32 bytes. The digest itself is named [`sha256_hex`].
#[verifier::external_body]
fn calculate_hash(content: &str) -> (h: String)
    ensures
        h@ == sha256_hex(content@),
        h@.len() == 64,
        forall|i: int| 0 <= i < h@.len() ==> is_lower_hex(#[trigger] h@[i]),
{
    let mut hasher = <sha2::Sha256 as sha2::Digest>::new();
    sha2::Digest::update(&mut hasher, content.as_bytes());
    format!("{:x}", sha2::Digest::finalize(hasher))
}

impl ContextFrame {
    /// A frame of `content` made at `now_ms`, with the hash of its content.
    pub fn new(content: String, metadata: FrameMetadata, now_ms: i64) -> (f: ContextFrame)
        ensures
            f.timestamp_ms == now_ms,
            f.content == content,
            f.metadata == metadata,
            f.hash@ == sha256_hex(content@),
            f.hash@.len() == 64,
    {
        let hash = calculate_hash(content.as_str());
        ContextFrame { timestamp_ms: now_ms, content, metadata, hash }
    }
}

/// The number of words of `s`: maximal runs of characters that are not whitespace.
pub open spec fn word_count(s: Seq<char>) -> nat
    decreases s.len(),
{
    if s.len() == 0 {
        0
    } else {
        word_count(s.drop_last()) + if !is_ws(s.last()) && (s.len() == 1 || is_ws(
            s[s.len() - 2],
        )) {
            1nat
        } else {
            0nat
        }
    }
}

/// The number of words over all frames of `h`.
pub open spec fn total_words(h: Seq<ContextFrame>) -> nat
    decreases h.len(),
{
    if h.len() == 0 {
        0
    } else {
        total_words(h.drop_last()) + word_count(h.last().content@)
    }
}

/// The text a prompt starts with: the contents of the system-prompt frames among the
/// last three of `h`, newest first, each followed by a blank line.
pub open spec fn recent_system_text(h: Seq<ContextFrame>, k: nat) -> Seq<char>
    decreases k,
{
    if k == 0 || h.len() == 0 {
        Seq::empty()
    } else {
        let f = h.last();
        (if f.metadata.frame_type == FrameType::SystemPrompt {
            f.content@ + "\n\n"@
        } else {
            Seq::empty()
        }) + recent_system_text(h.drop_last(), (k - 1) as nat)
    }
}

/// `h` after `f` is added to a history that keeps at most `max` frames.
pub open spec fn history_after(h: Seq<ContextFrame>, f: ContextFrame, max: nat) -> Seq<ContextFrame> {
    if h.len() >= max && h.len() > 0 {
        h.drop_first().push(f)
    } else {
        h.push(f)
    }
}

/// Adding a frame to a history within its bound keeps it within the bound, and the
/// frames kept are the newest: the frame added comes last, after the frames that were
/// there in their order, less the oldest one where the history was full.
pub proof fn law_history_bounded(h: Seq<ContextFrame>, f: ContextFrame, max: nat)
    requires
        0 < max,
        h.len() <= max,
    ensures
        history_after(h, f, max).len() <= max,
        history_after(h, f, max).last() == f,
        history_after(h, f, max).drop_last() == (if h.len() == max {
            h.drop_first()
        } else {
            h
        }),
{
    assert(h.drop_first().push(f).drop_last() =~= h.drop_first());
    assert(h.push(f).drop_last() =~= h);
}

/// Whether history `b` can follow history `a` by one operation of a manager keeping
/// at most `max` frames: a refused frame leaves it, an accepted one is added as
/// [`history_after`] says, pruning keeps the frames of importance above one, and
/// clearing empties it.
pub open spec fn context_step(a: Seq<ContextFrame>, b: Seq<ContextFrame>, max: nat) -> bool {
    ||| b == a
    ||| exists|f: ContextFrame| b == #[trigger] history_after(a, f, max)
    ||| b == a.filter(|f: ContextFrame| f.metadata.importance > 1)
    ||| b.len() == 0
}

/// Over any run of operations from an empty history, the history never holds more
/// than `max` frames, where `max` is at least one.
pub proof fn law_history_stays_bounded(hs: Seq<Seq<ContextFrame>>, max: nat)
    requires
        0 < max,
        hs.len() > 0,
        hs[0].len() == 0,
        forall|i: int| 0 <= i < hs.len() - 1 ==> context_step(#[trigger] hs[i], hs[i + 1], max),
    ensures
        forall|i: int| 0 <= i < hs.len() ==> (#[trigger] hs[i]).len() <= max,
    decreases hs.len(),
{
    if hs.len() > 1 {
        let p = hs.drop_last();
        assert forall|i: int| 0 <= i < p.len() - 1 implies context_step(#[trigger] p[i], p[i + 1], max) by {
            assert(p[i] == hs[i] && p[i + 1] == hs[i + 1]);
            assert(context_step(hs[i], hs[i + 1], max));
        }
        law_history_stays_bounded(p, max);
        let n = hs.len() - 1;
        assert(p[n - 1] == hs[n - 1]);
        assert(context_step(hs[n - 1], hs[n], max));
        if exists|f: ContextFrame| hs[n] == #[trigger] history_after(hs[n - 1], f, max) {
            let f = choose|f: ContextFrame| hs[n] == #[trigger] history_after(hs[n - 1], f, max);
            law_history_bounded(hs[n - 1], f, max);
        } else if hs[n] == hs[n - 1].filter(|f: ContextFrame| f.metadata.importance > 1) {
            hs[n - 1].lemma_filter_len(|f: ContextFrame| f.metadata.importance > 1);
        }
        assert forall|i: int| 0 <= i < hs.len() implies (#[trigger] hs[i]).len() <= max by {
            if i < n {
                assert(hs[i] == p[i]);
            }
        }
    }
}

/// A bounded history of context frames.
#[derive(Debug)]
pub struct ContextManager {
    pub history: VecDeque<ContextFrame>,
    pub max_frames: usize,
}

fn count_words(s: &str) -> (n: usize)
    ensures
        n == word_count(s@),
{
    let v = chars_of(s);
    let mut n: usize = 0;
    let mut i: usize = 0;
    while i < v.len()
        invariant
            i <= v.len(),
            v@ == s@,
            n == word_count(v@.take(i as int)),
            n <= i,
        decreases v.len() - i,
    {
        proof {
            assert(v@.take(i as int + 1).drop_last() =~= v@.take(i as int));
        }
        if !is_whitespace(v[i]) && (i == 0 || is_whitespace(v[i - 1])) {
            n = n + 1;
        }
        i = i + 1;
    }
    assert(v@.take(v.len() as int) =~= v@);
    n
}

impl ContextManager {
    /// The history holds at least one frame's room and no more frames than that: a
    /// manager made with room for one frame or more stays so through every
    /// operation.
    pub open spec fn within_bound(&self) -> bool {
        &&& 0 < self.max_frames
        &&& self.history@.len() <= self.max_frames
    }

    /// An empty history keeping at most `max_frames` frames.
    pub fn new(max_frames: usize) -> (m: ContextManager)
        ensures
            m.history@.len() == 0,
            m.max_frames == max_frames,
            0 < max_frames ==> m.within_bound(),
    {
        ContextManager { history: VecDeque::new(), max_frames }
    }

    /// Offer a frame of `content` made at `now_ms`. It is refused when recent content
    /// was `repetitive` or the frame is `similar` to recent ones; else it is added,
    /// the oldest frame making room when the history is full.
    pub fn add_frame(
        &mut self,
        content: String,
        metadata: FrameMetadata,
        now_ms: i64,
        repetitive: bool,
        similar: bool,
    ) -> (added: bool)
        ensures
            added == (!repetitive && !similar),
            !added ==> final(self).history@ == old(self).history@,
            added ==> final(self).history@ == history_after(
                old(self).history@,
                final(self).history@.last(),
                old(self).max_frames as nat,
            ),
            added ==> final(self).history@.last().content == content,
            added ==> final(self).history@.last().metadata == metadata,
            added ==> final(self).history@.last().timestamp_ms == now_ms,
            added ==> final(self).history@.last().hash@ == sha256_hex(content@),
            final(self).max_frames == old(self).max_frames,
            old(self).within_bound() ==> final(self).within_bound(),
            context_step(old(self).history@, final(self).history@, old(self).max_frames as nat),
    {
        let frame = ContextFrame::new(content, metadata, now_ms);
        if repetitive {
            return false;
        }
        if similar {
            return false;
        }
        if self.history.len() >= self.max_frames && self.history.len() > 0 {
            let _ = self.history.pop_front();
        }
        self.history.push_back(frame);
        proof {
            if old(self).within_bound() {
                law_history_bounded(old(self).history@, frame, old(self).max_frames as nat);
            }
        }
        true
    }

    /// The prompt for a task: the recent system prompts, then `Task: `, the task type,
    /// a line break and `content`.
    pub fn build_prompt(&self, task_type: &str, content: &str) -> (p: String)
        ensures
            p@ == recent_system_text(self.history@, 3) + "Task: "@ + task_type@ + "\n"@ + content@,
    {
        let mut prompt = String::new();
        let n = self.history.len();
        let mut k: usize = 0;
        proof {
            assert(self.history@.take(n as int) =~= self.history@);
            assert(prompt@ + recent_system_text(self.history@, 3) =~= recent_system_text(self.history@, 3));
        }
        while k < 3 && k < n
            invariant
                n == self.history@.len(),
                k <= 3,
                k <= n,
                prompt@ + recent_system_text(self.history@.take(n - k), (3 - k) as nat)
                    == recent_system_text(self.history@, 3),
            decreases 3 - k,
        {
            let f = &self.history[n - 1 - k];
            proof {
                let h = self.history@.take(n - k);
                assert(h.last() == self.history@[n - 1 - k]);
                assert(h.drop_last() =~= self.history@.take(n - k - 1));
            }
            if f.metadata.frame_type == FrameType::SystemPrompt {
                push_str(&mut prompt, f.content.as_str());
                push_str(&mut prompt, "\n\n");
            }
            proof {
                let h = self.history@.take(n - k);
                assert(prompt@ + recent_system_text(self.history@.take(n - k - 1), (3 - k - 1) as nat)
                    =~= recent_system_text(self.history@, 3));
            }
            k = k + 1;
        }
        proof {
            assert(recent_system_text(self.history@.take(n - k), (3 - k) as nat) =~= Seq::empty());
            assert(prompt@ =~= recent_system_text(self.history@, 3));
        }
        push_str(&mut prompt, "Task: ");
        push_str(&mut prompt, task_type);
        push_str(&mut prompt, "\n");
        push_str(&mut prompt, content);
        prompt
    }

    /// Forget every frame.
    pub fn clear_history(&mut self)
        ensures
            final(self).history@.len() == 0,
            final(self).max_frames == old(self).max_frames,
            0 < old(self).max_frames ==> final(self).within_bound(),
            context_step(old(self).history@, final(self).history@, old(self).max_frames as nat),
    {
        self.history = VecDeque::new();
    }

    /// The number of words over all frames.
    pub fn calculate_total_tokens(&self) -> (n: usize)
        requires
            total_words(self.history@) <= usize::MAX,
        ensures
            n == total_words(self.history@),
    {
        let mut n: usize = 0;
        let mut i: usize = 0;
        while i < self.history.len()
            invariant
                i <= self.history@.len(),
                n == total_words(self.history@.take(i as int)),
                total_words(self.history@) <= usize::MAX,
            decreases self.history@.len() - i,
        {
            proof {
                assert(self.history@.take(i as int + 1).drop_last() =~= self.history@.take(i as int));
                lemma_total_words_prefix(self.history@, i as int + 1);
            }
            let c = count_words(self.history[i].content.as_str());
            n = n + c;
            i = i + 1;
        }
        assert(self.history@.take(self.history@.len() as int) =~= self.history@);
        n
    }

    /// When the history holds more words than three quarters of its frame capacity,
    /// keep only the frames of importance above one, and say so.
    pub fn optimize_context(&mut self) -> (pruned: bool)
        requires
            total_words(old(self).history@) <= usize::MAX,
            old(self).max_frames * 3 <= usize::MAX,
        ensures
            pruned == (total_words(old(self).history@) > old(self).max_frames * 3 / 4),
            pruned ==> final(self).history@ == old(self).history@.filter(
                |f: ContextFrame| f.metadata.importance > 1,
            ),
            !pruned ==> final(self).history@ == old(self).history@,
            final(self).max_frames == old(self).max_frames,
            final(self).history@.len() <= old(self).history@.len(),
            old(self).within_bound() ==> final(self).within_bound(),
            context_step(old(self).history@, final(self).history@, old(self).max_frames as nat),
    {
        proof {
            old(self).history@.lemma_filter_len(|f: ContextFrame| f.metadata.importance > 1);
        }
        let total = self.calculate_total_tokens();
        if total > self.max_frames * 3 / 4 {
            let ghost orig = self.history@;
            let ghost m0 = self.max_frames;
            let mut kept: VecDeque<ContextFrame> = VecDeque::new();
            let n = self.history.len();
            let mut i: usize = 0;
            while i < n
                invariant
                    n == orig.len(),
                    i <= n,
                    self.history@ == orig.skip(i as int),
                    self.max_frames == m0,
                    kept@ == orig.take(i as int).filter(|f: ContextFrame| f.metadata.importance > 1),
                decreases n - i,
            {
                let f = self.history.pop_front().unwrap();
                proof {
                    assert(orig.take(i as int + 1).drop_last() =~= orig.take(i as int));
                    assert(orig.take(i as int + 1).last() == f);
                    assert(orig.skip(i as int + 1) =~= orig.skip(i as int).drop_first());
                    reveal_with_fuel(Seq::filter, 1);
                }
                if f.metadata.importance > 1 {
                    kept.push_back(f);
                }
                i = i + 1;
            }
            assert(orig.take(n as int) =~= orig);
            self.history = kept;
            return true;
        }
        false
    }
}

proof fn lemma_total_words_prefix(h: Seq<ContextFrame>, j: int)
    requires
        0 <= j <= h.len(),
    ensures
        total_words(h.take(j)) <= total_words(h),
    decreases h.len(),
{
    if j < h.len() {
        lemma_total_words_prefix(h.drop_last(), j);
        assert(h.drop_last().take(j) =~= h.take(j));
    } else {
        assert(h.take(j) =~= h);
    }
}

} // verus!
