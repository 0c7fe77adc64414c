//! The ledger of tokens spent on model calls. Times are milliseconds since the Unix epoch.

use std::collections::HashMap;
use vstd::prelude::*;

verus! {

/// A model whose tokens are counted.
#[derive(Debug, Clone, Copy, PartialEq, Eq, Structural)]
pub enum ModelType {
    GPT35Turbo,
    GPT4,
    Claude2,
    Ollama,
    LMStudio,
}

/// Tokens spent on one call of a model.
#[derive(Debug)]
pub struct UsageRecord {
    pub model: ModelType,
    pub prompt_tokens: usize,
    pub completion_tokens: usize,
    pub timestamp_ms: i64,
    pub metadata: HashMap<String, String>,
}

/// The tokens spent so far, call by call, oldest first.
#[derive(Debug)]
pub struct TokenManager {
    pub records: Vec<UsageRecord>,
}

/// The positions in `s` of the calls made at or after `since`, in order.
pub open spec fn positions_since(s: Seq<UsageRecord>, since: i64) -> Seq<usize>
    decreases s.len(),
{
    if s.len() == 0 {
        Seq::empty()
    } else {
        let p = positions_since(s.drop_last(), since);
        if s.last().timestamp_ms >= since {
            p.push((s.len() - 1) as usize)
        } else {
            p
        }
    }
}

impl TokenManager {
    /// An empty ledger.
    pub fn new() -> (m: TokenManager)
        ensures
            m.records@.len() == 0,
    {
        TokenManager { records: Vec::new() }
    }

    /// Record a call of `model` at `now_ms` that spent the given tokens.
    pub fn track_usage(
        &mut self,
        model: ModelType,
        prompt_tokens: usize,
        completion_tokens: usize,
        metadata: HashMap<String, String>,
        now_ms: i64,
    )
        ensures
            final(self).records@ == old(self).records@.push(
                UsageRecord { model, prompt_tokens, completion_tokens, timestamp_ms: now_ms, metadata },
            ),
    {
        self.records.push(
            UsageRecord { model, prompt_tokens, completion_tokens, timestamp_ms: now_ms, metadata },
        );
    }

    /// The positions of the calls made at or after `since`, in order.
    pub fn get_usage_since(&self, since: i64) -> (r: Vec<usize>)
        ensures
            r@ == positions_since(self.records@, since),
    {
        let mut r: Vec<usize> = Vec::new();
        let mut i: usize = 0;
        while i < self.records.len()
            invariant
                i <= self.records@.len(),
                r@ == positions_since(self.records@.take(i as int), since),
            decreases self.records@.len() - i,
        {
            proof {
                assert(self.records@.take(i as int + 1).drop_last() =~= self.records@.take(i as int));
            }
            if self.records[i].timestamp_ms >= since {
                r.push(i);
            }
            i = i + 1;
        }
        assert(self.records@.take(self.records@.len() as int) =~= self.records@);
        r
    }
}

} // verus!
