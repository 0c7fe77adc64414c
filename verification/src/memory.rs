//! Memory accounting: allocations recorded by id, per-resource limits, and the
//! running statistics (with a fixed management overhead of one fifth per allocation).

use crate::error::NexaError;
use crate::store::{Keyed, KeyedStore};
use crate::text::{decimal, owned, push_decimal, push_str};
use vstd::prelude::*;

verus! {

/// Memory usage statistics.
#[derive(Debug, Clone, Copy, PartialEq, Eq, Structural)]
pub struct MemoryStats {
    pub total_used: usize,
    pub total_allocated: usize,
    pub peak_usage: usize,
    pub allocation_count: usize,
    pub available: usize,
}

impl Default for MemoryStats {
    fn default() -> (s: Self)
        ensures
            s == (MemoryStats {
                total_used: 0,
                total_allocated: 0,
                peak_usage: 0,
                allocation_count: 0,
                available: 0,
            }),
    {
        MemoryStats {
            total_used: 0,
            total_allocated: 0,
            peak_usage: 0,
            allocation_count: 0,
            available: 0,
        }
    }
}

/// Memory resource types that can be tracked.
#[derive(Debug)]
pub enum ResourceType {
    TokenBuffer,
    Cache,
    Context,
    Model,
    Custom(String),
}

/// Whether two resource types are the same (custom ones by their name).
pub open spec fn same_resource(a: ResourceType, b: ResourceType) -> bool {
    match (a, b) {
        (ResourceType::TokenBuffer, ResourceType::TokenBuffer) => true,
        (ResourceType::Cache, ResourceType::Cache) => true,
        (ResourceType::Context, ResourceType::Context) => true,
        (ResourceType::Model, ResourceType::Model) => true,
        (ResourceType::Custom(x), ResourceType::Custom(y)) => x@ == y@,
        _ => false,
    }
}

/// Two resource types are the same exactly when they are the same variant, and two
/// custom ones exactly when their names are equal: a limit or a lookup for one type
/// never applies to a type of another variant or name.
pub proof fn law_same_resource_is_equality(a: ResourceType, b: ResourceType)
    ensures
        same_resource(a, a),
        same_resource(a, b) ==> {
            &&& (a is TokenBuffer <==> b is TokenBuffer)
            &&& (a is Cache <==> b is Cache)
            &&& (a is Context <==> b is Context)
            &&& (a is Model <==> b is Model)
            &&& (a is Custom <==> b is Custom)
        },
        (a is TokenBuffer && b is TokenBuffer) ==> same_resource(a, b),
        (a is Cache && b is Cache) ==> same_resource(a, b),
        (a is Context && b is Context) ==> same_resource(a, b),
        (a is Model && b is Model) ==> same_resource(a, b),
        (a is Custom && b is Custom) ==> (same_resource(a, b) <==> a->Custom_0@ == b->Custom_0@),
{
}

/// Executable form of [`same_resource`].
pub fn resource_eq(a: &ResourceType, b: &ResourceType) -> (r: bool)
    ensures
        r == same_resource(*a, *b),
        r ==> {
            &&& (*a is TokenBuffer <==> *b is TokenBuffer)
            &&& (*a is Cache <==> *b is Cache)
            &&& (*a is Context <==> *b is Context)
            &&& (*a is Model <==> *b is Model)
            &&& (*a is Custom <==> *b is Custom)
        },
{
    proof {
        law_same_resource_is_equality(*a, *b);
    }
    match (a, b) {
        (ResourceType::TokenBuffer, ResourceType::TokenBuffer) => true,
        (ResourceType::Cache, ResourceType::Cache) => true,
        (ResourceType::Context, ResourceType::Context) => true,
        (ResourceType::Model, ResourceType::Model) => true,
        (ResourceType::Custom(x), ResourceType::Custom(y)) => crate::text::str_eq(x.as_str(), y.as_str()),
        _ => false,
    }
}

/// What `format!("{:?}", s)` writes for a string: the quoted, escaped text.
pub uninterp spec fn debug_quoted(s: Seq<char>) -> Seq<char>;

/// Calls `<str as Debug>::fmt` through `format!`; its result is named [`debug_quoted`].
#[verifier::external_body]
pub(crate) fn quote_debug(s: &str) -> (r: String)
    ensures
        r@ == debug_quoted(s@),
{
    format!("{:?}", s)
}

/// The `Debug` form of a resource type.
pub open spec fn resource_name(r: ResourceType) -> Seq<char> {
    match r {
        ResourceType::TokenBuffer => "TokenBuffer"@,
        ResourceType::Cache => "Cache"@,
        ResourceType::Context => "Context"@,
        ResourceType::Model => "Model"@,
        ResourceType::Custom(s) => "Custom("@ + debug_quoted(s@) + ")"@,
    }
}

fn push_resource_name(out: &mut String, r: &ResourceType)
    ensures
        final(out)@ == old(out)@ + resource_name(*r),
{
    match r {
        ResourceType::TokenBuffer => push_str(out, "TokenBuffer"),
        ResourceType::Cache => push_str(out, "Cache"),
        ResourceType::Context => push_str(out, "Context"),
        ResourceType::Model => push_str(out, "Model"),
        ResourceType::Custom(s) => {
            push_str(out, "Custom(");
            let q = quote_debug(s.as_str());
            push_str(out, q.as_str());
            push_str(out, ")");
            assert(out@ =~= old(out)@ + resource_name(*r));
        },
    }
}

/// A memory allocation record. The timestamp is in milliseconds since the epoch.
#[derive(Debug)]
pub struct AllocationRecord {
    pub id: String,
    pub resource_type: ResourceType,
    pub size: usize,
    pub timestamp_ms: i64,
    pub metadata: Vec<(String, String)>,
}

impl Keyed for AllocationRecord {
    open spec fn key(&self) -> Seq<char> {
        self.id@
    }

    fn key_str(&self) -> (r: &str) {
        self.id.as_str()
    }
}

/// Bytes charged for an allocation of `size`: the size plus a fifth for management.
pub open spec fn charged(size: int) -> int {
    size + size / 5
}

/// The limit set for resource type `r`, if any: the first matching entry.
pub open spec fn limit_for(limits: Seq<(ResourceType, usize)>, r: ResourceType) -> Option<usize>
    decreases limits.len(),
{
    if limits.len() == 0 {
        None
    } else if same_resource(limits[0].0, r) {
        Some(limits[0].1)
    } else {
        limit_for(limits.drop_first(), r)
    }
}

proof fn lemma_same_resource_facts()
    ensures
        forall|a: ResourceType, b: ResourceType| #[trigger] same_resource(a, b) ==> same_resource(b, a),
        forall|a: ResourceType, b: ResourceType, c: ResourceType|
            #[trigger] same_resource(a, b) && #[trigger] same_resource(b, c) ==> same_resource(a, c),
{
}

proof fn lemma_limit_replace(s: Seq<(ResourceType, usize)>, i: int, rt: ResourceType, l: usize, r: ResourceType)
    requires
        0 <= i < s.len(),
        forall|j: int| 0 <= j < i ==> !same_resource(#[trigger] s[j].0, rt),
        same_resource(s[i].0, rt),
    ensures
        limit_for(s.update(i, (rt, l)), r) == if same_resource(r, rt) {
            Some(l)
        } else {
            limit_for(s, r)
        },
    decreases i,
{
    lemma_same_resource_facts();
    let t = s.update(i, (rt, l));
    if i == 0 {
        assert(t[0] == (rt, l));
        assert(t.drop_first() =~= s.drop_first());
        if same_resource(r, rt) {
            assert(same_resource(rt, r));
        } else {
            assert(!same_resource(rt, r));
            assert(!same_resource(s[0].0, r));
        }
    } else {
        let s1 = s.drop_first();
        assert forall|j: int| 0 <= j < i - 1 implies !same_resource(#[trigger] s1[j].0, rt) by {
            assert(s1[j] == s[j + 1]);
        }
        lemma_limit_replace(s1, i - 1, rt, l, r);
        assert(t.drop_first() =~= s1.update(i - 1, (rt, l)));
        assert(t[0] == s[0]);
        if same_resource(s[0].0, r) {
            if same_resource(r, rt) {
                assert(same_resource(s[0].0, rt));
            }
        }
    }
}

proof fn lemma_limit_push(s: Seq<(ResourceType, usize)>, rt: ResourceType, l: usize, r: ResourceType)
    requires
        forall|j: int| 0 <= j < s.len() ==> !same_resource(#[trigger] s[j].0, rt),
    ensures
        limit_for(s.push((rt, l)), r) == if same_resource(r, rt) {
            Some(l)
        } else {
            limit_for(s, r)
        },
    decreases s.len(),
{
    lemma_same_resource_facts();
    let t = s.push((rt, l));
    if s.len() == 0 {
        assert(t[0] == (rt, l));
        assert(t.drop_first() =~= Seq::<(ResourceType, usize)>::empty());
        assert(limit_for(t.drop_first(), r) is None);
        if !same_resource(r, rt) {
            assert(!same_resource(rt, r));
        } else {
            assert(same_resource(rt, r));
        }
    } else {
        let s1 = s.drop_first();
        assert forall|j: int| 0 <= j < s1.len() implies !same_resource(#[trigger] s1[j].0, rt) by {
            assert(s1[j] == s[j + 1]);
        }
        lemma_limit_push(s1, rt, l, r);
        assert(t.drop_first() =~= s1.push((rt, l)));
        assert(t[0] == s[0]);
        assert(!same_resource(s[0].0, rt));
        if same_resource(s[0].0, r) {
            assert(!same_resource(r, rt));
            assert(limit_for(t, r) == Some(s[0].1));
            assert(limit_for(s, r) == Some(s[0].1));
        } else {
            assert(limit_for(t, r) == limit_for(s1.push((rt, l)), r));
            assert(limit_for(s, r) == limit_for(s1, r));
        }
    }
}

fn limit_position(limits: &Vec<(ResourceType, usize)>, r: &ResourceType) -> (p: Option<usize>)
    ensures
        p matches Some(i) ==> i < limits@.len() && same_resource(limits@[i as int].0, *r) && forall|
            j: int,
        | 0 <= j < i ==> !same_resource(#[trigger] limits@[j].0, *r),
        p is None ==> forall|j: int|
            0 <= j < limits@.len() ==> !same_resource(#[trigger] limits@[j].0, *r),
{
    let mut i: usize = 0;
    while i < limits.len()
        invariant
            i <= limits@.len(),
            forall|j: int| 0 <= j < i ==> !same_resource(#[trigger] limits@[j].0, *r),
        decreases limits@.len() - i,
    {
        if resource_eq(&limits[i].0, r) {
            return Some(i);
        }
        i = i + 1;
    }
    None
}

proof fn lemma_limit_at(s: Seq<(ResourceType, usize)>, i: int, r: ResourceType)
    requires
        0 <= i < s.len(),
        same_resource(s[i].0, r),
        forall|j: int| 0 <= j < i ==> !same_resource(#[trigger] s[j].0, r),
    ensures
        limit_for(s, r) == Some(s[i].1),
    decreases i,
{
    if i > 0 {
        let s1 = s.drop_first();
        assert forall|j: int| 0 <= j < i - 1 implies !same_resource(#[trigger] s1[j].0, r) by {
            assert(s1[j] == s[j + 1]);
        }
        lemma_limit_at(s1, i - 1, r);
    }
}

proof fn lemma_limit_none(s: Seq<(ResourceType, usize)>, r: ResourceType)
    requires
        forall|j: int| 0 <= j < s.len() ==> !same_resource(#[trigger] s[j].0, r),
    ensures
        limit_for(s, r) is None,
    decreases s.len(),
{
    if s.len() > 0 {
        let s1 = s.drop_first();
        assert forall|j: int| 0 <= j < s1.len() implies !same_resource(#[trigger] s1[j].0, r) by {
            assert(s1[j] == s[j + 1]);
        }
        lemma_limit_none(s1, r);
    }
}

/// The text of the error for an allocation over its limit.
pub open spec fn over_limit_message(r: ResourceType, size: usize, limit: usize) -> Seq<char> {
    "Memory allocation exceeds limit for "@ + resource_name(r) + ": "@ + decimal(size as nat)
        + " > "@ + decimal(limit as nat)
}

/// Statistics after charging an allocation of `size`.
pub open spec fn stats_after_allocate(s: MemoryStats, size: usize) -> MemoryStats {
    let total_allocated = s.total_allocated + charged(size as int);
    let total_used = s.total_used + size;
    MemoryStats {
        total_allocated: total_allocated as usize,
        total_used: total_used as usize,
        allocation_count: (s.allocation_count + 1) as usize,
        peak_usage: if s.peak_usage >= total_used {
            s.peak_usage
        } else {
            total_used as usize
        },
        available: if total_allocated >= total_used {
            (total_allocated - total_used) as usize
        } else {
            0
        },
    }
}

/// Statistics after releasing an allocation of `size`.
pub open spec fn stats_after_release(s: MemoryStats, size: usize) -> MemoryStats {
    let total_allocated = s.total_allocated - charged(size as int);
    let total_used = s.total_used - size;
    MemoryStats {
        total_allocated: total_allocated as usize,
        total_used: total_used as usize,
        available: if total_allocated >= total_used {
            (total_allocated - total_used) as usize
        } else {
            0
        },
        ..s
    }
}

/// The bytes asked for by the records `s` together.
pub open spec fn used_sum(s: Seq<AllocationRecord>) -> nat
    decreases s.len(),
{
    if s.len() == 0 {
        0
    } else {
        used_sum(s.drop_last()) + s.last().size as nat
    }
}

/// The bytes charged for the records `s` together.
pub open spec fn charged_sum(s: Seq<AllocationRecord>) -> nat
    decreases s.len(),
{
    if s.len() == 0 {
        0
    } else {
        charged_sum(s.drop_last()) + charged(s.last().size as int) as nat
    }
}

/// Taking record `i` out of `s` takes its size and its charge out of the sums.
proof fn lemma_sums_remove(s: Seq<AllocationRecord>, i: int)
    requires
        0 <= i < s.len(),
    ensures
        used_sum(s.remove(i)) + s[i].size == used_sum(s),
        charged_sum(s.remove(i)) + charged(s[i].size as int) == charged_sum(s),
    decreases s.len(),
{
    if i == s.len() - 1 {
        assert(s.remove(i) =~= s.drop_last());
    } else {
        lemma_sums_remove(s.drop_last(), i);
        assert(s.remove(i).drop_last() =~= s.drop_last().remove(i));
        assert(s.remove(i).last() == s.last());
    }
}

/// No record is charged less than its size.
proof fn lemma_charged_covers_used(s: Seq<AllocationRecord>)
    ensures
        used_sum(s) <= charged_sum(s),
    decreases s.len(),
{
    if s.len() > 0 {
        lemma_charged_covers_used(s.drop_last());
    }
}

/// Whether statistics `s` account for exactly the records `e`: the bytes in use are
/// their sizes together, the bytes allocated their charges together, the available
/// bytes the difference, and the peak at least the bytes in use.
pub open spec fn accounts(e: Seq<AllocationRecord>, s: MemoryStats) -> bool {
    &&& s.total_used == used_sum(e)
    &&& s.total_allocated == charged_sum(e)
    &&& s.available == s.total_allocated - s.total_used
    &&& s.peak_usage >= s.total_used
}

/// Whether records and statistics `(eb, sb)` can follow `(ea, sa)` by one operation of
/// a manager: nothing changes (a refused call or a new limit), a record is added under
/// a fresh id and charged (within the machine's range), or a record is released and
/// uncharged.
pub open spec fn memory_step(
    ea: Seq<AllocationRecord>,
    sa: MemoryStats,
    eb: Seq<AllocationRecord>,
    sb: MemoryStats,
) -> bool {
    ||| eb == ea && sb == sa
    ||| exists|r: AllocationRecord|
        #![trigger ea.push(r)]
        {
            &&& eb == ea.push(r)
            &&& sb == stats_after_allocate(sa, r.size)
            &&& sa.total_allocated + charged(r.size as int) <= usize::MAX
            &&& sa.total_used + r.size <= usize::MAX
            &&& sa.allocation_count < usize::MAX
        }
    ||| exists|i: int|
        #![trigger ea.remove(i)]
        {
            &&& 0 <= i < ea.len()
            &&& eb == ea.remove(i)
            &&& sb == stats_after_release(sa, ea[i].size)
        }
}

/// One operation keeps the statistics accounting for the records, and never lowers
/// the peak.
proof fn lemma_memory_step(ea: Seq<AllocationRecord>, sa: MemoryStats, eb: Seq<AllocationRecord>, sb: MemoryStats)
    requires
        accounts(ea, sa),
        memory_step(ea, sa, eb, sb),
    ensures
        accounts(eb, sb),
        sb.peak_usage >= sa.peak_usage,
{
    lemma_charged_covers_used(eb);
    if eb == ea && sb == sa {
    } else if exists|r: AllocationRecord|
        #![trigger ea.push(r)]
        {
            &&& eb == ea.push(r)
            &&& sb == stats_after_allocate(sa, r.size)
            &&& sa.total_allocated + charged(r.size as int) <= usize::MAX
            &&& sa.total_used + r.size <= usize::MAX
            &&& sa.allocation_count < usize::MAX
        } {
        let r = choose|r: AllocationRecord|
            #![trigger ea.push(r)]
            {
                &&& eb == ea.push(r)
                &&& sb == stats_after_allocate(sa, r.size)
                &&& sa.total_allocated + charged(r.size as int) <= usize::MAX
                &&& sa.total_used + r.size <= usize::MAX
                &&& sa.allocation_count < usize::MAX
            };
        assert(eb.drop_last() =~= ea);
    } else {
        let i = choose|i: int|
            #![trigger ea.remove(i)]
            {
                &&& 0 <= i < ea.len()
                &&& eb == ea.remove(i)
                &&& sb == stats_after_release(sa, ea[i].size)
            };
        lemma_sums_remove(ea, i);
    }
}

/// Over any run of allocations (each under a fresh id), releases and limit changes
/// from an empty manager, the statistics account for exactly the allocations held, and
/// the peak never decreases.
pub proof fn law_accounting_over_runs(es: Seq<Seq<AllocationRecord>>, ss: Seq<MemoryStats>)
    requires
        es.len() == ss.len(),
        es.len() > 0,
        es[0].len() == 0,
        ss[0] == (MemoryStats {
            total_used: 0,
            total_allocated: 0,
            peak_usage: 0,
            allocation_count: 0,
            available: 0,
        }),
        forall|i: int| 0 <= i < es.len() - 1 ==> memory_step(#[trigger] es[i], ss[i], es[i + 1], ss[i + 1]),
    ensures
        forall|i: int| 0 <= i < es.len() ==> accounts(#[trigger] es[i], ss[i]),
        forall|i: int| 0 <= i < es.len() - 1 ==> (#[trigger] ss[i]).peak_usage <= ss[i + 1].peak_usage,
    decreases es.len(),
{
    if es.len() == 1 {
        assert(es[0] =~= Seq::<AllocationRecord>::empty());
    } else {
        let n = es.len() - 1;
        let pe = es.drop_last();
        let ps = ss.drop_last();
        assert forall|i: int| 0 <= i < pe.len() - 1 implies memory_step(#[trigger] pe[i], ps[i], pe[i + 1], ps[i + 1]) by {
            assert(memory_step(es[i], ss[i], es[i + 1], ss[i + 1]));
        }
        law_accounting_over_runs(pe, ps);
        assert(accounts(pe[n - 1], ps[n - 1]));
        assert(memory_step(es[n - 1], ss[n - 1], es[n], ss[n]));
        lemma_memory_step(es[n - 1], ss[n - 1], es[n], ss[n]);
        assert forall|i: int| 0 <= i < es.len() implies accounts(#[trigger] es[i], ss[i]) by {
            if i < n {
                assert(accounts(pe[i], ps[i]));
            }
        }
        assert forall|i: int| 0 <= i < es.len() - 1 implies (#[trigger] ss[i]).peak_usage <= ss[i + 1].peak_usage by {
            if i < n - 1 {
                assert(ps[i].peak_usage <= ps[i + 1].peak_usage);
            }
        }
    }
}

/// Memory manager tracking allocations against per-resource limits.
#[derive(Debug)]
pub struct MemoryManager {
    pub stats: MemoryStats,
    pub allocations: KeyedStore<AllocationRecord>,
    pub limits: Vec<(ResourceType, usize)>,
}

impl MemoryManager {
    /// The statistics account for exactly the allocations recorded: the bytes in use
    /// are their sizes together, the bytes allocated their charges together, the
    /// available bytes the difference, and the peak at least the bytes in use. Every
    /// operation but [`MemoryManager::update_stats`], which overwrites the figures,
    /// keeps this, as long as each allocation is made under an id not yet recorded.
    pub open spec fn accounted(&self) -> bool {
        accounts(self.allocations.entries(), self.stats)
    }

    /// An empty manager with no limits.
    pub fn new() -> (m: Self)
        ensures
            m.allocations.wf(),
            m.allocations.view() == Map::<Seq<char>, AllocationRecord>::empty(),
            m.stats == (MemoryStats {
                total_used: 0,
                total_allocated: 0,
                peak_usage: 0,
                allocation_count: 0,
                available: 0,
            }),
            m.limits@.len() == 0,
            m.accounted(),
    {
        MemoryManager {
            stats: MemoryStats::default(),
            allocations: KeyedStore::new(),
            limits: Vec::new(),
        }
    }

    /// Set the limit for a resource type, replacing an earlier one.
    pub fn set_limit(&mut self, resource_type: ResourceType, limit: usize)
        ensures
            final(self).stats == old(self).stats,
            final(self).allocations == old(self).allocations,
            old(self).accounted() ==> final(self).accounted(),
            memory_step(
                old(self).allocations.entries(),
                old(self).stats,
                final(self).allocations.entries(),
                final(self).stats,
            ),
            forall|r: ResourceType|
                #![trigger limit_for(final(self).limits@, r)]
                limit_for(final(self).limits@, r) == if same_resource(r, resource_type) {
                    Some(limit)
                } else {
                    limit_for(old(self).limits@, r)
                },
    {
        let ghost s0 = self.limits@;
        let ghost rt = resource_type;
        match limit_position(&self.limits, &resource_type) {
            Some(i) => {
                self.limits.remove(i);
                self.limits.insert(i, (resource_type, limit));
                assert(self.limits@ =~= s0.update(i as int, (rt, limit)));
                assert forall|r: ResourceType| #![trigger limit_for(self.limits@, r)]
                    limit_for(self.limits@, r) == if same_resource(r, rt) {
                        Some(limit)
                    } else {
                        limit_for(s0, r)
                    } by {
                    lemma_limit_replace(s0, i as int, rt, limit, r);
                }
            },
            None => {
                self.limits.push((resource_type, limit));
                assert forall|r: ResourceType| #![trigger limit_for(self.limits@, r)]
                    limit_for(self.limits@, r) == if same_resource(r, rt) {
                        Some(limit)
                    } else {
                        limit_for(s0, r)
                    } by {
                    lemma_limit_push(s0, rt, limit, r);
                }
            },
        }
    }

    /// Record an allocation of `size` under `id` (replacing a record with the same id)
    /// and charge it, with a fifth added for management, to the statistics. An allocation
    /// larger than the limit of its resource type is refused.
    pub fn allocate(
        &mut self,
        id: String,
        resource_type: ResourceType,
        size: usize,
        metadata: Vec<(String, String)>,
        now_ms: i64,
    ) -> (r: Result<(), NexaError>)
        requires
            old(self).allocations.wf(),
            old(self).stats.total_allocated + charged(size as int) <= usize::MAX,
            old(self).stats.total_used + size <= usize::MAX,
            old(self).stats.allocation_count < usize::MAX,
        ensures
            final(self).allocations.wf(),
            final(self).limits == old(self).limits,
            r is Err <==> (limit_for(old(self).limits@, resource_type) matches Some(l) && size > l),
            r matches Err(e) ==> (e matches NexaError::System(m) && m@ == over_limit_message(
                resource_type,
                size,
                limit_for(old(self).limits@, resource_type).unwrap(),
            )),
            r is Err ==> final(self).stats == old(self).stats && final(self).allocations
                == old(self).allocations,
            old(self).accounted() && !old(self).allocations.view().contains_key(id@)
                ==> final(self).accounted(),
            r is Err || !old(self).allocations.view().contains_key(id@) ==> memory_step(
                old(self).allocations.entries(),
                old(self).stats,
                final(self).allocations.entries(),
                final(self).stats,
            ),
            final(self).stats.peak_usage >= old(self).stats.peak_usage,
            r is Ok ==> final(self).stats == stats_after_allocate(old(self).stats, size),
            r is Ok ==> final(self).allocations.view() == old(self).allocations.view().insert(
                id@,
                AllocationRecord { id, resource_type, size, timestamp_ms: now_ms, metadata },
            ),
    {
        match limit_position(&self.limits, &resource_type) {
            Some(i) => {
                proof {
                    lemma_limit_at(self.limits@, i as int, resource_type);
                }
                let limit = self.limits[i].1;
                if size > limit {
                    let mut m = owned("Memory allocation exceeds limit for ");
                    push_resource_name(&mut m, &resource_type);
                    push_str(&mut m, ": ");
                    push_decimal(&mut m, size as u64);
                    push_str(&mut m, " > ");
                    push_decimal(&mut m, limit as u64);
                    assert(m@ =~= over_limit_message(resource_type, size, limit));
                    return Err(NexaError::System(m));
                }
            },
            None => {
                proof {
                    lemma_limit_none(self.limits@, resource_type);
                }
            },
        }
        let allocation_size = size + size / 5;
        self.stats.total_allocated = self.stats.total_allocated + allocation_size;
        self.stats.total_used = self.stats.total_used + size;
        self.stats.allocation_count = self.stats.allocation_count + 1;
        if self.stats.total_used > self.stats.peak_usage {
            self.stats.peak_usage = self.stats.total_used;
        }
        self.stats.available = if self.stats.total_allocated >= self.stats.total_used {
            self.stats.total_allocated - self.stats.total_used
        } else {
            0
        };
        let record = AllocationRecord { id, resource_type, size, timestamp_ms: now_ms, metadata };
        let ghost rec = record;
        self.allocations.insert(record);
        proof {
            if old(self).accounted() && !old(self).allocations.view().contains_key(rec.id@) {
                let e = self.allocations.entries();
                assert(e.drop_last() =~= old(self).allocations.entries());
                assert(e.last() == rec);
                lemma_charged_covers_used(e);
            }
        }
        Ok(())
    }

    /// Release the allocation recorded under `id` and uncharge it from the statistics.
    pub fn deallocate(&mut self, id: &str) -> (r: Result<(), NexaError>)
        requires
            old(self).allocations.wf(),
            old(self).accounted() || (old(self).allocations.view().contains_key(id@) ==> {
                let size = old(self).allocations.view()[id@].size;
                &&& old(self).stats.total_allocated >= charged(size as int)
                &&& old(self).stats.total_used >= size
            }),
        ensures
            final(self).allocations.wf(),
            final(self).limits == old(self).limits,
            final(self).allocations.view() == old(self).allocations.view().remove(id@),
            r is Ok <==> old(self).allocations.view().contains_key(id@),
            r is Ok ==> final(self).stats == stats_after_release(
                old(self).stats,
                old(self).allocations.view()[id@].size,
            ),
            r matches Err(e) ==> (e matches NexaError::System(m) && m@ == "No allocation found for id: "@
                + id@),
            r is Err ==> final(self).stats == old(self).stats,
            old(self).accounted() ==> final(self).accounted(),
            final(self).stats.peak_usage == old(self).stats.peak_usage,
            memory_step(
                old(self).allocations.entries(),
                old(self).stats,
                final(self).allocations.entries(),
                final(self).stats,
            ),
    {
        let ghost e0 = self.allocations.entries();
        proof {
            self.allocations.lemma_entries();
        }
        match self.allocations.remove(id) {
            Some(record) => {
                proof {
                    let i = choose|i: int|
                        0 <= i < e0.len() && e0[i] == record && self.allocations.entries() == e0.remove(i);
                    lemma_sums_remove(e0, i);
                    lemma_charged_covers_used(e0.remove(i));
                    if !old(self).accounted() {
                        assert(old(self).allocations.view()[id@] == record);
                    }
                }
                let allocation_size = record.size + record.size / 5;
                self.stats.total_allocated = self.stats.total_allocated - allocation_size;
                self.stats.total_used = self.stats.total_used - record.size;
                self.stats.available = if self.stats.total_allocated >= self.stats.total_used {
                    self.stats.total_allocated - self.stats.total_used
                } else {
                    0
                };
                Ok(())
            },
            None => {
                let mut m = owned("No allocation found for id: ");
                push_str(&mut m, id);
                Err(NexaError::System(m))
            },
        }
    }

    /// The current statistics.
    pub fn get_stats(&self) -> (s: MemoryStats)
        ensures
            s == self.stats,
    {
        self.stats
    }

    /// Overwrite the usage figures: `used` and `allocated` replace the totals, the peak
    /// keeps the larger of itself and `used`, and one more update is counted.
    pub fn update_stats(&mut self, used: usize, allocated: usize)
        requires
            old(self).stats.allocation_count < usize::MAX,
        ensures
            final(self).allocations == old(self).allocations,
            final(self).limits == old(self).limits,
            final(self).stats == (MemoryStats {
                total_used: used,
                total_allocated: allocated,
                peak_usage: if old(self).stats.peak_usage >= used {
                    old(self).stats.peak_usage
                } else {
                    used
                },
                allocation_count: (old(self).stats.allocation_count + 1) as usize,
                available: if allocated >= used {
                    (allocated - used) as usize
                } else {
                    0
                },
            }),
    {
        self.stats.total_used = used;
        self.stats.total_allocated = allocated;
        if used > self.stats.peak_usage {
            self.stats.peak_usage = used;
        }
        self.stats.allocation_count = self.stats.allocation_count + 1;
        self.stats.available = if allocated >= used {
            allocated - used
        } else {
            0
        };
    }
}

/// Allocating under a fresh id and then releasing it brings the totals and the available
/// figure back to what they were; the count of allocations and the peak keep the trace.
pub proof fn law_allocate_then_release(s: MemoryStats, size: usize)
    requires
        s.total_allocated + charged(size as int) <= usize::MAX,
        s.total_used + size <= usize::MAX,
        s.allocation_count < usize::MAX,
        s.available == if s.total_allocated >= s.total_used {
            s.total_allocated - s.total_used
        } else {
            0
        },
    ensures
        ({
            let after = stats_after_release(stats_after_allocate(s, size), size);
            &&& after.total_allocated == s.total_allocated
            &&& after.total_used == s.total_used
            &&& after.available == s.available
            &&& after.allocation_count == s.allocation_count + 1
            &&& after.peak_usage >= s.peak_usage
            &&& after.peak_usage >= s.total_used + size
        }),
{
}

} // verus!
