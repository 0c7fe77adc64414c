//! Monitoring: the kinds of resources watched, the health assessment, the alert log and
//! its time queries, the bounded history of samples and the table of allocated
//! resources. Times are milliseconds since the Unix epoch; measured usage, which is
//! floating point, is sampled and compared by the caller.

use crate::error::NexaError;
use crate::store::{Keyed, KeyedStore};
use crate::text::{owned, push_str};
use vstd::prelude::*;

verus! {

/// A kind of resource the monitor watches.
#[derive(Debug, Clone, Copy, PartialEq, Eq, Structural)]
pub enum ResourceType {
    Memory,
    CPU,
    Tokens,
    Network,
    Storage,
}

/// The severity of an alert.
#[derive(Debug, Clone, Copy, PartialEq, Eq, Structural)]
pub enum AlertLevel {
    Info,
    Warning,
    Error,
    Critical,
}

/// The upper-case label of a severity.
pub open spec fn level_label(l: AlertLevel) -> Seq<char> {
    match l {
        AlertLevel::Info => "INFO"@,
        AlertLevel::Warning => "WARNING"@,
        AlertLevel::Error => "ERROR"@,
        AlertLevel::Critical => "CRITICAL"@,
    }
}

impl AlertLevel {
    /// The label of the severity, as [`level_label`] gives it.
    pub fn label(&self) -> (r: String)
        ensures
            r@ == level_label(*self),
    {
        match self {
            AlertLevel::Info => owned("INFO"),
            AlertLevel::Warning => owned("WARNING"),
            AlertLevel::Error => owned("ERROR"),
            AlertLevel::Critical => owned("CRITICAL"),
        }
    }
}

/// Health per resource, and overall.
#[derive(Debug, Clone, Copy, PartialEq, Eq, Structural)]
pub struct SystemHealth {
    pub cpu_healthy: bool,
    pub memory_healthy: bool,
    pub overall_healthy: bool,
}

impl SystemHealth {
    /// The health from the two resource checks: healthy overall when both are.
    pub fn from_checks(cpu_healthy: bool, memory_healthy: bool) -> (h: SystemHealth)
        ensures
            h.cpu_healthy == cpu_healthy,
            h.memory_healthy == memory_healthy,
            h.overall_healthy == (cpu_healthy && memory_healthy),
    {
        SystemHealth { cpu_healthy, memory_healthy, overall_healthy: cpu_healthy && memory_healthy }
    }
}

impl Default for SystemHealth {
    /// Healthy in every respect.
    fn default() -> (h: SystemHealth)
        ensures
            h.cpu_healthy && h.memory_healthy && h.overall_healthy,
    {
        SystemHealth { cpu_healthy: true, memory_healthy: true, overall_healthy: true }
    }
}

/// An alert raised at `timestamp_ms`, with free-form metadata as key and value pairs.
#[derive(Debug)]
pub struct SystemAlert {
    pub timestamp_ms: i64,
    pub level: AlertLevel,
    pub message: String,
    pub metadata: Vec<(String, String)>,
}

fn clone_pairs(v: &Vec<(String, String)>) -> (r: Vec<(String, String)>)
    ensures
        r@ == v@,
{
    let mut r: Vec<(String, String)> = Vec::new();
    let mut i: usize = 0;
    while i < v.len()
        invariant
            i <= v.len(),
            r@ == v@.take(i as int),
        decreases v.len() - i,
    {
        proof {
            assert(v@.take(i as int + 1) =~= v@.take(i as int).push(v@[i as int]));
        }
        let k = v[i].0.clone();
        let x = v[i].1.clone();
        r.push((k, x));
        i = i + 1;
    }
    assert(v@.take(v.len() as int) =~= v@);
    r
}

impl SystemAlert {
    /// Whether two alerts hold the same time, level, message and metadata.
    pub open spec fn same_as(&self, other: &SystemAlert) -> bool {
        &&& self.timestamp_ms == other.timestamp_ms
        &&& self.level == other.level
        &&& self.message == other.message
        &&& self.metadata@ == other.metadata@
    }
}

impl Clone for SystemAlert {
    fn clone(&self) -> (r: Self)
        ensures
            r.same_as(self),
    {
        SystemAlert {
            timestamp_ms: self.timestamp_ms,
            level: self.level,
            message: self.message.clone(),
            metadata: clone_pairs(&self.metadata),
        }
    }
}

/// The alerts raised so far, oldest first.
#[derive(Debug)]
pub struct AlertLog {
    pub alerts: Vec<SystemAlert>,
}

/// The alerts of `s` raised at or after `since`, in order.
pub open spec fn raised_since(s: Seq<SystemAlert>, since: i64) -> Seq<SystemAlert> {
    s.filter(|a: SystemAlert| a.timestamp_ms >= since)
}

impl AlertLog {
    /// An empty log.
    pub fn new() -> (l: AlertLog)
        ensures
            l.alerts@.len() == 0,
    {
        AlertLog { alerts: Vec::with_capacity(100) }
    }

    /// Record an alert raised at `now_ms`.
    pub fn raise_alert(
        &mut self,
        level: AlertLevel,
        message: String,
        metadata: Vec<(String, String)>,
        now_ms: i64,
    )
        ensures
            final(self).alerts@ == old(self).alerts@.push(
                SystemAlert { timestamp_ms: now_ms, level, message, metadata },
            ),
    {
        self.alerts.push(SystemAlert { timestamp_ms: now_ms, level, message, metadata });
    }

    /// Copies of the alerts raised at or after `since`, oldest first.
    pub fn get_recent_alerts(&self, since: i64) -> (r: Vec<SystemAlert>)
        ensures
            r@.len() == raised_since(self.alerts@, since).len(),
            forall|i: int| 0 <= i < r@.len() ==> r@[i].same_as(&raised_since(self.alerts@, since)[i]),
    {
        let ghost f = |a: SystemAlert| a.timestamp_ms >= since;
        let mut r: Vec<SystemAlert> = Vec::new();
        let mut i: usize = 0;
        while i < self.alerts.len()
            invariant
                i <= self.alerts@.len(),
                f == (|a: SystemAlert| a.timestamp_ms >= since),
                r@.len() == self.alerts@.take(i as int).filter(f).len(),
                forall|k: int| 0 <= k < r@.len() ==> r@[k].same_as(&self.alerts@.take(i as int).filter(f)[k]),
            decreases self.alerts@.len() - i,
        {
            proof {
                assert(self.alerts@.take(i as int + 1).drop_last() =~= self.alerts@.take(i as int));
                reveal_with_fuel(Seq::filter, 1);
            }
            if self.alerts[i].timestamp_ms >= since {
                let a = self.alerts[i].clone();
                r.push(a);
            }
            i = i + 1;
        }
        assert(self.alerts@.take(self.alerts@.len() as int) =~= self.alerts@);
        r
    }
}

/// An alert raised at a time not before `since` is among the alerts reported since then,
/// and every alert reported was raised at or after `since`.
pub proof fn law_recent_alerts(log: Seq<SystemAlert>, a: SystemAlert, since: i64)
    requires
        a.timestamp_ms >= since,
    ensures
        raised_since(log.push(a), since).contains(a),
        forall|i: int| 0 <= i < raised_since(log, since).len() ==> #[trigger] raised_since(log, since)[i].timestamp_ms >= since,
{
    let f = |x: SystemAlert| x.timestamp_ms >= since;
    reveal_with_fuel(Seq::filter, 1);
    assert(log.push(a).drop_last() =~= log);
    assert(raised_since(log.push(a), since) == raised_since(log, since).push(a));
    assert(raised_since(log.push(a), since).last() == a);
    assert forall|i: int| 0 <= i < raised_since(log, since).len() implies #[trigger] raised_since(log, since)[i].timestamp_ms >= since by {
        log.lemma_filter_pred(f, i);
    }
}

/// `h` after adding `item` to a history that keeps at most `cap` samples: at the cap
/// the oldest sample makes room.
pub open spec fn pushed_capped<T>(h: Seq<T>, item: T, cap: nat) -> Seq<T> {
    if h.len() >= cap {
        h.drop_first().push(item)
    } else {
        h.push(item)
    }
}

/// Add `item` to a history that keeps at most `cap` samples, dropping the oldest at the cap.
pub fn push_capped<T>(history: &mut Vec<T>, item: T, cap: usize)
    requires
        cap > 0 || old(history)@.len() > 0,
    ensures
        final(history)@ == pushed_capped(old(history)@, item, cap as nat),
{
    if history.len() >= cap {
        history.remove(0);
    }
    history.push(item);
}

/// A history kept by [`push_capped`] never holds more than its cap.
pub proof fn law_capped_history<T>(h: Seq<T>, item: T, cap: nat)
    requires
        cap > 0,
        h.len() <= cap,
    ensures
        pushed_capped(h, item, cap).len() <= cap,
        pushed_capped(h, item, cap).last() == item,
{
}

/// A resource recorded as allocated, measured in its unit.
#[derive(Debug)]
pub struct Resource {
    pub name: String,
    pub value: u64,
    pub unit: String,
}

impl Keyed for Resource {
    open spec fn key(&self) -> Seq<char> {
        self.name@
    }

    fn key_str(&self) -> (r: &str) {
        self.name.as_str()
    }
}

/// The unit in which a resource type is measured.
pub open spec fn unit_of(r: ResourceType) -> Seq<char> {
    match r {
        ResourceType::Memory => "bytes"@,
        ResourceType::CPU => "cores"@,
        ResourceType::Tokens => "tokens"@,
        ResourceType::Network => "bytes/s"@,
        ResourceType::Storage => "bytes"@,
    }
}

/// The unit of a resource type, as [`unit_of`] gives it.
pub fn unit_for(r: ResourceType) -> (u: String)
    ensures
        u@ == unit_of(r),
{
    match r {
        ResourceType::Memory => owned("bytes"),
        ResourceType::CPU => owned("cores"),
        ResourceType::Tokens => owned("tokens"),
        ResourceType::Network => owned("bytes/s"),
        ResourceType::Storage => owned("bytes"),
    }
}

/// The name of a resource type, as written in messages.
pub open spec fn resource_label(r: ResourceType) -> Seq<char> {
    match r {
        ResourceType::Memory => "Memory"@,
        ResourceType::CPU => "CPU"@,
        ResourceType::Tokens => "Tokens"@,
        ResourceType::Network => "Network"@,
        ResourceType::Storage => "Storage"@,
    }
}

fn resource_label_of(r: ResourceType) -> (s: String)
    ensures
        s@ == resource_label(r),
{
    match r {
        ResourceType::Memory => owned("Memory"),
        ResourceType::CPU => owned("CPU"),
        ResourceType::Tokens => owned("Tokens"),
        ResourceType::Network => owned("Network"),
        ResourceType::Storage => owned("Storage"),
    }
}

/// Whether usage figures can be reported for a resource type: memory, CPU and tokens
/// can; the others are refused with a resource error that names the type.
pub fn check_resource_supported(r: ResourceType) -> (res: Result<(), NexaError>)
    ensures
        res is Ok <==> (r == ResourceType::Memory || r == ResourceType::CPU || r
            == ResourceType::Tokens),
        res matches Err(e) ==> (e matches NexaError::Resource(m) && m@
            == "Unsupported resource type: "@ + resource_label(r)),
{
    match r {
        ResourceType::Memory | ResourceType::CPU | ResourceType::Tokens => Ok(()),
        _ => {
            let mut m = owned("Unsupported resource type: ");
            let n = resource_label_of(r);
            push_str(&mut m, n.as_str());
            Err(NexaError::Resource(m))
        },
    }
}

/// The token resource: what is left of `limit` after `usage`. Usage beyond the limit
/// is not a state the token manager reaches.
pub fn tokens_available(usage: u64, limit: u64) -> (a: u64)
    requires
        usage <= limit,
    ensures
        a == limit - usage,
{
    limit - usage
}

/// The resources recorded as allocated, by name.
#[derive(Debug)]
pub struct ResourceTable {
    pub resources: KeyedStore<Resource>,
}

impl ResourceTable {
    /// An empty table.
    pub fn new() -> (t: ResourceTable)
        ensures
            t.resources.wf(),
            t.resources.view() == Map::<Seq<char>, Resource>::empty(),
    {
        ResourceTable { resources: KeyedStore::new() }
    }

    /// Record `size` units of a resource under `name`, replacing an earlier record of
    /// that name; the unit follows the resource type.
    pub fn allocate(&mut self, name: String, resource_type: ResourceType, size: usize)
        requires
            old(self).resources.wf(),
            size <= u64::MAX,
        ensures
            final(self).resources.wf(),
            final(self).resources.view().dom() == old(self).resources.view().dom().insert(name@),
            final(self).resources.view()[name@].name == name,
            final(self).resources.view()[name@].value == size,
            final(self).resources.view()[name@].unit@ == unit_of(resource_type),
            forall|k: Seq<char>| k != name@ && old(self).resources.view().contains_key(k)
                ==> final(self).resources.view()[k] == old(self).resources.view()[k],
    {
        let unit = unit_for(resource_type);
        let r = Resource { name, value: size as u64, unit };
        let _ = self.resources.insert(r);
    }
}

} // verus!
