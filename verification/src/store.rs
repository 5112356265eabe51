//! The metrics store: for each host, the records that arrived for it, in
//! arrival order.

use crate::metrics::{views, MetricsView, SystemMetrics};
use vstd::hash_map::StringHashMap;
use vstd::prelude::*;
use vstd::string::StringExecFns;

verus! {

/// The mapping from host to its history, as a mathematical value.
pub type Histories = Map<Seq<char>, Seq<MetricsView>>;

/// The history recorded for `hostname`; empty for a host that has none.
pub open spec fn history_of(store: Histories, hostname: Seq<char>) -> Seq<MetricsView> {
    if store.contains_key(hostname) {
        store[hostname]
    } else {
        Seq::empty()
    }
}

/// The store after `record` arrived for `hostname`: the record stands last in
/// that host's history, and every other host is as before.
pub open spec fn appended(store: Histories, hostname: Seq<char>, record: MetricsView) -> Histories {
    store.insert(hostname, history_of(store, hostname).push(record))
}

/// The hosts in first-arrival order after a record arrived for `hostname`: a
/// host that is new to the store goes last, a known one changes nothing.
pub open spec fn first_arrivals(
    hosts: Seq<Seq<char>>,
    store: Histories,
    hostname: Seq<char>,
) -> Seq<Seq<char>> {
    if store.contains_key(hostname) {
        hosts
    } else {
        hosts.push(hostname)
    }
}

/// One arrival at the store: a record, and the host it was filed under.
pub struct Arrival {
    pub hostname: Seq<char>,
    pub record: MetricsView,
}

/// The store after a series of arrivals, taken in order. The arrivals may
/// come over any number of connections: the store takes them one at a time.
pub open spec fn ingested(store: Histories, arrivals: Seq<Arrival>) -> Histories
    decreases arrivals.len(),
{
    if arrivals.len() == 0 {
        store
    } else {
        appended(
            ingested(store, arrivals.drop_last()),
            arrivals.last().hostname,
            arrivals.last().record,
        )
    }
}

/// The records among `arrivals` that were filed under `hostname`, in their
/// order of arrival.
pub open spec fn arrivals_for(arrivals: Seq<Arrival>, hostname: Seq<char>) -> Seq<MetricsView>
    decreases arrivals.len(),
{
    if arrivals.len() == 0 {
        Seq::empty()
    } else if arrivals.last().hostname == hostname {
        arrivals_for(arrivals.drop_last(), hostname).push(arrivals.last().record)
    } else {
        arrivals_for(arrivals.drop_last(), hostname)
    }
}

/// A host's history is its records in arrival order, whatever arrives for
/// other hosts in between: after any series of arrivals it is what it was,
/// followed by the arrivals for that host in their order.
pub proof fn lemma_arrival_order(store: Histories, arrivals: Seq<Arrival>, hostname: Seq<char>)
    ensures
        history_of(ingested(store, arrivals), hostname) == history_of(store, hostname)
            + arrivals_for(arrivals, hostname),
        ingested(store, arrivals).contains_key(hostname) <==> store.contains_key(hostname)
            || arrivals_for(arrivals, hostname).len() > 0,
    decreases arrivals.len(),
{
    if arrivals.len() > 0 {
        lemma_arrival_order(store, arrivals.drop_last(), hostname);
    }
}

/// One host with the records that arrived for it, oldest first.
#[derive(Debug, PartialEq, Eq)]
pub struct HostHistory {
    pub hostname: String,
    pub records: Vec<SystemMetrics>,
}

/// Per-host histories, keyed by hostname.
///
/// Hosts are kept in the order of their first record; a hash index finds a
/// host's place, so that appending does not walk the hosts.
pub struct MetricsStore {
    index: StringHashMap<usize>,
    series: Vec<HostHistory>,
}

impl View for MetricsStore {
    type V = Histories;

    closed spec fn view(&self) -> Histories {
        histories(self.index@, self.series@)
    }
}

/// Whether an index and a list of hosts describe each other: the index
/// leads from every host's name to its place in the list, and every place in
/// the list is reached from its host's name.
spec fn consistent(index: Map<Seq<char>, usize>, series: Seq<HostHistory>) -> bool {
    &&& forall|h: Seq<char>| #[trigger]
        index.contains_key(h) ==> index[h] < series.len() && series[index[h] as int].hostname@ == h
    &&& forall|i: int|
        0 <= i < series.len() ==> index.contains_key((#[trigger] series[i]).hostname@)
            && index[series[i].hostname@] == i
}

/// The mapping that an index and a list of hosts stand for.
spec fn histories(index: Map<Seq<char>, usize>, series: Seq<HostHistory>) -> Histories {
    Map::new(
        |h: Seq<char>| index.contains_key(h),
        |h: Seq<char>| views(series[index[h] as int].records@),
    )
}

/// The names in a list of hosts, in the list's order.
spec fn hostnames(series: Seq<HostHistory>) -> Seq<Seq<char>> {
    series.map_values(|entry: HostHistory| entry.hostname@)
}

/// Files `record` under `hostname`, in an index and a list of hosts that
/// describe each other.
fn file_record(
    index: &mut StringHashMap<usize>,
    series: &mut Vec<HostHistory>,
    hostname: &str,
    record: SystemMetrics,
)
    requires
        consistent(old(index)@, old(series)@),
    ensures
        consistent(final(index)@, final(series)@),
        histories(final(index)@, final(series)@) == appended(
            histories(old(index)@, old(series)@),
            hostname@,
            record@,
        ),
        hostnames(final(series)@) == first_arrivals(
            hostnames(old(series)@),
            histories(old(index)@, old(series)@),
            hostname@,
        ),
{
    let found: Option<usize> = match index.get(hostname) {
        Some(position) => Some(*position),
        None => None,
    };
    match found {
        Some(position) => {
            series[position].records.push(record);
            assert(views(series[position as int].records@) =~= views(
                old(series)[position as int].records@,
            ).push(record@));
            assert(hostnames(series@) =~= hostnames(old(series)@));
        },
        None => {
            let position: usize = series.len();
            let mut records: Vec<SystemMetrics> = Vec::new();
            records.push(record);
            assert(views(records@) =~= Seq::<MetricsView>::empty().push(record@));
            series.push(HostHistory { hostname: String::from_str(hostname), records });
            index.insert(String::from_str(hostname), position);
            assert(hostnames(series@) =~= hostnames(old(series)@).push(hostname@));
        },
    }
    assert(histories(index@, series@) =~= appended(
        histories(old(index)@, old(series)@),
        hostname@,
        record@,
    ));
}

impl MetricsStore {
    /// The hosts that have a history, in the order of their first record.
    pub closed spec fn hosts(&self) -> Seq<Seq<char>> {
        hostnames(self.series@)
    }

    /// The index and the list of hosts describe each other.
    #[verifier::type_invariant]
    spec fn wf(&self) -> bool {
        consistent(self.index@, self.series@)
    }

    /// An empty store.
    pub fn new() -> (store: MetricsStore)
        ensures
            store@ == Map::<Seq<char>, Seq<MetricsView>>::empty(),
            store.hosts() == Seq::<Seq<char>>::empty(),
    {
        let store = MetricsStore { index: StringHashMap::new(), series: Vec::new() };
        assert(store@ =~= Map::<Seq<char>, Seq<MetricsView>>::empty());
        assert(store.hosts() =~= Seq::<Seq<char>>::empty());
        store
    }

    /// Records `record` as the latest arrival for `hostname`.
    pub fn append(&mut self, hostname: &str, record: SystemMetrics)
        ensures
            final(self)@ == appended(old(self)@, hostname@, record@),
            final(self).hosts() == first_arrivals(old(self).hosts(), old(self)@, hostname@),
    {
        proof {
            use_type_invariant(&*self);
        }
        let mut taken = MetricsStore::new();
        std::mem::swap(self, &mut taken);
        let MetricsStore { mut index, mut series } = taken;
        file_record(&mut index, &mut series, hostname, record);
        *self = MetricsStore { index, series };
    }

    /// The records that arrived for `hostname`, oldest first, or `None` for a
    /// host that never sent one.
    pub fn history(&self, hostname: &str) -> (records: Option<&Vec<SystemMetrics>>)
        ensures
            match records {
                Some(found) => self@.contains_key(hostname@) && views(found@) == self@[hostname@],
                None => !self@.contains_key(hostname@),
            },
    {
        proof {
            use_type_invariant(self);
        }
        match self.index.get(hostname) {
            Some(position) => Some(&self.series[*position].records),
            None => None,
        }
    }

    /// A copy of the whole mapping as it stands: one entry per host, in the
    /// order of the hosts' first records, each with its full history.
    pub fn snapshot(&self) -> (entries: Vec<HostHistory>)
        ensures
            entries.len() == self.hosts().len(),
            forall|i: int|
                0 <= i < entries.len() ==> {
                    &&& (#[trigger] entries[i]).hostname@ == self.hosts()[i]
                    &&& self@.contains_key(entries[i].hostname@)
                    &&& views(entries[i].records@) == self@[entries[i].hostname@]
                },
            self.hosts().no_duplicates(),
            forall|h: Seq<char>| self@.contains_key(h) ==> self.hosts().contains(h),
    {
        proof {
            use_type_invariant(self);
        }
        let mut entries: Vec<HostHistory> = Vec::new();
        let mut i: usize = 0;
        while i < self.series.len()
            invariant
                self.wf(),
                i <= self.series.len(),
                entries.len() == i,
                forall|k: int|
                    0 <= k < i ==> {
                        &&& (#[trigger] entries[k]).hostname@ == self.series[k].hostname@
                        &&& entries[k].records@ == self.series[k].records@
                    },
            decreases self.series.len() - i,
        {
            entries.push(self.series[i].clone());
            i += 1;
        }
        assert forall|h: Seq<char>| self@.contains_key(h) implies self.hosts().contains(h) by {
            assert(self.hosts()[self.index@[h] as int] == h);
        }
        entries
    }
}

impl Clone for HostHistory {
    fn clone(&self) -> (copy: HostHistory)
        ensures
            copy.hostname@ == self.hostname@,
            copy.records@ == self.records@,
    {
        let mut records: Vec<SystemMetrics> = Vec::new();
        let mut i: usize = 0;
        while i < self.records.len()
            invariant
                i <= self.records.len(),
                records@ == self.records@.take(i as int),
            decreases self.records.len() - i,
        {
            records.push(self.records[i].clone());
            assert(self.records@.take(i + 1) =~= self.records@.take(i as int).push(
                self.records@[i as int],
            ));
            i += 1;
        }
        assert(self.records@.take(i as int) =~= self.records@);
        HostHistory { hostname: self.hostname.clone(), records }
    }
}

} // verus!
