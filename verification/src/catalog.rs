//! The service catalog: which services this node runs, and where.
use vstd::prelude::*;
use crate::text::same_text;

verus! {

/// One service of the catalog.
#[derive(Debug, PartialEq, Eq)]
pub struct ServiceRecord {
    /// The label under which peers ask for the service: the leftmost label
    /// of the host names that lead to it.
    pub service_key: String,
    /// The protocol that the service speaks, as a tag.
    pub app_layer_protocol: String,
    /// The local TCP endpoint that streams for the service are forwarded to.
    pub backend_addr: String,
}

impl Clone for ServiceRecord {
    fn clone(&self) -> (copy: Self)
        ensures
            copy == *self,
    {
        ServiceRecord {
            service_key: self.service_key.clone(),
            app_layer_protocol: self.app_layer_protocol.clone(),
            backend_addr: self.backend_addr.clone(),
        }
    }
}

/// Why a store could not hand out its records.
#[derive(Debug)]
pub struct StoreError {
    /// What the store said.
    pub message: String,
}

/// Where the catalog's records are kept.
pub trait ServiceStore {
    /// All the services that are configured.
    fn get_services(&self) -> Result<Vec<ServiceRecord>, StoreError>;
}

/// The handle through which a protocol handler reaches one service.
#[derive(Debug, PartialEq, Eq)]
pub struct ServiceRpc {
    /// The record of the service.
    pub config: ServiceRecord,
}

impl Clone for ServiceRpc {
    fn clone(&self) -> (copy: Self)
        ensures
            copy == *self,
    {
        ServiceRpc { config: self.config.clone() }
    }
}

impl ServiceRpc {
    /// The handle of the service that `config` describes.
    pub fn new(config: ServiceRecord) -> (rpc: Self)
        ensures
            rpc.config == config,
    {
        ServiceRpc { config }
    }
}

/// No two of `records` have the same key.
pub open spec fn distinct_keys(records: Seq<ServiceRecord>) -> bool {
    forall|i: int, j: int|
        0 <= i < j < records.len() ==> (#[trigger] records[i]).service_key@ != (
        #[trigger] records[j]).service_key@
}

/// The record that a list gives for `key`, where a later record replaces
/// an earlier one with the same key.
pub open spec fn last_with_key(records: Seq<ServiceRecord>, key: Seq<char>) -> Option<
    ServiceRecord,
>
    decreases records.len(),
{
    if records.len() == 0 {
        None
    } else if records.last().service_key@ == key {
        Some(records.last())
    } else {
        last_with_key(records.drop_last(), key)
    }
}

/// The services of a node, each found by its key. Fixed once it is built.
pub struct Catalog {
    records: Vec<ServiceRecord>,
}

impl Catalog {
    /// The records of the catalog, in the order in which their keys first came.
    pub closed spec fn view(&self) -> Seq<ServiceRecord> {
        self.records@
    }

    /// A catalog holds each key once.
    pub open spec fn wf(&self) -> bool {
        distinct_keys(self@)
    }

    /// The record that the catalog holds for `key`.
    pub open spec fn get(&self, key: Seq<char>) -> Option<ServiceRecord> {
        last_with_key(self@, key)
    }

    /// The catalog without a record.
    pub fn new() -> (catalog: Self)
        ensures
            catalog.wf(),
            catalog@.len() == 0,
    {
        Catalog { records: Vec::new() }
    }

    /// The catalog of `records`. Of two records with one key the later one
    /// stands.
    pub fn from_records(records: &Vec<ServiceRecord>) -> (catalog: Self)
        ensures
            catalog.wf(),
            forall|key: Seq<char>| catalog.get(key) == last_with_key(records@, key),
    {
        let mut catalog = Catalog::new();
        let mut i: usize = 0;
        while i < records.len()
            invariant
                i <= records.len(),
                catalog.wf(),
                forall|key: Seq<char>|
                    catalog.get(key) == last_with_key(records@.take(i as int), key),
            decreases records.len() - i,
        {
            let ghost before = catalog;
            let record = records[i].clone();
            catalog.insert(record);
            proof {
                let upto = records@.take(i as int + 1);
                assert(upto.drop_last() =~= records@.take(i as int));
                assert(upto.last() == records@[i as int]);
                assert forall|key: Seq<char>| catalog.get(key) == last_with_key(upto, key) by {
                    assert(before.get(key) == last_with_key(records@.take(i as int), key));
                }
            }
            i = i + 1;
        }
        assert(records@.take(records@.len() as int) =~= records@);
        catalog
    }

    /// Puts `record` into the catalog, in place of the record with the same
    /// key if there is one.
    pub fn insert(&mut self, record: ServiceRecord)
        requires
            old(self).wf(),
        ensures
            final(self).wf(),
            final(self).get(record.service_key@) == Some(record),
            forall|key: Seq<char>|
                key != record.service_key@ ==> final(self).get(key) == old(self).get(key),
    {
        let ghost before = self.records@;
        let mut i: usize = 0;
        while i < self.records.len()
            invariant
                i <= self.records.len(),
                self.records@ == before,
                old(self)@ == before,
                distinct_keys(before),
                forall|j: int| 0 <= j < i ==> (#[trigger] before[j]).service_key@
                    != record.service_key@,
            decreases self.records.len() - i,
        {
            if same_text(self.records[i].service_key.as_str(), record.service_key.as_str()) {
                self.records.set(i, record);
                proof {
                    let now = self.records@;
                    assert(now =~= before.update(i as int, record));
                    lemma_update_same_key(before, i as int, record, record.service_key@);
                    assert forall|key: Seq<char>| key != record.service_key@ implies self.get(key)
                        == old(self).get(key) by {
                        lemma_update_same_key(before, i as int, record, key);
                    }
                }
                return ;
            }
            i = i + 1;
        }
        self.records.push(record);
        proof {
            let now = self.records@;
            assert(now.drop_last() =~= before);
            assert(now.last() == record);
        }
    }

    /// The record of the service with the key `label`, if the catalog has one.
    pub fn lookup(&self, label: &str) -> (found: Option<&ServiceRecord>)
        ensures
            found.is_some() <==> self.get(label@).is_some(),
            found matches Some(r) ==> Some(*r) == self.get(label@) && r.service_key@ == label@,
    {
        let mut i: usize = self.records.len();
        proof {
            assert(self.records@.take(i as int) =~= self.records@);
        }
        while i > 0
            invariant
                i <= self.records.len(),
                self.get(label@) == last_with_key(self.records@.take(i as int), label@),
            decreases i,
        {
            proof {
                let upto = self.records@.take(i as int);
                assert(upto.drop_last() =~= self.records@.take(i - 1));
                assert(upto.last() == self.records@[i - 1]);
            }
            i = i - 1;
            if same_text(self.records[i].service_key.as_str(), label) {
                return Some(&self.records[i]);
            }
        }
        None
    }

    /// The records of the catalog, one for each key.
    pub fn records(&self) -> (records: &Vec<ServiceRecord>)
        ensures
            records@ == self@,
    {
        &self.records
    }

    /// How many services the catalog holds.
    pub fn len(&self) -> (n: usize)
        ensures
            n == self@.len(),
    {
        self.records.len()
    }
}

/// Among records with distinct keys, the record at an index is the one
/// found by its key.
pub proof fn lemma_distinct_lookup(records: Seq<ServiceRecord>, i: int)
    requires
        distinct_keys(records),
        0 <= i < records.len(),
    ensures
        last_with_key(records, records[i].service_key@) == Some(records[i]),
    decreases records.len(),
{
    if i == records.len() - 1 {
    } else {
        let head = records.drop_last();
        assert(records[i].service_key@ != records[records.len() - 1].service_key@);
        assert forall|a: int, b: int| 0 <= a < b < head.len() implies (#[trigger] head[a]).service_key@
            != (#[trigger] head[b]).service_key@ by {
            assert(head[a] == records[a] && head[b] == records[b]);
        }
        lemma_distinct_lookup(head, i);
    }
}

/// Replacing a record by one with the same key changes what that key finds
/// and nothing else, and keeps the keys distinct.
pub proof fn lemma_update_same_key(
    records: Seq<ServiceRecord>,
    i: int,
    record: ServiceRecord,
    key: Seq<char>,
)
    requires
        distinct_keys(records),
        0 <= i < records.len(),
        records[i].service_key@ == record.service_key@,
    ensures
        distinct_keys(records.update(i, record)),
        last_with_key(records.update(i, record), key) == if key == record.service_key@ {
            Some(record)
        } else {
            last_with_key(records, key)
        },
    decreases records.len(),
{
    let now = records.update(i, record);
    assert forall|a: int, b: int| 0 <= a < b < now.len() implies (#[trigger] now[a]).service_key@
        != (#[trigger] now[b]).service_key@ by {
        assert(records[a].service_key@ != records[b].service_key@);
    }
    if key == record.service_key@ {
        lemma_distinct_lookup(now, i);
    } else if i == records.len() - 1 {
        assert(now.drop_last() =~= records.drop_last());
    } else {
        let head = records.drop_last();
        assert forall|a: int, b: int| 0 <= a < b < head.len() implies (#[trigger] head[a]).service_key@
            != (#[trigger] head[b]).service_key@ by {
            assert(head[a] == records[a] && head[b] == records[b]);
        }
        assert(now.drop_last() =~= head.update(i, record));
        assert(now.last() == records.last());
        lemma_update_same_key(head, i, record, key);
    }
}

} // verus!
