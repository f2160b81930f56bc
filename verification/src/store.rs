//! The subscription store: a registry of subscription records deduplicated
//! by fingerprint.
//!
//! The store owns every subscription record. At most one live record exists
//! per distinct fingerprint; `register` is idempotent over the fingerprint
//! and reports a duplicate as a success, not an error. Records are never
//! mutated in place: a changed fingerprint is a new record. Ids grow
//! strictly with creation order, so the most recently created record of a
//! device is the one with the largest index.

use vstd::prelude::*;

use crate::subscription::{SubscribeData, SubscribeDataView, Subscription, SubscriptionView};

verus! {

/// What a successful `register` call reports.
#[derive(Clone, Copy, Debug, PartialEq, Eq)]
pub enum RegisterOutcome {
    /// A new record was inserted for a fingerprint not seen before.
    Created,
    /// A record with this fingerprint already exists; nothing was changed.
    AlreadyExists,
}

/// Why a `register` call was refused.
#[derive(Clone, Copy, Debug, PartialEq, Eq)]
pub enum RegisterError {
    /// The payload is malformed; it never reached the store.
    Validation,
    /// The store cannot persist a new record (its id sequence is exhausted).
    Storage,
}

/// Mathematical image of the whole store: the record sequence in creation
/// order, and the id the next created record will take.
#[verifier::ext_equal]
pub struct StoreModel {
    pub records: Seq<SubscriptionView>,
    pub next_id: int,
}

/// Whether some record in `records` carries the fingerprint `fp`.
pub open spec fn contains_fingerprint(
    records: Seq<SubscriptionView>,
    fp: (Seq<char>, Seq<char>, Seq<char>),
) -> bool {
    exists|i: int|
        0 <= i < records.len() && (#[trigger] records[i].data.fingerprint()) == fp
}

/// How many records in `records` carry the fingerprint `fp`.
pub open spec fn count_fingerprint(
    records: Seq<SubscriptionView>,
    fp: (Seq<char>, Seq<char>, Seq<char>),
) -> nat
    decreases records.len(),
{
    if records.len() == 0 {
        0
    } else {
        count_fingerprint(records.drop_last(), fp) + if records.last().data.fingerprint()
            == fp {
            1nat
        } else {
            0nat
        }
    }
}

/// The record returned by a device lookup: the one with the largest index
/// among those registered under `device_id`, i.e. the most recently created.
pub open spec fn find_by_device_model(
    records: Seq<SubscriptionView>,
    device_id: Seq<char>,
) -> Option<SubscriptionView>
    decreases records.len(),
{
    if records.len() == 0 {
        None
    } else if records.last().device_id == device_id {
        Some(records.last())
    } else {
        find_by_device_model(records.drop_last(), device_id)
    }
}

/// What `register` does to the store: reject a malformed payload, report a
/// known fingerprint as `AlreadyExists` without any change, and otherwise
/// append one record under the next id.
pub open spec fn register_model(
    m: StoreModel,
    device_id: Seq<char>,
    data: SubscribeDataView,
) -> (StoreModel, Result<RegisterOutcome, RegisterError>) {
    if !data.is_valid() {
        (m, Err(RegisterError::Validation))
    } else if contains_fingerprint(m.records, data.fingerprint()) {
        (m, Ok(RegisterOutcome::AlreadyExists))
    } else if m.next_id == i64::MAX as int {
        (m, Err(RegisterError::Storage))
    } else {
        (
            StoreModel {
                records: m.records.push(
                    SubscriptionView { id: m.next_id, data, device_id },
                ),
                next_id: m.next_id + 1,
            },
            Ok(RegisterOutcome::Created),
        )
    }
}

impl StoreModel {
    /// Invariant of the store: fingerprints are unique, ids grow strictly
    /// with creation order and stay below the next id, and every stored
    /// payload is well formed.
    pub open spec fn inv(self) -> bool {
        &&& forall|i: int, j: int|
            0 <= i < j < self.records.len() ==> (#[trigger] self.records[i].data.fingerprint())
                != (#[trigger] self.records[j].data.fingerprint())
        &&& forall|i: int, j: int|
            0 <= i < j < self.records.len() ==> (#[trigger] self.records[i].id)
                < (#[trigger] self.records[j].id)
        &&& forall|i: int|
            0 <= i < self.records.len() ==> 0 < (#[trigger] self.records[i]).id < self.next_id
        &&& forall|i: int|
            0 <= i < self.records.len() ==> (#[trigger] self.records[i]).data.is_valid()
        &&& 1 <= self.next_id <= i64::MAX as int
    }
}

/// The registry of push subscriptions, deduplicated by fingerprint.
#[derive(Debug)]
pub struct SubscriptionStore {
    records: Vec<Subscription>,
    next_id: i64,
}

impl View for SubscriptionStore {
    type V = StoreModel;

    closed spec fn view(&self) -> StoreModel {
        StoreModel {
            records: self.records@.map_values(|s: Subscription| s@),
            next_id: self.next_id as int,
        }
    }
}

impl SubscriptionStore {
    /// Well-formedness of the store: its model satisfies the invariant.
    pub open spec fn wf(&self) -> bool {
        self@.inv()
    }

    /// Creates an empty store whose first record will take id 1.
    pub fn new() -> (s: SubscriptionStore)
        ensures
            s.wf(),
            s@.records =~= Seq::<SubscriptionView>::empty(),
            s@.next_id == 1,
    {
        SubscriptionStore { records: Vec::new(), next_id: 1 }
    }

    /// Index of the record carrying the fingerprint of `data`, if any.
    fn position_by_fingerprint(&self, data: &SubscribeData) -> (r: Option<usize>)
        ensures
            match r {
                Some(i) => i < self@.records.len() && self@.records[i as int].data.fingerprint()
                    == data@.fingerprint(),
                None => !contains_fingerprint(self@.records, data@.fingerprint()),
            },
    {
        let mut i: usize = 0;
        while i < self.records.len()
            invariant
                i <= self@.records.len(),
                self@.records.len() == self.records@.len(),
                forall|j: int|
                    0 <= j < i ==> (#[trigger] self@.records[j].data.fingerprint())
                        != data@.fingerprint(),
            decreases self.records@.len() - i,
        {
            if self.records[i].data.same_fingerprint(data) {
                return Some(i);
            }
            i += 1;
        }
        None
    }

    /// Registers a subscription payload for a device.
    ///
    /// A well-formed payload whose fingerprint is new is inserted and
    /// reported as `Created`; one whose fingerprint is already stored
    /// changes nothing and is reported as `AlreadyExists`. A malformed
    /// payload is rejected with `Validation`, and a store whose id sequence
    /// is exhausted refuses a new record with `Storage`.
    pub fn register(&mut self, device_id: String, data: SubscribeData) -> (r: Result<
        RegisterOutcome,
        RegisterError,
    >)
        requires
            old(self).wf(),
        ensures
            final(self).wf(),
            (final(self)@, r) == register_model(old(self)@, device_id@, data@),
    {
        if !data.validate() {
            return Err(RegisterError::Validation);
        }
        match self.position_by_fingerprint(&data) {
            Some(_) => Ok(RegisterOutcome::AlreadyExists),
            None => {
                if self.next_id == i64::MAX {
                    return Err(RegisterError::Storage);
                }
                let id = self.next_id;
                self.next_id = self.next_id + 1;
                let record = Subscription { id, data, device_id };
                let ghost rv = record@;
                self.records.push(record);
                proof {
                    assert(self@.records =~= old(self)@.records.push(rv));
                }
                Ok(RegisterOutcome::Created)
            },
        }
    }

    /// Exact-match lookup of the record carrying the fingerprint of `data`.
    ///
    /// Under the store invariant at most one record matches, so the record
    /// returned is the only one with that fingerprint.
    pub fn find_by_fingerprint(&self, data: &SubscribeData) -> (r: Option<&Subscription>)
        ensures
            match r {
                Some(s) => exists|i: int|
                    0 <= i < self@.records.len() && (#[trigger] self@.records[i]) == s@
                        && s@.data.fingerprint() == data@.fingerprint(),
                None => !contains_fingerprint(self@.records, data@.fingerprint()),
            },
    {
        match self.position_by_fingerprint(data) {
            Some(i) => Some(&self.records[i]),
            None => None,
        }
    }

    /// The subscription currently associated with a device: the most
    /// recently created record registered under `device_id`, if any.
    pub fn find_by_device(&self, device_id: &String) -> (r: Option<&Subscription>)
        ensures
            match r {
                Some(s) => find_by_device_model(self@.records, device_id@) == Some(s@),
                None => find_by_device_model(self@.records, device_id@) is None,
            },
    {
        let mut i: usize = self.records.len();
        proof {
            assert(self@.records.take(i as int) =~= self@.records);
        }
        while i > 0
            invariant
                i <= self@.records.len(),
                self@.records.len() == self.records@.len(),
                find_by_device_model(self@.records, device_id@) == find_by_device_model(
                    self@.records.take(i as int),
                    device_id@,
                ),
            decreases i,
        {
            i -= 1;
            proof {
                assert(self@.records.take(i + 1).last() == self@.records[i as int]);
                assert(self@.records.take(i + 1).drop_last() =~= self@.records.take(i as int));
            }
            if self.records[i].device_id == *device_id {
                return Some(&self.records[i]);
            }
        }
        None
    }

    /// Deletes the record carrying the fingerprint of `data`, if any, and
    /// hands it back. The ids of the remaining records are untouched.
    pub fn remove_by_fingerprint(&mut self, data: &SubscribeData) -> (r: Option<Subscription>)
        requires
            old(self).wf(),
        ensures
            final(self).wf(),
            final(self)@.next_id == old(self)@.next_id,
            match r {
                Some(s) => exists|i: int|
                    0 <= i < old(self)@.records.len() && (#[trigger] old(self)@.records[i]) == s@
                        && s@.data.fingerprint() == data@.fingerprint() && final(self)@.records
                        =~= old(self)@.records.remove(i),
                None => !contains_fingerprint(old(self)@.records, data@.fingerprint())
                    && final(self)@ == old(self)@,
            },
    {
        match self.position_by_fingerprint(data) {
            Some(i) => {
                let removed = self.records.remove(i);
                proof {
                    assert(self@.records =~= old(self)@.records.remove(i as int));
                }
                Some(removed)
            },
            None => None,
        }
    }

    /// All registered subscriptions, in creation order.
    pub fn list_all(&self) -> (r: &Vec<Subscription>)
        ensures
            r@.len() == self@.records.len(),
            forall|i: int| 0 <= i < r@.len() ==> (#[trigger] r@[i])@ == self@.records[i],
    {
        &self.records
    }
}

/// What a sequence of `register` calls does to the store, applied in order:
/// the final store and the result of each call.
pub open spec fn register_fold(
    m: StoreModel,
    calls: Seq<(Seq<char>, SubscribeDataView)>,
) -> (StoreModel, Seq<Result<RegisterOutcome, RegisterError>>)
    decreases calls.len(),
{
    if calls.len() == 0 {
        (m, Seq::empty())
    } else {
        let (m1, r1) = register_model(m, calls[0].0, calls[0].1);
        let (mf, rs) = register_fold(m1, calls.drop_first());
        (mf, seq![r1] + rs)
    }
}

/// A sequence of records without the fingerprint `fp` holds zero records
/// with it.
proof fn lemma_count_zero(records: Seq<SubscriptionView>, fp: (Seq<char>, Seq<char>, Seq<char>))
    requires
        !contains_fingerprint(records, fp),
    ensures
        count_fingerprint(records, fp) == 0,
    decreases records.len(),
{
    if records.len() > 0 {
        assert forall|i: int|
            0 <= i < records.drop_last().len() implies (#[trigger] records.drop_last()[i])
            .data
            .fingerprint() != fp by {
            assert(records.drop_last()[i] == records[i]);
            assert(records[i].data.fingerprint() != fp);
        }
        lemma_count_zero(records.drop_last(), fp);
        assert(records.last().data.fingerprint() != fp);
    }
}

/// Records with pairwise distinct fingerprints hold any one fingerprint at
/// most once.
proof fn lemma_unique_count(
    records: Seq<SubscriptionView>,
    fp: (Seq<char>, Seq<char>, Seq<char>),
)
    requires
        forall|i: int, j: int|
            0 <= i < j < records.len() ==> (#[trigger] records[i].data.fingerprint())
                != (#[trigger] records[j].data.fingerprint()),
    ensures
        count_fingerprint(records, fp) <= 1,
    decreases records.len(),
{
    if records.len() > 0 {
        if records.last().data.fingerprint() == fp {
            assert forall|i: int|
                0 <= i < records.drop_last().len() implies (#[trigger] records.drop_last()[i])
                .data
                .fingerprint() != fp by {
                assert(records.drop_last()[i] == records[i]);
                assert(records[i].data.fingerprint() != records[records.len() - 1]
                    .data
                    .fingerprint());
            }
            lemma_count_zero(records.drop_last(), fp);
        } else {
            assert forall|i: int, j: int|
                0 <= i < j < records.drop_last().len() implies (#[trigger] records.drop_last()[i]
                    .data
                    .fingerprint()) != (#[trigger] records.drop_last()[j]
                    .data
                    .fingerprint()) by {
                assert(records.drop_last()[i] == records[i]);
                assert(records.drop_last()[j] == records[j]);
            }
            lemma_unique_count(records.drop_last(), fp);
        }
    }
}

/// At most one live record exists per distinct fingerprint in any store
/// that satisfies the invariant — deduplication is an invariant of the
/// registry, not just the typical behaviour of `register`.
pub proof fn lemma_at_most_one_per_fingerprint(
    m: StoreModel,
    fp: (Seq<char>, Seq<char>, Seq<char>),
)
    requires
        m.inv(),
    ensures
        count_fingerprint(m.records, fp) <= 1,
{
    lemma_unique_count(m.records, fp);
}

/// Once a fingerprint is stored, any further well-formed `register` calls
/// with that fingerprint all report `AlreadyExists` and change nothing.
proof fn lemma_fold_already_exists(
    m: StoreModel,
    calls: Seq<(Seq<char>, SubscribeDataView)>,
    fp: (Seq<char>, Seq<char>, Seq<char>),
)
    requires
        contains_fingerprint(m.records, fp),
        forall|k: int|
            0 <= k < calls.len() ==> (#[trigger] calls[k]).1.is_valid() && calls[k].1.fingerprint()
                == fp,
    ensures
        ({
            let (mf, rs) = register_fold(m, calls);
            &&& mf == m
            &&& rs.len() == calls.len()
            &&& forall|k: int|
                0 <= k < rs.len() ==> (#[trigger] rs[k]) == Ok::<
                    RegisterOutcome,
                    RegisterError,
                >(RegisterOutcome::AlreadyExists)
        }),
    decreases calls.len(),
{
    if calls.len() > 0 {
        assert(calls[0].1.is_valid() && calls[0].1.fingerprint() == fp);
        assert forall|k: int|
            0 <= k < calls.drop_first().len() implies (#[trigger] calls.drop_first()[k])
            .1
            .is_valid() && calls.drop_first()[k].1.fingerprint() == fp by {
            assert(calls.drop_first()[k] == calls[k + 1]);
        }
        lemma_fold_already_exists(m, calls.drop_first(), fp);
    }
}

/// Idempotent subscribe: two `register` calls with the same fingerprint, on
/// a store that does not yet hold it, yield `Created` then `AlreadyExists`,
/// the second call changes nothing, and exactly one record with that
/// fingerprint exists afterwards.
pub proof fn lemma_register_idempotent(
    m: StoreModel,
    dev1: Seq<char>,
    dev2: Seq<char>,
    d1: SubscribeDataView,
    d2: SubscribeDataView,
)
    requires
        d1.is_valid(),
        d2.is_valid(),
        d1.fingerprint() == d2.fingerprint(),
        !contains_fingerprint(m.records, d1.fingerprint()),
        m.next_id < i64::MAX as int,
    ensures
        ({
            let (m1, r1) = register_model(m, dev1, d1);
            let (m2, r2) = register_model(m1, dev2, d2);
            &&& r1 == Ok::<RegisterOutcome, RegisterError>(RegisterOutcome::Created)
            &&& r2 == Ok::<RegisterOutcome, RegisterError>(RegisterOutcome::AlreadyExists)
            &&& m2 == m1
            &&& count_fingerprint(m2.records, d1.fingerprint()) == 1
        }),
{
    let fp = d1.fingerprint();
    let (m1, r1) = register_model(m, dev1, d1);
    assert(m1.records.last().data.fingerprint() == fp);
    assert(contains_fingerprint(m1.records, fp));
    lemma_count_zero(m.records, fp);
    assert(m1.records.drop_last() =~= m.records);
    assert(count_fingerprint(m1.records, fp) == 1);
}

/// Fingerprint uniqueness under contention: any number of `register` calls
/// with one fingerprint, serialized in any order against a store that does
/// not yet hold it, yield exactly one `Created` — the first — and
/// `AlreadyExists` for all the others, and the store ends with exactly one
/// record carrying that fingerprint.
pub proof fn lemma_register_contended(
    m: StoreModel,
    calls: Seq<(Seq<char>, SubscribeDataView)>,
    fp: (Seq<char>, Seq<char>, Seq<char>),
)
    requires
        calls.len() >= 1,
        !contains_fingerprint(m.records, fp),
        m.next_id < i64::MAX as int,
        forall|k: int|
            0 <= k < calls.len() ==> (#[trigger] calls[k]).1.is_valid() && calls[k].1.fingerprint()
                == fp,
    ensures
        ({
            let (mf, rs) = register_fold(m, calls);
            &&& rs.len() == calls.len()
            &&& rs[0] == Ok::<RegisterOutcome, RegisterError>(RegisterOutcome::Created)
            &&& forall|k: int|
                1 <= k < rs.len() ==> (#[trigger] rs[k]) == Ok::<
                    RegisterOutcome,
                    RegisterError,
                >(RegisterOutcome::AlreadyExists)
            &&& count_fingerprint(mf.records, fp) == 1
        }),
{
    let (m1, r1) = register_model(m, calls[0].0, calls[0].1);
    assert(m1.records.last().data.fingerprint() == fp);
    assert(contains_fingerprint(m1.records, fp));
    assert forall|k: int|
        0 <= k < calls.drop_first().len() implies (#[trigger] calls.drop_first()[k]).1.is_valid()
        && calls.drop_first()[k].1.fingerprint() == fp by {
        assert(calls.drop_first()[k] == calls[k + 1]);
    }
    lemma_fold_already_exists(m1, calls.drop_first(), fp);
    lemma_count_zero(m.records, fp);
    assert(m1.records.drop_last() =~= m.records);
}

impl Subscription {
    /// Looks the store up by the fingerprint of `subscribe_data`.
    pub fn find_by_subscribe_data<'a>(
        store: &'a SubscriptionStore,
        subscribe_data: &SubscribeData,
    ) -> (r: Option<&'a Subscription>)
        ensures
            match r {
                Some(s) => exists|i: int|
                    0 <= i < store@.records.len() && (#[trigger] store@.records[i]) == s@
                        && s@.data.fingerprint() == subscribe_data@.fingerprint(),
                None => !contains_fingerprint(store@.records, subscribe_data@.fingerprint()),
            },
    {
        store.find_by_fingerprint(subscribe_data)
    }

    /// Looks the store up by device identity: the most recently created
    /// record of that device, if it has one.
    pub fn new_with_device_id<'a>(store: &'a SubscriptionStore, device_id: String) -> (r: Option<
        &'a Subscription,
    >)
        ensures
            match r {
                Some(s) => find_by_device_model(store@.records, device_id@) == Some(s@),
                None => find_by_device_model(store@.records, device_id@) is None,
            },
    {
        store.find_by_device(&device_id)
    }
}

} // verus!
