//! The rules of the listings: which rows a listing holds and in which order.
//! Reading the rows from the database is left to the caller; what is listed
//! is decided here.

use vstd::prelude::*;
use crate::bowel::Bowel;
use crate::calendar::{date_input, date_key, Date, Time};
use crate::grocery_trip::{GroceryTrip, GroceryTripRow};
use crate::store::Store;

verus! {

/// Most recent first.
pub open spec fn sorted_by_date_desc(s: Seq<Bowel>) -> bool {
    forall|i: int, j: int| 0 <= i < j < s.len() ==> date_key(#[trigger] s[i].date@) >= date_key(#[trigger] s[j].date@)
}

/// The bowel movements listed most recent first: the same records, ordered
/// by date, latest first.
pub fn bowels_by_date_desc(rows: Vec<Bowel>) -> (r: Vec<Bowel>)
    ensures
        r@.to_multiset() == rows@.to_multiset(),
        sorted_by_date_desc(r@),
{
    let mut out: Vec<Bowel> = Vec::new();
    let mut i: usize = 0;
    proof {
        assert(out@ =~= rows@.take(0));
    }
    while i < rows.len()
        invariant
            i <= rows@.len(),
            out@.to_multiset() == rows@.take(i as int).to_multiset(),
            sorted_by_date_desc(out@),
        decreases rows@.len() - i,
    {
        let b = rows[i];
        let mut p: usize = 0;
        while p < out.len() && !out[p].date.precedes(&b.date)
            invariant
                p <= out@.len(),
                forall|k: int| 0 <= k < p ==> date_key(#[trigger] out@[k].date@) >= date_key(b.date@),
            decreases out@.len() - p,
        {
            p = p + 1;
        }
        proof {
            assert(p < out@.len() ==> date_key(out@[p as int].date@) < date_key(b.date@));
        }
        let ghost before = out@;
        out.insert(p, b);
        proof {
            before.insert_ensures(p as int, b);
            assert(out@.remove(p as int) =~= before);
            out@.to_multiset_ensures();
            assert(out@.to_multiset() =~= before.to_multiset().insert(b));
            assert(rows@.take(i + 1) =~= rows@.take(i as int).push(b));
            rows@.take(i as int).to_multiset_ensures();
            assert forall|x: int, y: int| 0 <= x < y < out@.len() implies date_key(#[trigger] out@[x].date@) >= date_key(#[trigger] out@[y].date@) by {
                if y < p {
                } else if y == p {
                } else if x < p {
                    assert(out@[y] == before[y - 1]);
                    if p < before.len() {
                        assert(date_key(before[p as int].date@) >= date_key(before[y - 1].date@) || y - 1 == p);
                    }
                } else if x == p {
                    assert(out@[y] == before[y - 1]);
                    assert(date_key(before[p as int].date@) >= date_key(before[y - 1].date@) || y - 1 == p);
                } else {
                    assert(out@[x] == before[x - 1]);
                    assert(out@[y] == before[y - 1]);
                }
            }
        }
        i = i + 1;
    }
    proof {
        assert(rows@.take(rows@.len() as int) =~= rows@);
    }
    out
}

/// The name of the store with identifier `id`; the first of them where
/// several share it.
pub open spec fn store_name_of(stores: Seq<Store>, id: i32) -> Option<Seq<char>>
    decreases stores.len(),
{
    if stores.len() == 0 {
        None
    } else if stores[0].id == id {
        Some(stores[0].name@)
    } else {
        store_name_of(stores.drop_first(), id)
    }
}

/// A listed trip as plain values: identifier, date, time and store name.
pub open spec fn trip_view(t: GroceryTrip) -> (i32, Date, Option<Time>, Seq<char>) {
    (t.id, t.date, t.time, t.store_name@)
}

/// The inner join of the trips with the stores: each trip whose store
/// exists, in the order of the trips, with the name of its store.
pub open spec fn joined_trips(trips: Seq<GroceryTripRow>, stores: Seq<Store>) -> Seq<(i32, Date, Option<Time>, Seq<char>)>
    decreases trips.len(),
{
    if trips.len() == 0 {
        Seq::empty()
    } else {
        let rest = joined_trips(trips.drop_last(), stores);
        let t = trips.last();
        match store_name_of(stores, t.store_id) {
            Some(n) => rest.push((t.id, t.date, t.time, n)),
            None => rest,
        }
    }
}

/// The position of the first store with identifier `id`.
fn find_store(stores: &Vec<Store>, id: i32) -> (r: Option<usize>)
    ensures
        r is None <==> store_name_of(stores@, id) is None,
        r matches Some(k) ==> k < stores@.len() && store_name_of(stores@, id) == Some(stores@[k as int].name@),
{
    let mut k: usize = 0;
    proof {
        assert(stores@.skip(0) =~= stores@);
    }
    while k < stores.len()
        invariant
            k <= stores@.len(),
            store_name_of(stores@, id) == store_name_of(stores@.skip(k as int), id),
        decreases stores@.len() - k,
    {
        proof {
            assert(stores@.skip(k as int).drop_first() =~= stores@.skip(k + 1));
        }
        if stores[k].id == id {
            return Some(k);
        }
        k = k + 1;
    }
    None
}

/// The grocery trips as listed: only those whose store exists, each with the
/// name of its store.
pub fn join_trips(trips: &Vec<GroceryTripRow>, stores: &Vec<Store>) -> (r: Vec<GroceryTrip>)
    ensures
        r@.map_values(|t: GroceryTrip| trip_view(t)) == joined_trips(trips@, stores@),
{
    let mut out: Vec<GroceryTrip> = Vec::new();
    let mut i: usize = 0;
    while i < trips.len()
        invariant
            i <= trips@.len(),
            out@.map_values(|t: GroceryTrip| trip_view(t)) == joined_trips(trips@.take(i as int), stores@),
        decreases trips@.len() - i,
    {
        let t = trips[i];
        proof {
            assert(trips@.take(i + 1).drop_last() =~= trips@.take(i as int));
        }
        match find_store(stores, t.store_id) {
            Some(k) => {
                let ghost before = out@;
                out.push(GroceryTrip { id: t.id, date: t.date, time: t.time, store_name: stores[k].name.clone() });
                proof {
                    assert(out@.map_values(|t: GroceryTrip| trip_view(t)) =~= before.map_values(|t: GroceryTrip| trip_view(t)).push(
                        (t.id, t.date, t.time, stores@[k as int].name@),
                    ));
                }
            },
            None => {},
        }
        i = i + 1;
    }
    proof {
        assert(trips@.take(trips@.len() as int) =~= trips@);
    }
    out
}

/// Every stored trip whose store exists is listed, with its date, its time
/// and the name of its store.
pub proof fn lemma_stored_trip_listed(trips: Seq<GroceryTripRow>, stores: Seq<Store>, i: int)
    requires
        0 <= i < trips.len(),
        store_name_of(stores, trips[i].store_id) is Some,
    ensures
        exists|k: int| 0 <= k < joined_trips(trips, stores).len() && #[trigger] joined_trips(trips, stores)[k] == (
            trips[i].id,
            trips[i].date,
            trips[i].time,
            store_name_of(stores, trips[i].store_id)->Some_0,
        ),
    decreases trips.len(),
{
    let rest = trips.drop_last();
    let entry = (trips[i].id, trips[i].date, trips[i].time, store_name_of(stores, trips[i].store_id)->Some_0);
    if i == trips.len() - 1 {
        let k = joined_trips(rest, stores).len() as int;
        assert(joined_trips(trips, stores)[k] == entry);
    } else {
        assert(rest[i] == trips[i]);
        lemma_stored_trip_listed(rest, stores, i);
        let k = choose|k: int| 0 <= k < joined_trips(rest, stores).len() && #[trigger] joined_trips(rest, stores)[k] == entry;
        assert(joined_trips(trips, stores)[k] == joined_trips(rest, stores)[k]);
    }
}

/// Identifiers stay unique in the trip listing when they are unique among
/// the stored trips.
pub proof fn lemma_trip_listing_ids_unique(trips: Seq<GroceryTripRow>, stores: Seq<Store>)
    requires
        forall|i: int, j: int| 0 <= i < j < trips.len() ==> (#[trigger] trips[i]).id != (#[trigger] trips[j]).id,
    ensures
        forall|k: int, l: int| 0 <= k < l < joined_trips(trips, stores).len()
            ==> (#[trigger] joined_trips(trips, stores)[k]).0 != (#[trigger] joined_trips(trips, stores)[l]).0,
    decreases trips.len(),
{
    if trips.len() > 0 {
        let rest = trips.drop_last();
        lemma_trip_listing_ids_unique(rest, stores);
        lemma_joined_from_trips(rest, stores);
        let joined = joined_trips(trips, stores);
        let before = joined_trips(rest, stores);
        assert forall|k: int, l: int| 0 <= k < l < joined.len() implies (#[trigger] joined[k]).0 != (#[trigger] joined[l]).0 by {
            if l < before.len() {
                assert(joined[k] == before[k]);
                assert(joined[l] == before[l]);
            } else {
                assert(joined[k] == before[k]);
                assert(trip_with_store(rest, stores, before[k].0));
                let i = choose|i: int| 0 <= i < rest.len() && (#[trigger] rest[i]).id == before[k].0
                    && store_name_of(stores, rest[i].store_id) is Some;
                assert(trips[i] == rest[i]);
                assert(trips[i].id != trips[trips.len() - 1].id);
            }
        }
    }
}

/// The bowel listing holds exactly the stored records: a stored record is
/// listed, and a record that is not stored (one deleted) is not.
pub proof fn lemma_bowel_listing_same_records(rows: Seq<Bowel>, listed: Seq<Bowel>)
    requires
        listed.to_multiset() == rows.to_multiset(),
    ensures
        forall|b: Bowel| #[trigger] listed.contains(b) <==> rows.contains(b),
{
    rows.to_multiset_ensures();
    listed.to_multiset_ensures();
    assert forall|b: Bowel| #[trigger] listed.contains(b) <==> rows.contains(b) by {
        assert(listed.contains(b) <==> listed.to_multiset().count(b) > 0);
        assert(rows.contains(b) <==> rows.to_multiset().count(b) > 0);
    }
}

/// The trip with identifier `id`; the first of them where several share it.
pub open spec fn trip_of(trips: Seq<GroceryTripRow>, id: i32) -> Option<GroceryTripRow>
    decreases trips.len(),
{
    if trips.len() == 0 {
        None
    } else if trips[0].id == id {
        Some(trips[0])
    } else {
        trip_of(trips.drop_first(), id)
    }
}

/// How an item shows its trip: `<store name> on <YYYY-MM-DD>`, where the
/// trip and its store exist.
pub open spec fn trip_desc(trips: Seq<GroceryTripRow>, stores: Seq<Store>, trip_id: i32) -> Option<Seq<char>> {
    match trip_of(trips, trip_id) {
        Some(t) => match store_name_of(stores, t.store_id) {
            Some(n) => Some(n + " on "@ + date_input(t.date@)),
            None => None,
        },
        None => None,
    }
}

/// The inner join of the items, given by the trip each belongs to, with the
/// trips and their stores: the position of each item whose trip and store
/// exist, in order, with the description of its trip.
pub open spec fn joined_items(item_trips: Seq<i32>, trips: Seq<GroceryTripRow>, stores: Seq<Store>) -> Seq<(int, Seq<char>)>
    decreases item_trips.len(),
{
    if item_trips.len() == 0 {
        Seq::empty()
    } else {
        let rest = joined_items(item_trips.drop_last(), trips, stores);
        match trip_desc(trips, stores, item_trips.last()) {
            Some(d) => rest.push(((item_trips.len() - 1) as int, d)),
            None => rest,
        }
    }
}

/// The position of the first trip with identifier `id`.
fn find_trip(trips: &Vec<GroceryTripRow>, id: i32) -> (r: Option<usize>)
    ensures
        r is None <==> trip_of(trips@, id) is None,
        r matches Some(k) ==> k < trips@.len() && trip_of(trips@, id) == Some(trips@[k as int]),
{
    let mut k: usize = 0;
    proof {
        assert(trips@.skip(0) =~= trips@);
    }
    while k < trips.len()
        invariant
            k <= trips@.len(),
            trip_of(trips@, id) == trip_of(trips@.skip(k as int), id),
        decreases trips@.len() - k,
    {
        proof {
            assert(trips@.skip(k as int).drop_first() =~= trips@.skip(k + 1));
        }
        if trips[k].id == id {
            return Some(k);
        }
        k = k + 1;
    }
    None
}

/// The grocery items as listed: `item_trips` holds the trip of each stored
/// item; the result holds the position of each item whose trip and store
/// exist, with the description of its trip.
pub fn join_items(item_trips: &Vec<i32>, trips: &Vec<GroceryTripRow>, stores: &Vec<Store>) -> (r: Vec<(usize, String)>)
    ensures
        r@.map_values(|p: (usize, String)| (p.0 as int, p.1@)) == joined_items(item_trips@, trips@, stores@),
{
    let mut out: Vec<(usize, String)> = Vec::new();
    let mut i: usize = 0;
    while i < item_trips.len()
        invariant
            i <= item_trips@.len(),
            out@.map_values(|p: (usize, String)| (p.0 as int, p.1@)) == joined_items(item_trips@.take(i as int), trips@, stores@),
        decreases item_trips@.len() - i,
    {
        proof {
            assert(item_trips@.take(i + 1).drop_last() =~= item_trips@.take(i as int));
        }
        if let Some(t) = find_trip(trips, item_trips[i]) {
            if let Some(k) = find_store(stores, trips[t].store_id) {
                let mut desc = stores[k].name.clone();
                desc.append(" on ");
                let day = trips[t].date.input_text();
                desc.append(day.as_str());
                let ghost before = out@;
                out.push((i, desc));
                proof {
                    assert(out@.map_values(|p: (usize, String)| (p.0 as int, p.1@)) =~= before.map_values(
                        |p: (usize, String)| (p.0 as int, p.1@),
                    ).push((i as int, desc@)));
                }
            }
        }
        i = i + 1;
    }
    proof {
        assert(item_trips@.take(item_trips@.len() as int) =~= item_trips@);
    }
    out
}

/// Identifiers stay unique in the bowel listing when they are unique among
/// the stored records.
pub proof fn lemma_bowel_listing_ids_unique(rows: Seq<Bowel>, listed: Seq<Bowel>)
    requires
        listed.to_multiset() == rows.to_multiset(),
        forall|i: int, j: int| 0 <= i < j < rows.len() ==> (#[trigger] rows[i]).id != (#[trigger] rows[j]).id,
    ensures
        forall|k: int, l: int| 0 <= k < l < listed.len() ==> (#[trigger] listed[k]).id != (#[trigger] listed[l]).id,
{
    assert(rows.no_duplicates()) by {
        assert forall|i: int, j: int| 0 <= i < rows.len() && 0 <= j < rows.len() && i != j implies rows[i] != rows[j] by {
            if i < j {
                assert(rows[i].id != rows[j].id);
            } else {
                assert(rows[j].id != rows[i].id);
            }
        }
    }
    rows.lemma_multiset_has_no_duplicates();
    listed.lemma_multiset_has_no_duplicates_conv();
    lemma_bowel_listing_same_records(rows, listed);
    assert forall|k: int, l: int| 0 <= k < l < listed.len() implies (#[trigger] listed[k]).id != (#[trigger] listed[l]).id by {
        assert(listed[k] != listed[l]);
        assert(listed.contains(listed[k]) && listed.contains(listed[l]));
        let i = choose|i: int| 0 <= i < rows.len() && rows[i] == listed[k];
        let j = choose|j: int| 0 <= j < rows.len() && rows[j] == listed[l];
        if i < j {
            assert(rows[i].id != rows[j].id);
        } else if j < i {
            assert(rows[j].id != rows[i].id);
        }
    }
}

/// A deleted bowel movement is not listed: when no stored record has the
/// identifier `id`, no listed record has it.
pub proof fn lemma_deleted_bowel_not_listed(rows: Seq<Bowel>, listed: Seq<Bowel>, id: i32)
    requires
        listed.to_multiset() == rows.to_multiset(),
        forall|i: int| 0 <= i < rows.len() ==> (#[trigger] rows[i]).id != id,
    ensures
        forall|k: int| 0 <= k < listed.len() ==> (#[trigger] listed[k]).id != id,
{
    lemma_bowel_listing_same_records(rows, listed);
    assert forall|k: int| 0 <= k < listed.len() implies (#[trigger] listed[k]).id != id by {
        assert(listed.contains(listed[k]));
        assert(rows.contains(listed[k]));
    }
}

/// A deleted trip is not listed: when no stored trip has the identifier
/// `id`, no entry of the trip listing has it.
pub proof fn lemma_deleted_trip_not_listed(trips: Seq<GroceryTripRow>, stores: Seq<Store>, id: i32)
    requires
        forall|i: int| 0 <= i < trips.len() ==> (#[trigger] trips[i]).id != id,
    ensures
        forall|k: int| 0 <= k < joined_trips(trips, stores).len() ==> (#[trigger] joined_trips(trips, stores)[k]).0 != id,
{
    lemma_joined_from_trips(trips, stores);
    assert forall|k: int| 0 <= k < joined_trips(trips, stores).len() implies (#[trigger] joined_trips(trips, stores)[k]).0 != id by {
        assert(trip_with_store(trips, stores, joined_trips(trips, stores)[k].0));
    }
}

/// The stores left after deleting the one with identifier `id`.
pub open spec fn without_store(stores: Seq<Store>, id: i32) -> Seq<Store> {
    stores.filter(|s: Store| s.id != id)
}

proof fn lemma_store_name_found(stores: Seq<Store>, id: i32)
    requires
        store_name_of(stores, id) is Some,
    ensures
        exists|k: int| 0 <= k < stores.len() && (#[trigger] stores[k]).id == id,
    decreases stores.len(),
{
    if stores[0].id != id {
        lemma_store_name_found(stores.drop_first(), id);
        let k = choose|k: int| 0 <= k < stores.drop_first().len() && (#[trigger] stores.drop_first()[k]).id == id;
        assert(stores[k + 1] == stores.drop_first()[k]);
    }
}

/// Whether some trip with identifier `id` has an existing store.
pub open spec fn trip_with_store(trips: Seq<GroceryTripRow>, stores: Seq<Store>, id: i32) -> bool {
    exists|i: int| 0 <= i < trips.len() && (#[trigger] trips[i]).id == id && store_name_of(stores, trips[i].store_id) is Some
}

/// The trip listing holds nothing but stored trips: each entry's identifier
/// is that of a stored trip whose store exists. So once a trip is deleted,
/// no entry carries its identifier.
pub proof fn lemma_joined_from_trips(trips: Seq<GroceryTripRow>, stores: Seq<Store>)
    ensures
        forall|k: int| 0 <= k < joined_trips(trips, stores).len()
            ==> trip_with_store(trips, stores, (#[trigger] joined_trips(trips, stores)[k]).0),
    decreases trips.len(),
{
    if trips.len() > 0 {
        let rest = trips.drop_last();
        lemma_joined_from_trips(rest, stores);
        assert forall|k: int| 0 <= k < joined_trips(trips, stores).len()
            implies trip_with_store(trips, stores, (#[trigger] joined_trips(trips, stores)[k]).0) by {
            if k < joined_trips(rest, stores).len() {
                assert(trip_with_store(rest, stores, joined_trips(rest, stores)[k].0));
                let i = choose|i: int| 0 <= i < rest.len() && (#[trigger] rest[i]).id == joined_trips(rest, stores)[k].0
                    && store_name_of(stores, rest[i].store_id) is Some;
                assert(trips[i] == rest[i]);
            } else {
                assert(trips[trips.len() - 1] == trips.last());
            }
        }
    }
}

/// A trip whose store has been deleted is not listed: in the listing of the
/// trips joined with the stores left after deleting a store, no entry is a
/// trip of that store (trip identifiers being unique, as the table's key).
pub proof fn lemma_deleted_store_hides_trips(trips: Seq<GroceryTripRow>, stores: Seq<Store>, store_id: i32)
    requires
        forall|i: int, j: int| 0 <= i < j < trips.len() ==> (#[trigger] trips[i]).id != (#[trigger] trips[j]).id,
    ensures
        forall|i: int, k: int| 0 <= i < trips.len() && (#[trigger] trips[i]).store_id == store_id
            && 0 <= k < joined_trips(trips, without_store(stores, store_id)).len()
            ==> (#[trigger] joined_trips(trips, without_store(stores, store_id))[k]).0 != trips[i].id,
{
    let left = without_store(stores, store_id);
    lemma_joined_from_trips(trips, left);
    assert forall|i: int, k: int| 0 <= i < trips.len() && (#[trigger] trips[i]).store_id == store_id
        && 0 <= k < joined_trips(trips, left).len()
        implies (#[trigger] joined_trips(trips, left)[k]).0 != trips[i].id by {
        assert(trip_with_store(trips, left, joined_trips(trips, left)[k].0));
        let i2 = choose|i2: int| 0 <= i2 < trips.len() && (#[trigger] trips[i2]).id == joined_trips(trips, left)[k].0
            && store_name_of(left, trips[i2].store_id) is Some;
        lemma_store_name_found(left, trips[i2].store_id);
        let s = choose|s: int| 0 <= s < left.len() && (#[trigger] left[s]).id == trips[i2].store_id;
        stores.lemma_filter_pred(|st: Store| st.id != store_id, s);
        if i != i2 {
            if i < i2 {
                assert(trips[i].id != trips[i2].id);
            } else {
                assert(trips[i2].id != trips[i].id);
            }
        }
    }
}

} // verus!
