use vstd::prelude::*;

use crate::record::LocView;
use crate::reply::{delete_reply, done, found, listed, not_found, read_reply};
use crate::storage::{
    affected_by_delete, clear, delete_one, keyed, lists, replace, rows_for, write_all, Table,
};

verus! {

/// The plates of a sequence of records, in order.
pub open spec fn plates_of(recs: Seq<LocView>) -> Seq<Seq<char>> {
    recs.map_values(|r: LocView| r.plate)
}

/// Writing keeps every record under its own plate.
pub proof fn lemma_replace_keeps_keyed(t: Table, rec: LocView)
    requires
        keyed(t),
    ensures
        keyed(replace(t, rec)),
{
}

/// Reading a plate right after a record for it was written gives back exactly
/// that record.
pub proof fn lemma_read_after_create(t: Table, rec: LocView)
    ensures
        read_reply(rows_for(replace(t, rec), rec.plate)) == found(rec),
{
    assert(replace(t, rec).contains_key(rec.plate));
}

/// A second write for the same plate replaces the first record wholesale: the
/// read gives the second record and nothing of the first.
pub proof fn lemma_second_write_replaces(t: Table, first: LocView, second: LocView)
    requires
        first.plate == second.plate,
    ensures
        read_reply(rows_for(replace(replace(t, first), second), second.plate)) == found(second),
        replace(replace(t, first), second) == replace(t, second),
{
    lemma_read_after_create(replace(t, first), second);
    assert(replace(replace(t, first), second) =~= replace(t, second));
}

/// After writing `recs` into an empty table, the stored plates are exactly the
/// plates written.
pub proof fn lemma_write_all_domain(recs: Seq<LocView>)
    ensures
        write_all(Map::empty(), recs).dom() == plates_of(recs).to_set(),
    decreases recs.len(),
{
    if recs.len() > 0 {
        let front = recs.drop_last();
        lemma_write_all_domain(front);
        assert(plates_of(recs) =~= plates_of(front).push(recs.last().plate));
        assert forall|p: Seq<char>|
            plates_of(recs).to_set().contains(p) <==> write_all(Map::empty(), recs).dom().contains(
                p,
            ) by {
            if plates_of(front).contains(p) {
                let i = choose|i: int| 0 <= i < plates_of(front).len() && plates_of(front)[i] == p;
                assert(plates_of(recs)[i] == p);
            }
            if plates_of(recs).contains(p) && p != recs.last().plate {
                let i = choose|i: int| 0 <= i < plates_of(recs).len() && plates_of(recs)[i] == p;
                assert(plates_of(front)[i] == p);
            }
            assert(plates_of(recs)[recs.len() - 1] == recs.last().plate);
        }
        assert(plates_of(recs).to_set() =~= write_all(Map::empty(), recs).dom());
    }
}

/// Listing after writing `recs` into an empty table gives each written plate
/// exactly once, however often it was written, and no other plate.
pub proof fn lemma_list_after_writes(recs: Seq<LocView>, plates: Seq<Seq<char>>)
    requires
        lists(write_all(Map::empty(), recs), plates),
    ensures
        plates.no_duplicates(),
        forall|p: Seq<char>| plates.contains(p) <==> plates_of(recs).contains(p),
{
    lemma_write_all_domain(recs);
    assert forall|p: Seq<char>| plates.contains(p) <==> plates_of(recs).contains(p) by {
        assert(plates.to_set().contains(p) == plates.contains(p));
        assert(plates_of(recs).to_set().contains(p) == plates_of(recs).contains(p));
    }
}

/// Reading a plate that no write named gives "not found", not a failure.
pub proof fn lemma_read_unwritten(recs: Seq<LocView>, plate: Seq<char>)
    requires
        !plates_of(recs).contains(plate),
    ensures
        read_reply(rows_for(write_all(Map::empty(), recs), plate)) == not_found(),
{
    lemma_write_all_domain(recs);
    assert(!plates_of(recs).to_set().contains(plate));
}

/// Deleting a stored plate reports success, and a read afterwards gives
/// "not found".
pub proof fn lemma_delete_existing(t: Table, plate: Seq<char>)
    requires
        t.contains_key(plate),
    ensures
        delete_reply(affected_by_delete(t, plate)) == done(),
        read_reply(rows_for(delete_one(t, plate), plate)) == not_found(),
{
}

/// Deleting a plate that is not stored gives "not found" and leaves the
/// table as it was.
pub proof fn lemma_delete_missing(t: Table, plate: Seq<char>)
    requires
        !t.contains_key(plate),
    ensures
        delete_reply(affected_by_delete(t, plate)) == not_found(),
        delete_one(t, plate) == t,
{
    assert(delete_one(t, plate) =~= t);
}

/// Listing after deleting everything gives an empty collection.
pub proof fn lemma_list_after_destroy(t: Table, plates: Seq<Seq<char>>)
    requires
        lists(clear(t), plates),
    ensures
        plates.len() == 0,
        listed(plates) == listed(Seq::empty()),
{
    if plates.len() > 0 {
        assert(plates.to_set().contains(plates[0]));
    }
    assert(plates =~= Seq::empty());
}

/// Writes for two different plates do not disturb each other: in whichever
/// order the two statements run, each record reads back as it was written.
pub proof fn lemma_distinct_writes_independent(t: Table, a: LocView, b: LocView)
    requires
        a.plate != b.plate,
    ensures
        read_reply(rows_for(replace(replace(t, a), b), a.plate)) == found(a),
        read_reply(rows_for(replace(replace(t, a), b), b.plate)) == found(b),
        read_reply(rows_for(replace(replace(t, b), a), a.plate)) == found(a),
        read_reply(rows_for(replace(replace(t, b), a), b.plate)) == found(b),
        replace(replace(t, a), b) == replace(replace(t, b), a),
{
    assert(replace(replace(t, a), b) =~= replace(replace(t, b), a));
    assert(replace(replace(t, a), b).contains_key(a.plate));
    assert(replace(replace(t, b), a).contains_key(b.plate));
}

} // verus!
