//! Laws that relate the store's operations to one another.

use vstd::prelude::*;
use crate::codec::{opt_texts, stores_list};
use crate::entities::Scenario;
use crate::record::{Record, StoreError, created_in, in_filter, keyed, is_listing, read_from, updated_in};
use crate::text::text_cmp;
use crate::entities::{
    Resource, ResourceRow, System, SystemRow, holds_resource, holds_system, read_resource,
    read_system, same_resource, same_system,
};

verus! {

/// A system written to a row and read back from it is the same system: in
/// particular its technology stack comes back with the same strings in the
/// same order.
pub proof fn lemma_system_round_trip(row: SystemRow, written: System, read: System)
    requires
        holds_system(row, written),
        read_system(row, read),
    ensures
        same_system(read, written),
{
    if written.technology_stack is Some {
        assert(stores_list(row.technology_stack, Some(opt_texts(written.technology_stack)->Some_0)));
    }
}

/// A resource written to a row and read back from it is the same resource:
/// in particular its skills come back with the same strings in the same
/// order.
pub proof fn lemma_resource_round_trip(row: ResourceRow, written: Resource, read: Resource)
    requires
        holds_resource(row, written),
        read_resource(row, read),
    ensures
        same_resource(read, written),
{
    if written.skills is Some {
        assert(stores_list(row.skills, Some(opt_texts(written.skills)->Some_0)));
    }
}

/// Creating a record and then reading it by its id gives the record as it
/// was given, with both timestamps set to the time of creation.
pub proof fn lemma_create_then_get<R: Record>(
    before: Map<Seq<char>, R>,
    after: Map<Seq<char>, R>,
    rec: R,
    now: i64,
    created: Result<R, StoreError>,
    read: Result<R, StoreError>,
)
    requires
        created_in(before, after, rec, now, created),
        created is Ok,
        read_from(after, rec.key(), read),
    ensures
        read == created,
        read == Ok::<R, StoreError>(rec.stamped(now)),
        read->Ok_0.created() == now,
        read->Ok_0.updated() == now,
{
    rec.lemma_timestamps(&rec, now);
}

/// Updating a record and then reading it by its id gives a row whose
/// creation time is unchanged and whose update time has not gone back, when
/// the clock has not gone back since the last write.
pub proof fn lemma_update_then_get<R: Record>(
    before: Map<Seq<char>, R>,
    after: Map<Seq<char>, R>,
    incoming: R,
    now: i64,
    updated: Result<R, StoreError>,
    read: Result<R, StoreError>,
)
    requires
        updated_in(before, after, incoming, now, updated),
        updated is Ok,
        read_from(after, incoming.key(), read),
        before.contains_key(incoming.key()) ==> now >= before[incoming.key()].updated(),
    ensures
        before.contains_key(incoming.key()),
        read == updated,
        read->Ok_0.created() == before[incoming.key()].created(),
        read->Ok_0.updated() >= before[incoming.key()].updated(),
{
    before[incoming.key()].lemma_timestamps(&incoming, now);
}

/// After a row is deleted, whether it was there or not, reading its id
/// finds nothing.
pub proof fn lemma_delete_then_get<R: Record>(
    before: Map<Seq<char>, R>,
    id: Seq<char>,
    read: Result<R, StoreError>,
)
    requires
        read_from(before.remove(id), id, read),
    ensures
        read == Err::<R, StoreError>(StoreError::NotFound),
{
}

/// A listing scoped to a parent holds the same rows, in the same relative
/// order, as the unscoped listing of the same table.
pub proof fn lemma_scoped_listing_follows_full<R: Record>(
    rows: Map<Seq<char>, R>,
    parent: Seq<char>,
    scoped: Seq<R>,
    full: Seq<R>,
)
    requires
        is_listing(rows, Some(parent), scoped),
        is_listing(rows, None, full),
    ensures
        forall|i: int|
            0 <= i < scoped.len() ==> (#[trigger] scoped[i]).scope() == Some(parent) && full.contains(scoped[i]),
        forall|i: int, j: int, a: int, b: int|
            0 <= i < j < scoped.len() && 0 <= a < full.len() && 0 <= b < full.len() && #[trigger] full[a]
                == #[trigger] scoped[i] && #[trigger] full[b] == #[trigger] scoped[j] ==> a < b,
{
    assert forall|i: int| 0 <= i < scoped.len() implies (#[trigger] scoped[i]).scope() == Some(parent) && full.contains(scoped[i]) by {
        let x = scoped[i];
        assert(rows.contains_key(x.key()) && rows[x.key()] == x);
        assert(in_filter(x, None));
    }
    assert forall|i: int, j: int, a: int, b: int|
        0 <= i < j < scoped.len() && 0 <= a < full.len() && 0 <= b < full.len() && #[trigger] full[a]
            == #[trigger] scoped[i] && #[trigger] full[b] == #[trigger] scoped[j] implies a < b by {
        let x = scoped[i];
        let y = scoped[j];
        assert(x.order(&y) < 0);
        R::lemma_order(&x, &y, &y);
        R::lemma_order(&x, &x, &x);
        if b < a {
            assert(full[b].order(&full[a]) < 0);
        }
    }
}

/// The scenario listing puts baseline scenarios before all others, and
/// orders scenarios of the same kind by name.
pub proof fn lemma_scenarios_baseline_first(rows: Map<Seq<char>, Scenario>, out: Seq<Scenario>)
    requires
        is_listing(rows, None, out),
    ensures
        forall|i: int, j: int|
            0 <= i < j < out.len() && (#[trigger] out[j]).is_baseline ==> (#[trigger] out[i]).is_baseline,
        forall|i: int, j: int|
            0 <= i < j < out.len() && (#[trigger] out[i]).is_baseline == (#[trigger] out[j]).is_baseline
                ==> text_cmp(out[i].name@, out[j].name@) <= 0,
{
    assert forall|i: int, j: int| 0 <= i < j < out.len() implies ((#[trigger] out[j]).is_baseline ==> (#[trigger] out[i]).is_baseline) && (out[i].is_baseline == out[j].is_baseline
        ==> text_cmp(out[i].name@, out[j].name@) <= 0) by {
        assert(out[i].order(&out[j]) < 0);
    }
}

/// Dropping the first row of a listing gives the listing of the table
/// without that row.
proof fn lemma_listing_rest<R: Record>(rows: Map<Seq<char>, R>, sc: Option<Seq<char>>, a: Seq<R>)
    requires
        keyed(rows),
        is_listing(rows, sc, a),
        a.len() > 0,
    ensures
        is_listing(rows.remove(a[0].key()), sc, a.drop_first()),
{
    let x = a[0];
    let k = x.key();
    let rest = a.drop_first();
    let smaller = rows.remove(k);
    R::lemma_order(&x, &x, &x);
    assert forall|i: int, j: int| 0 <= i < j < rest.len() implies #[trigger] rest[i].order(&rest[j]) < 0 by {
        assert(rest[i] == a[i + 1] && rest[j] == a[j + 1]);
        assert(a[i + 1].order(&a[j + 1]) < 0);
    }
    assert forall|i: int| 0 <= i < rest.len() implies {
        &&& smaller.contains_key((#[trigger] rest[i]).key())
        &&& smaller[rest[i].key()] == rest[i]
        &&& in_filter(rest[i], sc)
    } by {
        assert(rest[i] == a[i + 1]);
        assert(a[0].order(&a[i + 1]) < 0);
        assert(rows.contains_key(a[i + 1].key()) && rows[a[i + 1].key()] == a[i + 1]);
        assert(rows.contains_key(k) && rows[k] == x);
    }
    assert forall|q: Seq<char>| #[trigger] smaller.contains_key(q) && in_filter(smaller[q], sc) implies exists|i: int|
        0 <= i < rest.len() && rest[i] == smaller[q] by {
        assert(rows.contains_key(q) && in_filter(rows[q], sc));
        let i = choose|i: int| 0 <= i < a.len() && a[i] == rows[q];
        assert(rows.contains_key(a[i].key()) && rows[a[i].key()] == a[i]);
        assert(i != 0);
        assert(rest[i - 1] == a[i]);
    }
}

/// A table has exactly one listing for a given filter: the listing order
/// decides the position of every row.
pub proof fn lemma_listing_unique<R: Record>(
    rows: Map<Seq<char>, R>,
    sc: Option<Seq<char>>,
    a: Seq<R>,
    b: Seq<R>,
)
    requires
        keyed(rows),
        is_listing(rows, sc, a),
        is_listing(rows, sc, b),
    ensures
        a == b,
    decreases a.len(),
{
    if a.len() == 0 || b.len() == 0 {
        if b.len() > 0 {
            assert(rows.contains_key(b[0].key()) && in_filter(rows[b[0].key()], sc));
            let i = choose|i: int| 0 <= i < a.len() && a[i] == rows[b[0].key()];
        }
        if a.len() > 0 {
            assert(rows.contains_key(a[0].key()) && in_filter(rows[a[0].key()], sc));
            let i = choose|i: int| 0 <= i < b.len() && b[i] == rows[a[0].key()];
        }
        assert(a =~= b);
    } else {
        let x = a[0];
        let y = b[0];
        assert(rows.contains_key(x.key()) && rows[x.key()] == x && in_filter(x, sc));
        assert(rows.contains_key(y.key()) && rows[y.key()] == y && in_filter(y, sc));
        let i = choose|i: int| 0 <= i < a.len() && a[i] == rows[y.key()];
        let j = choose|j: int| 0 <= j < b.len() && b[j] == rows[x.key()];
        if x != y {
            assert(a[0].order(&a[i]) < 0);
            assert(b[0].order(&b[j]) < 0);
            R::lemma_order(&x, &y, &y);
        }
        lemma_listing_rest(rows, sc, a);
        lemma_listing_rest(rows, sc, b);
        lemma_listing_unique(rows.remove(x.key()), sc, a.drop_first(), b.drop_first());
        assert(a =~= seq![x] + a.drop_first());
        assert(b =~= seq![y] + b.drop_first());
    }
}

} // verus!
