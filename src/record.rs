//! What the table needs of a record type: its key, its parent, its listing
//! order, and how its timestamps are written.

use vstd::prelude::*;

verus! {

/// Why an operation on the store failed.
#[derive(Debug, Clone, Copy, PartialEq, Eq, Structural)]
pub enum StoreError {
    /// The named database connection is not registered.
    ConnectionNotFound,
    /// No row has the given id.
    NotFound,
    /// The store's schema refused the write (here: a duplicate id).
    ConstraintViolation,
    /// The baseline scenario cannot be deleted.
    BaselineProtected,
}

impl StoreError {
    /// The message shown to a user for this error.
    pub fn message(&self) -> (r: &'static str)
        ensures
            *self == StoreError::ConnectionNotFound ==> r@ == "Database not found"@,
            *self == StoreError::NotFound ==> r@
                == "no rows returned by a query that expected to return at least one row"@,
            *self == StoreError::ConstraintViolation ==> r@ == "constraint violation"@,
            *self == StoreError::BaselineProtected ==> r@ == "Cannot delete the baseline scenario"@,
    {
        match self {
            StoreError::ConnectionNotFound => "Database not found",
            StoreError::NotFound => "no rows returned by a query that expected to return at least one row",
            StoreError::ConstraintViolation => "constraint violation",
            StoreError::BaselineProtected => "Cannot delete the baseline scenario",
        }
    }
}

/// A row type of the store.
pub trait Record: Sized {
    /// The primary key.
    spec fn key(&self) -> Seq<char>;

    /// The parent foreign key by which listings can be scoped, if any.
    spec fn scope(&self) -> Option<Seq<char>>;

    /// Three-way comparison in listing order; ties are broken by id.
    spec fn order(&self, other: &Self) -> int;

    /// When the row was created.
    spec fn created(&self) -> i64;

    /// When the row was last written.
    spec fn updated(&self) -> i64;

    /// The record as created at `now`: both timestamps are `now`.
    spec fn stamped(&self, now: i64) -> Self;

    /// The stored row after `incoming` replaces this one at `now`: the
    /// writable fields of `incoming`, this row's creation time, and `now`
    /// as the update time.
    spec fn revised(&self, incoming: &Self, now: i64) -> Self;

    /// The row's id.
    fn id(&self) -> (r: &String)
        ensures
            r@ == self.key(),
    ;

    /// Whether the row's parent is `parent`.
    fn in_scope(&self, parent: &str) -> (r: bool)
        ensures
            r == (self.scope() == Some(parent@)),
    ;

    /// Compares two rows in listing order.
    fn compare(&self, other: &Self) -> (r: i8)
        ensures
            r as int == self.order(other),
    ;

    /// The record as created at `now`.
    fn stamp(self, now: i64) -> (r: Self)
        ensures
            r == self.stamped(now),
    ;

    /// The row that replacing this one with `incoming` at `now` stores.
    fn revise(&self, incoming: Self, now: i64) -> (r: Self)
        ensures
            r == self.revised(&incoming, now),
    ;

    /// A copy of the row.
    fn duplicate(&self) -> (r: Self)
        ensures
            r == *self,
    ;

    /// Stamping and revising keep the id and set the timestamps as documented.
    proof fn lemma_timestamps(&self, incoming: &Self, now: i64)
        ensures
            self.stamped(now).key() == self.key(),
            self.stamped(now).scope() == self.scope(),
            self.stamped(now).created() == now,
            self.stamped(now).updated() == now,
            self.revised(incoming, now).key() == incoming.key(),
            self.revised(incoming, now).created() == self.created(),
            self.revised(incoming, now).updated() == now,
    ;

    /// The listing order is antisymmetric, transitive, and total on rows
    /// with different ids.
    proof fn lemma_order(a: &Self, b: &Self, c: &Self)
        ensures
            a.order(b) == -b.order(a),
            a.key() != b.key() ==> a.order(b) != 0,
            a.order(b) < 0 && b.order(c) < 0 ==> a.order(c) < 0,
    ;
}

/// `r` is what reading id `id` from `rows` gives.
pub open spec fn read_from<R: Record>(rows: Map<Seq<char>, R>, id: Seq<char>, r: Result<R, StoreError>) -> bool {
    if rows.contains_key(id) {
        r == Ok::<R, StoreError>(rows[id])
    } else {
        r == Err::<R, StoreError>(StoreError::NotFound)
    }
}

/// `after` and `r` are what creating `rec` at time `now` in `before` gives:
/// the record with both timestamps set to `now`, or a refusal when its id
/// is taken.
pub open spec fn created_in<R: Record>(
    before: Map<Seq<char>, R>,
    after: Map<Seq<char>, R>,
    rec: R,
    now: i64,
    r: Result<R, StoreError>,
) -> bool {
    if before.contains_key(rec.key()) {
        r == Err::<R, StoreError>(StoreError::ConstraintViolation) && after == before
    } else {
        r == Ok::<R, StoreError>(rec.stamped(now)) && after == before.insert(rec.key(), rec.stamped(now))
    }
}

/// `after` and `r` are what replacing the row with `incoming`'s id at time
/// `now` in `before` gives, or `NotFound` when there is no such row.
pub open spec fn updated_in<R: Record>(
    before: Map<Seq<char>, R>,
    after: Map<Seq<char>, R>,
    incoming: R,
    now: i64,
    r: Result<R, StoreError>,
) -> bool {
    if before.contains_key(incoming.key()) {
        let row = before[incoming.key()].revised(&incoming, now);
        r == Ok::<R, StoreError>(row) && after == before.insert(incoming.key(), row)
    } else {
        r == Err::<R, StoreError>(StoreError::NotFound) && after == before
    }
}

/// Every row is stored under its own id.
pub open spec fn keyed<R: Record>(rows: Map<Seq<char>, R>) -> bool {
    forall|k: Seq<char>| #[trigger] rows.contains_key(k) ==> rows[k].key() == k
}

/// Whether a record passes an optional parent filter.
pub open spec fn in_filter<R: Record>(r: R, scope: Option<Seq<char>>) -> bool {
    match scope {
        None => true,
        Some(p) => r.scope() == Some(p),
    }
}

/// `out` lists exactly the rows of `rows` that pass the filter, in
/// strictly increasing listing order.
pub open spec fn is_listing<R: Record>(
    rows: Map<Seq<char>, R>,
    scope: Option<Seq<char>>,
    out: Seq<R>,
) -> bool {
    &&& forall|i: int, j: int| 0 <= i < j < out.len() ==> #[trigger] out[i].order(&out[j]) < 0
    &&& forall|i: int|
        0 <= i < out.len() ==> {
            &&& rows.contains_key((#[trigger] out[i]).key())
            &&& rows[out[i].key()] == out[i]
            &&& in_filter(out[i], scope)
        }
    &&& forall|k: Seq<char>|
        #[trigger] rows.contains_key(k) && in_filter(rows[k], scope) ==> exists|i: int|
            0 <= i < out.len() && out[i] == rows[k]
}

} // verus!
