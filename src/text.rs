//! Ordering of text by code point, as a byte-wise collation of UTF-8 orders it.

use vstd::prelude::*;

verus! {

/// Three-way comparison of two texts: -1, 0 or 1, lexicographic by code point.
pub open spec fn text_cmp(a: Seq<char>, b: Seq<char>) -> int
    decreases a.len(),
{
    if a.len() == 0 {
        if b.len() == 0 { 0 } else { -1 }
    } else if b.len() == 0 {
        1
    } else if (a[0] as int) < (b[0] as int) {
        -1
    } else if (a[0] as int) > (b[0] as int) {
        1
    } else {
        text_cmp(a.drop_first(), b.drop_first())
    }
}

/// Three-way comparison of optional texts, an absent one first.
pub open spec fn opt_text_cmp(a: Option<Seq<char>>, b: Option<Seq<char>>) -> int {
    match (a, b) {
        (None, None) => 0,
        (None, Some(_)) => -1,
        (Some(_), None) => 1,
        (Some(x), Some(y)) => text_cmp(x, y),
    }
}

/// Three-way comparison of two integers.
pub open spec fn int_cmp(a: int, b: int) -> int {
    if a < b { -1 } else if a > b { 1 } else { 0 }
}

/// The view of an optional string.
pub open spec fn opt_view(s: Option<String>) -> Option<Seq<char>> {
    match s {
        Some(t) => Some(t@),
        None => None,
    }
}

pub proof fn lemma_text_cmp_facts(a: Seq<char>, b: Seq<char>)
    ensures
        -1 <= text_cmp(a, b) <= 1,
        text_cmp(a, b) == -text_cmp(b, a),
        text_cmp(a, b) == 0 <==> a == b,
    decreases a.len(),
{
    if a.len() > 0 && b.len() > 0 {
        lemma_text_cmp_facts(a.drop_first(), b.drop_first());
        if a[0] == b[0] && a.drop_first() == b.drop_first() {
            assert(a =~= seq![a[0]] + a.drop_first());
            assert(b =~= seq![b[0]] + b.drop_first());
        }
        if a == b {
            assert(a.drop_first() == b.drop_first());
        }
        if a[0] != b[0] {
            assert(a[0] as int != b[0] as int);
        }
    } else if a.len() == 0 && b.len() == 0 {
        assert(a =~= b);
    }
}

pub proof fn lemma_text_cmp_transitive(a: Seq<char>, b: Seq<char>, c: Seq<char>)
    requires
        text_cmp(a, b) < 0,
        text_cmp(b, c) < 0,
    ensures
        text_cmp(a, c) < 0,
    decreases a.len(),
{
    if a.len() > 0 && b.len() > 0 && c.len() > 0 {
        if a[0] == b[0] && b[0] == c[0] {
            lemma_text_cmp_transitive(a.drop_first(), b.drop_first(), c.drop_first());
        }
    }
}

pub proof fn lemma_opt_text_cmp_facts(a: Option<Seq<char>>, b: Option<Seq<char>>)
    ensures
        opt_text_cmp(a, b) == -opt_text_cmp(b, a),
        opt_text_cmp(a, b) == 0 <==> a == b,
{
    if a is Some && b is Some {
        lemma_text_cmp_facts(a->Some_0, b->Some_0);
    }
}

pub proof fn lemma_opt_text_cmp_transitive(
    a: Option<Seq<char>>,
    b: Option<Seq<char>>,
    c: Option<Seq<char>>,
)
    requires
        opt_text_cmp(a, b) < 0,
        opt_text_cmp(b, c) < 0,
    ensures
        opt_text_cmp(a, c) < 0,
{
    if a is Some && b is Some && c is Some {
        lemma_text_cmp_transitive(a->Some_0, b->Some_0, c->Some_0);
    }
}

/// Lexicographic combination: `first` decides unless it is a tie.
pub open spec fn then_cmp(first: int, rest: int) -> int {
    if first != 0 { first } else { rest }
}

/// Three-way comparison that puts a set flag first.
pub open spec fn flag_first_cmp(a: bool, b: bool) -> int {
    if a == b { 0 } else if a { -1 } else { 1 }
}

/// The facts about three texts that a listing order built on them needs.
pub proof fn lemma_text_triple(x: Seq<char>, y: Seq<char>, z: Seq<char>)
    ensures
        text_cmp(x, y) == -text_cmp(y, x),
        text_cmp(x, y) == 0 <==> x == y,
        text_cmp(y, z) == 0 <==> y == z,
        text_cmp(x, z) == 0 <==> x == z,
        text_cmp(x, y) < 0 && text_cmp(y, z) < 0 ==> text_cmp(x, z) < 0,
{
    lemma_text_cmp_facts(x, y);
    lemma_text_cmp_facts(y, z);
    lemma_text_cmp_facts(x, z);
    if text_cmp(x, y) < 0 && text_cmp(y, z) < 0 {
        lemma_text_cmp_transitive(x, y, z);
    }
}

/// The same facts for optional texts.
pub proof fn lemma_opt_text_triple(x: Option<Seq<char>>, y: Option<Seq<char>>, z: Option<Seq<char>>)
    ensures
        opt_text_cmp(x, y) == -opt_text_cmp(y, x),
        opt_text_cmp(x, y) == 0 <==> x == y,
        opt_text_cmp(y, z) == 0 <==> y == z,
        opt_text_cmp(x, z) == 0 <==> x == z,
        opt_text_cmp(x, y) < 0 && opt_text_cmp(y, z) < 0 ==> opt_text_cmp(x, z) < 0,
{
    lemma_opt_text_cmp_facts(x, y);
    lemma_opt_text_cmp_facts(y, z);
    lemma_opt_text_cmp_facts(x, z);
    if opt_text_cmp(x, y) < 0 && opt_text_cmp(y, z) < 0 {
        lemma_opt_text_cmp_transitive(x, y, z);
    }
}

/// Whether a text equals another.
pub fn same_text(a: &str, b: &str) -> (r: bool)
    ensures
        r == (a@ == b@),
{
    proof {
        lemma_text_cmp_facts(a@, b@);
    }
    compare_text(a, b) == 0
}

/// A copy of an optional string.
pub fn copy_opt_text(s: &Option<String>) -> (r: Option<String>)
    ensures
        r == *s,
{
    match s {
        Some(t) => Some(t.clone()),
        None => None,
    }
}

/// Compares two flags, a set one first.
pub fn compare_flag_first(a: bool, b: bool) -> (r: i8)
    ensures
        r as int == flag_first_cmp(a, b),
{
    if a == b {
        0
    } else if a {
        -1
    } else {
        1
    }
}

/// Compares two texts by code point.
pub fn compare_text(a: &str, b: &str) -> (r: i8)
    ensures
        r as int == text_cmp(a@, b@),
{
    let la = a.unicode_len();
    let lb = b.unicode_len();
    let mut i: usize = 0;
    assert(a@.skip(0) =~= a@);
    assert(b@.skip(0) =~= b@);
    while i < la && i < lb
        invariant
            la == a@.len(),
            lb == b@.len(),
            i <= la,
            i <= lb,
            text_cmp(a@, b@) == text_cmp(a@.skip(i as int), b@.skip(i as int)),
        decreases la - i,
    {
        let ca = a.get_char(i);
        let cb = b.get_char(i);
        assert(a@.skip(i as int)[0] == ca);
        assert(b@.skip(i as int)[0] == cb);
        if (ca as u32) < (cb as u32) {
            return -1;
        } else if (ca as u32) > (cb as u32) {
            return 1;
        }
        assert(a@.skip(i as int).drop_first() =~= a@.skip(i + 1));
        assert(b@.skip(i as int).drop_first() =~= b@.skip(i + 1));
        i = i + 1;
    }
    if i < la {
        1
    } else if i < lb {
        -1
    } else {
        0
    }
}

/// Compares two optional texts, an absent one first.
pub fn compare_opt_text(a: &Option<String>, b: &Option<String>) -> (r: i8)
    ensures
        r as int == opt_text_cmp(opt_view(*a), opt_view(*b)),
{
    match (a, b) {
        (None, None) => 0,
        (None, Some(_)) => -1,
        (Some(_), None) => 1,
        (Some(x), Some(y)) => compare_text(x.as_str(), y.as_str()),
    }
}

/// Compares two integers.
pub fn compare_int(a: i64, b: i64) -> (r: i8)
    ensures
        r as int == int_cmp(a as int, b as int),
{
    if a < b {
        -1
    } else if a > b {
        1
    } else {
        0
    }
}

} // verus!
