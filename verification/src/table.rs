//! A small map from text to values, kept in the order of its keys.

use vstd::prelude::*;
use vstd::utf8::*;

verus! {

/// Byte strings in lexicographic order: the first comes strictly before the second.
pub open spec fn before(a: Seq<u8>, b: Seq<u8>) -> bool
    decreases a.len(),
{
    if b.len() == 0 {
        false
    } else if a.len() == 0 {
        true
    } else if a[0] != b[0] {
        a[0] < b[0]
    } else {
        before(a.skip(1), b.skip(1))
    }
}

/// Texts in the order of their UTF-8 bytes.
pub open spec fn text_before(a: Seq<char>, b: Seq<char>) -> bool {
    before(encode_utf8(a), encode_utf8(b))
}

/// Every key comes strictly before those behind it, so no key occurs twice.
pub open spec fn ascending<V>(rows: Seq<(Seq<char>, V)>) -> bool {
    forall|i: int, j: int|
        0 <= i < j < rows.len() ==> text_before(#[trigger] rows[i].0, #[trigger] rows[j].0)
}

/// Rows with a value put under a key: in place of the value that the key had, or else in front of
/// the first greater key.
pub open spec fn put_row<V>(rows: Seq<(Seq<char>, V)>, key: Seq<char>, value: V) -> Seq<
    (Seq<char>, V),
>
    decreases rows.len(),
{
    if rows.len() == 0 {
        seq![(key, value)]
    } else if rows[0].0 == key {
        seq![(key, value)] + rows.skip(1)
    } else if text_before(key, rows[0].0) {
        seq![(key, value)] + rows
    } else {
        seq![rows[0]] + put_row(rows.skip(1), key, value)
    }
}

/// The map that rows make up.
pub open spec fn dict<V>(rows: Seq<(Seq<char>, V)>) -> Map<Seq<char>, V>
    decreases rows.len(),
{
    if rows.len() == 0 {
        Map::empty()
    } else {
        dict(rows.skip(1)).insert(rows[0].0, rows[0].1)
    }
}

/// Where one text stands to another.
enum Place {
    Before,
    Same,
    After,
}

fn place(a: &str, b: &str) -> (r: Place)
    ensures
        r is Before <==> text_before(a@, b@),
        r is Same <==> a@ == b@,
        r is After <==> text_before(b@, a@),
{
    let x = a.as_bytes();
    let y = b.as_bytes();
    proof {
        encode_utf8_decode_utf8(a@);
        encode_utf8_decode_utf8(b@);
        assert(x@.skip(0) =~= x@);
        assert(y@.skip(0) =~= y@);
    }
    let mut i: usize = 0;
    while i < x.len() && i < y.len()
        invariant
            i <= x@.len(),
            i <= y@.len(),
            x@.take(i as int) == y@.take(i as int),
            before(x@, y@) == before(x@.skip(i as int), y@.skip(i as int)),
            before(y@, x@) == before(y@.skip(i as int), x@.skip(i as int)),
            x@ == encode_utf8(a@),
            y@ == encode_utf8(b@),
        decreases x@.len() - i,
    {
        if x[i] < y[i] {
            return Place::Before;
        }
        if x[i] > y[i] {
            return Place::After;
        }
        proof {
            assert(x@.skip(i as int).skip(1) =~= x@.skip(i + 1));
            assert(y@.skip(i as int).skip(1) =~= y@.skip(i + 1));
            assert(x@.take(i + 1) =~= x@.take(i as int).push(x@[i as int]));
            assert(y@.take(i + 1) =~= y@.take(i as int).push(y@[i as int]));
        }
        i = i + 1;
    }
    if i < y.len() {
        Place::Before
    } else if i < x.len() {
        Place::After
    } else {
        assert(x@.take(i as int) =~= x@ && y@.take(i as int) =~= y@);
        Place::Same
    }
}

/// Whether two texts are the same.
pub fn same_text(a: &str, b: &str) -> (r: bool)
    ensures
        r == (a@ == b@),
{
    match place(a, b) {
        Place::Same => true,
        _ => false,
    }
}

/// Values under text keys, listed in the order of the keys.
#[derive(Debug)]
pub struct Table<V> {
    entries: Vec<(String, V)>,
}

impl<V> View for Table<V> {
    type V = Seq<(Seq<char>, V)>;

    closed spec fn view(&self) -> Seq<(Seq<char>, V)> {
        Seq::new(self.entries@.len(), |i: int| (self.entries@[i].0@, self.entries@[i].1))
    }
}

impl<V> Table<V> {
    #[verifier::type_invariant]
    spec fn ordered(self) -> bool {
        ascending(self@)
    }

    pub fn new() -> (r: Table<V>)
        ensures
            r@ == Seq::<(Seq<char>, V)>::empty(),
    {
        let r = Table { entries: Vec::new() };
        assert(r@ =~= Seq::<(Seq<char>, V)>::empty());
        r
    }

    pub fn len(&self) -> (n: usize)
        ensures
            n == self@.len(),
            ascending(self@),
    {
        proof {
            use_type_invariant(self);
        }
        self.entries.len()
    }

    pub fn is_empty(&self) -> (b: bool)
        ensures
            b == (self@.len() == 0),
    {
        self.entries.len() == 0
    }

    pub fn key(&self, i: usize) -> (k: &str)
        requires
            i < self@.len(),
        ensures
            k@ == self@[i as int].0,
    {
        self.entries[i].0.as_str()
    }

    pub fn value(&self, i: usize) -> (v: &V)
        requires
            i < self@.len(),
        ensures
            *v == self@[i as int].1,
    {
        &self.entries[i].1
    }

    /// The rows, in order.
    pub fn into_rows(self) -> (r: Vec<(String, V)>)
        ensures
            r@.len() == self@.len(),
            forall|i: int|
                0 <= i < r@.len() ==> ((#[trigger] r@[i]).0@, r@[i].1) == self@[i],
    {
        self.entries
    }

    /// The value under a key.
    pub fn get(&self, key: &str) -> (v: Option<&V>)
        ensures
            v is Some <==> dict(self@).dom().contains(key@),
            v matches Some(x) ==> *x == dict(self@)[key@],
    {
        let mut i: usize = 0;
        assert(self@.skip(0) =~= self@);
        while i < self.entries.len()
            invariant
                i <= self.entries@.len(),
                self@.len() == self.entries@.len(),
                dict(self@).dom().contains(key@) == dict(self@.skip(i as int)).dom().contains(key@),
                dict(self@).dom().contains(key@) ==> dict(self@)[key@] == dict(
                    self@.skip(i as int),
                )[key@],
            decreases self.entries@.len() - i,
        {
            proof {
                let rest = self@.skip(i as int);
                assert(rest[0] == self@[i as int]);
                assert(rest.skip(1) =~= self@.skip(i + 1));
            }
            match place(self.entries[i].0.as_str(), key) {
                Place::Same => return Some(&self.entries[i].1),
                _ => (),
            }
            i = i + 1;
        }
        assert(self@.skip(i as int) =~= Seq::<(Seq<char>, V)>::empty());
        None
    }

    /// Puts a value under a key, in place of the one that was there.
    pub fn insert(&mut self, key: String, value: V)
        ensures
            final(self)@ == put_row(old(self)@, key@, value),
            dict(final(self)@) == dict(old(self)@).insert(key@, value),
    {
        proof {
            use_type_invariant(&*self);
        }
        let ghost rows = self@;
        let ghost k = key@;
        let mut entries: Vec<(String, V)> = Vec::new();
        std::mem::swap(&mut entries, &mut self.entries);
        let ghost listed = entries@;
        let mut i: usize = 0;
        let mut present = false;
        while i < entries.len()
            invariant_except_break
                !present,
            invariant
                entries@ == listed,
                i <= listed.len(),
                rows.len() == listed.len(),
                k == key@,
                forall|j: int|
                    0 <= j < rows.len() ==> #[trigger] rows[j] == (listed[j].0@, listed[j].1),
                forall|j: int|
                    0 <= j < i ==> (#[trigger] rows[j]).0 != k && !text_before(k, rows[j].0),
            ensures
                present ==> i < listed.len() && rows[i as int].0 == k,
                !present ==> i == listed.len() || (rows[i as int].0 != k && text_before(
                    k,
                    rows[i as int].0,
                )),
            decreases listed.len() - i,
        {
            match place(key.as_str(), entries[i].0.as_str()) {
                Place::Before => {
                    break;
                },
                Place::Same => {
                    present = true;
                    break;
                },
                Place::After => (),
            }
            i = i + 1;
        }
        proof {
            lemma_put_row_at(rows, k, value, i as nat);
            lemma_put_row(rows, k, value);
        }
        let ghost rest = rows.skip(i as int);
        if present {
            entries.remove(i);
            entries.insert(i, (key, value));
            assert(rows.take(i as int) + (seq![(k, value)] + rest.skip(1)) =~= put_row(
                rows,
                k,
                value,
            ));
        } else {
            entries.insert(i, (key, value));
            proof {
                if i < rows.len() {
                    assert(rest[0] == rows[i as int]);
                }
                assert(rows.take(i as int) + (seq![(k, value)] + rest) =~= put_row(rows, k, value));
            }
        }
        proof {
            let written = Seq::new(entries@.len(), |j: int| (entries@[j].0@, entries@[j].1));
            assert(written =~= put_row(rows, k, value));
        }
        self.entries = entries;
    }
}

impl<V: Clone> Clone for Table<V> {
    fn clone(&self) -> (r: Self)
        ensures
            r@.len() == self@.len(),
            forall|i: int|
                0 <= i < r@.len() ==> (#[trigger] r@[i]).0 == self@[i].0 && cloned(
                    self@[i].1,
                    r@[i].1,
                ),
    {
        proof {
            use_type_invariant(self);
        }
        let mut entries: Vec<(String, V)> = Vec::new();
        let mut i: usize = 0;
        while i < self.entries.len()
            invariant
                i == entries@.len() <= self.entries@.len(),
                forall|j: int|
                    0 <= j < i ==> (#[trigger] entries@[j]).0@ == self.entries@[j].0@ && cloned(
                        self.entries@[j].1,
                        entries@[j].1,
                    ),
            decreases self.entries@.len() - i,
        {
            entries.push((self.entries[i].0.clone(), self.entries[i].1.clone()));
            i = i + 1;
        }
        proof {
            let rows = Seq::new(entries@.len(), |j: int| (entries@[j].0@, entries@[j].1));
            assert forall|j: int, k: int| 0 <= j < k < rows.len() implies text_before(
                (#[trigger] rows[j]).0,
                (#[trigger] rows[k]).0,
            ) by {
                assert(text_before(self@[j].0, self@[k].0));
            }
        }
        Table { entries }
    }
}

// ---------------------------------------------------------------------------------------------
// The order, and what putting a row keeps
// ---------------------------------------------------------------------------------------------

proof fn lemma_before_asymmetric(a: Seq<u8>, b: Seq<u8>)
    ensures
        before(a, b) ==> !before(b, a),
        before(a, b) ==> a != b,
    decreases a.len(),
{
    if a.len() > 0 && b.len() > 0 && a[0] == b[0] {
        lemma_before_asymmetric(a.skip(1), b.skip(1));
    }
}

proof fn lemma_before_transitive(a: Seq<u8>, b: Seq<u8>, c: Seq<u8>)
    requires
        before(a, b),
        before(b, c),
    ensures
        before(a, c),
    decreases a.len(),
{
    if a.len() > 0 && b.len() > 0 && c.len() > 0 && a[0] == b[0] && b[0] == c[0] {
        lemma_before_transitive(a.skip(1), b.skip(1), c.skip(1));
    }
}

proof fn lemma_before_total(a: Seq<u8>, b: Seq<u8>)
    ensures
        a == b || before(a, b) || before(b, a),
    decreases a.len(),
{
    if a.len() > 0 && b.len() > 0 {
        if a[0] == b[0] {
            lemma_before_total(a.skip(1), b.skip(1));
            if a.skip(1) == b.skip(1) {
                assert(a =~= seq![a[0]] + a.skip(1));
                assert(b =~= seq![b[0]] + b.skip(1));
            }
        }
    } else if a.len() == 0 && b.len() == 0 {
        assert(a =~= b);
    }
}

/// Texts are ordered: of two different ones exactly one comes first.
pub proof fn law_text_order_total(a: Seq<char>, b: Seq<char>)
    ensures
        a == b || text_before(a, b) || text_before(b, a),
        !(text_before(a, b) && text_before(b, a)),
        text_before(a, b) ==> a != b,
{
    lemma_before_total(encode_utf8(a), encode_utf8(b));
    lemma_before_asymmetric(encode_utf8(a), encode_utf8(b));
    encode_utf8_decode_utf8(a);
    encode_utf8_decode_utf8(b);
}

proof fn lemma_put_row_at<V>(rows: Seq<(Seq<char>, V)>, key: Seq<char>, value: V, i: nat)
    requires
        i <= rows.len(),
        forall|j: int|
            0 <= j < i ==> (#[trigger] rows[j]).0 != key && !text_before(key, rows[j].0),
    ensures
        put_row(rows, key, value) == rows.take(i as int) + put_row(
            rows.skip(i as int),
            key,
            value,
        ),
    decreases i,
{
    if i > 0 {
        let rest = rows.skip(1);
        assert forall|j: int| 0 <= j < i - 1 implies (#[trigger] rest[j]).0 != key && !text_before(
            key,
            rest[j].0,
        ) by {
            assert(rest[j] == rows[j + 1]);
        }
        lemma_put_row_at(rest, key, value, (i - 1) as nat);
        assert(rest.skip(i - 1) =~= rows.skip(i as int));
        assert(rows[0].0 != key && !text_before(key, rows[0].0));
        assert(rows.take(i as int) =~= seq![rows[0]] + rest.take(i - 1));
        assert(put_row(rows, key, value) =~= rows.take(i as int) + put_row(
            rows.skip(i as int),
            key,
            value,
        ));
    } else {
        assert(rows.skip(0) =~= rows);
        assert(rows.take(0) + put_row(rows, key, value) =~= put_row(rows, key, value));
    }
}

/// Putting a row sets the map at its key and leaves the order of the keys.
pub proof fn law_put_row<V>(rows: Seq<(Seq<char>, V)>, key: Seq<char>, value: V)
    requires
        ascending(rows),
    ensures
        ascending(put_row(rows, key, value)),
        dict(put_row(rows, key, value)) == dict(rows).insert(key, value),
{
    lemma_put_row(rows, key, value);
}

/// A key of the rows after putting one is the new key or was there before.
proof fn lemma_put_row_keys<V>(rows: Seq<(Seq<char>, V)>, key: Seq<char>, value: V, j: int)
    requires
        0 <= j < put_row(rows, key, value).len(),
    ensures
        put_row(rows, key, value)[j].0 == key || exists|i: int|
            0 <= i < rows.len() && (#[trigger] rows[i]).0 == put_row(rows, key, value)[j].0,
    decreases rows.len(),
{
    let new = put_row(rows, key, value);
    if rows.len() > 0 {
        if rows[0].0 == key {
            if j > 0 {
                assert(new[j] == rows[j]);
            }
        } else if text_before(key, rows[0].0) {
            if j > 0 {
                assert(new[j] == rows[j - 1]);
            }
        } else if j > 0 {
            let rest = rows.skip(1);
            lemma_put_row_keys(rest, key, value, j - 1);
            assert(new[j] == put_row(rest, key, value)[j - 1]);
            if new[j].0 != key {
                let i = choose|i: int| 0 <= i < rest.len() && (#[trigger] rest[i]).0 == new[j].0;
                assert(rows[i + 1] == rest[i]);
            }
        } else {
            assert(new[0] == rows[0]);
        }
    }
}

proof fn lemma_put_row<V>(rows: Seq<(Seq<char>, V)>, key: Seq<char>, value: V)
    ensures
        ascending(rows) ==> ascending(put_row(rows, key, value)),
        dict(put_row(rows, key, value)) == dict(rows).insert(key, value),
    decreases rows.len(),
{
    let new = put_row(rows, key, value);
    if rows.len() == 0 {
        reveal_with_fuel(dict, 2);
        assert(new.skip(1) =~= Seq::<(Seq<char>, V)>::empty());
        assert(dict(new) =~= dict(rows).insert(key, value));
    } else if rows[0].0 == key {
        assert(new.skip(1) =~= rows.skip(1));
        assert(dict(new) =~= dict(rows).insert(key, value));
        if ascending(rows) {
            assert forall|i: int, j: int| 0 <= i < j < new.len() implies text_before(
                #[trigger] new[i].0,
                #[trigger] new[j].0,
            ) by {
                assert(new[i].0 == rows[i].0 && new[j].0 == rows[j].0);
            }
        }
    } else if text_before(key, rows[0].0) {
        assert(new.skip(1) =~= rows);
        assert(dict(new) =~= dict(rows).insert(key, value));
        if ascending(rows) {
            assert forall|i: int, j: int| 0 <= i < j < new.len() implies text_before(
                #[trigger] new[i].0,
                #[trigger] new[j].0,
            ) by {
                assert(new[j] == rows[j - 1]);
                if i > 0 {
                    assert(new[i] == rows[i - 1]);
                } else if j > 1 {
                    assert(text_before(rows[0].0, rows[j - 1].0));
                    lemma_before_transitive(
                        encode_utf8(key),
                        encode_utf8(rows[0].0),
                        encode_utf8(rows[j - 1].0),
                    );
                }
            }
        }
    } else {
        let rest = rows.skip(1);
        lemma_put_row(rest, key, value);
        assert(new.skip(1) =~= put_row(rest, key, value));
        assert(dict(new) =~= dict(rows).insert(key, value));
        if ascending(rows) {
            assert(ascending(rest)) by {
                assert forall|i: int, j: int| 0 <= i < j < rest.len() implies text_before(
                    #[trigger] rest[i].0,
                    #[trigger] rest[j].0,
                ) by {
                    assert(rest[i] == rows[i + 1] && rest[j] == rows[j + 1]);
                }
            }
            assert forall|i: int, j: int| 0 <= i < j < new.len() implies text_before(
                #[trigger] new[i].0,
                #[trigger] new[j].0,
            ) by {
                assert(new[j] == put_row(rest, key, value)[j - 1]);
                if i > 0 {
                    assert(new[i] == put_row(rest, key, value)[i - 1]);
                } else {
                    assert(new[0] == rows[0]);
                    law_text_order_total(rows[0].0, key);
                    lemma_put_row_keys(rest, key, value, j - 1);
                    if new[j].0 != key {
                        let m = choose|m: int|
                            0 <= m < rest.len() && (#[trigger] rest[m]).0 == new[j].0;
                        assert(rows[m + 1] == rest[m]);
                    }
                }
            }
        }
    }
}

/// Rows with every value mapped.
pub open spec fn map_rows<V, W>(rows: Seq<(Seq<char>, V)>, f: spec_fn(V) -> W) -> Seq<
    (Seq<char>, W),
> {
    rows.map_values(|row: (Seq<char>, V)| (row.0, f(row.1)))
}

/// Putting a row and mapping the values come to the same in either order.
pub(crate) proof fn lemma_put_row_mapped<V, W>(
    rows: Seq<(Seq<char>, V)>,
    key: Seq<char>,
    value: V,
    f: spec_fn(V) -> W,
)
    ensures
        map_rows(put_row(rows, key, value), f) == put_row(map_rows(rows, f), key, f(value)),
    decreases rows.len(),
{
    if rows.len() > 0 {
        lemma_put_row_mapped(rows.skip(1), key, value, f);
        assert(map_rows(rows.skip(1), f) =~= map_rows(rows, f).skip(1));
        assert(map_rows(rows, f)[0] == (rows[0].0, f(rows[0].1)));
    }
    assert(map_rows(put_row(rows, key, value), f) =~= put_row(map_rows(rows, f), key, f(value)));
}

/// The rows of an ascending list are told by the map: two lists of one map are one list.
pub proof fn law_rows_from_map<V>(a: Seq<(Seq<char>, V)>, b: Seq<(Seq<char>, V)>)
    requires
        ascending(a),
        ascending(b),
        dict(a) == dict(b),
    ensures
        a == b,
    decreases a.len(),
{
    if a.len() == 0 {
        if b.len() > 0 {
            assert(dict(b).dom().contains(b[0].0));
        }
        assert(a =~= b);
    } else if b.len() == 0 {
        assert(dict(a).dom().contains(a[0].0));
    } else {
        lemma_same_first(a, b);
        let x = a.skip(1);
        let y = b.skip(1);
        assert(dict(x) == dict(y) && ascending(x) && ascending(y)) by {
            lemma_rest(a);
            lemma_rest(b);
            assert(dict(x) =~= dict(a).remove(a[0].0));
            assert(dict(y) =~= dict(b).remove(b[0].0));
        }
        law_rows_from_map(x, y);
        assert(a =~= seq![a[0]] + x);
        assert(b =~= seq![b[0]] + y);
    }
}

/// Ascending lists of one map begin with one row.
proof fn lemma_same_first<V>(a: Seq<(Seq<char>, V)>, b: Seq<(Seq<char>, V)>)
    requires
        ascending(a),
        ascending(b),
        dict(a) == dict(b),
        a.len() > 0,
        b.len() > 0,
    ensures
        a[0] == b[0],
{
    lemma_dict_rows(a);
    lemma_dict_rows(b);
    assert(dict(b).dom().contains(a[0].0));
    assert(dict(a).dom().contains(b[0].0));
    let i = choose|i: int| 0 <= i < b.len() && (#[trigger] b[i]).0 == a[0].0;
    let j = choose|j: int| 0 <= j < a.len() && (#[trigger] a[j]).0 == b[0].0;
    if i > 0 {
        assert(text_before(b[0].0, b[i].0));
        law_text_order_total(b[0].0, a[0].0);
        if j > 0 {
            assert(text_before(a[0].0, a[j].0));
        }
    }
    assert(dict(a)[a[0].0] == a[0].1 && dict(b)[b[0].0] == b[0].1);
}

/// Every key of the map of rows stands in one of them.
proof fn lemma_dict_rows<V>(rows: Seq<(Seq<char>, V)>)
    ensures
        forall|k: Seq<char>| #[trigger]
            dict(rows).dom().contains(k) ==> exists|i: int|
                0 <= i < rows.len() && (#[trigger] rows[i]).0 == k,
    decreases rows.len(),
{
    if rows.len() > 0 {
        let rest = rows.skip(1);
        lemma_dict_rows(rest);
        assert forall|k: Seq<char>| #[trigger] dict(rows).dom().contains(k) implies exists|i: int|
            0 <= i < rows.len() && (#[trigger] rows[i]).0 == k by {
            if k != rows[0].0 {
                assert(dict(rest).dom().contains(k));
                let i = choose|i: int| 0 <= i < rest.len() && (#[trigger] rest[i]).0 == k;
                assert(rows[i + 1] == rest[i]);
            } else {
                assert(rows[0].0 == k);
            }
        }
    }
}

/// The rest of an ascending list is ascending and does not hold the first key.
proof fn lemma_rest<V>(rows: Seq<(Seq<char>, V)>)
    requires
        ascending(rows),
        rows.len() > 0,
    ensures
        ascending(rows.skip(1)),
        !dict(rows.skip(1)).dom().contains(rows[0].0),
{
    let rest = rows.skip(1);
    assert forall|i: int, j: int| 0 <= i < j < rest.len() implies text_before(
        #[trigger] rest[i].0,
        #[trigger] rest[j].0,
    ) by {
        assert(rest[i] == rows[i + 1] && rest[j] == rows[j + 1]);
    }
    lemma_dict_rows(rest);
    if dict(rest).dom().contains(rows[0].0) {
        let i = choose|i: int| 0 <= i < rest.len() && (#[trigger] rest[i]).0 == rows[0].0;
        assert(rest[i] == rows[i + 1]);
        assert(text_before(rows[0].0, rows[i + 1].0));
        law_text_order_total(rows[0].0, rows[i + 1].0);
    }
}

/// The order is that of the first byte in which two texts differ; where one runs out first, it comes
/// first.
pub proof fn law_order_is_lexicographic(a: Seq<u8>, b: Seq<u8>)
    ensures
        before(a, b) <==> exists|k: int|
            #![trigger a.take(k)]
            {
                &&& 0 <= k <= a.len()
                &&& k < b.len()
                &&& a.take(k) == b.take(k)
                &&& k == a.len() || a[k] < b[k]
            },
    decreases a.len(),
{
    if before(a, b) {
        if a.len() == 0 || a[0] != b[0] {
            assert(a.take(0) =~= b.take(0));
        } else {
            let x = a.skip(1);
            let y = b.skip(1);
            law_order_is_lexicographic(x, y);
            let k = choose|k: int|
                #![trigger x.take(k)]
                {
                    &&& 0 <= k <= x.len()
                    &&& k < y.len()
                    &&& x.take(k) == y.take(k)
                    &&& k == x.len() || x[k] < y[k]
                };
            assert(a.take(k + 1) =~= seq![a[0]] + x.take(k));
            assert(b.take(k + 1) =~= seq![b[0]] + y.take(k));
        }
    }
    if exists|k: int|
        #![trigger a.take(k)]
        {
            &&& 0 <= k <= a.len()
            &&& k < b.len()
            &&& a.take(k) == b.take(k)
            &&& k == a.len() || a[k] < b[k]
        } {
        let k = choose|k: int|
            #![trigger a.take(k)]
            {
                &&& 0 <= k <= a.len()
                &&& k < b.len()
                &&& a.take(k) == b.take(k)
                &&& k == a.len() || a[k] < b[k]
            };
        if k > 0 {
            assert(a[0] == a.take(k)[0]);
            assert(b[0] == b.take(k)[0]);
            let x = a.skip(1);
            let y = b.skip(1);
            assert(x.take(k - 1) =~= a.take(k).skip(1));
            assert(y.take(k - 1) =~= b.take(k).skip(1));
            law_order_is_lexicographic(x, y);
        }
    }
}

/// The map of ascending rows has every row, and nothing else.
pub proof fn law_map_of_rows<V>(rows: Seq<(Seq<char>, V)>)
    requires
        ascending(rows),
    ensures
        forall|i: int|
            0 <= i < rows.len() ==> dict(rows).dom().contains((#[trigger] rows[i]).0) && dict(
                rows,
            )[rows[i].0] == rows[i].1,
        forall|k: Seq<char>| #[trigger]
            dict(rows).dom().contains(k) ==> exists|i: int|
                0 <= i < rows.len() && (#[trigger] rows[i]).0 == k,
    decreases rows.len(),
{
    lemma_dict_rows(rows);
    if rows.len() > 0 {
        let rest = rows.skip(1);
        lemma_rest(rows);
        law_map_of_rows(rest);
        assert forall|i: int| 0 <= i < rows.len() implies dict(rows).dom().contains(
            (#[trigger] rows[i]).0,
        ) && dict(rows)[rows[i].0] == rows[i].1 by {
            if i > 0 {
                assert(rest[i - 1] == rows[i]);
                assert(dict(rest).dom().contains(rows[i].0));
            }
        }
    }
}

/// Putting a row puts it there and touches no other key.
pub proof fn law_put_row_keeps_others<V>(
    rows: Seq<(Seq<char>, V)>,
    key: Seq<char>,
    value: V,
    other: Seq<char>,
)
    requires
        ascending(rows),
    ensures
        put_row(rows, key, value).contains((key, value)),
        other != key ==> (dict(put_row(rows, key, value)).dom().contains(other) <==> dict(
            rows,
        ).dom().contains(other)),
        other != key && dict(rows).dom().contains(other) ==> dict(put_row(rows, key, value))[other]
            == dict(rows)[other],
{
    law_put_row(rows, key, value);
    let new = put_row(rows, key, value);
    law_map_of_rows(new);
    assert(dict(new).dom().contains(key));
    let i = choose|i: int| 0 <= i < new.len() && (#[trigger] new[i]).0 == key;
    assert(new[i] == (key, value));
}

/// Texts are ordered by their UTF-8 bytes, rows ascend by their keys, and mapping the values of rows
/// leaves their keys and their places.
pub proof fn law_what_ascends<V, W>(
    rows: Seq<(Seq<char>, V)>,
    f: spec_fn(V) -> W,
    i: int,
    j: int,
    a: Seq<char>,
    b: Seq<char>,
)
    ensures
        text_before(a, b) <==> before(encode_utf8(a), encode_utf8(b)),
        ascending(rows) && 0 <= i < j < rows.len() ==> text_before(rows[i].0, rows[j].0),
        rows.len() <= 1 ==> ascending(rows),
        map_rows(rows, f).len() == rows.len(),
        0 <= i < rows.len() ==> map_rows(rows, f)[i] == (rows[i].0, f(rows[i].1)),
{
}

} // verus!
