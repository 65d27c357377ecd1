//! Task constants and their wire codec.
//!
//! Constants are an unordered map from string keys to string values. On the
//! wire the service represents them as an ordered sequence of objects, each
//! carrying one field named `key` and one named `value`, in either order; a
//! legacy degenerate shape flattens everything into a single object whose
//! fields are scanned pairwise. Both shapes are decoded here; encoding always
//! produces the sequence shape.
use vstd::prelude::*;
use crate::text::str_eq;

verus! {

/// One named string field of a wire object.
#[derive(Debug, Clone)]
pub struct WireField {
    /// The field's name on the wire.
    pub name: String,
    /// The field's string payload.
    pub value: String,
}

impl View for WireField {
    type V = (Seq<char>, Seq<char>);

    open spec fn view(&self) -> (Seq<char>, Seq<char>) {
        (self.name@, self.value@)
    }
}

/// The projection of one wire object: its string fields in wire order.
#[derive(Debug, Clone)]
pub struct WireRecord {
    /// The object's fields, in the order the wire presented them.
    pub fields: Vec<WireField>,
}

impl View for WireRecord {
    type V = Seq<(Seq<char>, Seq<char>)>;

    open spec fn view(&self) -> Seq<(Seq<char>, Seq<char>)> {
        self.fields@.map_values(|f: WireField| f@)
    }
}

/// The views of a sequence of owned key/value entries.
pub open spec fn kv_views(s: Seq<(String, String)>) -> Seq<(Seq<char>, Seq<char>)> {
    s.map_values(|e: (String, String)| (e.0@, e.1@))
}

/// Inserts the pairs into `acc` from front to back; a later pair overwrites
/// an earlier one with the same key.
pub open spec fn insert_all(
    pairs: Seq<(Seq<char>, Seq<char>)>,
    acc: Map<Seq<char>, Seq<char>>,
) -> Map<Seq<char>, Seq<char>>
    decreases pairs.len(),
{
    if pairs.len() == 0 {
        acc
    } else {
        insert_all(pairs.skip(1), acc.insert(pairs[0].0, pairs[0].1))
    }
}

/// The logical key of one record: the payload of its last field named `key`,
/// or the empty string when it has none.
pub open spec fn record_key(fields: Seq<(Seq<char>, Seq<char>)>) -> Seq<char>
    decreases fields.len(),
{
    if fields.len() == 0 {
        Seq::empty()
    } else if fields.last().0 == "key"@ {
        fields.last().1
    } else {
        record_key(fields.drop_last())
    }
}

/// The logical value of one record: the payload of its last field named
/// `value`, or the empty string when it has none.
pub open spec fn record_value(fields: Seq<(Seq<char>, Seq<char>)>) -> Seq<char>
    decreases fields.len(),
{
    if fields.len() == 0 {
        Seq::empty()
    } else if fields.last().0 == "value"@ {
        fields.last().1
    } else {
        record_value(fields.drop_last())
    }
}

/// The key/value pair each record of a sequence denotes.
pub open spec fn record_pairs(
    recs: Seq<Seq<(Seq<char>, Seq<char>)>>,
) -> Seq<(Seq<char>, Seq<char>)> {
    recs.map_values(|f: Seq<(Seq<char>, Seq<char>)>| (record_key(f), record_value(f)))
}

/// The pairwise scan over the degenerate single-object shape: a field named
/// `key` introduces a logical key, and only an immediately following field
/// named `value` completes the entry; a `key` field whose successor is
/// missing or differently named contributes nothing, and the successor is
/// consumed either way.
pub open spec fn scan_pairs(
    fields: Seq<(Seq<char>, Seq<char>)>,
    acc: Map<Seq<char>, Seq<char>>,
) -> Map<Seq<char>, Seq<char>>
    decreases fields.len(),
{
    if fields.len() == 0 {
        acc
    } else if fields[0].0 == "key"@ {
        if fields.len() == 1 {
            acc
        } else if fields[1].0 == "value"@ {
            scan_pairs(fields.skip(2), acc.insert(fields[0].1, fields[1].1))
        } else {
            scan_pairs(fields.skip(2), acc)
        }
    } else {
        scan_pairs(fields.skip(1), acc)
    }
}

/// The two fields the encoder emits for one entry.
pub open spec fn encoded_pair(k: Seq<char>, v: Seq<char>) -> Seq<(Seq<char>, Seq<char>)> {
    seq![("key"@, k), ("value"@, v)]
}

/// The record sequence the encoder emits for a sequence of entries.
pub open spec fn encode_records(
    pairs: Seq<(Seq<char>, Seq<char>)>,
) -> Seq<Seq<(Seq<char>, Seq<char>)>> {
    pairs.map_values(|p: (Seq<char>, Seq<char>)| encoded_pair(p.0, p.1))
}

/// Task constants: an unordered map from string keys to string values.
/// Inserting an existing key overwrites its value.
#[derive(Debug)]
pub struct Constants {
    entries: Vec<(String, String)>,
}

impl View for Constants {
    type V = Map<Seq<char>, Seq<char>>;

    closed spec fn view(&self) -> Map<Seq<char>, Seq<char>> {
        insert_all(self.pairs(), Map::empty())
    }
}

impl Constants {
    /// Well-formed: no two entries share a key.
    pub closed spec fn wf(&self) -> bool {
        forall|i: int, j: int|
            0 <= i < j < self.entries@.len() ==> self.entries@[i].0@ != self.entries@[j].0@
    }

    /// The entry views, in insertion order.
    pub closed spec fn pairs(&self) -> Seq<(Seq<char>, Seq<char>)> {
        kv_views(self.entries@)
    }

    /// An empty constants map.
    pub fn new() -> (r: Self)
        ensures
            r.wf(),
            r@ == Map::<Seq<char>, Seq<char>>::empty(),
            r.pairs() == Seq::<(Seq<char>, Seq<char>)>::empty(),
    {
        let r = Constants { entries: Vec::new() };
        proof {
            assert(r.pairs() =~= Seq::<(Seq<char>, Seq<char>)>::empty());
        }
        r
    }

    /// Binds `key` to `value`; returns the value the key was bound to before,
    /// if any.
    pub fn insert(&mut self, key: &str, value: &str) -> (r: Option<String>)
        requires
            old(self).wf(),
        ensures
            final(self).wf(),
            final(self)@ == old(self)@.insert(key@, value@),
            match r {
                Some(prev) => old(self)@.contains_key(key@) && prev@ == old(self)@[key@],
                None => !old(self)@.contains_key(key@),
            },
    {
        let ghost oentries = self.entries@;
        let ghost opairs = self.pairs();
        let n = self.entries.len();
        let mut i: usize = 0;
        while i < n
            invariant
                i <= n,
                self.entries@ == oentries,
                oentries == old(self).entries@,
                n == oentries.len(),
                opairs == kv_views(oentries),
                opairs.len() == n,
                old(self).wf(),
                forall|j: int| 0 <= j < i ==> oentries[j].0@ != key@,
            decreases n - i,
        {
            if str_eq(self.entries[i].0.as_str(), key) {
                let prev = self.entries[i].1.clone();
                self.entries[i] = (key.to_owned(), value.to_owned());
                proof {
                    assert(self.entries@ == oentries.update(i as int, self.entries@[i as int]));
                    assert(self.entries@[i as int].0@ == key@);
                    assert(opairs[i as int] == (oentries[i as int].0@, oentries[i as int].1@));
                    assert(kv_views(self.entries@) =~= opairs.update(i as int, (key@, value@)));
                    assert forall|a: int, b: int|
                        0 <= a < b < opairs.len() implies opairs[a].0 != opairs[b].0 by {
                        assert(oentries[a].0@ != oentries[b].0@);
                    }
                    lemma_insert_all_update(opairs, i as int, (key@, value@), Map::empty());
                    lemma_insert_all_value(opairs, Map::empty(), i as int);
                    assert forall|a: int, b: int|
                        0 <= a < b < self.entries@.len() implies self.entries@[a].0@
                        != self.entries@[b].0@ by {
                        assert(oentries[a].0@ != oentries[b].0@);
                        if a == i {
                            assert(self.entries@[a].0@ == oentries[a].0@);
                        }
                        if b == i {
                            assert(self.entries@[b].0@ == oentries[b].0@);
                        }
                    }
                }
                return Some(prev);
            }
            i += 1;
        }
        self.entries.push((key.to_owned(), value.to_owned()));
        proof {
            assert(kv_views(self.entries@) =~= opairs.push((key@, value@)));
            lemma_insert_all_push(opairs, (key@, value@), Map::empty());
            lemma_insert_all_contains(opairs, Map::empty(), key@);
            assert forall|a: int, b: int|
                0 <= a < b < self.entries@.len() implies self.entries@[a].0@
                != self.entries@[b].0@ by {
                if b < n {
                    assert(oentries[a].0@ != oentries[b].0@);
                } else {
                    assert(self.entries@[b].0@ == key@);
                    assert(oentries[a].0@ != key@);
                }
            }
        }
        None
    }

    /// Looks a key up.
    pub fn get(&self, key: &str) -> (r: Option<String>)
        requires
            self.wf(),
        ensures
            match r {
                Some(v) => self@.contains_key(key@) && v@ == self@[key@],
                None => !self@.contains_key(key@),
            },
    {
        let n = self.entries.len();
        let mut i: usize = 0;
        while i < n
            invariant
                i <= n,
                self.wf(),
                n == self.entries@.len(),
                forall|j: int| 0 <= j < i ==> self.entries@[j].0@ != key@,
            decreases n - i,
        {
            if str_eq(self.entries[i].0.as_str(), key) {
                let v = self.entries[i].1.clone();
                proof {
                    assert forall|a: int, b: int|
                        0 <= a < b < self.pairs().len() implies self.pairs()[a].0
                        != self.pairs()[b].0 by {
                        assert(self.entries@[a].0@ != self.entries@[b].0@);
                    }
                    assert(self.pairs()[i as int] == (
                        self.entries@[i as int].0@,
                        self.entries@[i as int].1@,
                    ));
                    lemma_insert_all_value(self.pairs(), Map::empty(), i as int);
                }
                return Some(v);
            }
            i += 1;
        }
        proof {
            lemma_insert_all_contains(self.pairs(), Map::empty(), key@);
            assert forall|a: int| 0 <= a < self.pairs().len() implies self.pairs()[a].0
                != key@ by {
                assert(self.entries@[a].0@ != key@);
            }
        }
        None
    }

    /// How many keys are bound.
    pub fn len(&self) -> (r: usize)
        requires
            self.wf(),
        ensures
            r == self.pairs().len(),
            r == self@.dom().len(),
    {
        proof {
            assert(Map::<Seq<char>, Seq<char>>::empty().dom() =~= Set::<Seq<char>>::empty());
            assert forall|a: int, b: int|
                0 <= a < b < self.pairs().len() implies self.pairs()[a].0 != self.pairs()[b].0 by {
                assert(self.entries@[a].0@ != self.entries@[b].0@);
            }
            lemma_insert_all_len(self.pairs(), Map::empty());
            assert(self.pairs().len() == self.entries@.len());
        }
        self.entries.len()
    }

    /// Encodes the map as one wire record per entry, each carrying a `key`
    /// field and a `value` field, in that order.
    pub fn encode(&self) -> (r: Vec<WireRecord>)
        ensures
            r@.map_values(|rec: WireRecord| rec@) == encode_records(self.pairs()),
    {
        let mut out: Vec<WireRecord> = Vec::new();
        let n = self.entries.len();
        let mut i: usize = 0;
        while i < n
            invariant
                i <= n,
                n == self.entries@.len(),
                out@.len() == i,
                forall|j: int|
                    0 <= j < i ==> #[trigger] out@[j]@ == encoded_pair(
                        self.entries@[j].0@,
                        self.entries@[j].1@,
                    ),
            decreases n - i,
        {
            let mut fields: Vec<WireField> = Vec::new();
            fields.push(WireField { name: "key".to_owned(), value: self.entries[i].0.clone() });
            fields.push(WireField { name: "value".to_owned(), value: self.entries[i].1.clone() });
            let rec = WireRecord { fields };
            proof {
                assert(rec@ =~= encoded_pair(self.entries@[i as int].0@, self.entries@[i as int].1@));
            }
            out.push(rec);
            i += 1;
        }
        proof {
            assert forall|j: int| 0 <= j < n implies out@.map_values(|rec: WireRecord| rec@)[j]
                == encode_records(self.pairs())[j] by {
                assert(out@[j]@ == encoded_pair(self.entries@[j].0@, self.entries@[j].1@));
                assert(self.pairs()[j] == (self.entries@[j].0@, self.entries@[j].1@));
            }
            assert(out@.map_values(|rec: WireRecord| rec@) =~= encode_records(self.pairs()));
        }
        out
    }

    /// Decodes the sequence-of-records shape. Within one record the last
    /// field named `key` and the last named `value` win; a record missing
    /// either contributes the empty string for it. Later records overwrite
    /// earlier ones with the same key.
    pub fn decode_records(records: &Vec<WireRecord>) -> (r: Constants)
        ensures
            r.wf(),
            r@ == insert_all(
                record_pairs(records@.map_values(|rec: WireRecord| rec@)),
                Map::empty(),
            ),
    {
        let ghost rp = record_pairs(records@.map_values(|rec: WireRecord| rec@));
        let mut c = Constants::new();
        let n = records.len();
        let mut i: usize = 0;
        proof {
            assert(rp.skip(0) =~= rp);
        }
        while i < n
            invariant
                i <= n,
                n == records@.len(),
                rp == record_pairs(records@.map_values(|rec: WireRecord| rec@)),
                rp.len() == n,
                c.wf(),
                insert_all(rp, Map::empty()) == insert_all(rp.skip(i as int), c@),
            decreases n - i,
        {
            let (k, v) = record_kv(&records[i]);
            proof {
                assert(rp[i as int] == (record_key(records@[i as int]@), record_value(
                    records@[i as int]@,
                )));
                assert(rp.skip(i as int).skip(1) =~= rp.skip(i as int + 1));
                assert(rp.skip(i as int)[0] == rp[i as int]);
            }
            c.insert(k.as_str(), v.as_str());
            i += 1;
        }
        proof {
            assert(rp.skip(n as int) =~= Seq::<(Seq<char>, Seq<char>)>::empty());
        }
        c
    }

    /// Decodes the degenerate single-object shape by scanning the object's
    /// fields pairwise: a `key` field followed immediately by a `value` field
    /// adds an entry; a `key` field followed by anything else (or by nothing)
    /// adds none, and its follower is consumed; other fields are skipped.
    pub fn decode_object(record: &WireRecord) -> (r: Constants)
        ensures
            r.wf(),
            r@ == scan_pairs(record@, Map::empty()),
    {
        let ghost fv = record@;
        let mut c = Constants::new();
        let n = record.fields.len();
        let mut i: usize = 0;
        proof {
            assert(fv.skip(0) =~= fv);
        }
        while i < n
            invariant
                i <= n,
                n == record.fields@.len(),
                fv == record@,
                fv.len() == n,
                c.wf(),
                scan_pairs(fv, Map::empty()) == scan_pairs(fv.skip(i as int), c@),
            decreases n - i,
        {
            proof {
                assert(fv.skip(i as int)[0] == fv[i as int]);
                assert(fv[i as int] == record.fields@[i as int]@);
            }
            if str_eq(record.fields[i].name.as_str(), "key") {
                if i + 1 < n {
                    proof {
                        assert(fv.skip(i as int)[1] == fv[i as int + 1]);
                        assert(fv[i as int + 1] == record.fields@[i as int + 1]@);
                        assert(fv.skip(i as int).skip(2) =~= fv.skip(i as int + 2));
                    }
                    if str_eq(record.fields[i + 1].name.as_str(), "value") {
                        let k = record.fields[i].value.clone();
                        let v = record.fields[i + 1].value.clone();
                        c.insert(k.as_str(), v.as_str());
                    }
                    i += 2;
                } else {
                    proof {
                        assert(fv.skip(i as int).len() == 1);
                        assert(fv.skip(i as int + 1) =~= Seq::<(Seq<char>, Seq<char>)>::empty());
                        assert(scan_pairs(fv.skip(i as int + 1), c@) == c@);
                    }
                    i += 1;
                }
            } else {
                proof {
                    assert(fv.skip(i as int).skip(1) =~= fv.skip(i as int + 1));
                }
                i += 1;
            }
        }
        proof {
            assert(fv.skip(n as int) =~= Seq::<(Seq<char>, Seq<char>)>::empty());
        }
        c
    }
}

impl Clone for Constants {
    /// A clone denotes the same map.
    fn clone(&self) -> (r: Self)
        ensures
            r@ == self@,
            r.pairs() == self.pairs(),
            r.wf() == self.wf(),
    {
        let n = self.entries.len();
        let mut entries: Vec<(String, String)> = Vec::new();
        let mut i: usize = 0;
        while i < n
            invariant
                i <= n,
                n == self.entries@.len(),
                entries@.len() == i,
                forall|j: int| 0 <= j < i ==> entries@[j] == self.entries@[j],
            decreases n - i,
        {
            entries.push((self.entries[i].0.clone(), self.entries[i].1.clone()));
            i += 1;
        }
        let r = Constants { entries };
        proof {
            assert(r.entries@ =~= self.entries@);
        }
        r
    }
}

/// Extracts the logical key and value of one record: the last field named
/// `key` and the last named `value`; either defaults to the empty string.
fn record_kv(rec: &WireRecord) -> (kv: (String, String))
    ensures
        kv.0@ == record_key(rec@),
        kv.1@ == record_value(rec@),
{
    let ghost rv = rec@;
    let mut key = String::new();
    let mut value = String::new();
    let n = rec.fields.len();
    let mut j: usize = 0;
    while j < n
        invariant
            j <= n,
            n == rec.fields@.len(),
            rv == rec@,
            rv.len() == n,
            key@ == record_key(rv.take(j as int)),
            value@ == record_value(rv.take(j as int)),
        decreases n - j,
    {
        proof {
            reveal_strlit("key");
            reveal_strlit("value");
            assert("key"@.len() == 3);
            assert("value"@.len() == 5);
            assert(rv.take(j as int + 1).drop_last() =~= rv.take(j as int));
            assert(rv.take(j as int + 1).last() == rv[j as int]);
            assert(rv[j as int] == rec.fields@[j as int]@);
        }
        if str_eq(rec.fields[j].name.as_str(), "key") {
            key = rec.fields[j].value.clone();
        } else if str_eq(rec.fields[j].name.as_str(), "value") {
            value = rec.fields[j].value.clone();
        }
        j += 1;
    }
    proof {
        assert(rv.take(n as int) =~= rv);
    }
    (key, value)
}

/// Appending a pair inserts it last.
proof fn lemma_insert_all_push(
    pairs: Seq<(Seq<char>, Seq<char>)>,
    p: (Seq<char>, Seq<char>),
    acc: Map<Seq<char>, Seq<char>>,
)
    ensures
        insert_all(pairs.push(p), acc) == insert_all(pairs, acc).insert(p.0, p.1),
    decreases pairs.len(),
{
    if pairs.len() == 0 {
        assert(pairs.push(p)[0] == p);
        assert(pairs.push(p).skip(1) =~= Seq::<(Seq<char>, Seq<char>)>::empty());
        assert(insert_all(pairs.push(p), acc) == insert_all(pairs.push(p).skip(1), acc.insert(
            p.0,
            p.1,
        )));
        assert(insert_all(pairs.push(p).skip(1), acc.insert(p.0, p.1)) == acc.insert(p.0, p.1));
    } else {
        assert(pairs.push(p)[0] == pairs[0]);
        assert(pairs.push(p).skip(1) =~= pairs.skip(1).push(p));
        lemma_insert_all_push(pairs.skip(1), p, acc.insert(pairs[0].0, pairs[0].1));
    }
}

/// A key occurs in the result exactly when it occurs in the accumulator or
/// among the pairs.
proof fn lemma_insert_all_contains(
    pairs: Seq<(Seq<char>, Seq<char>)>,
    acc: Map<Seq<char>, Seq<char>>,
    k: Seq<char>,
)
    ensures
        insert_all(pairs, acc).contains_key(k) <==> (acc.contains_key(k) || exists|i: int|
            0 <= i < pairs.len() && pairs[i].0 == k),
    decreases pairs.len(),
{
    if pairs.len() == 0 {
    } else {
        lemma_insert_all_contains(pairs.skip(1), acc.insert(pairs[0].0, pairs[0].1), k);
        if pairs[0].0 == k {
            assert(pairs[0].0 == k && 0 <= 0 < pairs.len());
        }
        if exists|i: int| 0 <= i < pairs.skip(1).len() && pairs.skip(1)[i].0 == k {
            let i = choose|i: int| 0 <= i < pairs.skip(1).len() && pairs.skip(1)[i].0 == k;
            assert(pairs[i + 1].0 == k);
        }
        if insert_all(pairs, acc).contains_key(k) && !acc.contains_key(k) && pairs[0].0 != k {
            let i = choose|i: int|
                0 <= i < pairs.skip(1).len() && pairs.skip(1)[i].0 == k;
            assert(pairs[i + 1].0 == k);
        }
        if exists|i: int| 0 <= i < pairs.len() && pairs[i].0 == k {
            let i = choose|i: int| 0 <= i < pairs.len() && pairs[i].0 == k;
            if i > 0 {
                assert(pairs.skip(1)[i - 1].0 == k);
            }
        }
    }
}

/// Inserting a key no pair mentions commutes with the fold.
proof fn lemma_insert_all_commute(
    pairs: Seq<(Seq<char>, Seq<char>)>,
    acc: Map<Seq<char>, Seq<char>>,
    k: Seq<char>,
    v: Seq<char>,
)
    requires
        forall|i: int| 0 <= i < pairs.len() ==> pairs[i].0 != k,
    ensures
        insert_all(pairs, acc.insert(k, v)) == insert_all(pairs, acc).insert(k, v),
    decreases pairs.len(),
{
    if pairs.len() == 0 {
    } else {
        assert(acc.insert(k, v).insert(pairs[0].0, pairs[0].1) =~= acc.insert(
            pairs[0].0,
            pairs[0].1,
        ).insert(k, v));
        assert(forall|i: int| 0 <= i < pairs.skip(1).len() ==> pairs.skip(1)[i] == pairs[i + 1]);
        lemma_insert_all_commute(pairs.skip(1), acc.insert(pairs[0].0, pairs[0].1), k, v);
    }
}

/// With pairwise distinct keys, the fold binds each pair's key to its value.
proof fn lemma_insert_all_value(
    pairs: Seq<(Seq<char>, Seq<char>)>,
    acc: Map<Seq<char>, Seq<char>>,
    i: int,
)
    requires
        0 <= i < pairs.len(),
        forall|a: int, b: int| 0 <= a < b < pairs.len() ==> pairs[a].0 != pairs[b].0,
    ensures
        insert_all(pairs, acc).contains_key(pairs[i].0),
        insert_all(pairs, acc)[pairs[i].0] == pairs[i].1,
    decreases pairs.len(),
{
    assert(forall|a: int| 0 <= a < pairs.skip(1).len() ==> pairs.skip(1)[a] == pairs[a + 1]);
    if i == 0 {
        assert(forall|a: int| 0 <= a < pairs.skip(1).len() ==> pairs.skip(1)[a].0 != pairs[0].0);
        lemma_insert_all_commute(
            pairs.skip(1),
            acc.insert(pairs[0].0, pairs[0].1),
            pairs[0].0,
            pairs[0].1,
        );
        assert(acc.insert(pairs[0].0, pairs[0].1).insert(pairs[0].0, pairs[0].1) =~= acc.insert(
            pairs[0].0,
            pairs[0].1,
        ));
    } else {
        lemma_insert_all_value(pairs.skip(1), acc.insert(pairs[0].0, pairs[0].1), i - 1);
    }
}

/// Updating the pair that already holds a key folds like a plain insert of
/// the new pair.
proof fn lemma_insert_all_update(
    pairs: Seq<(Seq<char>, Seq<char>)>,
    i: int,
    p: (Seq<char>, Seq<char>),
    acc: Map<Seq<char>, Seq<char>>,
)
    requires
        0 <= i < pairs.len(),
        pairs[i].0 == p.0,
        forall|a: int, b: int| 0 <= a < b < pairs.len() ==> pairs[a].0 != pairs[b].0,
    ensures
        insert_all(pairs.update(i, p), acc) == insert_all(pairs, acc).insert(p.0, p.1),
    decreases pairs.len(),
{
    assert(forall|a: int| 0 <= a < pairs.skip(1).len() ==> pairs.skip(1)[a] == pairs[a + 1]);
    if i == 0 {
        assert(pairs.update(0, p)[0] == p);
        assert(pairs.update(0, p).skip(1) =~= pairs.skip(1));
        assert(forall|a: int| 0 <= a < pairs.skip(1).len() ==> pairs.skip(1)[a].0 != p.0);
        lemma_insert_all_commute(pairs.skip(1), acc.insert(p.0, p.1), p.0, p.1);
        lemma_insert_all_commute(pairs.skip(1), acc.insert(pairs[0].0, pairs[0].1), p.0, p.1);
        assert(acc.insert(p.0, p.1).insert(p.0, p.1) =~= acc.insert(p.0, p.1));
        assert(acc.insert(pairs[0].0, pairs[0].1).insert(p.0, p.1) =~= acc.insert(p.0, p.1));
    } else {
        assert(pairs.update(i, p)[0] == pairs[0]);
        assert(pairs.update(i, p).skip(1) =~= pairs.skip(1).update(i - 1, p));
        lemma_insert_all_update(pairs.skip(1), i - 1, p, acc.insert(pairs[0].0, pairs[0].1));
    }
}

/// With pairwise distinct keys, the fold grows the domain by exactly the
/// number of pairs.
proof fn lemma_insert_all_len(
    pairs: Seq<(Seq<char>, Seq<char>)>,
    acc: Map<Seq<char>, Seq<char>>,
)
    requires
        forall|a: int, b: int| 0 <= a < b < pairs.len() ==> pairs[a].0 != pairs[b].0,
        acc.dom().finite(),
        forall|i: int| 0 <= i < pairs.len() ==> !acc.contains_key(pairs[i].0),
    ensures
        insert_all(pairs, acc).dom().finite(),
        insert_all(pairs, acc).dom().len() == acc.dom().len() + pairs.len(),
    decreases pairs.len(),
{
    if pairs.len() == 0 {
    } else {
        assert(forall|a: int| 0 <= a < pairs.skip(1).len() ==> pairs.skip(1)[a] == pairs[a + 1]);
        vstd::set::axiom_set_insert_finite(acc.dom(), pairs[0].0);
        vstd::set::axiom_set_insert_len(acc.dom(), pairs[0].0);
        lemma_insert_all_len(pairs.skip(1), acc.insert(pairs[0].0, pairs[0].1));
    }
}

/// Decoding inverts encoding: the records a constants map encodes to decode
/// back to exactly that map, whatever order the entries were inserted in.
pub proof fn lemma_decode_inverts_encode(c: Constants)
    requires
        c.wf(),
    ensures
        insert_all(record_pairs(encode_records(c.pairs())), Map::empty()) == c@,
{
    assert forall|k: Seq<char>, v: Seq<char>| #[trigger] record_key(encoded_pair(k, v)) == k by {
        reveal_strlit("key");
        reveal_strlit("value");
        assert("key"@.len() == 3);
        assert("value"@.len() == 5);
        let ep = encoded_pair(k, v);
        assert(ep.last() == ("value"@, v));
        assert(ep.drop_last() =~= seq![("key"@, k)]);
        assert(seq![("key"@, k)].last() == ("key"@, k));
        assert(record_key(ep.drop_last()) == k);
    }
    assert forall|k: Seq<char>, v: Seq<char>| #[trigger] record_value(encoded_pair(k, v))
        == v by {
        reveal_strlit("value");
        let ep = encoded_pair(k, v);
        assert(ep.last() == ("value"@, v));
    }
    assert forall|i: int| 0 <= i < c.pairs().len() implies record_pairs(
        encode_records(c.pairs()),
    )[i] == c.pairs()[i] by {
        assert(encode_records(c.pairs())[i] == encoded_pair(c.pairs()[i].0, c.pairs()[i].1));
        assert(record_key(encoded_pair(c.pairs()[i].0, c.pairs()[i].1)) == c.pairs()[i].0);
        assert(record_value(encoded_pair(c.pairs()[i].0, c.pairs()[i].1)) == c.pairs()[i].1);
    }
    assert(record_pairs(encode_records(c.pairs())) =~= c.pairs());
}

/// The two accepted wire shapes agree: flattening the entries into the
/// degenerate single-object shape decodes to the same map as the
/// sequence-of-records shape.
pub proof fn lemma_shapes_agree(
    pairs: Seq<(Seq<char>, Seq<char>)>,
    acc: Map<Seq<char>, Seq<char>>,
)
    ensures
        scan_pairs(flatten_pairs(pairs), acc) == insert_all(pairs, acc),
    decreases pairs.len(),
{
    reveal_strlit("key");
    reveal_strlit("value");
    assert("key"@.len() == 3);
    assert("value"@.len() == 5);
    if pairs.len() == 0 {
        assert(flatten_pairs(pairs) =~= Seq::<(Seq<char>, Seq<char>)>::empty());
    } else {
        let f = flatten_pairs(pairs);
        assert(f[0] == ("key"@, pairs[0].0));
        assert(f[1] == ("value"@, pairs[0].1));
        assert(f.len() >= 2);
        assert(f.skip(2) =~= flatten_pairs(pairs.skip(1)));
        lemma_shapes_agree(pairs.skip(1), acc.insert(pairs[0].0, pairs[0].1));
    }
}

/// The degenerate single-object shape of a sequence of entries: all the
/// `key`/`value` fields flattened into one record.
pub open spec fn flatten_pairs(
    pairs: Seq<(Seq<char>, Seq<char>)>,
) -> Seq<(Seq<char>, Seq<char>)>
    decreases pairs.len(),
{
    if pairs.len() == 0 {
        Seq::empty()
    } else {
        encoded_pair(pairs[0].0, pairs[0].1) + flatten_pairs(pairs.skip(1))
    }
}

/// In the degenerate shape, a `key` field whose immediate successor is not a
/// `value` field contributes no entry: both fields are consumed and the map
/// is unchanged.
pub proof fn lemma_key_without_value_contributes_nothing(
    k: (Seq<char>, Seq<char>),
    follower: (Seq<char>, Seq<char>),
    rest: Seq<(Seq<char>, Seq<char>)>,
    acc: Map<Seq<char>, Seq<char>>,
)
    requires
        k.0 == "key"@,
        follower.0 != "value"@,
    ensures
        scan_pairs(seq![k, follower] + rest, acc) == scan_pairs(rest, acc),
{
    let f = seq![k, follower] + rest;
    assert(f[0] == k);
    assert(f[1] == follower);
    assert(f.skip(2) =~= rest);
}

/// In the degenerate shape, a trailing `key` field with nothing after it
/// contributes no entry.
pub proof fn lemma_trailing_key_contributes_nothing(
    k: (Seq<char>, Seq<char>),
    acc: Map<Seq<char>, Seq<char>>,
)
    requires
        k.0 == "key"@,
    ensures
        scan_pairs(seq![k], acc) == acc,
{
    assert(seq![k][0] == k);
    assert(seq![k].len() == 1);
}

} // verus!
