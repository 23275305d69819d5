use vstd::prelude::*;
use crate::parsed_packet::{ParsedPacket, PacketView};
use crate::report_entry::{
    Connection, ConnectionMetadata, ConnectionView, MetadataView, key_of,
};

verus! {

/// One row of the flow table, as mathematics: a key and its statistics.
pub type EntryView = (ConnectionView, MetadataView);

/// Addition on byte counts, capped at the machine word: the table never
/// wraps around, it pins a runaway count to `usize::MAX`.
pub open spec fn sat_add(a: int, b: int) -> int {
    if a + b > usize::MAX {
        usize::MAX as int
    } else {
        a + b
    }
}

/// The statistics opened for the first record of a key.
pub open spec fn fresh_meta(p: PacketView) -> MetadataView {
    MetadataView { size: p.size, first_timestamp: p.timestamp, last_timestamp: p.timestamp }
}

/// The statistics after one more record of the same key: bytes accumulate,
/// the first timestamp stands, the last is overwritten.
pub open spec fn folded_meta(m: MetadataView, p: PacketView) -> MetadataView {
    MetadataView {
        size: sat_add(m.size, p.size),
        first_timestamp: m.first_timestamp,
        last_timestamp: p.timestamp,
    }
}

/// The first position holding key `k`, or -1.
pub open spec fn find_key(s: Seq<EntryView>, k: ConnectionView) -> int
    decreases s.len(),
{
    if s.len() == 0 {
        -1
    } else if s[0].0 == k {
        0
    } else {
        let r = find_key(s.drop_first(), k);
        if r == -1 {
            -1
        } else {
            r + 1
        }
    }
}

/// The statistics stored under `k`, if any.
pub open spec fn lookup(s: Seq<EntryView>, k: ConnectionView) -> Option<MetadataView> {
    let i = find_key(s, k);
    if i >= 0 {
        Some(s[i].1)
    } else {
        None
    }
}

/// One fold step: an existing row of the record's key is updated in place,
/// a missing one is appended at the end.
pub open spec fn spec_fold(s: Seq<EntryView>, p: PacketView) -> Seq<EntryView> {
    let k = key_of(p);
    let i = find_key(s, k);
    if i >= 0 {
        s.update(i, (k, folded_meta(s[i].1, p)))
    } else {
        s.push((k, fresh_meta(p)))
    }
}

/// Folding a whole run of records, in order.
pub open spec fn spec_fold_all(s: Seq<EntryView>, ps: Seq<PacketView>) -> Seq<EntryView>
    decreases ps.len(),
{
    if ps.len() == 0 {
        s
    } else {
        spec_fold(spec_fold_all(s, ps.drop_last()), ps.last())
    }
}

/// No key appears on two rows.
pub open spec fn distinct_keys(s: Seq<EntryView>) -> bool {
    forall|i: int, j: int| 0 <= i < j < s.len() ==> s[i].0 != s[j].0
}

proof fn lemma_find_key_props(s: Seq<EntryView>, k: ConnectionView)
    ensures
        -1 <= find_key(s, k) < s.len(),
        find_key(s, k) >= 0 ==> s[find_key(s, k)].0 == k,
        find_key(s, k) >= 0 ==> forall|j: int| 0 <= j < find_key(s, k) ==> s[j].0 != k,
        find_key(s, k) == -1 ==> forall|j: int| 0 <= j < s.len() ==> s[j].0 != k,
    decreases s.len(),
{
    if s.len() > 0 && s[0].0 != k {
        lemma_find_key_props(s.drop_first(), k);
        assert forall|j: int| 0 <= j < s.len() && find_key(s, k) == -1 implies s[j].0 != k by {
            if j > 0 {
                assert(s.drop_first()[j - 1] == s[j]);
            }
        }
        if find_key(s, k) >= 0 {
            assert forall|j: int| 0 <= j < find_key(s, k) implies s[j].0 != k by {
                if j > 0 {
                    assert(s.drop_first()[j - 1] == s[j]);
                }
            }
        }
    }
}

proof fn lemma_find_key_at(s: Seq<EntryView>, k: ConnectionView, i: int)
    requires
        0 <= i < s.len(),
        s[i].0 == k,
        forall|j: int| 0 <= j < i ==> s[j].0 != k,
    ensures
        find_key(s, k) == i,
    decreases i,
{
    if i > 0 {
        assert(s[0].0 != k);
        assert(s.drop_first()[i - 1].0 == k);
        assert forall|j: int| 0 <= j < i - 1 implies s.drop_first()[j].0 != k by {
            assert(s.drop_first()[j] == s[j + 1]);
        }
        lemma_find_key_at(s.drop_first(), k, i - 1);
    }
}

proof fn lemma_find_key_same_keys(s1: Seq<EntryView>, s2: Seq<EntryView>, k: ConnectionView)
    requires
        s1.len() == s2.len(),
        forall|j: int| 0 <= j < s1.len() ==> s1[j].0 == s2[j].0,
    ensures
        find_key(s1, k) == find_key(s2, k),
    decreases s1.len(),
{
    if s1.len() > 0 {
        assert forall|j: int| 0 <= j < s1.drop_first().len() implies s1.drop_first()[j].0
            == s2.drop_first()[j].0 by {
            assert(s1.drop_first()[j] == s1[j + 1]);
            assert(s2.drop_first()[j] == s2[j + 1]);
        }
        lemma_find_key_same_keys(s1.drop_first(), s2.drop_first(), k);
    }
}

proof fn lemma_find_key_push(s: Seq<EntryView>, e: EntryView, k: ConnectionView)
    ensures
        find_key(s.push(e), k) == if find_key(s, k) >= 0 {
            find_key(s, k)
        } else if e.0 == k {
            s.len() as int
        } else {
            -1
        },
    decreases s.len(),
{
    lemma_find_key_props(s, k);
    if s.len() == 0 {
        assert(s.push(e)[0] == e);
        assert(s.push(e).len() == 1);
        if e.0 != k {
            lemma_find_key_props(s.push(e), k);
            if find_key(s.push(e), k) >= 0 {
                assert(s.push(e)[find_key(s.push(e), k)].0 == k);
            }
        }
    } else {
        assert(s.push(e)[0] == s[0]);
        if s[0].0 != k {
            assert(s.push(e).drop_first() =~= s.drop_first().push(e));
            lemma_find_key_push(s.drop_first(), e, k);
        }
    }
}

/// The run of records in `ps` whose key is `k`, in fold order.
pub open spec fn keyed(ps: Seq<PacketView>, k: ConnectionView) -> Seq<PacketView>
    decreases ps.len(),
{
    if ps.len() == 0 {
        Seq::empty()
    } else {
        let rest = keyed(ps.drop_last(), k);
        if key_of(ps.last()) == k {
            rest.push(ps.last())
        } else {
            rest
        }
    }
}

/// The byte counts of a run of records, accumulated with the same cap the
/// table uses.
pub open spec fn sat_sum(ps: Seq<PacketView>) -> int
    decreases ps.len(),
{
    if ps.len() == 0 {
        0
    } else if ps.len() == 1 {
        ps[0].size
    } else {
        sat_add(sat_sum(ps.drop_last()), ps.last().size)
    }
}

/// The plain, uncapped sum of the byte counts.
pub open spec fn sum_sizes(ps: Seq<PacketView>) -> int
    decreases ps.len(),
{
    if ps.len() == 0 {
        0
    } else {
        sum_sizes(ps.drop_last()) + ps.last().size
    }
}

/// The statistics a nonempty run of records of one key folds to.
pub open spec fn stats_of(ps: Seq<PacketView>) -> MetadataView {
    MetadataView {
        size: sat_sum(ps),
        first_timestamp: ps[0].timestamp,
        last_timestamp: ps.last().timestamp,
    }
}

/// Key separation, per key: after folding any run of records into an empty
/// table, the row under a key `k` is exactly the fold of the records that
/// carry `k`, and keys carried by no record have no row.  Records with
/// distinct keys never combine.
pub proof fn lemma_key_separation(ps: Seq<PacketView>, k: ConnectionView)
    ensures
        lookup(spec_fold_all(Seq::empty(), ps), k) == if keyed(ps, k).len() == 0 {
            None::<MetadataView>
        } else {
            Some(stats_of(keyed(ps, k)))
        },
    decreases ps.len(),
{
    if ps.len() == 0 {
        lemma_find_key_props(Seq::empty(), k);
    } else {
        let ps0 = ps.drop_last();
        let p = ps.last();
        let k0 = key_of(p);
        let t0 = spec_fold_all(Seq::empty(), ps0);
        lemma_key_separation(ps0, k);
        lemma_key_separation(ps0, k0);
        lemma_find_key_props(t0, k0);
        lemma_find_key_props(t0, k);
        let i0 = find_key(t0, k0);
        if i0 >= 0 {
            let t1 = t0.update(i0, (k0, folded_meta(t0[i0].1, p)));
            assert forall|j: int| 0 <= j < t0.len() implies t0[j].0 == t1[j].0 by {}
            lemma_find_key_same_keys(t0, t1, k);
            if k == k0 {
                let q = keyed(ps0, k);
                assert(q.len() > 0);
                assert(keyed(ps, k) == q.push(p));
                assert(q.push(p)[0] == q[0]);
                assert(q.push(p).drop_last() =~= q);
            } else {
                assert(keyed(ps, k) == keyed(ps0, k));
            }
        } else {
            let t1 = t0.push((k0, fresh_meta(p)));
            lemma_find_key_push(t0, (k0, fresh_meta(p)), k);
            if k == k0 {
                assert(keyed(ps0, k).len() == 0);
                assert(keyed(ps, k) == keyed(ps0, k).push(p));
                let q = keyed(ps, k);
                assert(q.len() == 1);
                assert(q[0] == p);
                assert(q.last() == p);
                assert(q.drop_last() =~= Seq::<PacketView>::empty());
                assert(t1[t0.len() as int].1 == fresh_meta(p));
                assert(stats_of(q) == fresh_meta(p));
            } else {
                assert(keyed(ps, k) == keyed(ps0, k));
            }
        }
    }
}

/// All keys of `ps`, as a set.
pub open spec fn key_set(ps: Seq<PacketView>) -> Set<ConnectionView>
    decreases ps.len(),
{
    if ps.len() == 0 {
        Set::empty()
    } else {
        key_set(ps.drop_last()).insert(key_of(ps.last()))
    }
}

proof fn lemma_key_set_finite(ps: Seq<PacketView>)
    ensures
        key_set(ps).finite(),
    decreases ps.len(),
{
    if ps.len() > 0 {
        lemma_key_set_finite(ps.drop_last());
    }
}

proof fn lemma_keyed_empty_iff_absent(ps: Seq<PacketView>, k: ConnectionView)
    ensures
        keyed(ps, k).len() == 0 <==> !key_set(ps).contains(k),
    decreases ps.len(),
{
    if ps.len() > 0 {
        lemma_keyed_empty_iff_absent(ps.drop_last(), k);
    }
}

/// Key separation, counted: the table's entry count equals the number of
/// distinct keys among the records submitted.
pub proof fn lemma_entry_count(ps: Seq<PacketView>)
    ensures
        spec_fold_all(Seq::empty(), ps).len() == key_set(ps).len(),
    decreases ps.len(),
{
    if ps.len() > 0 {
        let ps0 = ps.drop_last();
        let p = ps.last();
        let k0 = key_of(p);
        let t0 = spec_fold_all(Seq::empty(), ps0);
        lemma_entry_count(ps0);
        lemma_key_separation(ps0, k0);
        lemma_keyed_empty_iff_absent(ps0, k0);
        lemma_key_set_finite(ps0);
        lemma_find_key_props(t0, k0);
        vstd::set::axiom_set_insert_len(key_set(ps0), k0);
    }
}

/// Fold correctness: a nonempty run of records that all carry one key,
/// whose byte counts are machine sizes and whose plain sum fits the
/// machine, folds into an empty table as exactly one row: the key, the
/// sum of the sizes, the first record's timestamp and the last record's
/// timestamp.
pub proof fn lemma_fold_correctness(ps: Seq<PacketView>, k: ConnectionView)
    requires
        ps.len() > 0,
        forall|i: int| 0 <= i < ps.len() ==> key_of(#[trigger] ps[i]) == k,
        forall|i: int| 0 <= i < ps.len() ==> 0 <= (#[trigger] ps[i]).size,
        sum_sizes(ps) <= usize::MAX,
    ensures
        ({
            let t = spec_fold_all(Seq::empty(), ps);
            &&& t.len() == 1
            &&& t[0].0 == k
            &&& t[0].1 == (MetadataView {
                size: sum_sizes(ps),
                first_timestamp: ps[0].timestamp,
                last_timestamp: ps.last().timestamp,
            })
        }),
    decreases ps.len(),
{
    let t = spec_fold_all(Seq::empty(), ps);
    let p = ps.last();
    if ps.len() == 1 {
        assert(spec_fold_all(Seq::empty(), ps.drop_last()) =~= Seq::<EntryView>::empty());
        lemma_find_key_props(Seq::empty(), key_of(p));
        assert(t =~= Seq::empty().push((key_of(p), fresh_meta(p))));
        assert(ps[0] == p);
        assert(sum_sizes(ps.drop_last()) == 0);
        assert(sum_sizes(ps) == p.size);
    } else {
        let ps0 = ps.drop_last();
        assert(ps0.len() > 0);
        assert(forall|i: int| 0 <= i < ps0.len() ==> key_of(#[trigger] ps0[i]) == k);
        assert(forall|i: int| 0 <= i < ps0.len() ==> 0 <= (#[trigger] ps0[i]).size);
        assert(sum_sizes(ps) == sum_sizes(ps0) + p.size);
        lemma_sum_sizes_nonneg(ps0);
        lemma_fold_correctness(ps0, k);
        let t0 = spec_fold_all(Seq::empty(), ps0);
        lemma_find_key_at(t0, k, 0);
        assert(key_of(p) == k);
        assert(t == t0.update(0, (k, folded_meta(t0[0].1, p))));
        assert(ps0[0] == ps[0]);
    }
}

/// The first-seen timestamp is set once, at a key's first insertion,
/// and never mutated afterward: one fold step keeps every row's first
/// timestamp, and every row it had, in place.
pub proof fn lemma_first_seen_stands(s: Seq<EntryView>, p: PacketView)
    ensures
        spec_fold(s, p).len() >= s.len(),
        forall|i: int|
            0 <= i < s.len() ==> (#[trigger] spec_fold(s, p)[i]).1.first_timestamp
                == s[i].1.first_timestamp,
        forall|i: int| 0 <= i < s.len() ==> (#[trigger] spec_fold(s, p)[i]).0 == s[i].0,
{
    lemma_find_key_props(s, key_of(p));
}

proof fn lemma_sum_sizes_nonneg(ps: Seq<PacketView>)
    requires
        forall|i: int| 0 <= i < ps.len() ==> 0 <= (#[trigger] ps[i]).size,
    ensures
        sum_sizes(ps) >= 0,
    decreases ps.len(),
{
    if ps.len() > 0 {
        assert(forall|i: int|
            0 <= i < ps.drop_last().len() ==> 0 <= (#[trigger] ps.drop_last()[i]).size);
        lemma_sum_sizes_nonneg(ps.drop_last());
    }
}

/// The flow table: the cumulative statistics of every connection seen,
/// one row per key, in order of first appearance.
pub struct FlowTable {
    entries: Vec<(Connection, ConnectionMetadata)>,
}

impl View for FlowTable {
    type V = Seq<EntryView>;

    closed spec fn view(&self) -> Seq<EntryView> {
        self.entries@.map_values(|e: (Connection, ConnectionMetadata)| (e.0@, e.1@))
    }
}

fn entry_matches(c: &Connection, p: &ParsedPacket) -> (r: bool)
    ensures
        r == (c@ == key_of(p@)),
{
    let r = c.source_ip == p.source_ip && c.destination_ip == p.destination_ip
        && c.source_port == p.source_port && c.destination_port == p.destination_port
        && c.protocol == p.protocol;
    proof {
        if r {
            assert(c@ == key_of(p@));
        } else {
            assert(c@ != key_of(p@));
        }
    }
    r
}

fn sat_add_usize(a: usize, b: usize) -> (r: usize)
    ensures
        r == sat_add(a as int, b as int),
{
    if usize::MAX - a < b {
        usize::MAX
    } else {
        a + b
    }
}

impl FlowTable {
    /// Every key stands on at most one row.
    pub open spec fn wf(&self) -> bool {
        distinct_keys(self@)
    }

    /// The empty table.
    pub fn new() -> (r: FlowTable)
        ensures
            r@ == Seq::<EntryView>::empty(),
            r.wf(),
    {
        let r = FlowTable { entries: Vec::new() };
        proof {
            assert(r@ =~= Seq::<EntryView>::empty());
        }
        r
    }

    /// How many connections the table holds.
    pub fn len(&self) -> (n: usize)
        ensures
            n == self@.len(),
    {
        self.entries.len()
    }

    /// The row at a position, for walking the table.
    pub fn entry_at(&self, i: usize) -> (e: &(Connection, ConnectionMetadata))
        requires
            i < self@.len(),
        ensures
            (e.0@, e.1@) == self@[i as int],
    {
        &self.entries[i]
    }

    /// Whether a key has a row.
    pub fn contains_key(&self, key: &Connection) -> (r: bool)
        ensures
            r == (find_key(self@, key@) >= 0),
    {
        match self.position(key) {
            Some(_) => true,
            None => false,
        }
    }

    /// The statistics under a key, if any.
    pub fn get(&self, key: &Connection) -> (r: Option<&ConnectionMetadata>)
        ensures
            match r {
                Some(m) => lookup(self@, key@) == Some(m@),
                None => lookup(self@, key@) is None,
            },
    {
        match self.position(key) {
            Some(i) => Some(&self.entries[i].1),
            None => None,
        }
    }

    fn position(&self, key: &Connection) -> (r: Option<usize>)
        ensures
            match r {
                Some(i) => i == find_key(self@, key@) && i < self@.len(),
                None => find_key(self@, key@) == -1,
            },
    {
        let n = self.entries.len();
        let mut i: usize = 0;
        while i < n
            invariant
                n == self@.len(),
                i <= n,
                forall|j: int| 0 <= j < i ==> self@[j].0 != key@,
            decreases n - i,
        {
            let c = &self.entries[i].0;
            let hit = c.source_ip == key.source_ip && c.destination_ip == key.destination_ip
                && c.source_port == key.source_port && c.destination_port == key.destination_port
                && c.protocol == key.protocol;
            if hit {
                proof {
                    assert(self@[i as int].0 == c@);
                    assert(c@ == key@);
                    lemma_find_key_at(self@, key@, i as int);
                }
                return Some(i);
            }
            proof {
                assert(self@[i as int].0 == c@);
                assert(c@ != key@);
            }
            i += 1;
        }
        proof {
            lemma_find_key_none(self@, key@);
        }
        None
    }

    /// One fold: add the record's size to its key's byte count and
    /// overwrite the last timestamp, or open a fresh row for a new key.
    pub fn fold_record(&mut self, p: ParsedPacket)
        requires
            old(self).wf(),
        ensures
            final(self)@ == spec_fold(old(self)@, p@),
            final(self).wf(),
    {
        let ghost k = key_of(p@);
        let n = self.entries.len();
        let mut i: usize = 0;
        while i < n
            invariant
                n == self@.len(),
                i <= n,
                *self == *old(self),
                old(self).wf(),
                forall|j: int| 0 <= j < i ==> self@[j].0 != k,
                k == key_of(p@),
            decreases n - i,
        {
            if entry_matches(&self.entries[i].0, &p) {
                proof {
                    assert(self@[i as int].0 == k);
                    lemma_find_key_at(self@, k, i as int);
                }
                let c = self.entries[i].0.clone();
                let new_size = sat_add_usize(self.entries[i].1.size, p.size);
                let first = self.entries[i].1.first_timestamp.clone();
                let m = ConnectionMetadata::new(new_size, first, p.timestamp);
                proof {
                    assert(c@ == self@[i as int].0);
                    assert(m@ == folded_meta(self@[i as int].1, p@));
                }
                self.entries.set(i, (c, m));
                proof {
                    assert(self@ =~= spec_fold(old(self)@, p@));
                    lemma_spec_fold_wf(old(self)@, p@);
                }
                return ;
            }
            i += 1;
        }
        proof {
            lemma_find_key_none(self@, k);
            assert(old(self)@ == self@);
            assert(forall|j: int| 0 <= j < old(self)@.len() ==> (#[trigger] old(self)@[j]).0 != k);
        }
        let c = Connection::new(
            p.source_ip,
            p.destination_ip,
            p.source_port,
            p.destination_port,
            p.protocol,
        );
        let m = ConnectionMetadata::new(p.size, p.timestamp.clone(), p.timestamp);
        proof {
            assert(c@ == k);
            assert(m@ == fresh_meta(p@));
        }
        self.entries.push((c, m));
        proof {
            assert(self@ =~= old(self)@.push((k, fresh_meta(p@))));
            lemma_spec_fold_wf(old(self)@, p@);
        }
    }
}

/// One fold step keeps the keys distinct.
proof fn lemma_spec_fold_wf(s: Seq<EntryView>, p: PacketView)
    requires
        distinct_keys(s),
    ensures
        distinct_keys(spec_fold(s, p)),
{
    let k = key_of(p);
    lemma_find_key_props(s, k);
    let i = find_key(s, k);
    if i >= 0 {
        let t = s.update(i, (k, folded_meta(s[i].1, p)));
        assert forall|a: int, b: int| 0 <= a < b < t.len() implies t[a].0 != t[b].0 by {
            assert(t[a].0 == s[a].0);
            assert(t[b].0 == s[b].0);
        }
    } else {
        let t = s.push((k, fresh_meta(p)));
        assert forall|a: int, b: int| 0 <= a < b < t.len() implies t[a].0 != t[b].0 by {
            if b < s.len() {
                assert(t[a].0 == s[a].0);
                assert(t[b].0 == s[b].0);
            } else {
                assert(t[a].0 == s[a].0);
                assert(t[b].0 == k);
                assert(s[a].0 != k);
            }
        }
    }
}

proof fn lemma_find_key_none(s: Seq<EntryView>, k: ConnectionView)
    requires
        forall|j: int| 0 <= j < s.len() ==> s[j].0 != k,
    ensures
        find_key(s, k) == -1,
{
    lemma_find_key_props(s, k);
    if find_key(s, k) >= 0 {
        assert(s[find_key(s, k)].0 == k);
    }
}

impl Clone for FlowTable {
    /// A copy row for row: the snapshot the report is rendered from.
    fn clone(&self) -> (r: FlowTable)
        ensures
            r@ == self@,
    {
        let n = self.entries.len();
        let mut entries: Vec<(Connection, ConnectionMetadata)> = Vec::new();
        let mut i: usize = 0;
        while i < n
            invariant
                n == self.entries@.len(),
                i <= n,
                entries@.len() == i,
                forall|j: int| 0 <= j < i ==> (#[trigger] entries@[j].0@, entries@[j].1@)
                    == self@[j],
            decreases n - i,
        {
            let c = self.entries[i].0.clone();
            let m = self.entries[i].1.clone();
            entries.push((c, m));
            i += 1;
        }
        let r = FlowTable { entries };
        proof {
            assert(r@ =~= self@);
        }
        r
    }
}

} // verus!
