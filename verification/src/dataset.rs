//! The history of one player: at most one measurement per timestamp, read
//! back in chronological order.

use crate::error::ErrorKind;
use crate::skills::{RawField, Skills};
use crate::timestamp::{is_canonical, parse_spec, Timestamp};
use std::collections::BTreeMap;
use vstd::prelude::*;
use vstd::std_specs::btree::increasing_seq;
use vstd::std_specs::cmp::OrdSpec;
use vstd::std_specs::iter::IteratorSpec;

verus! {

/// Whether `list` holds the entries of `map`, each once, earliest first.
pub open spec fn is_listing_of(list: Seq<(i64, Skills)>, map: Map<i64, Skills>) -> bool {
    &&& forall|i: int, j: int| 0 <= i < j < list.len() ==> list[i].0 < list[j].0
    &&& forall|i: int|
        0 <= i < list.len() ==> map.contains_key((#[trigger] list[i]).0) && map[list[i].0]
            == list[i].1
    &&& forall|k: i64| #[trigger]
        map.contains_key(k) ==> exists|i: int| 0 <= i < list.len() && (#[trigger] list[i]).0 == k
}

/// The entries of `map` in chronological order.
pub open spec fn listing_of(map: Map<i64, Skills>) -> Seq<(i64, Skills)> {
    choose|list: Seq<(i64, Skills)>| is_listing_of(list, map)
}

/// Entries as plain pairs of seconds and measurement.
pub open spec fn plain(entries: Seq<(Timestamp, Skills)>) -> Seq<(i64, Skills)> {
    entries.map_values(|e: (Timestamp, Skills)| (e.0.secs(), e.1))
}

/// A listing agrees with any other, place by place, as far as both reach.
proof fn lemma_listings_agree(
    a: Seq<(i64, Skills)>,
    b: Seq<(i64, Skills)>,
    map: Map<i64, Skills>,
    n: int,
)
    requires
        is_listing_of(a, map),
        is_listing_of(b, map),
        0 <= n <= a.len(),
        n <= b.len(),
    ensures
        forall|i: int| 0 <= i < n ==> a[i] == b[i],
    decreases n,
{
    if n > 0 {
        lemma_listings_agree(a, b, map, n - 1);
        let i = n - 1;
        let ja = choose|j: int| 0 <= j < a.len() && (#[trigger] a[j]).0 == b[i].0;
        let jb = choose|j: int| 0 <= j < b.len() && (#[trigger] b[j]).0 == a[i].0;
        assert(map.contains_key(b[i].0));
        assert(map.contains_key(a[i].0));
        if ja < i {
            assert(a[ja] == b[ja]);
        }
        if jb < i {
            assert(a[jb] == b[jb]);
        }
        assert(a[i].0 == b[i].0);
    }
}

/// A map has one chronological listing and no other.
pub proof fn lemma_listing_unique(
    a: Seq<(i64, Skills)>,
    b: Seq<(i64, Skills)>,
    map: Map<i64, Skills>,
)
    requires
        is_listing_of(a, map),
        is_listing_of(b, map),
    ensures
        a == b,
{
    if a.len() < b.len() {
        lemma_listings_agree(a, b, map, a.len() as int);
        let extra = b[a.len() as int];
        assert(map.contains_key(extra.0));
        let j = choose|j: int| 0 <= j < a.len() && (#[trigger] a[j]).0 == extra.0;
        assert(a[j] == b[j]);
    } else if b.len() < a.len() {
        lemma_listings_agree(a, b, map, b.len() as int);
        let extra = a[b.len() as int];
        assert(map.contains_key(extra.0));
        let j = choose|j: int| 0 <= j < b.len() && (#[trigger] b[j]).0 == extra.0;
        assert(a[j] == b[j]);
    } else {
        lemma_listings_agree(a, b, map, a.len() as int);
    }
    assert(a =~= b);
}

/// A finite set of seconds that is not empty has a latest member.
proof fn lemma_latest_exists(keys: Set<i64>)
    requires
        keys.finite(),
        keys.len() > 0,
    ensures
        exists|m: i64| keys.contains(m) && forall|k: i64| keys.contains(k) ==> k <= m,
    decreases keys.len(),
{
    let x = keys.choose();
    let rest = keys.remove(x);
    if rest.len() == 0 {
        assert forall|k: i64| keys.contains(k) implies k <= x by {
            if k != x {
                assert(rest.contains(k));
            }
        }
    } else {
        lemma_latest_exists(rest);
        let m0 = choose|m: i64| rest.contains(m) && forall|k: i64| rest.contains(k) ==> k <= m;
        let m = if x <= m0 {
            m0
        } else {
            x
        };
        assert forall|k: i64| keys.contains(k) implies k <= m by {
            if k != x {
                assert(rest.contains(k));
            }
        }
        assert(keys.contains(m));
    }
}

/// Every finite map has a chronological listing, with one place for each of
/// the map's entries.
proof fn lemma_listing_exists(map: Map<i64, Skills>)
    requires
        map.dom().finite(),
    ensures
        exists|list: Seq<(i64, Skills)>| is_listing_of(list, map) && list.len() == map.len(),
    decreases map.len(),
{
    if map.len() == 0 {
        let list = Seq::<(i64, Skills)>::empty();
        map.dom().lemma_len0_is_empty();
        assert(is_listing_of(list, map));
        assert(list.len() == map.len());
    } else {
        lemma_latest_exists(map.dom());
        let m = choose|m: i64|
            map.dom().contains(m) && forall|k: i64| map.dom().contains(k) ==> k <= m;
        let rest = map.remove(m);
        lemma_listing_exists(rest);
        let front = choose|list: Seq<(i64, Skills)>|
            is_listing_of(list, rest) && list.len() == rest.len();
        let list = front.push((m, map[m]));
        assert forall|i: int, j: int| 0 <= i < j < list.len() implies list[i].0 < list[j].0 by {
            assert(rest.contains_key(front[i].0));
            assert(map.dom().contains(front[i].0));
        }
        assert forall|k: i64| #[trigger] map.contains_key(k) implies exists|i: int|
            0 <= i < list.len() && (#[trigger] list[i]).0 == k by {
            if k == m {
                assert(list[front.len() as int].0 == k);
            } else {
                assert(rest.contains_key(k));
                let i = choose|i: int| 0 <= i < front.len() && (#[trigger] front[i]).0 == k;
                assert(list[i].0 == k);
            }
        }
        assert(is_listing_of(list, map));
        assert(list.len() == map.len());
    }
}

/// The chronological listing of a finite map lists it, and has one place for
/// each of the map's entries.
pub proof fn lemma_listing_of(map: Map<i64, Skills>)
    requires
        map.dom().finite(),
    ensures
        is_listing_of(listing_of(map), map),
        listing_of(map).len() == map.len(),
{
    lemma_listing_exists(map);
    let list = choose|list: Seq<(i64, Skills)>| is_listing_of(list, map) && list.len() == map.len();
    lemma_listing_unique(list, listing_of(map), map);
}

/// The order in which two measurements at different instants are recorded
/// does not show in the listing.
pub proof fn lemma_insertion_order_is_irrelevant(
    map: Map<i64, Skills>,
    first: (i64, Skills),
    second: (i64, Skills),
)
    requires
        first.0 != second.0,
    ensures
        listing_of(map.insert(first.0, first.1).insert(second.0, second.1)) == listing_of(
            map.insert(second.0, second.1).insert(first.0, first.1),
        ),
{
    assert(map.insert(first.0, first.1).insert(second.0, second.1) =~= map.insert(
        second.0,
        second.1,
    ).insert(first.0, first.1));
}

/// The entries of a map, earliest first.
fn sorted_pairs(map: &BTreeMap<i64, Skills>) -> (out: Vec<(i64, Skills)>)
    ensures
        out@ == listing_of(map@),
        is_listing_of(out@, map@),
        out@.len() == map@.len(),
{
    broadcast use vstd::std_specs::btree::group_btree_axioms;
    broadcast use vstd::laws_cmp::group_laws_cmp;

    let mut out: Vec<(i64, Skills)> = Vec::new();
    let it = map.iter();
    let ghost all = it.remaining();
    for entry in iter: it
        invariant
            iter.seq() == all,
            out@.len() == iter.index(),
            forall|i: int|
                0 <= i < out@.len() ==> (#[trigger] out@[i]).0 == *all[i].0 && out@[i].1
                    == *all[i].1,
    {
        out.push((*entry.0, *entry.1));
    }
    proof {
        let keys = all.map_values(|e: (&i64, &Skills)| *e.0);
        assert(increasing_seq(keys));
        assert forall|i: int, j: int| 0 <= i < j < out@.len() implies out@[i].0 < out@[j].0 by {
            assert(keys[i].cmp_spec(&keys[j]) is Less);
        }
        assert forall|k: i64| #[trigger] map@.contains_key(k) implies exists|i: int|
            0 <= i < out@.len() && (#[trigger] out@[i]).0 == k by {
            let k_ref = &k;
            let v_ref = &map@[k];
            assert(all.contains((k_ref, v_ref)));
            let i = choose|i: int| 0 <= i < all.len() && all[i] == (k_ref, v_ref);
            assert(out@[i].0 == k);
        }
        lemma_listing_of(map@);
        lemma_listing_unique(out@, listing_of(map@), map@);
    }
    out
}

/// One entry of a raw response: a timestamp as text, and the record under it.
#[derive(Debug, Clone, PartialEq, Eq)]
pub struct RawEntry {
    pub timestamp: String,
    pub fields: Vec<RawField>,
}

/// Whether a raw entry decodes: its timestamp is valid and its record complete.
pub open spec fn entry_decodes(entry: RawEntry) -> bool {
    parse_spec(entry.timestamp@) is Some && Skills::decode_spec(entry.fields@) is Some
}

/// Whether `entries[i]` is the first raw entry that does not decode.
pub open spec fn is_first_failure(entries: Seq<RawEntry>, i: int) -> bool {
    &&& 0 <= i < entries.len()
    &&& !entry_decodes(entries[i])
    &&& forall|j: int| 0 <= j < i ==> entry_decodes(#[trigger] entries[j])
}

/// Whether `error` is the one that decoding `entry` gives: the timestamp is
/// looked at first, the record only under a valid timestamp.
pub open spec fn is_failure_of(entry: RawEntry, error: ErrorKind) -> bool {
    if parse_spec(entry.timestamp@) is None {
        error matches ErrorKind::ParseError(text) && text@ == entry.timestamp@
    } else {
        error == ErrorKind::MalformedSnapshot
    }
}

/// The mapping that raw entries decode to, where each of them decodes. Of two
/// entries with one timestamp the later stands.
pub open spec fn decoded_map(entries: Seq<RawEntry>) -> Map<i64, Skills>
    decreases entries.len(),
{
    if entries.len() == 0 {
        Map::empty()
    } else {
        decoded_map(entries.drop_last()).insert(
            parse_spec(entries.last().timestamp@).unwrap(),
            Skills::decode_spec(entries.last().fields@).unwrap(),
        )
    }
}

/// A player's history: a measurement for each of a set of timestamps.
///
/// The view is the mapping from a timestamp's second to its measurement.
#[derive(Debug, PartialEq, Eq)]
pub struct Dataset {
    map: BTreeMap<i64, Skills>,
}

impl View for Dataset {
    type V = Map<i64, Skills>;

    closed spec fn view(&self) -> Map<i64, Skills> {
        self.map@
    }
}

impl Clone for Dataset {
    fn clone(&self) -> (copy: Dataset)
        ensures
            copy@ == self@,
    {
        proof {
            use_type_invariant(self);
        }
        Dataset { map: self.map.clone() }
    }
}

impl Dataset {
    /// Every key is the second of a valid timestamp.
    #[verifier::type_invariant]
    pub closed spec fn wf(self) -> bool {
        forall|k: i64| #[trigger] self.map@.contains_key(k) ==> is_canonical(k)
    }

    /// The entries in chronological order.
    pub open spec fn listing(self) -> Seq<(i64, Skills)> {
        listing_of(self@)
    }

    /// The listing of a history lists its view, and has one place for each of
    /// its entries.
    pub proof fn lemma_listing(self)
        ensures
            self@.dom().finite(),
            is_listing_of(self.listing(), self@),
            self.listing().len() == self@.len(),
    {
        broadcast use vstd::std_specs::btree::group_btree_axioms;

        lemma_listing_of(self@);
    }

    /// A history without entries.
    pub fn new() -> (dataset: Dataset)
        ensures
            dataset@ == Map::<i64, Skills>::empty(),
            dataset.wf(),
    {
        Dataset { map: BTreeMap::new() }
    }

    /// Records `skills` as the measurement at `at`, in place of any earlier one.
    pub fn insert(&mut self, at: Timestamp, skills: Skills)
        ensures
            final(self)@ == old(self)@.insert(at.secs(), skills),
            final(self).wf(),
    {
        broadcast use vstd::std_specs::btree::group_btree_axioms;
        broadcast use vstd::laws_cmp::group_laws_cmp;

        proof {
            use_type_invariant(&*self);
            use_type_invariant(at);
        }
        let secs = at.epoch_seconds();
        // The map is taken out and put back as a whole, so that the
        // invariant is only ever asked of a finished value.
        let mut taken = Dataset::new();
        std::mem::swap(self, &mut taken);
        let Dataset { mut map } = taken;
        map.insert(secs, skills);
        *self = Dataset { map };
    }

    /// The number of entries.
    pub fn len(&self) -> (n: usize)
        ensures
            n == self@.len(),
            n == self.listing().len(),
    {
        broadcast use vstd::std_specs::btree::group_btree_axioms;
        broadcast use vstd::laws_cmp::group_laws_cmp;

        proof {
            lemma_listing_of(self@);
        }
        self.map.len()
    }

    /// Whether there is no entry.
    pub fn is_empty(&self) -> (empty: bool)
        ensures
            empty == self@.is_empty(),
            empty == (self.listing().len() == 0),
    {
        broadcast use vstd::std_specs::btree::group_btree_axioms;

        proof {
            lemma_listing_of(self@);
        }
        self.map.is_empty()
    }

    /// The entries from the earliest to the latest. Each call starts afresh
    /// and leaves the history as it is.
    pub fn iter_ordered(&self) -> (entries: Vec<(Timestamp, Skills)>)
        ensures
            plain(entries@) == self.listing(),
            is_listing_of(plain(entries@), self@),
            entries@.len() == self@.len(),
    {
        proof {
            use_type_invariant(self);
        }
        let pairs = sorted_pairs(&self.map);
        let mut entries: Vec<(Timestamp, Skills)> = Vec::new();
        let mut i: usize = 0;
        while i < pairs.len()
            invariant
                i <= pairs@.len(),
                entries@.len() == i,
                is_listing_of(pairs@, self.map@),
                self.wf(),
                forall|j: int|
                    0 <= j < i ==> (#[trigger] entries@[j]).0.secs() == pairs@[j].0 && entries@[j].1
                        == pairs@[j].1,
            decreases pairs@.len() - i,
        {
            let (secs, skills) = pairs[i];
            assert(self.map@.contains_key(pairs@[i as int].0));
            entries.push((Timestamp::from_canonical(secs), skills));
            i += 1;
        }
        assert(plain(entries@) =~= pairs@);
        entries
    }

    /// The earliest entry, if there is any.
    pub fn first(&self) -> (entry: Option<(Timestamp, Skills)>)
        ensures
            match entry {
                Some(e) => {
                    &&& self.listing().len() > 0
                    &&& (e.0.secs(), e.1) == self.listing().first()
                    &&& self@.contains_key(e.0.secs())
                    &&& self@[e.0.secs()] == e.1
                    &&& forall|k: i64| self@.contains_key(k) ==> e.0.secs() <= k
                },
                None => self.listing().len() == 0 && self@.is_empty(),
            },
    {
        let entries = self.iter_ordered();
        if entries.len() == 0 {
            None
        } else {
            assert(plain(entries@)[0] == (entries@[0].0.secs(), entries@[0].1));
            Some(entries[0])
        }
    }

    /// The latest entry, if there is any.
    pub fn last(&self) -> (entry: Option<(Timestamp, Skills)>)
        ensures
            match entry {
                Some(e) => {
                    &&& self.listing().len() > 0
                    &&& (e.0.secs(), e.1) == self.listing().last()
                    &&& self@.contains_key(e.0.secs())
                    &&& self@[e.0.secs()] == e.1
                    &&& forall|k: i64| self@.contains_key(k) ==> k <= e.0.secs()
                },
                None => self.listing().len() == 0 && self@.is_empty(),
            },
    {
        let entries = self.iter_ordered();
        let n = entries.len();
        if n == 0 {
            None
        } else {
            assert(plain(entries@)[n - 1] == (entries@[n - 1].0.secs(), entries@[n - 1].1));
            Some(entries[n - 1])
        }
    }

    /// Decodes a whole raw response.
    ///
    /// The response decodes only as a whole: the first entry with an invalid
    /// timestamp or a malformed record fails it, with that entry's error.
    pub fn decode(entries: &Vec<RawEntry>) -> (result: Result<Dataset, ErrorKind>)
        ensures
            match result {
                Ok(dataset) => {
                    &&& forall|i: int|
                        0 <= i < entries@.len() ==> entry_decodes(#[trigger] entries@[i])
                    &&& dataset@ == decoded_map(entries@)
                    &&& dataset.wf()
                },
                Err(error) => exists|i: int|
                    is_first_failure(entries@, i) && is_failure_of(entries@[i], error),
            },
    {
        let mut dataset = Dataset::new();
        let mut i: usize = 0;
        while i < entries.len()
            invariant
                i <= entries@.len(),
                forall|j: int| 0 <= j < i ==> entry_decodes(#[trigger] entries@[j]),
                dataset@ == decoded_map(entries@.take(i as int)),
            decreases entries@.len() - i,
        {
            let at = match Timestamp::parse(entries[i].timestamp.as_str()) {
                Ok(at) => at,
                Err(error) => {
                    assert(is_first_failure(entries@, i as int));
                    return Err(error);
                },
            };
            let skills = match Skills::decode(&entries[i].fields) {
                Ok(skills) => skills,
                Err(error) => {
                    assert(is_first_failure(entries@, i as int));
                    return Err(error);
                },
            };
            dataset.insert(at, skills);
            proof {
                let upto = entries@.take(i + 1);
                assert(upto.drop_last() =~= entries@.take(i as int));
                assert(upto.last() == entries@[i as int]);
            }
            i += 1;
        }
        proof {
            assert(entries@.take(i as int) =~= entries@);
            use_type_invariant(&dataset);
        }
        Ok(dataset)
    }

    /// Puts `new_data` in the place of everything held so far. Nothing of
    /// the earlier history remains.
    pub fn replace(&mut self, new_data: Dataset)
        ensures
            final(self)@ == new_data@,
            final(self).listing() == new_data.listing(),
            final(self).wf(),
    {
        proof {
            use_type_invariant(&new_data);
        }
        *self = new_data;
    }
}

} // verus!
