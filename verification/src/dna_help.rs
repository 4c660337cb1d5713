use vstd::prelude::*;

use crate::hashes::{EntryHash, HeaderHash, WrappedEntryHash, WrappedHeaderHash};
use vstd::std_specs::convert::FromSpecImpl;

verus! {

/// An entry together with the header that created it and the entry's own hash.
pub type EntryAndHash<T> = (T, HeaderHash, EntryHash);

pub type OptionEntryAndHash<T> = Option<EntryAndHash<T>>;

/// What a header that the DHT holds for an entry tells this library:
/// its own hash and the whole seconds of its timestamp.
pub struct SignedHeaderHashed {
    pub header_hash: HeaderHash,
    pub timestamp: i64,
}

/// The validation state of an entry on the DHT.
pub enum EntryDhtStatus {
    Live,
    Dead,
    Pending,
    Rejected,
    Abandoned,
    Conflict,
    Withdrawn,
    Purged,
}

/// The details that the DHT holds for an entry: the headers that created it,
/// the headers that updated it, and its status.
pub struct EntryDetails {
    pub headers: Vec<SignedHeaderHashed>,
    pub updates: Vec<SignedHeaderHashed>,
    pub entry_dht_status: EntryDhtStatus,
}

/// The details returned for an address: those of an entry, or those of an element.
pub enum Details {
    Entry(EntryDetails),
    Element,
}

/// The header that an element was found under.
pub enum HeaderKind {
    Create,
    Update { original_header_address: HeaderHash },
    Other,
}

/// What an element fetched from the DHT tells this library: the kind of its
/// header, the header's own hash, and the hash of the entry that the header names.
pub struct ElementSummary {
    pub header: HeaderKind,
    pub header_address: HeaderHash,
    pub entry_hash: Option<EntryHash>,
}

/// An error that a zome function returns to its caller.
pub enum ZomeError {
    Zome(String),
}

/// How a header or entry changed, as told to peers.
pub enum ActionType {
    Create,
    Update,
    Delete,
}

/// The header hash of a signed header.
pub fn get_header_hash(shh: SignedHeaderHashed) -> (r: HeaderHash)
    ensures
        r@ == shh.header_hash@,
{
    shh.header_hash
}

/// The whole-second timestamps of a sequence of headers.
pub open spec fn timestamps(s: Seq<SignedHeaderHashed>) -> Seq<i64> {
    s.map_values(|h: SignedHeaderHashed| h.timestamp)
}

/// `i` is the position of the latest header: no header is later, and every
/// header after position `i` is strictly earlier. This is the header that a stable
/// ascending sort by timestamp puts last.
pub open spec fn is_latest_index(ts: Seq<i64>, i: int) -> bool {
    &&& 0 <= i < ts.len()
    &&& forall|j: int| 0 <= j < ts.len() ==> ts[j] <= ts[i]
    &&& forall|j: int| i < j < ts.len() ==> ts[j] < ts[i]
}

/// The position of the latest header, read from the left.
pub open spec fn latest_index(ts: Seq<i64>) -> int
    decreases ts.len(),
{
    if ts.len() <= 1 {
        0
    } else {
        let k = latest_index(ts.drop_last());
        if ts.last() >= ts[k] {
            ts.len() - 1
        } else {
            k
        }
    }
}

/// The latest position as defined from the left is the latest header.
pub proof fn lemma_latest_index_is_latest(ts: Seq<i64>)
    requires
        ts.len() > 0,
    ensures
        is_latest_index(ts, latest_index(ts)),
    decreases ts.len(),
{
    if ts.len() > 1 {
        let p = ts.drop_last();
        lemma_latest_index_is_latest(p);
        let k = latest_index(p);
        assert(forall|j: int| 0 <= j < p.len() ==> p[j] == ts[j]);
    }
}

/// Only one position is the latest one.
pub proof fn lemma_latest_index_unique(ts: Seq<i64>, i: int, j: int)
    requires
        is_latest_index(ts, i),
        is_latest_index(ts, j),
    ensures
        i == j,
{
    if i < j {
        assert(ts[j] < ts[i]);
        assert(ts[i] <= ts[j]);
    } else if j < i {
        assert(ts[i] < ts[j]);
        assert(ts[j] <= ts[i]);
    }
}

/// The header hash that `get_latest_for_entry` goes on to fetch: for a live entry
/// with no updates its first creating header, for a live entry with updates the
/// latest update; nothing otherwise.
pub open spec fn spec_latest_header_hash(details: Option<Details>) -> Option<Seq<u8>> {
    match details {
        Some(Details::Entry(d)) => match d.entry_dht_status {
            EntryDhtStatus::Live => if d.updates.len() == 0 {
                Some(d.headers[0].header_hash@)
            } else {
                Some(d.updates[latest_index(timestamps(d.updates@))].header_hash@)
            },
            _ => None,
        },
        _ => None,
    }
}

/// The header fetched for a live entry that has updates is its latest update: no
/// update is later, and of equally late ones it is the last.
pub proof fn lemma_latest_header_is_latest_update(d: EntryDetails, i: int)
    requires
        d.entry_dht_status is Live,
        d.updates.len() > 0,
        is_latest_index(timestamps(d.updates@), i),
    ensures
        spec_latest_header_hash(Some(Details::Entry(d))) == Some(d.updates@[i].header_hash@),
{
    lemma_latest_index_is_latest(timestamps(d.updates@));
    lemma_latest_index_unique(timestamps(d.updates@), i, latest_index(timestamps(d.updates@)));
}

/// Whether the details are those of a live entry.
pub open spec fn is_live_entry(details: Option<Details>) -> bool {
    details matches Some(Details::Entry(d)) && d.entry_dht_status is Live
}

/// The details of the entry, when they are those of an entry.
pub open spec fn entry_details(details: Option<Details>) -> EntryDetails
    recommends
        details matches Some(Details::Entry(_)),
{
    match details {
        Some(Details::Entry(d)) => d,
        _ => arbitrary(),
    }
}

/// Only a live entry is fetched: an entry that is dead, pending, rejected or in any
/// other state, or details that are not an entry's, give no header, whatever
/// headers and updates they list.
pub proof fn lemma_only_live_entries_give_a_header(details: Option<Details>)
    ensures
        !is_live_entry(details) ==> spec_latest_header_hash(details) is None,
        is_live_entry(details) ==> spec_latest_header_hash(details) is Some,
{
}

/// A live entry that was never updated is fetched by its first creating header.
pub proof fn lemma_unupdated_entry_gives_first_header(details: Option<Details>)
    requires
        is_live_entry(details),
        entry_details(details).updates.len() == 0,
    ensures
        spec_latest_header_hash(details) == Some(entry_details(details).headers@[0].header_hash@),
{
}

/// A live entry that was updated is fetched by one of its updates that no other
/// update is later than, and after which every update is earlier: never by a
/// creating header, never by an earlier update.
pub proof fn lemma_updated_entry_gives_latest_update(details: Option<Details>)
    requires
        is_live_entry(details),
        entry_details(details).updates.len() > 0,
    ensures
        exists|i: int|
            is_latest_index(timestamps(entry_details(details).updates@), i)
                && spec_latest_header_hash(details) == Some(
                entry_details(details).updates@[i].header_hash@,
            ),
{
    let d = entry_details(details);
    lemma_latest_index_is_latest(timestamps(d.updates@));
}

/// The input on which the choice of a header is defined: a live entry with no
/// updates has at least one creating header.
pub open spec fn latest_header_hash_defined(details: Option<Details>) -> bool {
    details matches Some(Details::Entry(d)) ==> (d.entry_dht_status is Live && d.updates.len()
        == 0 ==> d.headers.len() > 0)
}

/// Position of the latest update: the one that a stable sort by timestamp puts last.
pub fn latest_update_index(updates: &Vec<SignedHeaderHashed>) -> (i: usize)
    requires
        updates.len() > 0,
    ensures
        i == latest_index(timestamps(updates@)),
        is_latest_index(timestamps(updates@), i as int),
{
    let ghost ts = timestamps(updates@);
    let mut best: usize = 0;
    let mut i: usize = 1;
    while i < updates.len()
        invariant
            ts == timestamps(updates@),
            1 <= i <= updates.len(),
            best as int == latest_index(ts.take(i as int)),
        decreases updates.len() - i,
    {
        proof {
            assert(ts.take(i as int + 1).drop_last() =~= ts.take(i as int));
            lemma_latest_index_is_latest(ts.take(i as int));
        }
        if updates[i].timestamp >= updates[best].timestamp {
            best = i;
        }
        i = i + 1;
    }
    proof {
        assert(ts.take(i as int) =~= ts);
        lemma_latest_index_is_latest(ts);
    }
    best
}

/// First step of `get_latest_for_entry`: which header to fetch, given the details
/// that the DHT returned for the entry.
pub fn latest_header_hash(details: Option<Details>) -> (r: Option<HeaderHash>)
    requires
        latest_header_hash_defined(details),
    ensures
        r matches Some(h) ==> spec_latest_header_hash(details) == Some(h@),
        r is None ==> spec_latest_header_hash(details) is None,
        !is_live_entry(details) ==> r is None,
        is_live_entry(details) && entry_details(details).updates.len() == 0 ==> (r matches Some(h)
            && h@ == entry_details(details).headers@[0].header_hash@),
        is_live_entry(details) && entry_details(details).updates.len() > 0 ==> (r matches Some(h)
            && exists|i: int|
            is_latest_index(timestamps(entry_details(details).updates@), i) && h@
                == entry_details(details).updates@[i].header_hash@),
{
    proof {
        lemma_only_live_entries_give_a_header(details);
        if is_live_entry(details) && entry_details(details).updates.len() > 0 {
            lemma_updated_entry_gives_latest_update(details);
        }
    }
    match details {
        Some(Details::Entry(d)) => match d.entry_dht_status {
            EntryDhtStatus::Live => {
                let mut headers = d.headers;
                let mut updates = d.updates;
                if updates.len() == 0 {
                    let first = headers.remove(0);
                    Some(get_header_hash(first))
                } else {
                    let i = latest_update_index(&updates);
                    let last = updates.remove(i);
                    Some(get_header_hash(last))
                }
            },
            _ => None,
        },
        _ => None,
    }
}

/// The input on which the second step is defined: an element whose entry was
/// read was found under a create or update header that names its entry.
pub open spec fn element_well_formed<T>(element: Option<(ElementSummary, Option<T>)>) -> bool {
    element matches Some((s, Some(_))) ==> (s.header !is Other && s.entry_hash is Some)
}

/// The header address returned with an entry: the original header for an update,
/// the header itself for a create.
pub open spec fn returned_header_address(s: ElementSummary) -> Seq<u8> {
    match s.header {
        HeaderKind::Update { original_header_address } => original_header_address@,
        _ => s.header_address@,
    }
}

/// Second step of `get_latest_for_entry`: given the element fetched for the latest
/// header (if any) and its entry read as `T` (if it reads as one), the entry with
/// the address of its original header and the entry's hash.
pub fn entry_and_hash_from_element<T>(element: Option<(ElementSummary, Option<T>)>) -> (r:
    OptionEntryAndHash<T>)
    requires
        element_well_formed(element),
    ensures
        r is Some <==> element matches Some((_, Some(_))),
        r matches Some(t) ==> element matches Some((s, Some(e))) && t.0 == e
            && t.1@ == returned_header_address(s) && t.2@ == s.entry_hash->0@,
        r matches Some(t) ==> (element matches Some((s, _)) && (s.header matches HeaderKind::Update {
            original_header_address,
        } ==> t.1@ == original_header_address@)),
        r matches Some(t) ==> (element matches Some((s, _)) && (s.header is Create ==> t.1@
            == s.header_address@)),
{
    match element {
        Some((summary, Some(entry))) => {
            let address = match summary.header {
                HeaderKind::Update { original_header_address } => original_header_address,
                HeaderKind::Create => summary.header_address,
                HeaderKind::Other => {
                    assert(false);
                    summary.header_address
                },
            };
            match summary.entry_hash {
                Some(entry_hash) => Some((entry, address, entry_hash)),
                None => {
                    assert(false);
                    None
                },
            }
        },
        _ => None,
    }
}

/// The entries kept from a sequence of lookups: those that were found, in order;
/// failed lookups and absent entries are dropped.
pub open spec fn kept_entries<X, E>(s: Seq<Result<Option<X>, E>>) -> Seq<X>
    decreases s.len(),
{
    if s.len() == 0 {
        Seq::empty()
    } else {
        let rest = kept_entries(s.drop_last());
        match s.last() {
            Ok(Some(x)) => rest.push(x),
            _ => rest,
        }
    }
}

/// Whether a lookup found its entry.
pub open spec fn is_found<X, E>(r: Result<Option<X>, E>) -> bool {
    r matches Ok(Some(_))
}

/// The entry that a successful lookup found.
pub open spec fn found_entry<X, E>(r: Result<Option<X>, E>) -> X
    recommends
        is_found(r),
{
    match r {
        Ok(Some(x)) => x,
        _ => arbitrary(),
    }
}

/// A lookup that failed or found nothing adds nothing, wherever it stands; one that
/// found its entry adds exactly that entry, after those kept before it.
pub proof fn lemma_kept_one_more<X, E>(s: Seq<Result<Option<X>, E>>, r: Result<Option<X>, E>)
    ensures
        !is_found(r) ==> kept_entries(s.push(r)) == kept_entries(s),
        is_found(r) ==> kept_entries(s.push(r)) == kept_entries(s).push(found_entry(r)),
{
    assert(s.push(r).drop_last() =~= s);
}

/// The entries kept from two runs of lookups, one after the other, are those kept
/// from the first followed by those kept from the second.
pub proof fn lemma_kept_concat<X, E>(s1: Seq<Result<Option<X>, E>>, s2: Seq<Result<Option<X>, E>>)
    ensures
        kept_entries(s1 + s2) == kept_entries(s1) + kept_entries(s2),
    decreases s2.len(),
{
    if s2.len() == 0 {
        assert(s1 + s2 =~= s1);
        assert(kept_entries(s2) =~= Seq::<X>::empty());
        assert(kept_entries(s1) + kept_entries(s2) =~= kept_entries(s1));
    } else {
        let p = s2.drop_last();
        lemma_kept_concat(s1, p);
        assert((s1 + s2).drop_last() =~= s1 + p);
        assert((s1 + s2).last() == s2.last());
        let r = s2.last();
        if is_found(r) {
            assert(kept_entries(s1) + kept_entries(s2) =~= (kept_entries(s1) + kept_entries(p)).push(
                found_entry(r),
            ));
        } else {
            assert(kept_entries(s2) == kept_entries(p));
        }
    }
}

/// The kept entries are exactly the found ones, in order: the entries of the
/// lookups that found one, with every other lookup dropped.
pub proof fn lemma_kept_is_found_subsequence<X, E>(s: Seq<Result<Option<X>, E>>)
    ensures
        kept_entries(s) == s.filter(|r: Result<Option<X>, E>| is_found(r)).map_values(
            |r: Result<Option<X>, E>| found_entry(r),
        ),
    decreases s.len(),
{
    reveal_with_fuel(Seq::filter, 1);
    if s.len() > 0 {
        let p = s.drop_last();
        lemma_kept_is_found_subsequence(p);
        let fs = s.filter(|r: Result<Option<X>, E>| is_found(r));
        let fp = p.filter(|r: Result<Option<X>, E>| is_found(r));
        if is_found(s.last()) {
            assert(fs == fp.push(s.last()));
            assert(fs.map_values(|r: Result<Option<X>, E>| found_entry(r)) =~= fp.map_values(
                |r: Result<Option<X>, E>| found_entry(r),
            ).push(found_entry(s.last())));
        } else {
            assert(fs == fp);
        }
    } else {
        assert(s.filter(|r: Result<Option<X>, E>| is_found(r)) =~= Seq::<Result<Option<X>, E>>::empty());
        assert(s.filter(|r: Result<Option<X>, E>| is_found(r)).map_values(
            |r: Result<Option<X>, E>| found_entry(r),
        ) =~= Seq::<X>::empty());
    }
}

/// When every lookup found its entry, every entry is kept, in order.
pub proof fn lemma_all_found_all_kept<X, E>(s: Seq<Result<Option<X>, E>>)
    requires
        forall|i: int| 0 <= i < s.len() ==> (#[trigger] s[i]) matches Ok(Some(_)),
    ensures
        kept_entries(s).len() == s.len(),
        forall|i: int| 0 <= i < s.len() ==> s[i] == Ok::<Option<X>, E>(Some(#[trigger] kept_entries(s)[i])),
    decreases s.len(),
{
    if s.len() > 0 {
        let p = s.drop_last();
        assert forall|i: int| 0 <= i < p.len() implies (#[trigger] p[i]) matches Ok(Some(_)) by {
            assert(p[i] == s[i]);
        }
        lemma_all_found_all_kept(p);
        assert(s.last() matches Ok(Some(_)));
        assert forall|i: int| 0 <= i < s.len() implies s[i] == Ok::<Option<X>, E>(
            Some(#[trigger] kept_entries(s)[i]),
        ) by {
            if i < p.len() {
                assert(s[i] == p[i]);
                assert(kept_entries(s)[i] == kept_entries(p)[i]);
            }
        }
    }
}

/// Nothing is kept that was not found: there are never more entries than lookups.
pub proof fn lemma_kept_no_more_than_looked_up<X, E>(s: Seq<Result<Option<X>, E>>)
    ensures
        kept_entries(s).len() <= s.len(),
    decreases s.len(),
{
    if s.len() > 0 {
        lemma_kept_no_more_than_looked_up(s.drop_last());
    }
}

/// The part of `fetch_links` that follows the lookups: of the latest entry looked
/// up for each link target, in link order, keep those that were found.
pub fn fetch_links<T, E>(results: Vec<Result<OptionEntryAndHash<T>, E>>) -> (r: Vec<
    EntryAndHash<T>,
>)
    ensures
        r@ == kept_entries(results@),
        r@ == results@.filter(|x: Result<OptionEntryAndHash<T>, E>| is_found(x)).map_values(
            |x: Result<OptionEntryAndHash<T>, E>| found_entry(x),
        ),
{
    proof {
        lemma_kept_is_found_subsequence(results@);
    }
    let ghost s = results@;
    let mut out: Vec<EntryAndHash<T>> = Vec::new();
    for x in it: results.into_iter()
        invariant
            it.seq() == s,
            out@ == kept_entries(s.take(it.index() as int)),
    {
        proof {
            assert(s.take(it.index() as int + 1).drop_last() =~= s.take(it.index() as int));
        }
        match x {
            Ok(Some(e)) => {
                out.push(e);
            },
            _ => {},
        }
    }
    proof {
        assert(s.take(s.len() as int) =~= s);
    }
    out
}

/// An entry as the UI sees it: the entry, the address of its original header and
/// the entry's hash.
pub struct HashedWireEntry<T> {
    pub entry: T,
    pub address: WrappedHeaderHash,
    pub entry_address: WrappedEntryHash,
}

/// Wraps an entry and its hashes for the UI.
impl<T> From<EntryAndHash<T>> for HashedWireEntry<T> {
    fn from(entry_and_hash: EntryAndHash<T>) -> (r: Self) {
        let (entry, address, entry_address) = entry_and_hash;
        HashedWireEntry {
            entry,
            address: WrappedHeaderHash(address),
            entry_address: WrappedEntryHash(entry_address),
        }
    }
}

impl<T> FromSpecImpl<EntryAndHash<T>> for HashedWireEntry<T> {
    open spec fn obeys_from_spec() -> bool {
        true
    }

    open spec fn from_spec(entry_and_hash: EntryAndHash<T>) -> HashedWireEntry<T> {
        HashedWireEntry {
            entry: entry_and_hash.0,
            address: WrappedHeaderHash(entry_and_hash.1),
            entry_address: WrappedEntryHash(entry_and_hash.2),
        }
    }
}

/// Wraps each entry and its hashes for the UI, in order.
pub fn wire_entries<T>(entries: Vec<EntryAndHash<T>>) -> (r: Vec<HashedWireEntry<T>>)
    ensures
        r.len() == entries.len(),
        forall|i: int|
            0 <= i < r.len() ==> {
                &&& (#[trigger] r@[i]).entry == entries@[i].0
                &&& r@[i].address@ == entries@[i].1@
                &&& r@[i].entry_address@ == entries@[i].2@
            },
{
    let ghost s = entries@;
    let mut out: Vec<HashedWireEntry<T>> = Vec::new();
    for x in it: entries.into_iter()
        invariant
            it.seq() == s,
            out.len() == it.index(),
            forall|i: int|
                0 <= i < out.len() ==> {
                    &&& (#[trigger] out@[i]).entry == s[i].0
                    &&& out@[i].address@ == s[i].1@
                    &&& out@[i].entry_address@ == s[i].2@
                },
    {
        out.push(HashedWireEntry::from(x));
    }
    out
}

/// Keeps only the entries, dropping their hashes, in order.
pub fn entries_only<T>(entries: Vec<EntryAndHash<T>>) -> (r: Vec<T>)
    ensures
        r.len() == entries.len(),
        forall|i: int| 0 <= i < r.len() ==> r@[i] == entries@[i].0,
{
    let ghost s = entries@;
    let mut out: Vec<T> = Vec::new();
    for x in it: entries.into_iter()
        invariant
            it.seq() == s,
            out.len() == it.index(),
            forall|i: int| 0 <= i < out.len() ==> out@[i] == s[i].0,
    {
        let (entry, _, _) = x;
        out.push(entry);
    }
    out
}

} // verus!
