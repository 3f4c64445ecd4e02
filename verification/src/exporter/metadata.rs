//! The metadata that goes out with every gRPC call.
use http::header::{HeaderValue, MaxSizeReached};
use http::HeaderMap;
use tonic::metadata::MetadataMap;
use vstd::prelude::*;

use crate::exporter::http_proto::MAX_HEADER_NAMES;
use crate::Error;

verus! {

/// One entry of a metadata map.
#[verifier::ext_equal]
pub struct MetadataEntry {
    /// The key, in lower case.
    pub key: Seq<char>,
    /// The value as it is sent: text for an ascii key, base64 for a binary one, which ends in `-bin`.
    pub value: Seq<u8>,
    /// Whether the value is marked as sensitive.
    pub sensitive: bool,
}

/// The entries of a metadata map, ascii and binary, in the order in which `MetadataMap::iter` visits
/// them.
pub uninterp spec fn metadata_entries(map: MetadataMap) -> Seq<MetadataEntry>;

/// The entries of a header map, in the order in which `HeaderMap::iter` visits them.
pub uninterp spec fn header_entries(headers: HeaderMap<HeaderValue>) -> Seq<MetadataEntry>;

/// The entries with the given key, in order.
pub open spec fn entries_of(entries: Seq<MetadataEntry>, key: Seq<char>) -> Seq<MetadataEntry> {
    entries.filter(|entry: MetadataEntry| entry.key == key)
}

/// The keys that occur among the entries.
pub open spec fn keys_of(entries: Seq<MetadataEntry>) -> Set<Seq<char>> {
    entries.map_values(|entry: MetadataEntry| entry.key).to_set()
}

/// Whether two maps hold the same metadata: for every key the same values in the same order.
/// The order in which different keys are visited carries no meaning.
pub open spec fn same_metadata(a: Seq<MetadataEntry>, b: Seq<MetadataEntry>) -> bool {
    forall|key: Seq<char>| #[trigger] entries_of(a, key) == entries_of(b, key)
}

/// `MetadataMap::into_headers`, of a copy of the map: a header map with the same entries, visited in
/// the same order.
#[verifier::external_body]
fn metadata_headers(map: &MetadataMap) -> (headers: HeaderMap<HeaderValue>)
    ensures
        header_entries(headers) == metadata_entries(*map),
{
    map.clone().into_headers()
}

/// `MetadataMap::from_headers`: a metadata map with the same entries, visited in the same order.
#[verifier::external_body]
fn metadata_from_headers(headers: HeaderMap<HeaderValue>) -> (map: MetadataMap)
    ensures
        metadata_entries(map) == header_entries(headers),
{
    MetadataMap::from_headers(headers)
}

/// `HeaderMap::new`: a map without entries.
#[verifier::external_body]
fn headers_new() -> (headers: HeaderMap<HeaderValue>)
    ensures
        header_entries(headers) == Seq::<MetadataEntry>::empty(),
{
    HeaderMap::new()
}

/// `HeaderMap::len`: the number of entries.
#[verifier::external_body]
fn headers_len(headers: &HeaderMap<HeaderValue>) -> (n: usize)
    ensures
        n == header_entries(*headers).len(),
{
    headers.len()
}

/// What appending an entry does to a map: the entry becomes the last one of its key, and the
/// entries of every other key stay as they are.
pub open spec fn appended(
    before: Seq<MetadataEntry>,
    entry: MetadataEntry,
    after: Seq<MetadataEntry>,
) -> bool {
    forall|key: Seq<char>| #[trigger]
        entries_of(after, key) == if key == entry.key {
            entries_of(before, key).push(entry)
        } else {
            entries_of(before, key)
        }
}

/// `HeaderMap::try_append`, with the name and the value of the `i`-th entry of `source`: the entry is
/// appended to `headers`, or, if the map refuses to grow, nothing changes. It does not refuse while it
/// holds fewer than [`MAX_HEADER_NAMES`] names.
#[verifier::external_body]
fn headers_append(
    headers: &mut HeaderMap<HeaderValue>,
    source: &HeaderMap<HeaderValue>,
    i: usize,
) -> (r: Result<(), MaxSizeReached>)
    requires
        i < header_entries(*source).len(),
    ensures
        match r {
            Ok(_) => appended(
                header_entries(*old(headers)),
                header_entries(*source)[i as int],
                header_entries(*final(headers)),
            ),
            Err(_) => header_entries(*final(headers)) == header_entries(*old(headers)),
        },
        keys_of(header_entries(*old(headers))).len() < MAX_HEADER_NAMES ==> r is Ok,
{
    let (name, value) = source.iter().nth(i).unwrap();
    headers.try_append(name.clone(), value.clone()).map(|_| ())
}

/// A key occurs among the entries exactly if some entry has it.
pub proof fn lemma_keys_of(entries: Seq<MetadataEntry>, key: Seq<char>)
    ensures
        keys_of(entries).contains(key) <==> entries_of(entries, key).len() > 0,
        keys_of(entries).finite(),
{
    let pred = |entry: MetadataEntry| entry.key == key;
    let keys = entries.map_values(|entry: MetadataEntry| entry.key);
    vstd::seq_lib::seq_to_set_is_finite(keys);
    if keys_of(entries).contains(key) {
        let i = choose|i: int| 0 <= i < keys.len() && keys[i] == key;
        entries.lemma_filter_contains(pred, i);
    }
    if entries_of(entries, key).len() > 0 {
        let entry = entries.filter(pred)[0];
        entries.lemma_filter_pred(pred, 0);
        entries.lemma_filter_contains_rev(pred, entry);
        let i = choose|i: int| 0 <= i < entries.len() && entries[i] == entry;
        assert(keys[i] == key);
    }
}

/// Entries that are the same metadata as the first entries of a map have no other keys than it.
proof fn lemma_fewer_keys(part: Seq<MetadataEntry>, whole: Seq<MetadataEntry>, n: int)
    requires
        0 <= n <= whole.len(),
        same_metadata(part, whole.take(n)),
    ensures
        keys_of(part).len() <= keys_of(whole).len(),
{
    let keys = whole.map_values(|entry: MetadataEntry| entry.key);
    vstd::seq_lib::seq_to_set_is_finite(keys);
    assert forall|key: Seq<char>| keys_of(part).contains(key) implies keys_of(whole).contains(
        key,
    ) by {
        lemma_keys_of(part, key);
        lemma_keys_of(whole.take(n), key);
        assert(entries_of(part, key) == entries_of(whole.take(n), key));
        let some = whole.take(n).map_values(|entry: MetadataEntry| entry.key);
        let i = choose|i: int| 0 <= i < some.len() && some[i] == key;
        assert(keys[i] == key);
    }
    assert(keys_of(part).subset_of(keys_of(whole)));
    vstd::set_lib::lemma_len_subset(keys_of(part), keys_of(whole));
}

/// The configured entries, none if no metadata is configured.
pub open spec fn configured_entries(metadata: Option<MetadataMap>) -> Seq<MetadataEntry> {
    match metadata {
        Some(map) => metadata_entries(map),
        None => Seq::empty(),
    }
}

/// How configured metadata becomes the metadata of a request: the request has all of it and nothing
/// else. From [`MAX_HEADER_NAMES`] distinct keys on, it may be refused for their number.
pub open spec fn sent_as_metadata(
    metadata: Option<MetadataMap>,
    r: Result<MetadataMap, Error>,
) -> bool {
    match r {
        Ok(request) => same_metadata(metadata_entries(request), configured_entries(metadata)),
        Err(Error::TooManyHeaders(_)) => {
            &&& metadata is Some
            &&& keys_of(configured_entries(metadata)).len() >= MAX_HEADER_NAMES
        },
        Err(_) => false,
    }
}

/// The metadata of a request: every configured entry, ascii and binary, is appended to the empty
/// metadata of a fresh request; see [`sent_as_metadata`].
pub fn request_metadata(metadata: &Option<MetadataMap>) -> (r: Result<MetadataMap, Error>)
    ensures
        sent_as_metadata(*metadata, r),
{
    let mut request = headers_new();
    if let Some(map) = metadata {
        let ghost entries = metadata_entries(*map);
        let source = metadata_headers(map);
        assert(entries.take(0) =~= Seq::<MetadataEntry>::empty());
        let len: usize = headers_len(&source);
        for i in 0..len
            invariant
                entries == header_entries(source),
                metadata is Some,
                entries == configured_entries(*metadata),
                len == entries.len(),
                same_metadata(header_entries(request), entries.take(i as int)),
        {
            let ghost before = header_entries(request);
            proof {
                lemma_fewer_keys(before, entries, i as int);
            }
            match headers_append(&mut request, &source, i) {
                Ok(_) => {},
                Err(error) => return Err(Error::from(error)),
            }
            proof {
                let entry = entries[i as int];
                assert(entries.take(i + 1) =~= entries.take(i as int).push(entry));
                assert forall|key: Seq<char>| #[trigger]
                    entries_of(header_entries(request), key) == entries_of(
                        entries.take(i + 1),
                        key,
                    ) by {
                    let pred = |entry: MetadataEntry| entry.key == key;
                    entries.take(i as int).lemma_filter_push(entry, pred);
                    assert(entries_of(before, key) == entries_of(entries.take(i as int), key));
                }
            }
        }
        assert(entries.take(len as int) =~= entries);
    }
    Ok(metadata_from_headers(request))
}

} // verus!
