//! Debug output of an exporter, put together from what its parts show of themselves.
use std::time::Duration;
use tonic::metadata::MetadataMap;
use vstd::prelude::*;

verus! {

/// The debug output of a duration.
pub uninterp spec fn duration_debug(duration: Duration) -> Seq<char>;

/// The debug output of a text: quoted, special characters escaped.
pub uninterp spec fn str_debug(text: Seq<char>) -> Seq<char>;

/// The debug output of a metadata map.
pub uninterp spec fn metadata_debug(map: MetadataMap) -> Seq<char>;

/// `Debug` of `std::time::Duration`.
#[verifier::external_body]
fn debug_duration(duration: &Duration) -> (r: String)
    ensures
        r@ == duration_debug(*duration),
{
    format!("{:?}", duration)
}

/// `Debug` of `str`.
#[verifier::external_body]
fn debug_str(text: &str) -> (r: String)
    ensures
        r@ == str_debug(text@),
{
    format!("{:?}", text)
}

/// `Debug` of `tonic::metadata::MetadataMap`.
#[verifier::external_body]
fn debug_metadata_map(map: &MetadataMap) -> (r: String)
    ensures
        r@ == metadata_debug(*map),
{
    format!("{:?}", map)
}

/// The debug output of an optional part, given that of the part.
pub open spec fn option_debug(part: Option<Seq<char>>) -> Seq<char> {
    match part {
        Some(shown) => "Some("@ + shown + ")"@,
        None => "None"@,
    }
}

/// The entries of a map as debug output lists them: `"key": "value"`, separated by commas.
pub open spec fn entries_debug(headers: Seq<(String, String)>) -> Seq<char>
    decreases headers.len(),
{
    if headers.len() == 0 {
        Seq::empty()
    } else {
        let before = entries_debug(headers.drop_last());
        let separator = if headers.len() == 1 {
            Seq::empty()
        } else {
            ", "@
        };
        before + separator + str_debug(headers.last().0@) + ": "@ + str_debug(headers.last().1@)
    }
}

/// The debug output of the configured headers: a map from keys to values.
pub open spec fn headers_debug(headers: Option<Vec<(String, String)>>) -> Seq<char> {
    match headers {
        Some(list) => option_debug(Some("{"@ + entries_debug(list@) + "}"@)),
        None => option_debug(None),
    }
}

/// The debug output of the configured metadata.
pub open spec fn optional_metadata_debug(metadata: Option<MetadataMap>) -> Seq<char> {
    match metadata {
        Some(map) => option_debug(Some(metadata_debug(map))),
        None => option_debug(None),
    }
}

/// The debug output of an exporter: one field of its transport, the timeout, and a fixed word in
/// place of the client.
pub open spec fn exporter_debug(field: Seq<char>, shown: Seq<char>, timeout: Duration) -> Seq<
    char,
> {
    "Exporter { "@ + field + ": "@ + shown + ", timeout: "@ + duration_debug(timeout)
        + ", trace_exporter: \"TraceServiceClient\" }"@
}

/// The debug output of the configured headers.
pub fn debug_headers(headers: &Option<Vec<(String, String)>>) -> (r: String)
    ensures
        r@ == headers_debug(*headers),
{
    match headers {
        Some(list) => {
            let mut out = "Some(".to_owned();
            out.append("{");
            let ghost start = out@;
            assert(list@.take(0) =~= Seq::<(String, String)>::empty());
            for i in 0..list.len()
                invariant
                    out@ == start + entries_debug(list@.take(i as int)),
            {
                proof {
                    assert(list@.take(i + 1).drop_last() =~= list@.take(i as int));
                    assert(list@.take(i + 1).last() == list@[i as int]);
                }
                if i > 0 {
                    out.append(", ");
                }
                let key = debug_str(list[i].0.as_str());
                let value = debug_str(list[i].1.as_str());
                out.append(key.as_str());
                out.append(": ");
                out.append(value.as_str());
                assert(out@ =~= start + entries_debug(list@.take(i + 1)));
            }
            assert(list@.take(list.len() as int) =~= list@);
            out.append("}");
            out.append(")");
            assert(out@ =~= headers_debug(*headers));
            out
        },
        None => "None".to_owned(),
    }
}

/// The debug output of the configured metadata.
pub fn debug_metadata(metadata: &Option<MetadataMap>) -> (r: String)
    ensures
        r@ == optional_metadata_debug(*metadata),
{
    match metadata {
        Some(map) => {
            let shown = debug_metadata_map(map);
            let mut out = "Some(".to_owned();
            out.append(shown.as_str());
            out.append(")");
            out
        },
        None => "None".to_owned(),
    }
}

/// The debug output of an exporter, given the field of its transport.
pub fn debug_exporter(field: &str, shown: &str, timeout: &Duration) -> (r: String)
    ensures
        r@ == exporter_debug(field@, shown@, *timeout),
{
    let timeout = debug_duration(timeout);
    let mut out = "Exporter { ".to_owned();
    out.append(field);
    out.append(": ");
    out.append(shown);
    out.append(", timeout: ");
    out.append(timeout.as_str());
    out.append(", trace_exporter: \"TraceServiceClient\" }");
    out
}

} // verus!
