//! What holds of the debug output of an exporter.
use tonic::metadata::MetadataMap;
use vstd::prelude::*;

use crate::debug::{
    debug_exporter, debug_headers, debug_metadata, duration_debug, metadata_debug, str_debug,
};
use crate::exporter::grpc_tonic::Channel;
use crate::span::SpanExporter;

verus! {

/// Metadata is shown as an option of what the map shows of itself.
pub proof fn law_metadata_is_shown(metadata: Option<MetadataMap>, shown: String)
    requires
        call_ensures(debug_metadata, (&metadata,), shown),
    ensures
        metadata is None ==> shown@ == "None"@,
        metadata is Some ==> shown@ == "Some("@ + metadata_debug(metadata->0) + ")"@,
{
}

/// Without a list of headers nothing is shown of them, and an empty list shows an empty map.
pub proof fn law_no_headers_are_shown(headers: Option<Vec<(String, String)>>, shown: String)
    requires
        call_ensures(debug_headers, (&headers,), shown),
    ensures
        headers is None ==> shown@ == "None"@,
        headers is Some && headers->0@.len() == 0 ==> shown@ == "Some({})"@,
{
    reveal_strlit("Some(");
    reveal_strlit("{");
    reveal_strlit("}");
    reveal_strlit(")");
    reveal_strlit("Some({})");
    if headers is Some && headers->0@.len() == 0 {
        assert(shown@ =~= "Some({})"@);
    }
}

/// Each header is shown once, behind those before it: a list with one header more shows the same,
/// then a comma unless the header is the first one, and then its key and its value.
pub proof fn law_each_header_is_shown(
    headers: Vec<(String, String)>,
    more: Vec<(String, String)>,
    shown: String,
    more_shown: String,
)
    requires
        more@.len() == headers@.len() + 1,
        forall|i: int| 0 <= i < headers@.len() ==> #[trigger] more@[i] == headers@[i],
        call_ensures(debug_headers, (&Some(headers),), shown),
        call_ensures(debug_headers, (&Some(more),), more_shown),
    ensures
        shown@.len() >= 2,
        more_shown@ == shown@.take(shown@.len() - 2) + (if headers@.len() == 0 {
            Seq::empty()
        } else {
            ", "@
        }) + str_debug(more@[headers@.len() as int].0@) + ": "@ + str_debug(
            more@[headers@.len() as int].1@,
        ) + "})"@,
{
    reveal_strlit("}");
    reveal_strlit(")");
    reveal_strlit("})");
    assert("}"@ + ")"@ =~= "})"@);
    assert(more@.drop_last() =~= headers@);
    let before = "Some("@ + ("{"@ + crate::debug::entries_debug(headers@));
    assert(shown@ =~= before + "})"@);
    assert(shown@.take(shown@.len() - 2) =~= before);
    assert(more_shown@ =~= before + (if headers@.len() == 0 {
        Seq::empty()
    } else {
        ", "@
    }) + str_debug(more@[headers@.len() as int].0@) + ": "@ + str_debug(
        more@[headers@.len() as int].1@,
    ) + "})"@);
}

/// An exporter shows what it adds to requests, its timeout, and a word in place of its client.
pub proof fn law_exporter_is_shown<T, H>(
    exporter: SpanExporter<T, H>,
    added: String,
    shown: String,
)
    requires
        match exporter {
            SpanExporter::Tonic { metadata, .. } => call_ensures(
                debug_metadata,
                (&metadata,),
                added,
            ),
            SpanExporter::Grpcio { headers, .. } => call_ensures(
                debug_headers,
                (&headers,),
                added,
            ),
            SpanExporter::Http { headers, .. } => call_ensures(debug_headers, (&headers,), added),
        },
        call_ensures(SpanExporter::<T, H>::debug_string, (&exporter,), shown),
    ensures
        match exporter {
            SpanExporter::Tonic { timeout, .. } => shown@ == "Exporter { metadata: "@ + added@
                + ", timeout: "@ + duration_debug(timeout)
                + ", trace_exporter: \"TraceServiceClient\" }"@,
            SpanExporter::Grpcio { timeout, .. } => shown@ == "Exporter { headers: "@ + added@
                + ", timeout: "@ + duration_debug(timeout)
                + ", trace_exporter: \"TraceServiceClient\" }"@,
            SpanExporter::Http { timeout, .. } => shown@ == "Exporter { headers: "@ + added@
                + ", timeout: "@ + duration_debug(timeout)
                + ", trace_exporter: \"TraceServiceClient\" }"@,
        },
{
    reveal_strlit("Exporter { ");
    reveal_strlit("metadata");
    reveal_strlit("headers");
    reveal_strlit(": ");
    reveal_strlit("Exporter { metadata: ");
    reveal_strlit("Exporter { headers: ");
    assert("Exporter { "@ + "metadata"@ + ": "@ =~= "Exporter { metadata: "@);
    assert("Exporter { "@ + "headers"@ + ": "@ =~= "Exporter { headers: "@);
}

/// An exporter is shown by its name and three fields: the one given, the timeout, and a word in place
/// of its client.
pub proof fn law_fields_are_shown(
    field: &str,
    added: &str,
    timeout: std::time::Duration,
    shown: String,
)
    requires
        call_ensures(debug_exporter, (field, added, &timeout), shown),
    ensures
        shown@ == "Exporter { "@ + field@ + ": "@ + added@ + ", timeout: "@ + duration_debug(timeout)
            + ", trace_exporter: \"TraceServiceClient\" }"@,
{
}

/// A channel shows its name, whatever it is a channel over.
pub proof fn law_channel_shows_its_name<T>(channel: Channel<T>, shown: String)
    requires
        call_ensures(Channel::<T>::debug_string, (&channel,), shown),
    ensures
        shown@ == "Channel"@,
{
}

} // verus!
