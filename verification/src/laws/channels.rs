//! What holds of the channel to the collector that the environment asks for.
use http::uri::InvalidUri;
use std::time::Duration;
use tonic::transport::Endpoint;
use vstd::prelude::*;

use crate::exporter::duration_from_secs;
use crate::exporter::grpc_tonic::{
    channel_with_timeout, default_channel, endpoint_from_shared, endpoint_with_timeout, is_digits,
    parsed_u64, traces_endpoint, traces_timeout, without_plus, Channel,
};
use crate::Error;

verus! {

/// Whether a channel is to the endpoint with the timeout, or is missing because there is no endpoint.
pub open spec fn reaches(
    r: Result<Channel<Endpoint>, Error>,
    endpoint: Result<Endpoint, InvalidUri>,
    timeout: Duration,
) -> bool {
    match (endpoint, r) {
        (Ok(endpoint), Ok(channel)) => channel.0 == endpoint_with_timeout(endpoint, timeout),
        (Err(reason), Err(Error::InvalidUri(error))) => error == reason,
        _ => false,
    }
}

/// The default channel is to the endpoint that is given, exactly as it is given, or else to the traces
/// path of the local collector. Its timeout is the number of seconds that is given, or ten seconds if
/// none is given or it is not a number. There is no channel exactly if the endpoint is not a URI.
pub proof fn law_default_channel_follows_the_variables(
    endpoint_var: Option<String>,
    timeout_var: Option<String>,
    r: Result<Channel<Endpoint>, Error>,
)
    requires
        call_ensures(default_channel, (endpoint_var, timeout_var), r),
    ensures
        match (endpoint_var, timeout_var) {
            (Some(address), Some(seconds)) => match parsed_u64(seconds@) {
                Some(n) => reaches(r, endpoint_from_shared(address@), duration_from_secs(n)),
                None => reaches(r, endpoint_from_shared(address@), duration_from_secs(10)),
            },
            (Some(address), None) => reaches(
                r,
                endpoint_from_shared(address@),
                duration_from_secs(10),
            ),
            (None, Some(seconds)) => match parsed_u64(seconds@) {
                Some(n) => reaches(
                    r,
                    endpoint_from_shared("https://localhost:4317/v1/traces"@),
                    duration_from_secs(n),
                ),
                None => reaches(
                    r,
                    endpoint_from_shared("https://localhost:4317/v1/traces"@),
                    duration_from_secs(10),
                ),
            },
            (None, None) => reaches(
                r,
                endpoint_from_shared("https://localhost:4317/v1/traces"@),
                duration_from_secs(10),
            ),
        },
{
    reveal_strlit("https://localhost:4317");
    reveal_strlit("/v1/traces");
    reveal_strlit("https://localhost:4317/v1/traces");
    assert("https://localhost:4317"@ + "/v1/traces"@ =~= "https://localhost:4317/v1/traces"@);
}

/// A channel has the timeout that it is made with and no other.
pub proof fn law_channel_has_its_timeout(
    endpoint: Result<Endpoint, InvalidUri>,
    timeout: Duration,
    r: Result<Channel<Endpoint>, Error>,
)
    requires
        call_ensures(channel_with_timeout, (endpoint, timeout), r),
    ensures
        match (endpoint, r) {
            (Ok(endpoint), Ok(channel)) => channel.0 == endpoint_with_timeout(endpoint, timeout),
            (Err(reason), Err(Error::InvalidUri(error))) => error == reason,
            _ => false,
        },
{
}

/// An endpoint that is given is taken as it is; otherwise the traces path is put behind the base
/// address.
pub proof fn law_endpoint_is_given_or_under_base(given: Option<String>, base: &str, r: String)
    requires
        call_ensures(traces_endpoint, (given, base), r),
    ensures
        given is Some ==> r@ == given->0@,
        given is None ==> r@ == base@ + "/v1/traces"@,
{
}

/// A timeout that is given as a number is that many seconds; otherwise the configured one holds.
pub proof fn law_timeout_is_given_or_configured(
    given: Option<String>,
    configured: Duration,
    r: Duration,
)
    requires
        call_ensures(traces_timeout, (given, configured), r),
    ensures
        given is None ==> r == configured,
        given is Some && parsed_u64(given->0@) is None ==> r == configured,
        given is Some && parsed_u64(given->0@) is Some ==> r == duration_from_secs(
            parsed_u64(given->0@)->0,
        ),
{
}

/// Seconds are read as a decimal number: a digit stands for its value, another digit behind a number
/// gives ten times the number and the digit, as long as that fits, and anything else behind it is no
/// number.
pub proof fn law_seconds_are_decimal(text: Seq<char>, c: char)
    ensures
        parsed_u64(Seq::<char>::empty()) is None,
        parsed_u64(seq![c]) == if '0' <= c <= '9' {
            Some((c as u64 - '0' as u64) as u64)
        } else {
            None
        },
        parsed_u64(text) is Some ==> parsed_u64(text.push(c)) == if '0' <= c <= '9' && 10
            * parsed_u64(text)->0 + (c as int - '0' as int) <= u64::MAX {
            Some((10 * parsed_u64(text)->0 + (c as int - '0' as int)) as u64)
        } else {
            None
        },
{
    let one = seq![c];
    assert(one.drop_last() =~= Seq::<char>::empty());
    if c == '+' {
        assert(without_plus(one) =~= Seq::<char>::empty());
    }
    assert(is_digits(one) ==> '0' <= one[0] <= '9');
    reveal_with_fuel(crate::exporter::grpc_tonic::digits_value, 2);
    if parsed_u64(text) is Some {
        let digits = without_plus(text);
        assert(without_plus(text.push(c)) =~= digits.push(c));
        assert(digits.push(c).drop_last() =~= digits);
        if is_digits(digits.push(c)) {
            assert('0' <= digits.push(c)[digits.len() as int] <= '9');
        }
        if '0' <= c <= '9' {
            assert forall|i: int| 0 <= i < digits.push(c).len() implies '0' <= #[trigger] digits.push(
                c,
            )[i] <= '9' by {
                if i < digits.len() {
                    assert(digits[i] == digits.push(c)[i]);
                }
            }
        }
    }
}

/// A plus sign in front of digits changes nothing.
pub proof fn law_plus_is_ignored(digits: Seq<char>)
    requires
        is_digits(digits),
    ensures
        parsed_u64(seq!['+'] + digits) == parsed_u64(digits),
{
    assert('0' <= digits[0] <= '9');
    assert((seq!['+'] + digits).drop_first() =~= digits);
}

} // verus!
