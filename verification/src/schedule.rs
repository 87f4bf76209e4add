//! Schedule-fetcher logic: building the parameterized query URL from a
//! structured username and a customer-number list, and classifying the
//! fetch response status.

use vstd::prelude::*;
use crate::text::{join, join_with, split_char, split_on};

verus! {

/// Configuration faults that abort a fetch before any network call.
#[derive(Debug, Clone, Copy, PartialEq, Eq, Structural)]
pub enum ConfigError {
    /// The customer-number list is empty.
    NoCustomerNumbers,
    /// The username does not split into at least two `-`-separated parts.
    InvalidUsername,
}

/// Faults of the fetch operation itself.
#[derive(Debug, Clone, Copy, PartialEq, Eq, Structural)]
pub enum FetchError {
    /// The request could not be sent or completed.
    Transport,
    /// The response status was outside the success range.
    HttpStatus(u16),
    /// The response body could not be decoded as the expected payload.
    Decode,
}

/// One repeated query parameter: `customerNumbers%5B%5D={prefix}-{account}-{suffix}`,
/// the bracket literal of `customerNumbers[]` percent-encoded.
pub open spec fn query_param(prefix: Seq<char>, account: Seq<char>, suffix: Seq<char>) -> Seq<
    char,
> {
    "customerNumbers%5B%5D="@ + prefix + "-"@ + account + "-"@ + suffix
}

/// The full query URL for a username whose `-`-separated parts start with
/// `prefix` and `account`: one repeated parameter per customer-number suffix,
/// in input order, joined with `&`.
pub open spec fn api_url_spec(username: Seq<char>, suffixes: Seq<Seq<char>>) -> Seq<char> {
    let parts = split_on(username, '-');
    "https://extranet.pjhoy.fi/pirkka/secure/get_services_by_customer_numbers.do?"@ + join_with(
        suffixes.map_values(|cn: Seq<char>| query_param(parts[0], parts[1], cn)),
        "&"@,
    )
}

/// Builds the schedule query URL from the structured username and the
/// customer-number suffixes, in input order and without deduplication.
pub fn construct_api_url(username: &str, customer_numbers: &Vec<String>) -> (r: Result<
    String,
    ConfigError,
>)
    ensures
        customer_numbers@.len() == 0 ==> r == Err::<String, ConfigError>(
            ConfigError::NoCustomerNumbers,
        ),
        customer_numbers@.len() > 0 && split_on(username@, '-').len() < 2 ==> r == Err::<
            String,
            ConfigError,
        >(ConfigError::InvalidUsername),
        r is Ok <==> customer_numbers@.len() > 0 && split_on(username@, '-').len() >= 2,
        r matches Ok(url) ==> url@ == api_url_spec(
            username@,
            customer_numbers@.map_values(|c: String| c@),
        ),
{
    if customer_numbers.len() == 0 {
        return Err(ConfigError::NoCustomerNumbers);
    }
    let username_parts = split_char(username, '-');
    if username_parts.len() < 2 {
        return Err(ConfigError::InvalidUsername);
    }
    let ghost gparts = split_on(username@, '-');
    let ghost suffixes = customer_numbers@.map_values(|c: String| c@);
    let prefix = username_parts[0].as_str();
    let account = username_parts[1].as_str();
    let mut params: Vec<String> = Vec::new();
    let mut i: usize = 0;
    proof {
        assert(params@.map_values(|p: String| p@) =~= suffixes.take(0).map_values(
            |cn: Seq<char>| query_param(gparts[0], gparts[1], cn),
        ));
    }
    while i < customer_numbers.len()
        invariant
            i <= customer_numbers@.len(),
            suffixes == customer_numbers@.map_values(|c: String| c@),
            suffixes.len() == customer_numbers@.len(),
            gparts == split_on(username@, '-'),
            gparts.len() >= 2,
            username_parts@.map_values(|p: String| p@) == gparts,
            username_parts@.len() == gparts.len(),
            prefix@ == gparts[0],
            account@ == gparts[1],
            params@.map_values(|p: String| p@) == suffixes.take(i as int).map_values(
                |cn: Seq<char>| query_param(gparts[0], gparts[1], cn),
            ),
        decreases customer_numbers@.len() - i,
    {
        let ghost old_params = params@.map_values(|p: String| p@);
        let mut param = String::from_str("customerNumbers%5B%5D=");
        param.append(prefix);
        param.append("-");
        param.append(account);
        param.append("-");
        param.append(customer_numbers[i].as_str());
        proof {
            assert(param@ == query_param(gparts[0], gparts[1], suffixes[i as int]));
        }
        params.push(param);
        proof {
            assert(params@.map_values(|p: String| p@) =~= old_params.push(
                query_param(gparts[0], gparts[1], suffixes[i as int]),
            ));
            assert(suffixes.take(i + 1).map_values(
                |cn: Seq<char>| query_param(gparts[0], gparts[1], cn),
            ) =~= suffixes.take(i as int).map_values(
                |cn: Seq<char>| query_param(gparts[0], gparts[1], cn),
            ).push(query_param(gparts[0], gparts[1], suffixes[i as int])));
        }
        i += 1;
    }
    proof {
        assert(suffixes.take(suffixes.len() as int) =~= suffixes);
    }
    let mut url = String::from_str(
        "https://extranet.pjhoy.fi/pirkka/secure/get_services_by_customer_numbers.do?",
    );
    url.append(join(&params, "&").as_str());
    Ok(url)
}

/// Whether an HTTP status code lies in the success range.
pub open spec fn is_success_status(status: int) -> bool {
    200 <= status < 300
}

/// Classifies the status of a schedule-fetch response: a status outside the
/// success range is the `HttpStatus` fault carrying that status.
pub fn check_fetch_status(status: u16) -> (r: Result<(), FetchError>)
    ensures
        r is Ok <==> is_success_status(status as int),
        !is_success_status(status as int) ==> r == Err::<(), FetchError>(
            FetchError::HttpStatus(status),
        ),
{
    if 200 <= status && status < 300 {
        Ok(())
    } else {
        Err(FetchError::HttpStatus(status))
    }
}

} // verus!
