//! The request formatter: from a token, a place, an optional time and the
//! query parameters to the URL of the request.
//!
//! Coordinates and times arrive as text, already rendered, and go into the
//! URL unchanged, as do parameter names and values: nothing is escaped.

use crate::constants::API_URL;
use crate::error::DarkskyError;
use crate::params::{Pairs, Params};
use vstd::prelude::*;

verus! {

/// One parameter as the query lists it: name, `=`, value, `&`.
pub open spec fn query_group(pair: (Seq<char>, Seq<char>)) -> Seq<char> {
    pair.0 + "="@ + pair.1 + "&"@
}

/// The groups of a query, one for each parameter, in order.
pub open spec fn query_groups(pairs: Pairs) -> Seq<Seq<char>> {
    Seq::new(pairs.len(), |i: int| query_group(pairs[i]))
}

/// The query that lists `pairs`: its groups one after the other. Each group
/// ends in `&`, the last one too.
pub open spec fn query_of(pairs: Pairs) -> Seq<char> {
    query_groups(pairs).flatten()
}

/// The part of a request URL before the `?`: the base, the token, and the
/// coordinates with a comma between them, followed, where a time is given,
/// by another comma and the time.
pub open spec fn path_of(
    base: Seq<char>,
    token: Seq<char>,
    latitude: Seq<char>,
    longitude: Seq<char>,
    time: Option<Seq<char>>,
) -> Seq<char> {
    let place = base + "/forecast/"@ + token + "/"@ + latitude + ","@ + longitude;
    match time {
        Some(t) => place + ","@ + t,
        None => place,
    }
}

/// The URL of a request. Without parameters the query is `units=auto`;
/// with parameters it lists exactly those, and adds no `units` of its own.
pub open spec fn url_of(
    base: Seq<char>,
    token: Seq<char>,
    latitude: Seq<char>,
    longitude: Seq<char>,
    time: Option<Seq<char>>,
    params: Option<Pairs>,
) -> Seq<char> {
    let path = path_of(base, token, latitude, longitude, time);
    match params {
        Some(pairs) => path + "?"@ + query_of(pairs),
        None => path + "?"@ + "units=auto"@,
    }
}

/// `text` ends with `tail`.
pub open spec fn ends_with(text: Seq<char>, tail: Seq<char>) -> bool {
    text.len() >= tail.len() && text.subrange(text.len() - tail.len(), text.len() as int) == tail
}

/// A request without parameters has a URL that ends in `?units=auto`, with
/// no `&` behind it.
pub proof fn lemma_no_params_asks_for_auto_units(
    base: Seq<char>,
    token: Seq<char>,
    latitude: Seq<char>,
    longitude: Seq<char>,
    time: Option<Seq<char>>,
)
    ensures
        ends_with(url_of(base, token, latitude, longitude, time, None), "?units=auto"@),
        url_of(base, token, latitude, longitude, time, None).last() != '&',
{
    reveal_strlit("?units=auto");
    reveal_strlit("units=auto");
    reveal_strlit("?");
    let url = url_of(base, token, latitude, longitude, time, None);
    assert(url.subrange(url.len() - 11, url.len() as int) =~= "?units=auto"@);
}

/// A request with `n` parameters has a query of exactly `n` groups, one for
/// each parameter in order, each of the form name, `=`, value, `&`; the URL
/// is the path, `?`, and those groups, and so ends in `&` unless `n` is 0.
pub proof fn lemma_query_lists_each_param(
    base: Seq<char>,
    token: Seq<char>,
    latitude: Seq<char>,
    longitude: Seq<char>,
    time: Option<Seq<char>>,
    pairs: Pairs,
)
    ensures
        query_groups(pairs).len() == pairs.len(),
        forall|i: int|
            0 <= i < pairs.len() ==> #[trigger] query_groups(pairs)[i] == pairs[i].0 + "="@
                + pairs[i].1 + "&"@,
        url_of(base, token, latitude, longitude, time, Some(pairs)) == path_of(
            base,
            token,
            latitude,
            longitude,
            time,
        ) + "?"@ + query_groups(pairs).flatten(),
        pairs.len() > 0 ==> url_of(base, token, latitude, longitude, time, Some(pairs)).last()
            == '&',
        pairs.len() == 0 ==> url_of(base, token, latitude, longitude, time, Some(pairs)).last()
            == '?',
{
    reveal_strlit("&");
    reveal_strlit("?");
    let groups = query_groups(pairs);
    if pairs.len() > 0 {
        assert(groups =~= groups.drop_last().push(groups.last()));
        groups.drop_last().lemma_flatten_push(groups.last());
    }
}

/// The query asks for automatic units exactly when the parameters set
/// `units` to `auto`: the formatter adds no unit system of its own.
pub proof fn lemma_auto_units_only_when_set(pairs: Pairs)
    ensures
        query_groups(pairs).contains("units=auto&"@) <==> pairs.contains(("units"@, "auto"@)),
{
    reveal_strlit("units=auto&");
    reveal_strlit("units");
    reveal_strlit("auto");
    reveal_strlit("=");
    reveal_strlit("&");
    let wanted = "units=auto&"@;
    let groups = query_groups(pairs);
    if pairs.contains(("units"@, "auto"@)) {
        let i = choose|i: int| 0 <= i < pairs.len() && pairs[i] == ("units"@, "auto"@);
        assert(groups[i] =~= wanted);
    }
    if groups.contains(wanted) {
        let i = choose|i: int| 0 <= i < groups.len() && groups[i] == wanted;
        let name = pairs[i].0;
        let value = pairs[i].1;
        let group = name + "="@ + value + "&"@;
        assert(group.len() == name.len() + value.len() + 2);
        assert(group[name.len() as int] == '=');
        assert(name =~= group.subrange(0, 5));
        assert(value =~= group.subrange(6, 10));
        assert(pairs[i] == ("units"@, "auto"@));
    }
}

/// The view of an optional text.
pub open spec fn given_text(text: Option<&str>) -> Option<Seq<char>> {
    match text {
        Some(t) => Some(t@),
        None => None,
    }
}

/// The view of an optional parameter list.
pub open spec fn given_pairs(params: Option<&Params>) -> Option<Pairs> {
    match params {
        Some(p) => Some(p@),
        None => None,
    }
}

/// Appends the query that lists `params` to `url`.
fn push_query(url: &mut String, params: &Params)
    ensures
        final(url)@ == old(url)@ + query_of(params@),
{
    let ghost start = url@;
    let n = params.len();
    let mut i: usize = 0;
    while i < n
        invariant
            i <= n,
            n == params@.len(),
            url@ == start + query_of(params@.take(i as int)),
        decreases n - i,
    {
        proof {
            let done = query_groups(params@.take(i as int));
            let next = query_groups(params@.take(i + 1));
            assert(next =~= done.push(query_group(params@[i as int])));
            done.lemma_flatten_push(query_group(params@[i as int]));
        }
        url.append(params.name_at(i));
        url.append("=");
        url.append(params.value_at(i));
        url.append("&");
        i += 1;
    }
    assert(params@.take(n as int) =~= params@);
}

/// Writes the URL of a request.
fn build(
    base_url: &str,
    token: &str,
    latitude: &str,
    longitude: &str,
    time: Option<&str>,
    params: Option<&Params>,
) -> (url: String)
    ensures
        url@ == url_of(
            base_url@,
            token@,
            latitude@,
            longitude@,
            given_text(time),
            given_pairs(params),
        ),
{
    let mut url = String::from_str(base_url);
    url.append("/forecast/");
    url.append(token);
    url.append("/");
    url.append(latitude);
    url.append(",");
    url.append(longitude);
    match time {
        Some(t) => {
            url.append(",");
            url.append(t);
        },
        None => {},
    }
    url.append("?");
    match params {
        Some(p) => {
            push_query(&mut url, p);
        },
        None => {
            url.append("units=auto");
        },
    }
    url
}

/// Formats the URL of a request to the service at `base_url`.
///
/// `latitude`, `longitude` and `time` are the decimal or timestamp texts to
/// send. With `params` absent the query asks for automatic units; with
/// `params` present the query lists them in order, each followed by `&`.
/// Formatting always succeeds.
pub fn format(
    base_url: &str,
    token: &str,
    latitude: &str,
    longitude: &str,
    time: Option<&str>,
    params: Option<&Params>,
) -> (r: Result<String, DarkskyError>)
    ensures
        r is Ok,
        r->Ok_0@ == url_of(
            base_url@,
            token@,
            latitude@,
            longitude@,
            given_text(time),
            given_pairs(params),
        ),
{
    Ok(build(base_url, token, latitude, longitude, time, params))
}

/// Formats the URL of a forecast for a place, with no parameters of the
/// caller's: the query asks for automatic units.
pub fn uri(token: &str, latitude: &str, longitude: &str) -> (r: String)
    ensures
        r@ == url_of(API_URL@, token@, latitude@, longitude@, None, None),
{
    build(API_URL, token, latitude, longitude, None, None)
}

/// Formats the URL of a forecast for a place, and for a moment where `time`
/// is given, with the parameters `params`.
pub fn uri_optioned(
    token: &str,
    latitude: &str,
    longitude: &str,
    time: Option<String>,
    params: Params,
) -> (r: Result<String, DarkskyError>)
    ensures
        r is Ok,
        r->Ok_0@ == url_of(
            API_URL@,
            token@,
            latitude@,
            longitude@,
            match time {
                Some(t) => Some(t@),
                None => None,
            },
            Some(params@),
        ),
{
    match time {
        Some(t) => format(API_URL, token, latitude, longitude, Some(t.as_str()), Some(&params)),
        None => format(API_URL, token, latitude, longitude, None, Some(&params)),
    }
}

} // verus!
