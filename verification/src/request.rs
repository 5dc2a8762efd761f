//! Endpoint requests: for each endpoint of the API, the path and the query
//! parameters that a call to it carries.

use crate::decimal::decimal_text;
use crate::decimal::to_decimal;
use crate::instant::InstantView;
use crate::instant::UtcInstant;
use vstd::prelude::*;
use vstd::string::StringExecFns;

verus! {

/// How much of the order book a snapshot shows: the best bid and ask, the
/// fifty best levels aggregated, or the whole book.
#[derive(Debug, Clone, Copy, PartialEq, Eq, Structural)]
pub enum OBLevel {
    Level1,
    Level2,
    Level3,
}

impl OBLevel {
    /// The level as the number that the exchange reads.
    pub open spec fn spec_number(self) -> nat {
        match self {
            OBLevel::Level1 => 1,
            OBLevel::Level2 => 2,
            OBLevel::Level3 => 3,
        }
    }

    /// The query parameter that selects the level.
    pub open spec fn spec_param(self) -> (Seq<char>, Seq<char>) {
        ("level"@, decimal_text(self.spec_number()))
    }

    /// The level as the number that the exchange reads.
    pub fn number(&self) -> (n: u8)
        ensures
            n == self.spec_number(),
    {
        match self {
            OBLevel::Level1 => 1,
            OBLevel::Level2 => 2,
            OBLevel::Level3 => 3,
        }
    }

    /// The query parameter that selects the level: `level` and the number.
    pub fn param_tuple(&self) -> (pair: (String, String))
        ensures
            pair.deep_view() == self.spec_param(),
    {
        (String::from_str("level"), to_decimal(self.number() as u128))
    }
}

/// The width of a candle of historic rates, from one minute to one day.
#[derive(Debug, Clone, Copy, PartialEq, Eq, Structural)]
pub enum Granularity {
    Minute1,
    Minute5,
    Minute15,
    Hour1,
    Hour6,
    Hour24,
}

impl Granularity {
    /// The width in seconds.
    pub open spec fn spec_seconds(self) -> nat {
        match self {
            Granularity::Minute1 => 60,
            Granularity::Minute5 => 300,
            Granularity::Minute15 => 900,
            Granularity::Hour1 => 3600,
            Granularity::Hour6 => 21600,
            Granularity::Hour24 => 86400,
        }
    }

    /// The query parameter that selects the width.
    pub open spec fn spec_param(self) -> (Seq<char>, Seq<char>) {
        ("granularity"@, decimal_text(self.spec_seconds()))
    }

    /// The width in seconds.
    pub fn seconds(&self) -> (n: u32)
        ensures
            n == self.spec_seconds(),
    {
        match self {
            Granularity::Minute1 => 60,
            Granularity::Minute5 => 300,
            Granularity::Minute15 => 900,
            Granularity::Hour1 => 3600,
            Granularity::Hour6 => 21600,
            Granularity::Hour24 => 86400,
        }
    }

    /// The query parameter that selects the width: `granularity` and the
    /// seconds.
    pub fn param_tuple(&self) -> (pair: (String, String))
        ensures
            pair.deep_view() == self.spec_param(),
    {
        (String::from_str("granularity"), to_decimal(self.seconds() as u128))
    }
}

/// One call to an endpoint: the path below the base URL, and the query
/// parameters in the order in which they are sent. `None` is a URL without a
/// query; `Some` of no pairs is a URL with an empty one.
#[derive(Debug)]
pub struct EndpointRequest {
    pub path: String,
    pub params: Option<Vec<(String, String)>>,
}

/// The mathematical value of an `EndpointRequest`.
pub struct RequestView {
    pub path: Seq<char>,
    pub params: Option<Seq<(Seq<char>, Seq<char>)>>,
}

impl View for EndpointRequest {
    type V = RequestView;

    open spec fn view(&self) -> RequestView {
        RequestView { path: self.path@, params: self.params.deep_view() }
    }
}

/// The path of what the exchange keeps under a product: `leaf` names it.
pub open spec fn product_path(product_id: Seq<char>, leaf: Seq<char>) -> Seq<char> {
    "/products/"@ + product_id + leaf
}

/// The list with the one pair `key` and `value`, or the empty list where
/// there is no value.
pub open spec fn optional_param(key: Seq<char>, value: Option<Seq<char>>) -> Seq<
    (Seq<char>, Seq<char>),
> {
    match value {
        Some(text) => seq![(key, text)],
        None => seq![],
    }
}

/// The parameters of a request for trades: the cursor, moved one on so that
/// the trade it points at is left out.
pub open spec fn trades_params(after: Option<u64>) -> Option<Seq<(Seq<char>, Seq<char>)>> {
    match after {
        Some(cursor) => Some(seq![("after"@, decimal_text((cursor + 1) as nat))]),
        None => None,
    }
}

/// The parameters of a request for historic rates, in the order `start`,
/// `end`, `granularity`, each only where it is given.
pub open spec fn historic_rates_pairs(
    start: Option<InstantView>,
    end: Option<InstantView>,
    granularity: Option<Granularity>,
) -> Seq<(Seq<char>, Seq<char>)> {
    optional_param(
        "start"@,
        match start {
            Some(instant) => Some(instant.rfc3339()),
            None => None,
        },
    ) + optional_param(
        "end"@,
        match end {
            Some(instant) => Some(instant.rfc3339()),
            None => None,
        },
    ) + optional_param(
        "granularity"@,
        match granularity {
            Some(width) => Some(width.spec_param().1),
            None => None,
        },
    )
}

/// The pairs as a request carries them: no query at all where there is no
/// pair.
pub open spec fn nonempty_params(pairs: Seq<(Seq<char>, Seq<char>)>) -> Option<
    Seq<(Seq<char>, Seq<char>)>,
> {
    if pairs.len() == 0 {
        None
    } else {
        Some(pairs)
    }
}

/// The view of an optional instant.
pub open spec fn instant_view(instant: Option<UtcInstant>) -> Option<InstantView> {
    match instant {
        Some(at) => Some(at@),
        None => None,
    }
}

/// The request for the list of markets.
pub open spec fn products_request() -> RequestView {
    RequestView { path: "/products"@, params: None }
}

/// The request for one market.
pub open spec fn product_request(product_id: Seq<char>) -> RequestView {
    RequestView { path: "/products/"@ + product_id, params: None }
}

/// The request for a snapshot of the order book at `level`.
pub open spec fn order_book_request(product_id: Seq<char>, level: OBLevel) -> RequestView {
    RequestView {
        path: product_path(product_id, "/book"@),
        params: Some(seq![level.spec_param()]),
    }
}

/// The request for a market's ticker.
pub open spec fn ticker_request(product_id: Seq<char>) -> RequestView {
    RequestView { path: product_path(product_id, "/ticker"@), params: None }
}

/// The request for a market's latest trades.
pub open spec fn trades_request(product_id: Seq<char>, after: Option<u64>) -> RequestView {
    RequestView { path: product_path(product_id, "/trades"@), params: trades_params(after) }
}

/// The request for a market's historic rates.
pub open spec fn historic_rates_request(
    product_id: Seq<char>,
    start: Option<InstantView>,
    end: Option<InstantView>,
    granularity: Option<Granularity>,
) -> RequestView {
    RequestView {
        path: product_path(product_id, "/candles"@),
        params: nonempty_params(historic_rates_pairs(start, end, granularity)),
    }
}

/// The request for a market's statistics of the last 24 hours.
pub open spec fn stats_request(product_id: Seq<char>) -> RequestView {
    RequestView { path: product_path(product_id, "/stats"@), params: None }
}

/// The request for the list of currencies.
pub open spec fn currencies_request() -> RequestView {
    RequestView { path: "/currencies"@, params: None }
}

/// The request for the exchange's clock.
pub open spec fn time_request() -> RequestView {
    RequestView { path: "/time"@, params: None }
}

/// Appends the pair `key` and `value`.
fn push_param(params: &mut Vec<(String, String)>, key: &str, value: String)
    ensures
        final(params).deep_view() == old(params).deep_view().push((key@, value@)),
{
    params.push((String::from_str(key), value));
    assert(params.deep_view() =~= old(params).deep_view().push((key@, value@)));
}

/// The path `/products/`, `product_id`, `leaf`.
fn product_path_of(product_id: &str, leaf: &str) -> (path: String)
    ensures
        path@ == product_path(product_id@, leaf@),
{
    let mut path = String::from_str("/products/");
    path.append(product_id);
    path.append(leaf);
    path
}

impl EndpointRequest {
    /// The list of the markets that can be traded.
    pub fn products() -> (request: EndpointRequest)
        ensures
            request@ == products_request(),
    {
        EndpointRequest { path: String::from_str("/products"), params: None }
    }

    /// One market. `product_id` has the form `BASE-QUOTE`, such as `ETH-USD`,
    /// in either case.
    pub fn product(product_id: &str) -> (request: EndpointRequest)
        ensures
            request@ == product_request(product_id@),
    {
        let mut path = String::from_str("/products/");
        path.append(product_id);
        EndpointRequest { path, params: None }
    }

    /// A snapshot of a market's order book at `level`.
    pub fn order_book(product_id: &str, level: OBLevel) -> (request: EndpointRequest)
        ensures
            request@ == order_book_request(product_id@, level),
    {
        let mut params: Vec<(String, String)> = Vec::new();
        let pair = level.param_tuple();
        params.push(pair);
        assert(params.deep_view() =~= seq![level.spec_param()]);
        EndpointRequest { path: product_path_of(product_id, "/book"), params: Some(params) }
    }

    /// The last trade, the best bid and ask, and the volume of 24 hours.
    pub fn ticker(product_id: &str) -> (request: EndpointRequest)
        ensures
            request@ == ticker_request(product_id@),
    {
        EndpointRequest { path: product_path_of(product_id, "/ticker"), params: None }
    }

    /// A market's latest trades. With `after`, the trade with that sequence
    /// number bounds the answer and is itself left out: the parameter sent is
    /// one more than `after`.
    pub fn trades(product_id: &str, after: Option<u64>) -> (request: EndpointRequest)
        ensures
            request@ == trades_request(product_id@, after),
    {
        let path = product_path_of(product_id, "/trades");
        match after {
            Some(cursor) => {
                let mut params: Vec<(String, String)> = Vec::new();
                push_param(&mut params, "after", to_decimal(cursor as u128 + 1));
                assert(params.deep_view() =~= seq![("after"@, decimal_text((cursor + 1) as nat))]);
                EndpointRequest { path, params: Some(params) }
            },
            None => EndpointRequest { path, params: None },
        }
    }

    /// A market's historic rates, as candles of `granularity` between `start`
    /// and `end`. What is not given is not sent, and the exchange decides.
    pub fn historic_rates(
        product_id: &str,
        start: Option<UtcInstant>,
        end: Option<UtcInstant>,
        granularity: Option<Granularity>,
    ) -> (request: EndpointRequest)
        ensures
            request@ == historic_rates_request(
                product_id@,
                instant_view(start),
                instant_view(end),
                granularity,
            ),
    {
        let path = product_path_of(product_id, "/candles");
        let mut params: Vec<(String, String)> = Vec::new();
        assert(params.deep_view() =~= Seq::<(Seq<char>, Seq<char>)>::empty());
        match &start {
            Some(instant) => {
                push_param(&mut params, "start", instant.to_rfc3339());
            },
            None => {},
        }
        let ghost with_start = params.deep_view();
        assert(with_start =~= optional_param(
            "start"@,
            match start {
                Some(instant) => Some(instant@.rfc3339()),
                None => None,
            },
        ));
        match &end {
            Some(instant) => {
                push_param(&mut params, "end", instant.to_rfc3339());
            },
            None => {},
        }
        let ghost with_end = params.deep_view();
        assert(with_end =~= with_start + optional_param(
            "end"@,
            match end {
                Some(instant) => Some(instant@.rfc3339()),
                None => None,
            },
        ));
        match granularity {
            Some(width) => {
                let pair = width.param_tuple();
                push_param(&mut params, "granularity", pair.1);
            },
            None => {},
        }
        assert(params.deep_view() =~= historic_rates_pairs(
            instant_view(start),
            instant_view(end),
            granularity,
        ));
        if params.len() == 0 {
            EndpointRequest { path, params: None }
        } else {
            EndpointRequest { path, params: Some(params) }
        }
    }

    /// A market's statistics of the last 24 hours.
    pub fn stats(product_id: &str) -> (request: EndpointRequest)
        ensures
            request@ == stats_request(product_id@),
    {
        EndpointRequest { path: product_path_of(product_id, "/stats"), params: None }
    }

    /// The currencies that the exchange knows.
    pub fn currencies() -> (request: EndpointRequest)
        ensures
            request@ == currencies_request(),
    {
        EndpointRequest { path: String::from_str("/currencies"), params: None }
    }

    /// The exchange's clock, as epoch and as text.
    pub fn time() -> (request: EndpointRequest)
        ensures
            request@ == time_request(),
    {
        EndpointRequest { path: String::from_str("/time"), params: None }
    }

    /// A call to `path` with `params`, for an endpoint that has no
    /// constructor here.
    pub fn new(path: &str, params: Option<Vec<(String, String)>>) -> (request: EndpointRequest)
        ensures
            request@ == (RequestView { path: path@, params: params.deep_view() }),
    {
        EndpointRequest { path: String::from_str(path), params }
    }
}

} // verus!
