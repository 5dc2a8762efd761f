//! The client: a resolved configuration, and one method per endpoint. A
//! method performs no I/O. It hands out the call as a `Fetch` with its first
//! action, for a driver to carry out.

use crate::config::BuilderView;
use crate::config::ClientConfig;
use crate::config::CoinbaseClientBuilder;
use crate::config::ConfigView;
use crate::fetch::begun;
use crate::fetch::ActionView;
use crate::fetch::Fetch;
use crate::fetch::FetchAction;
use crate::fetch::FetchView;
use crate::fetch::ResponseFormat;
use crate::instant::UtcInstant;
use crate::pacing::planned;
use crate::pacing::PacingPlan;
use crate::request::currencies_request;
use crate::request::historic_rates_request;
use crate::request::instant_view;
use crate::request::order_book_request;
use crate::request::product_request;
use crate::request::products_request;
use crate::request::stats_request;
use crate::request::ticker_request;
use crate::request::time_request;
use crate::request::trades_request;
use crate::request::EndpointRequest;
use crate::request::Granularity;
use crate::request::OBLevel;
use crate::request::RequestView;
use crate::urls::assemble_url;
use crate::urls::assembled_url;
use vstd::prelude::*;

verus! {

/// A client of the public market-data API. It holds its configuration and
/// nothing that changes: what a call is doing lives in the call's `Fetch`.
#[derive(Debug)]
pub struct CoinbasePublicClient {
    config: ClientConfig,
}

impl View for CoinbasePublicClient {
    type V = ConfigView;

    closed spec fn view(&self) -> ConfigView {
        self.config@
    }
}

/// How a client with `config` starts the call `request`: the URL is the base
/// URL and the path, with the parameters where there are any, and the fetch
/// begins with what assembling it gives.
pub open spec fn fetch_begun(config: ConfigView, request: RequestView, format: ResponseFormat) -> (
    FetchView,
    ActionView,
) {
    begun(
        config,
        assembled_url(config.api_url + request.path, request.params),
        request.params is Some,
        format,
    )
}

impl CoinbasePublicClient {
    /// A client with the default configuration.
    pub fn new() -> (client: Self)
        ensures
            client@ == BuilderView::unset().resolved(),
    {
        Self::builder().build()
    }

    /// A builder on which nothing is set yet.
    pub fn builder() -> (builder: CoinbaseClientBuilder<'static>)
        ensures
            builder@ == BuilderView::unset(),
    {
        CoinbaseClientBuilder::new()
    }

    /// A client with the configuration given.
    pub fn from_config(config: ClientConfig) -> (client: Self)
        ensures
            client@ == config@,
    {
        CoinbasePublicClient { config }
    }

    /// The configuration that the client was built with.
    pub fn config(&self) -> (config: &ClientConfig)
        ensures
            config@ == self@,
    {
        &self.config
    }

    /// The plan for the client's limiter, or `None` where requests are not
    /// paced.
    pub fn pacing(&self) -> (plan: Option<PacingPlan>)
        ensures
            plan.deep_view() == planned(self@.rate_limit, self@.burst_size),
    {
        self.config.pacing()
    }

    /// Starts the call `request`, for a response in `format`.
    pub fn fetch(&self, request: &EndpointRequest, format: ResponseFormat) -> (r: (
        Fetch,
        FetchAction,
    ))
        ensures
            (r.0@, r.1@) == fetch_begun(self@, request@, format),
    {
        let assembled = assemble_url(
            self.config.api_url.as_str(),
            request.path.as_str(),
            &request.params,
        );
        Fetch::begin(&self.config, assembled, request.params.is_some(), format)
    }

    /// Starts a call to `endpoint` with `params`, for the body as text.
    pub fn get_json(&self, endpoint: &str, params: Option<Vec<(String, String)>>) -> (r: (
        Fetch,
        FetchAction,
    ))
        ensures
            (r.0@, r.1@) == fetch_begun(
                self@,
                RequestView { path: endpoint@, params: params.deep_view() },
                ResponseFormat::RawText,
            ),
    {
        self.fetch(&EndpointRequest::new(endpoint, params), ResponseFormat::RawText)
    }

    /// Asks for the list of the markets that can be traded.
    pub fn get_products(&self) -> (r: (Fetch, FetchAction))
        ensures
            (r.0@, r.1@) == fetch_begun(self@, products_request(), ResponseFormat::RawText),
    {
        self.fetch(&EndpointRequest::products(), ResponseFormat::RawText)
    }

    /// Asks for one market. `product_id` has the form `BASE-QUOTE`, such as
    /// `ETH-USD`, in either case.
    pub fn get_product(&self, product_id: &str) -> (r: (Fetch, FetchAction))
        ensures
            (r.0@, r.1@) == fetch_begun(
                self@,
                product_request(product_id@),
                ResponseFormat::RawText,
            ),
    {
        self.fetch(&EndpointRequest::product(product_id), ResponseFormat::RawText)
    }

    /// Asks for a market's order book: at level 1 the best bid and ask, at
    /// level 2 the fifty best levels aggregated, at level 3 the whole book.
    pub fn get_product_orderbook(&self, product_id: &str, level: OBLevel) -> (r: (
        Fetch,
        FetchAction,
    ))
        ensures
            (r.0@, r.1@) == fetch_begun(
                self@,
                order_book_request(product_id@, level),
                ResponseFormat::RawText,
            ),
    {
        self.fetch(&EndpointRequest::order_book(product_id, level), ResponseFormat::RawText)
    }

    /// Asks for a market's last trade, best bid and ask, and volume of 24
    /// hours.
    pub fn get_product_ticker(&self, product_id: &str) -> (r: (Fetch, FetchAction))
        ensures
            (r.0@, r.1@) == fetch_begun(
                self@,
                ticker_request(product_id@),
                ResponseFormat::RawText,
            ),
    {
        self.fetch(&EndpointRequest::ticker(product_id), ResponseFormat::RawText)
    }

    /// Asks for a market's latest trades; with `after`, for those beyond the
    /// trade of that sequence number.
    pub fn get_product_trades(&self, product_id: &str, after: Option<u64>) -> (r: (
        Fetch,
        FetchAction,
    ))
        ensures
            (r.0@, r.1@) == fetch_begun(
                self@,
                trades_request(product_id@, after),
                ResponseFormat::RawText,
            ),
    {
        self.fetch(&EndpointRequest::trades(product_id, after), ResponseFormat::RawText)
    }

    /// Asks for a market's historic rates. A candle is `[timestamp, low, high,
    /// open, close, volume]`. With nothing given the exchange answers with
    /// 300 candles of one minute; it refuses a span of more than 300 candles.
    pub fn get_product_historic_rates(
        &self,
        product_id: &str,
        start_opt: Option<UtcInstant>,
        end_opt: Option<UtcInstant>,
        granularity_opt: Option<Granularity>,
    ) -> (r: (Fetch, FetchAction))
        ensures
            (r.0@, r.1@) == fetch_begun(
                self@,
                historic_rates_request(
                    product_id@,
                    instant_view(start_opt),
                    instant_view(end_opt),
                    granularity_opt,
                ),
                ResponseFormat::RawText,
            ),
    {
        self.fetch(
            &EndpointRequest::historic_rates(product_id, start_opt, end_opt, granularity_opt),
            ResponseFormat::RawText,
        )
    }

    /// Asks for a market's statistics of the last 24 hours.
    pub fn get_product_24h_stats(&self, product_id: &str) -> (r: (Fetch, FetchAction))
        ensures
            (r.0@, r.1@) == fetch_begun(
                self@,
                stats_request(product_id@),
                ResponseFormat::RawText,
            ),
    {
        self.fetch(&EndpointRequest::stats(product_id), ResponseFormat::RawText)
    }

    /// Asks for the currencies that the exchange knows.
    pub fn get_currencies(&self) -> (r: (Fetch, FetchAction))
        ensures
            (r.0@, r.1@) == fetch_begun(self@, currencies_request(), ResponseFormat::RawText),
    {
        self.fetch(&EndpointRequest::currencies(), ResponseFormat::RawText)
    }

    /// Asks for the exchange's clock, as epoch and as text.
    pub fn get_time(&self) -> (r: (Fetch, FetchAction))
        ensures
            (r.0@, r.1@) == fetch_begun(self@, time_request(), ResponseFormat::RawText),
    {
        self.fetch(&EndpointRequest::time(), ResponseFormat::RawText)
    }
}

impl Default for CoinbasePublicClient {
    fn default() -> (client: Self)
        ensures
            client@ == BuilderView::unset().resolved(),
    {
        CoinbasePublicClient::new()
    }
}

/// What a call begins with depends on the configuration, the request and
/// the format alone: the same client asked the same thing starts the same
/// fetch, whatever calls came before and however they ended.
pub proof fn lemma_fetch_depends_on_its_inputs_alone(
    config_a: ConfigView,
    request_a: RequestView,
    config_b: ConfigView,
    request_b: RequestView,
    format: ResponseFormat,
)
    requires
        config_a == config_b,
        request_a == request_b,
    ensures
        fetch_begun(config_a, request_a, format) == fetch_begun(config_b, request_b, format),
{
}

} // verus!
