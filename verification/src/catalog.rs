//! The marketplace catalog client: a builder with endpoint, scope and
//! retry defaults, and the search request builder whose optional
//! parameters become the exact query pairs of the wire contract.

use vstd::prelude::*;

use crate::errors::Error;
use crate::message::{Method, Request};
use crate::outside::url_split_of;
use crate::pipeline::{send_scripted, spec_run, RunReport, TransportEvent};
use crate::requrl::{spec_has_key, RequestUrl};
use crate::retry::{spec_default_retry, RetryConfig};
use crate::strutil::{copy_strings, fmt_i64, join_spaces, spec_dec_i64, spec_eq_ignore_case, spec_join_spaces};

verus! {

/// The service endpoint used when the builder was given none.
pub const DEFAULT_ENDPOINT: &'static str = "https://catalogapi.azure.com";

/// The API version selector of the search operation.
pub const SEARCH_API_VERSION: &'static str = "2022-08-17-preview";

/// A catalog client: the endpoint, the credential scopes, and the retry
/// policy its pipeline runs with. The credential itself lives outside
/// this core; built requests take a bearer token.
#[derive(Debug)]
pub struct Client {
    pub endpoint: String,
    pub scopes: Vec<String>,
    pub retry: RetryConfig,
}

/// Builds a `Client`, defaulting the endpoint and the scope set.
#[derive(Debug)]
pub struct ClientBuilder {
    pub endpoint: Option<String>,
    pub scopes: Option<Vec<String>>,
    pub retry: RetryConfig,
}

impl ClientBuilder {
    /// A new builder with nothing set and the default retry policy.
    pub fn new() -> (r: ClientBuilder)
        ensures
            r.endpoint is None,
            r.scopes is None,
            r.retry == spec_default_retry(),
            r.retry.wf(),
    {
        ClientBuilder { endpoint: None, scopes: None, retry: RetryConfig::default() }
    }

    /// Set the endpoint.
    pub fn endpoint(self, endpoint: &str) -> (r: ClientBuilder)
        ensures
            r.endpoint matches Some(e) && e@ == endpoint@,
            r.scopes == self.scopes,
            r.retry == self.retry,
    {
        ClientBuilder { endpoint: Some(String::from_str(endpoint)), ..self }
    }

    /// Set the scopes.
    pub fn scopes(self, scopes: Vec<String>) -> (r: ClientBuilder)
        ensures
            r.scopes == Some(scopes),
            r.endpoint == self.endpoint,
            r.retry == self.retry,
    {
        ClientBuilder { scopes: Some(scopes), ..self }
    }

    /// Set the retry options.
    pub fn retry(self, retry: RetryConfig) -> (r: ClientBuilder)
        requires
            retry.wf(),
        ensures
            r.retry == retry,
            r.endpoint == self.endpoint,
            r.scopes == self.scopes,
    {
        ClientBuilder { retry, ..self }
    }

    /// Convert the builder into a `Client` instance: a missing endpoint
    /// becomes the default, and a missing scope set becomes the endpoint
    /// followed by a slash.
    pub fn build(self) -> (r: Client)
        requires
            self.retry.wf(),
        ensures
            r.endpoint@ == match self.endpoint {
                Some(e) => e@,
                None => DEFAULT_ENDPOINT@,
            },
            r.scopes.deep_view() == match self.scopes {
                Some(s) => s.deep_view(),
                None => seq![
                    (match self.endpoint {
                        Some(e) => e@,
                        None => DEFAULT_ENDPOINT@,
                    }) + "/"@,
                ],
            },
            r.retry == self.retry,
            r.retry.wf(),
    {
        let endpoint = match self.endpoint {
            Some(e) => e,
            None => String::from_str(DEFAULT_ENDPOINT),
        };
        let scopes = match self.scopes {
            Some(s) => s,
            None => {
                let mut scope = String::from_str(endpoint.as_str());
                scope.append("/");
                proof {
                    reveal_strlit("/");
                }
                let mut v: Vec<String> = Vec::new();
                v.push(scope);
                proof {
                    assert(v.deep_view() =~= seq![endpoint@ + "/"@]);
                }
                v
            },
        };
        Client { endpoint, scopes, retry: self.retry }
    }
}

impl Client {
    /// Create a new `ClientBuilder`.
    pub fn builder() -> (r: ClientBuilder)
        ensures
            r.endpoint is None,
            r.scopes is None,
            r.retry == spec_default_retry(),
    {
        ClientBuilder::new()
    }

    /// Create a new `Client`.
    pub fn new(endpoint: &str, scopes: Vec<String>, retry: RetryConfig) -> (r: Client)
        requires
            retry.wf(),
        ensures
            r.endpoint@ == endpoint@,
            r.scopes == scopes,
            r.retry == retry,
    {
        Client { endpoint: String::from_str(endpoint), scopes, retry }
    }

    pub fn endpoint(&self) -> (r: &str)
        ensures
            r@ == self.endpoint@,
    {
        self.endpoint.as_str()
    }

    pub fn scopes(&self) -> (r: &Vec<String>)
        ensures
            r == &self.scopes,
    {
        &self.scopes
    }

    pub fn duplicate(&self) -> (r: Client)
        ensures
            r.endpoint@ == self.endpoint@,
            r.scopes.deep_view() == self.scopes.deep_view(),
            r.retry == self.retry,
    {
        Client {
            endpoint: String::from_str(self.endpoint.as_str()),
            scopes: copy_strings(&self.scopes),
            retry: self.retry,
        }
    }

    pub fn search_client(&self) -> (r: SearchClient)
        ensures
            r.0.endpoint@ == self.endpoint@,
            r.0.scopes.deep_view() == self.scopes.deep_view(),
            r.0.retry == self.retry,
    {
        SearchClient(self.duplicate())
    }

    /// Runs a request through the client's pipeline against a script of
    /// transport events, under the client's retry policy.
    pub fn send(&self, request: &Request, bearer: Option<&str>, events: Vec<TransportEvent>) -> (r:
        RunReport)
        requires
            self.retry.wf(),
            request.wf(),
            events@.len() >= self.retry.max_attempts,
        ensures
            r.outcome == spec_run(self.retry, request.idempotent, events@).0,
            r.attempts == spec_run(self.retry, request.idempotent, events@).1,
            r.sent@.len() == r.attempts,
            forall|i: int| 0 <= i < r.sent@.len() ==> (#[trigger] r.sent@[i]).body@
                == request.body@,
    {
        send_scripted(&self.retry, request, bearer, events)
    }
}

/// The search operations of a catalog client.
#[derive(Debug)]
pub struct SearchClient(pub Client);

impl SearchClient {
    /// Get a list of catalog offers: a request builder carrying the
    /// required parameters, every optional one unset.
    pub fn get(&self, language: &str, select: Vec<String>, market: &str, x_ms_app: &str) -> (r:
        RequestBuilder)
        ensures
            r@ == (RequestBuilderView {
                client_endpoint: self.0.endpoint@,
                client_scopes: self.0.scopes.deep_view(),
                retry: self.0.retry,
                language: language@,
                select: select.deep_view(),
                market: market@,
                x_ms_app: x_ms_app@,
                search_query: None,
                publisher_display_name: None,
                azure_benefit: None,
                publisher_types: Seq::empty(),
                badges: Seq::empty(),
                industry_cloud: None,
                gallery: None,
                orderby: Seq::empty(),
                product_types: Seq::empty(),
                pricing_types: Seq::empty(),
                industries: Seq::empty(),
                operating_systems: Seq::empty(),
                hide_keys: Seq::empty(),
                category_ids: Seq::empty(),
                linked_add_ins: Seq::empty(),
                supported_products: Seq::empty(),
                applicable_products: Seq::empty(),
                publisher_ids: Seq::empty(),
                rating_buckets: Seq::empty(),
                vm_image_generations: Seq::empty(),
                vm_architecture_types: Seq::empty(),
                vm_security_types: Seq::empty(),
                publishing_stage: None,
                facets: Seq::empty(),
                skip: None,
                top: None,
            }),
    {
        let r = RequestBuilder {
            client: self.0.duplicate(),
            language: String::from_str(language),
            select,
            market: String::from_str(market),
            x_ms_app: String::from_str(x_ms_app),
            search_query: None,
            publisher_display_name: None,
            azure_benefit: None,
            publisher_types: Vec::new(),
            badges: Vec::new(),
            industry_cloud: None,
            gallery: None,
            orderby: Vec::new(),
            product_types: Vec::new(),
            pricing_types: Vec::new(),
            industries: Vec::new(),
            operating_systems: Vec::new(),
            hide_keys: Vec::new(),
            category_ids: Vec::new(),
            linked_add_ins: Vec::new(),
            supported_products: Vec::new(),
            applicable_products: Vec::new(),
            publisher_ids: Vec::new(),
            rating_buckets: Vec::new(),
            vm_image_generations: Vec::new(),
            vm_architecture_types: Vec::new(),
            vm_security_types: Vec::new(),
            publishing_stage: None,
            facets: Vec::new(),
            skip: None,
            top: None,
        };
        proof {
            assert(r@ =~= (RequestBuilderView {
                client_endpoint: self.0.endpoint@,
                client_scopes: self.0.scopes.deep_view(),
                retry: self.0.retry,
                language: language@,
                select: select.deep_view(),
                market: market@,
                x_ms_app: x_ms_app@,
                search_query: None,
                publisher_display_name: None,
                azure_benefit: None,
                publisher_types: Seq::empty(),
                badges: Seq::empty(),
                industry_cloud: None,
                gallery: None,
                orderby: Seq::empty(),
                product_types: Seq::empty(),
                pricing_types: Seq::empty(),
                industries: Seq::empty(),
                operating_systems: Seq::empty(),
                hide_keys: Seq::empty(),
                category_ids: Seq::empty(),
                linked_add_ins: Seq::empty(),
                supported_products: Seq::empty(),
                applicable_products: Seq::empty(),
                publisher_ids: Seq::empty(),
                rating_buckets: Seq::empty(),
                vm_image_generations: Seq::empty(),
                vm_architecture_types: Seq::empty(),
                vm_security_types: Seq::empty(),
                publishing_stage: None,
                facets: Seq::empty(),
                skip: None,
                top: None,
            }));
        }
        r
    }
}

/// A search request builder as the contracts see it.
#[verifier::ext_equal]
pub struct RequestBuilderView {
    pub client_endpoint: Seq<char>,
    pub client_scopes: Seq<Seq<char>>,
    pub retry: RetryConfig,
    pub language: Seq<char>,
    pub select: Seq<Seq<char>>,
    pub market: Seq<char>,
    pub x_ms_app: Seq<char>,
    pub search_query: Option<Seq<char>>,
    pub publisher_display_name: Option<Seq<char>>,
    pub azure_benefit: Option<Seq<char>>,
    pub publisher_types: Seq<Seq<char>>,
    pub badges: Seq<Seq<char>>,
    pub industry_cloud: Option<Seq<char>>,
    pub gallery: Option<Seq<char>>,
    pub orderby: Seq<Seq<char>>,
    pub product_types: Seq<Seq<char>>,
    pub pricing_types: Seq<Seq<char>>,
    pub industries: Seq<Seq<char>>,
    pub operating_systems: Seq<Seq<char>>,
    pub hide_keys: Seq<Seq<char>>,
    pub category_ids: Seq<Seq<char>>,
    pub linked_add_ins: Seq<Seq<char>>,
    pub supported_products: Seq<Seq<char>>,
    pub applicable_products: Seq<Seq<char>>,
    pub publisher_ids: Seq<Seq<char>>,
    pub rating_buckets: Seq<Seq<char>>,
    pub vm_image_generations: Seq<Seq<char>>,
    pub vm_architecture_types: Seq<Seq<char>>,
    pub vm_security_types: Seq<Seq<char>>,
    pub publishing_stage: Option<Seq<char>>,
    pub facets: Seq<Seq<char>>,
    pub skip: Option<i32>,
    pub top: Option<i32>,
}

/// `RequestBuilder` provides a mechanism for setting optional parameters
/// on a request. Each parameter method consumes and returns the builder,
/// so calls can be chained; `build_request` closes it into a request for
/// the pipeline.
#[derive(Debug)]
pub struct RequestBuilder {
    pub(crate) client: Client,
    pub(crate) language: String,
    pub(crate) select: Vec<String>,
    pub(crate) market: String,
    pub(crate) x_ms_app: String,
    pub(crate) search_query: Option<String>,
    pub(crate) publisher_display_name: Option<String>,
    pub(crate) azure_benefit: Option<String>,
    pub(crate) publisher_types: Vec<String>,
    pub(crate) badges: Vec<String>,
    pub(crate) industry_cloud: Option<String>,
    pub(crate) gallery: Option<String>,
    pub(crate) orderby: Vec<String>,
    pub(crate) product_types: Vec<String>,
    pub(crate) pricing_types: Vec<String>,
    pub(crate) industries: Vec<String>,
    pub(crate) operating_systems: Vec<String>,
    pub(crate) hide_keys: Vec<String>,
    pub(crate) category_ids: Vec<String>,
    pub(crate) linked_add_ins: Vec<String>,
    pub(crate) supported_products: Vec<String>,
    pub(crate) applicable_products: Vec<String>,
    pub(crate) publisher_ids: Vec<String>,
    pub(crate) rating_buckets: Vec<String>,
    pub(crate) vm_image_generations: Vec<String>,
    pub(crate) vm_architecture_types: Vec<String>,
    pub(crate) vm_security_types: Vec<String>,
    pub(crate) publishing_stage: Option<String>,
    pub(crate) facets: Vec<String>,
    pub(crate) skip: Option<i32>,
    pub(crate) top: Option<i32>,
}

spec fn view_opt(o: Option<String>) -> Option<Seq<char>> {
    match o {
        Some(s) => Some(s@),
        None => None,
    }
}

impl View for RequestBuilder {
    type V = RequestBuilderView;

    closed spec fn view(&self) -> RequestBuilderView {
        RequestBuilderView {
            client_endpoint: self.client.endpoint@,
            client_scopes: self.client.scopes.deep_view(),
            retry: self.client.retry,
            language: self.language@,
            select: self.select.deep_view(),
            market: self.market@,
            x_ms_app: self.x_ms_app@,
            search_query: view_opt(self.search_query),
            publisher_display_name: view_opt(self.publisher_display_name),
            azure_benefit: view_opt(self.azure_benefit),
            publisher_types: self.publisher_types.deep_view(),
            badges: self.badges.deep_view(),
            industry_cloud: view_opt(self.industry_cloud),
            gallery: view_opt(self.gallery),
            orderby: self.orderby.deep_view(),
            product_types: self.product_types.deep_view(),
            pricing_types: self.pricing_types.deep_view(),
            industries: self.industries.deep_view(),
            operating_systems: self.operating_systems.deep_view(),
            hide_keys: self.hide_keys.deep_view(),
            category_ids: self.category_ids.deep_view(),
            linked_add_ins: self.linked_add_ins.deep_view(),
            supported_products: self.supported_products.deep_view(),
            applicable_products: self.applicable_products.deep_view(),
            publisher_ids: self.publisher_ids.deep_view(),
            rating_buckets: self.rating_buckets.deep_view(),
            vm_image_generations: self.vm_image_generations.deep_view(),
            vm_architecture_types: self.vm_architecture_types.deep_view(),
            vm_security_types: self.vm_security_types.deep_view(),
            publishing_stage: view_opt(self.publishing_stage),
            facets: self.facets.deep_view(),
            skip: self.skip,
            top: self.top,
        }
    }
}

impl RequestBuilder {
    /// The search text.
    pub fn search_query(self, search_query: &str) -> (r: RequestBuilder)
        ensures
            r@ == (RequestBuilderView { search_query: Some(search_query@), ..self@ }),
    {
        RequestBuilder { search_query: Some(String::from_str(search_query)), ..self }
    }

    /// The search publisher name.
    pub fn publisher_display_name(self, publisher_display_name: &str) -> (r: RequestBuilder)
        ensures
            r@ == (RequestBuilderView {
                publisher_display_name: Some(publisher_display_name@),
                ..self@
            }),
    {
        RequestBuilder {
            publisher_display_name: Some(String::from_str(publisher_display_name)),
            ..self
        }
    }

    /// Restrict the search to benefit-eligible offers.
    pub fn azure_benefit(self, azure_benefit: &str) -> (r: RequestBuilder)
        ensures
            r@ == (RequestBuilderView { azure_benefit: Some(azure_benefit@), ..self@ }),
    {
        RequestBuilder { azure_benefit: Some(String::from_str(azure_benefit)), ..self }
    }

    /// The publisher kinds to search.
    pub fn publisher_types(self, publisher_types: Vec<String>) -> (r: RequestBuilder)
        ensures
            r@ == (RequestBuilderView { publisher_types: publisher_types.deep_view(), ..self@ }),
    {
        RequestBuilder { publisher_types, ..self }
    }

    /// The product badges to search by.
    pub fn badges(self, badges: Vec<String>) -> (r: RequestBuilder)
        ensures
            r@ == (RequestBuilderView { badges: badges.deep_view(), ..self@ }),
    {
        RequestBuilder { badges, ..self }
    }

    /// Restrict the search to industry-cloud offers.
    pub fn industry_cloud(self, industry_cloud: &str) -> (r: RequestBuilder)
        ensures
            r@ == (RequestBuilderView { industry_cloud: Some(industry_cloud@), ..self@ }),
    {
        RequestBuilder { industry_cloud: Some(String::from_str(industry_cloud)), ..self }
    }

    /// The gallery to search by.
    pub fn gallery(self, gallery: &str) -> (r: RequestBuilder)
        ensures
            r@ == (RequestBuilderView { gallery: Some(gallery@), ..self@ }),
    {
        RequestBuilder { gallery: Some(String::from_str(gallery)), ..self }
    }

    /// The sort fields, in order.
    pub fn orderby(self, orderby: Vec<String>) -> (r: RequestBuilder)
        ensures
            r@ == (RequestBuilderView { orderby: orderby.deep_view(), ..self@ }),
    {
        RequestBuilder { orderby, ..self }
    }

    /// The product kinds to search by.
    pub fn product_types(self, product_types: Vec<String>) -> (r: RequestBuilder)
        ensures
            r@ == (RequestBuilderView { product_types: product_types.deep_view(), ..self@ }),
    {
        RequestBuilder { product_types, ..self }
    }

    /// The pricing kinds to search by.
    pub fn pricing_types(self, pricing_types: Vec<String>) -> (r: RequestBuilder)
        ensures
            r@ == (RequestBuilderView { pricing_types: pricing_types.deep_view(), ..self@ }),
    {
        RequestBuilder { pricing_types, ..self }
    }

    /// The product industries to search by.
    pub fn industries(self, industries: Vec<String>) -> (r: RequestBuilder)
        ensures
            r@ == (RequestBuilderView { industries: industries.deep_view(), ..self@ }),
    {
        RequestBuilder { industries, ..self }
    }

    /// The operating systems to search by.
    pub fn operating_systems(self, operating_systems: Vec<String>) -> (r: RequestBuilder)
        ensures
            r@ == (RequestBuilderView { operating_systems: operating_systems.deep_view(), ..self@ }),
    {
        RequestBuilder { operating_systems, ..self }
    }

    /// The preview hide keys to search by.
    pub fn hide_keys(self, hide_keys: Vec<String>) -> (r: RequestBuilder)
        ensures
            r@ == (RequestBuilderView { hide_keys: hide_keys.deep_view(), ..self@ }),
    {
        RequestBuilder { hide_keys, ..self }
    }

    /// The product categories to search by.
    pub fn category_ids(self, category_ids: Vec<String>) -> (r: RequestBuilder)
        ensures
            r@ == (RequestBuilderView { category_ids: category_ids.deep_view(), ..self@ }),
    {
        RequestBuilder { category_ids, ..self }
    }

    /// The linked add-ins to search by.
    pub fn linked_add_ins(self, linked_add_ins: Vec<String>) -> (r: RequestBuilder)
        ensures
            r@ == (RequestBuilderView { linked_add_ins: linked_add_ins.deep_view(), ..self@ }),
    {
        RequestBuilder { linked_add_ins, ..self }
    }

    /// The supported products to search by.
    pub fn supported_products(self, supported_products: Vec<String>) -> (r: RequestBuilder)
        ensures
            r@ == (RequestBuilderView {
                supported_products: supported_products.deep_view(),
                ..self@
            }),
    {
        RequestBuilder { supported_products, ..self }
    }

    /// The applicable products to search by.
    pub fn applicable_products(self, applicable_products: Vec<String>) -> (r: RequestBuilder)
        ensures
            r@ == (RequestBuilderView {
                applicable_products: applicable_products.deep_view(),
                ..self@
            }),
    {
        RequestBuilder { applicable_products, ..self }
    }

    /// The publisher identifiers to return.
    pub fn publisher_ids(self, publisher_ids: Vec<String>) -> (r: RequestBuilder)
        ensures
            r@ == (RequestBuilderView { publisher_ids: publisher_ids.deep_view(), ..self@ }),
    {
        RequestBuilder { publisher_ids, ..self }
    }

    /// The rating buckets to search by.
    pub fn rating_buckets(self, rating_buckets: Vec<String>) -> (r: RequestBuilder)
        ensures
            r@ == (RequestBuilderView { rating_buckets: rating_buckets.deep_view(), ..self@ }),
    {
        RequestBuilder { rating_buckets, ..self }
    }

    /// The machine image generations to search by.
    pub fn vm_image_generations(self, vm_image_generations: Vec<String>) -> (r: RequestBuilder)
        ensures
            r@ == (RequestBuilderView {
                vm_image_generations: vm_image_generations.deep_view(),
                ..self@
            }),
    {
        RequestBuilder { vm_image_generations, ..self }
    }

    /// The machine architecture kinds to search by.
    pub fn vm_architecture_types(self, vm_architecture_types: Vec<String>) -> (r: RequestBuilder)
        ensures
            r@ == (RequestBuilderView {
                vm_architecture_types: vm_architecture_types.deep_view(),
                ..self@
            }),
    {
        RequestBuilder { vm_architecture_types, ..self }
    }

    /// The machine security kinds to search by.
    pub fn vm_security_types(self, vm_security_types: Vec<String>) -> (r: RequestBuilder)
        ensures
            r@ == (RequestBuilderView {
                vm_security_types: vm_security_types.deep_view(),
                ..self@
            }),
    {
        RequestBuilder { vm_security_types, ..self }
    }

    /// The audience stage.
    pub fn publishing_stage(self, publishing_stage: &str) -> (r: RequestBuilder)
        ensures
            r@ == (RequestBuilderView { publishing_stage: Some(publishing_stage@), ..self@ }),
    {
        RequestBuilder { publishing_stage: Some(String::from_str(publishing_stage)), ..self }
    }

    /// The facets to facet by.
    pub fn facets(self, facets: Vec<String>) -> (r: RequestBuilder)
        ensures
            r@ == (RequestBuilderView { facets: facets.deep_view(), ..self@ }),
    {
        RequestBuilder { facets, ..self }
    }

    /// Number of items to skip.
    pub fn skip(self, skip: i32) -> (r: RequestBuilder)
        ensures
            r@ == (RequestBuilderView { skip: Some(skip), ..self@ }),
    {
        RequestBuilder { skip: Some(skip), ..self }
    }

    /// Number of items to return.
    pub fn top(self, top: i32) -> (r: RequestBuilder)
        ensures
            r@ == (RequestBuilderView { top: Some(top), ..self@ }),
    {
        RequestBuilder { top: Some(top), ..self }
    }

    /// The one scope string the token for this request is asked for: the
    /// client's scopes joined with single spaces. The bearer handed to
    /// `build_request` is the secret of a token obtained for this string.
    pub fn token_scope(&self) -> (r: String)
        ensures
            r@ == spec_join_spaces(self@.client_scopes),
    {
        join_spaces(&self.client.scopes)
    }

    /// The search URL: the endpoint with the `/search` path, the version
    /// selector appended only when the endpoint did not already carry one.
    pub fn url(&self) -> (r: Result<RequestUrl, Error>)
        ensures
            ({
                let full = self@.client_endpoint + "/search"@;
                &&& r is Ok <==> url_split_of(full) is Some
                &&& r matches Ok(u) ==> (url_split_of(full) matches Some(sp) && u.base@ == sp.0
                    && u.spec_pairs() == spec_with_api_version(sp.1))
                &&& r matches Err(e) ==> (e matches Error::InvalidUrl { url } && url@ == full)
            }),
    {
        let mut url_str = String::from_str(self.client.endpoint.as_str());
        url_str.append("/search");
        let mut u = match RequestUrl::parse(url_str.as_str()) {
            Ok(u) => u,
            Err(e) => {
                return Err(e);
            },
        };
        u.append_pair_if_absent("api-version", SEARCH_API_VERSION);
        Ok(u)
    }

    /// Closes the builder into the request the wire contract asks for:
    /// the search URL, the optional parameters that became query pairs in
    /// their fixed order, the bearer credential and the application name
    /// headers, and an empty body.
    pub fn build_request(&self, bearer: &str) -> (r: Result<Request, Error>)
        ensures
            ({
                let full = self@.client_endpoint + "/search"@;
                &&& r is Ok <==> url_split_of(full) is Some
                &&& r matches Ok(req) ==> (url_split_of(full) matches Some(sp) && {
                    &&& req.url.base@ == sp.0
                    &&& req.url.spec_pairs() == spec_search_pairs(
                        spec_with_api_version(sp.1),
                        self@,
                    )
                    &&& req.method == Method::Get
                    &&& req.idempotent
                    &&& req.body@ == Seq::<u8>::empty()
                    &&& req.headers.spec_get("authorization"@) == Some("Bearer "@ + bearer@)
                    &&& req.headers.spec_get("x-ms-app"@) == Some(self@.x_ms_app)
                    &&& req.wf()
                })
                &&& r matches Err(e) ==> (e matches Error::InvalidUrl { url } && url@ == full)
            }),
    {
        proof {
            reveal_strlit("authorization");
            reveal_strlit("x-ms-app");
            assert(!spec_eq_ignore_case("x-ms-app"@, "authorization"@));
        }
        let url = match self.url() {
            Ok(u) => u,
            Err(e) => {
                return Err(e);
            },
        };
        let mut req = Request::new(Method::Get, url);
        let ghost base = req.url.spec_pairs();
        match &self.search_query {
            Some(v) => req.url.append_pair("searchQuery", v.as_str()),
            None => (),
        }
        proof {
            assert(req.url.spec_pairs() =~= spec_opt_pair(base, "searchQuery"@, self@.search_query));
        }
        let ghost p1 = req.url.spec_pairs();
        match &self.publisher_display_name {
            Some(v) => req.url.append_pair("publisherDisplayName", v.as_str()),
            None => (),
        }
        proof {
            assert(req.url.spec_pairs() =~= spec_opt_pair(
                p1,
                "publisherDisplayName"@,
                self@.publisher_display_name,
            ));
        }
        let ghost p2 = req.url.spec_pairs();
        match &self.azure_benefit {
            Some(v) => req.url.append_pair("azureBenefit", v.as_str()),
            None => (),
        }
        proof {
            assert(req.url.spec_pairs() =~= spec_opt_pair(p2, "azureBenefit"@, self@.azure_benefit));
        }
        let ghost p3 = req.url.spec_pairs();
        match &self.industry_cloud {
            Some(v) => req.url.append_pair("industryCloud", v.as_str()),
            None => (),
        }
        proof {
            assert(req.url.spec_pairs() =~= spec_opt_pair(
                p3,
                "industryCloud"@,
                self@.industry_cloud,
            ));
        }
        let ghost p4 = req.url.spec_pairs();
        req.url.append_pair("language", self.language.as_str());
        proof {
            assert(req.url.spec_pairs() =~= p4.push(("language"@, self@.language)));
        }
        let ghost p5 = req.url.spec_pairs();
        match &self.gallery {
            Some(v) => req.url.append_pair("gallery", v.as_str()),
            None => (),
        }
        proof {
            assert(req.url.spec_pairs() =~= spec_opt_pair(p5, "gallery"@, self@.gallery));
        }
        let ghost p6 = req.url.spec_pairs();
        req.url.append_pair("market", self.market.as_str());
        proof {
            assert(req.url.spec_pairs() =~= p6.push(("market"@, self@.market)));
        }
        let ghost p7 = req.url.spec_pairs();
        match &self.publishing_stage {
            Some(v) => req.url.append_pair("publishingStage", v.as_str()),
            None => (),
        }
        proof {
            assert(req.url.spec_pairs() =~= spec_opt_pair(
                p7,
                "publishingStage"@,
                self@.publishing_stage,
            ));
        }
        let ghost p8 = req.url.spec_pairs();
        match &self.skip {
            Some(n) => {
                let text = fmt_i64(*n as i64);
                req.url.append_pair("skip", text.as_str());
            },
            None => (),
        }
        proof {
            assert(req.url.spec_pairs() =~= (match self@.skip {
                Some(n) => p8.push(("skip"@, spec_dec_i64(n as int))),
                None => p8,
            }));
        }
        let ghost p9 = req.url.spec_pairs();
        match &self.top {
            Some(n) => {
                let text = fmt_i64(*n as i64);
                req.url.append_pair("top", text.as_str());
            },
            None => (),
        }
        proof {
            assert(req.url.spec_pairs() =~= (match self@.top {
                Some(n) => p9.push(("top"@, spec_dec_i64(n as int))),
                None => p9,
            }));
        }
        let mut auth = String::from_str("Bearer ");
        auth.append(bearer);
        req.headers.insert("authorization", auth.as_str());
        req.headers.insert("x-ms-app", self.x_ms_app.as_str());
        proof {
            assert(req.url.spec_pairs() =~= spec_search_pairs(base, self@));
        }
        Ok(req)
    }
}

/// A pair sequence with the search version selector appended when absent.
pub open spec fn spec_with_api_version(pairs: Seq<(Seq<char>, Seq<char>)>) -> Seq<
    (Seq<char>, Seq<char>),
> {
    if spec_has_key(pairs, "api-version"@) {
        pairs
    } else {
        pairs.push(("api-version"@, SEARCH_API_VERSION@))
    }
}

/// A pair appended only when the optional parameter is set.
pub open spec fn spec_opt_pair(
    pairs: Seq<(Seq<char>, Seq<char>)>,
    key: Seq<char>,
    v: Option<Seq<char>>,
) -> Seq<(Seq<char>, Seq<char>)> {
    match v {
        Some(x) => pairs.push((key, x)),
        None => pairs,
    }
}

/// The query pairs of a built search request: the base URL's pairs, then
/// each set parameter in the wire order.
pub open spec fn spec_search_pairs(
    base: Seq<(Seq<char>, Seq<char>)>,
    v: RequestBuilderView,
) -> Seq<(Seq<char>, Seq<char>)> {
    let p = spec_opt_pair(base, "searchQuery"@, v.search_query);
    let p = spec_opt_pair(p, "publisherDisplayName"@, v.publisher_display_name);
    let p = spec_opt_pair(p, "azureBenefit"@, v.azure_benefit);
    let p = spec_opt_pair(p, "industryCloud"@, v.industry_cloud);
    let p = p.push(("language"@, v.language));
    let p = spec_opt_pair(p, "gallery"@, v.gallery);
    let p = p.push(("market"@, v.market));
    let p = spec_opt_pair(p, "publishingStage"@, v.publishing_stage);
    let p = match v.skip {
        Some(n) => p.push(("skip"@, spec_dec_i64(n as int))),
        None => p,
    };
    let p = match v.top {
        Some(n) => p.push(("top"@, spec_dec_i64(n as int))),
        None => p,
    };
    p
}

} // verus!
