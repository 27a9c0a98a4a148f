use request_core::catalog::{Client, ClientBuilder};
use request_core::headers::HeaderMap;
use request_core::message::{Method, Response};
use request_core::pipeline::TransportEvent;
use request_core::retry::RetryConfig;

#[test]
fn the_builder_defaults_endpoint_and_scopes() {
    let client = ClientBuilder::new().build();
    assert_eq!(client.endpoint, "https://catalogapi.azure.com");
    assert_eq!(client.scopes, vec![String::from("https://catalogapi.azure.com/")]);
}

#[test]
fn a_custom_endpoint_scopes_itself() {
    let client = ClientBuilder::new().endpoint("https://mirror.example.com").build();
    assert_eq!(client.endpoint, "https://mirror.example.com");
    assert_eq!(client.scopes, vec![String::from("https://mirror.example.com/")]);
}

#[test]
fn explicit_scopes_and_retry_are_kept() {
    let client = Client::builder()
        .scopes(vec![String::from("https://x/.default")])
        .retry(RetryConfig::new(5, 100, 3, 9000))
        .build();
    assert_eq!(client.scopes, vec![String::from("https://x/.default")]);
    assert_eq!(client.retry.max_attempts, 5);
    assert_eq!(client.retry.backoff_factor, 3);
}

#[test]
fn the_search_request_carries_the_parameters_in_wire_order() {
    let client = ClientBuilder::new().build();
    let req = client
        .search_client()
        .get("en", vec![String::from("All")], "US", "appsource")
        .search_query("red hat")
        .publisher_display_name("Red Hat")
        .top(20)
        .build_request("tok")
        .unwrap();
    assert_eq!(req.method, Method::Get);
    assert!(req.idempotent);
    assert!(req.body.is_empty());
    assert_eq!(
        req.url.render(),
        "https://catalogapi.azure.com/search?api-version=2022-08-17-preview&searchQuery=red+hat&publisherDisplayName=Red+Hat&language=en&market=US&top=20"
    );
    assert_eq!(
        req.headers.get("authorization").map(|v| v.as_str()),
        Some("Bearer tok")
    );
    assert_eq!(
        req.headers.get("x-ms-app").map(|v| v.as_str()),
        Some("appsource")
    );
}

#[test]
fn unset_optional_parameters_send_no_pair() {
    let client = ClientBuilder::new().build();
    let req = client
        .search_client()
        .get("de", Vec::new(), "DE", "app")
        .build_request("t")
        .unwrap();
    assert_eq!(
        req.url.render(),
        "https://catalogapi.azure.com/search?api-version=2022-08-17-preview&language=de&market=DE"
    );
}

#[test]
fn a_negative_skip_is_rendered_in_decimal() {
    let client = ClientBuilder::new().build();
    let req = client
        .search_client()
        .get("en", Vec::new(), "US", "app")
        .skip(-3)
        .build_request("t")
        .unwrap();
    assert!(req.url.render().ends_with("&skip=-3"));
}

#[test]
fn an_endpoint_version_selector_is_not_duplicated() {
    let client = ClientBuilder::new()
        .endpoint("https://mirror.example.com")
        .build();
    let req = client
        .search_client()
        .get("en", Vec::new(), "US", "app")
        .build_request("t")
        .unwrap();
    assert_eq!(
        req.url.render(),
        "https://mirror.example.com/search?api-version=2022-08-17-preview&language=en&market=US"
    );
}

#[test]
fn chained_setters_accumulate() {
    let client = ClientBuilder::new().build();
    let req = client
        .search_client()
        .get("en", Vec::new(), "US", "app")
        .azure_benefit("Eligible")
        .industry_cloud("True")
        .gallery("Azure")
        .publishing_stage("Public")
        .skip(0)
        .top(50)
        .build_request("t")
        .unwrap();
    assert_eq!(
        req.url.render(),
        "https://catalogapi.azure.com/search?api-version=2022-08-17-preview&azureBenefit=Eligible&industryCloud=True&language=en&gallery=Azure&market=US&publishingStage=Public&skip=0&top=50"
    );
}

#[test]
fn the_token_scope_is_the_scopes_joined_with_spaces() {
    let client = ClientBuilder::new()
        .scopes(vec![
            String::from("https://a/.default"),
            String::from("https://b/.default"),
        ])
        .build();
    let builder = client.search_client().get("en", Vec::new(), "US", "app");
    assert_eq!(
        builder.token_scope(),
        "https://a/.default https://b/.default"
    );
    // The defaulted scope set joins to the single endpoint scope.
    let client = ClientBuilder::new().build();
    let builder = client.search_client().get("en", Vec::new(), "US", "app");
    assert_eq!(builder.token_scope(), "https://catalogapi.azure.com/");
}

#[test]
fn the_client_sends_through_its_own_retry_policy() {
    let client = ClientBuilder::new()
        .retry(RetryConfig::new(2, 1, 2, 10))
        .build();
    let req = client
        .search_client()
        .get("en", Vec::new(), "US", "app")
        .build_request("t")
        .unwrap();
    let events = vec![
        TransportEvent::TransportFailure(String::from("reset")),
        TransportEvent::Delivered(Response {
            status: 200,
            headers: HeaderMap::new(),
            body: Vec::new(),
        }),
    ];
    let report = client.send(&req, Some("t"), events);
    assert_eq!(report.attempts, 2);
    assert_eq!(report.outcome.unwrap().status, 200);
}

#[test]
fn stored_array_parameters_do_not_reach_the_query() {
    // Array filters are carried on the builder but the wire contract of
    // this operation sends only the scalar parameters.
    let client = ClientBuilder::new().build();
    let req = client
        .search_client()
        .get("en", Vec::new(), "US", "app")
        .product_types(vec![String::from("VirtualMachine")])
        .badges(vec![String::from("PreferredSolution")])
        .orderby(vec![String::from("Popularity")])
        .build_request("t")
        .unwrap();
    assert_eq!(
        req.url.render(),
        "https://catalogapi.azure.com/search?api-version=2022-08-17-preview&language=en&market=US"
    );
}
