use base64::Engine;
use nomad_drain::aws::{VaultAwsAuthIamPayload, IAM_SERVER_ID_HEADER};
use nomad_drain::http::{HttpRequest, Method, RequestBody};
use nomad_drain::nomad::{Client, DrainSpec, NodeEligibility};
use nomad_drain::vault::{build_login_aws_iam_request, build_nomad_token_request};
use nomad_drain::Error;

const NOMAD_ADDRESS: &str = "http://127.0.0.1:4646";

fn vault_address() -> String {
    "http://127.0.0.1:8200".to_string()
}

fn nomad_client() -> Client {
    Client::new(NOMAD_ADDRESS, Some("token"), None).expect("Not to fail")
}

fn to_reqwest(r: &HttpRequest) -> reqwest::blocking::Request {
    let client = reqwest::blocking::Client::new();
    let method = match r.method {
        Method::Get => reqwest::Method::GET,
        Method::Post => reqwest::Method::POST,
    };
    let mut builder = client.request(method, r.url.as_str());
    if !r.query.is_empty() {
        builder = builder.query(&r.query);
    }
    for (name, value) in &r.headers {
        builder = builder.header(name.as_str(), value.as_str());
    }
    builder.build().expect("request to build")
}

fn credentials() -> rusoto_core::credential::AwsCredentials {
    rusoto_core::credential::AwsCredentials::new("mock_key", "mock_secret", None, None)
}

fn region() -> rusoto_core::Region {
    rusoto_core::Region::UsEast1
}

fn vault_aws_iam_payload(header_value: Option<&str>) -> VaultAwsAuthIamPayload {
    VaultAwsAuthIamPayload::new(&credentials(), header_value, Some(region()))
}

fn b64(text: &str) -> String {
    base64::engine::general_purpose::STANDARD.encode(text)
}

fn header_values<'a>(payload: &'a VaultAwsAuthIamPayload, name: &str) -> Option<&'a Vec<String>> {
    payload.iam_request_headers.iter().find(|(k, _)| k == name).map(|(_, v)| v)
}

#[test]
fn vault_aws_iam_payload_has_expected_values() {
    let payload = vault_aws_iam_payload(Some("vault.example.com"));

    assert_eq!(payload.iam_http_request_method, "POST");
    assert_eq!(
        payload.iam_request_url,
        b64(&format!("https://sts.{}.amazonaws.com/", region().name()))
    );
    assert_eq!(
        payload.iam_request_body,
        b64("Action=GetCallerIdentity&Version=2011-06-15")
    );
    assert!(header_values(&payload, "authorization").is_some());
    assert_eq!(
        header_values(&payload, &IAM_SERVER_ID_HEADER.to_lowercase()),
        Some(&vec!["vault.example.com".to_string()])
    );
}

#[test]
fn vault_aws_iam_payload_authorization_names_the_key_and_the_signed_headers() {
    let payload = vault_aws_iam_payload(Some("vault.example.com"));
    let authorization = &header_values(&payload, "authorization").unwrap()[0];
    assert!(authorization.starts_with("AWS4-HMAC-SHA256 Credential=mock_key/"));
    let signed = authorization
        .split(", SignedHeaders=")
        .nth(1)
        .unwrap()
        .split(", Signature=")
        .next()
        .unwrap();
    assert_eq!(
        signed,
        "content-type;host;x-amz-content-sha256;x-amz-date;x-vault-aws-iam-server-id"
    );
    assert_eq!(
        payload.iam_request_url,
        b64("https://sts.us-east-1.amazonaws.com/")
    );
}

#[test]
fn vault_aws_iam_payload_without_header_value_has_no_server_id_header() {
    let payload = vault_aws_iam_payload(None);
    assert!(header_values(&payload, &IAM_SERVER_ID_HEADER.to_lowercase()).is_none());
    assert_eq!(payload.iam_request_body, "QWN0aW9uPUdldENhbGxlcklkZW50aXR5JlZlcnNpb249MjAxMS0wNi0xNQ==");
    assert_eq!(
        header_values(&payload, "content-type"),
        Some(&vec!["application/x-www-form-urlencoded".to_string()])
    );
    assert_eq!(
        header_values(&payload, "host"),
        Some(&vec![format!("sts.{}.amazonaws.com", region().name())])
    );
    let authorization = header_values(&payload, "authorization").unwrap();
    assert_eq!(authorization.len(), 1);
    assert!(authorization[0].starts_with("AWS4-HMAC-SHA256 Credential="));
    assert_eq!(header_values(&payload, "x-amz-date").map(|v| v.len()), Some(1));
    assert_eq!(header_values(&payload, "x-amz-content-sha256").map(|v| v.len()), Some(1));
    let names: Vec<&String> = payload.iam_request_headers.iter().map(|(k, _)| k).collect();
    let mut sorted = names.clone();
    sorted.sort();
    assert_eq!(names, sorted);
}

#[test]
fn payload_from_signed_request_parts_encodes_url_body_and_headers() {
    let payload = VaultAwsAuthIamPayload::from_signed_request_parts(
        "https",
        "sts.amazonaws.com",
        "/",
        b"ab",
        vec![("host".to_string(), vec![b"sts".to_vec(), b"x".to_vec()])],
    );
    assert_eq!(payload.iam_http_request_method, "POST");
    assert_eq!(payload.iam_request_url, "aHR0cHM6Ly9zdHMuYW1hem9uYXdzLmNvbS8=");
    assert_eq!(payload.iam_request_body, "YWI=");
    assert_eq!(
        payload.iam_request_headers,
        vec![("host".to_string(), vec!["sts".to_string(), "x".to_string()])]
    );
}

#[test]
fn build_node_details_request_is_built_properly() {
    let client = nomad_client();
    let request = client.build_node_details_request("id", Some(1234), Some(300));
    let request = to_reqwest(&request);

    assert_eq!(
        format!("{}/v1/node/{}?index={}&wait={}", NOMAD_ADDRESS, "id", "1234", "300s"),
        request.url().to_string()
    );
    assert_eq!(&reqwest::Method::GET, request.method());

    let actual_token = request.headers().get("X-Nomad-Token");
    assert!(actual_token.is_some());
    assert_eq!("token", actual_token.unwrap());
}

#[test]
fn blocking_query_needs_an_index() {
    let client = nomad_client();
    let request = client.build_node_details_request("id", None, Some(300));
    assert!(request.query.is_empty());
    let request = client.build_node_details_request("id", Some(7), None);
    assert_eq!(request.query, vec![("index".to_string(), "7".to_string())]);
    let request = client.build_node_details_request("id", Some(0), Some(u64::MAX));
    assert_eq!(
        request.query,
        vec![
            ("index".to_string(), "0".to_string()),
            ("wait".to_string(), "18446744073709551615s".to_string())
        ]
    );
}

#[test]
fn requests_without_token_have_no_token_header() {
    let client = Client::new(NOMAD_ADDRESS, None, None).unwrap();
    assert_eq!(client.token(), None);
    assert_eq!(client.address(), NOMAD_ADDRESS);
    let request = client.build_nodes_request(None, None);
    assert!(request.headers.is_empty());
    assert_eq!(request.url, "http://127.0.0.1:4646/v1/nodes");
    assert_eq!(request.header("X-Nomad-Token"), None);
}

#[test]
fn eligibility_and_drain_requests() {
    let client = nomad_client();
    let request = client.node_eligibility_request("n1", NodeEligibility::Ineligible);
    assert_eq!(request.method, Method::Post);
    assert_eq!(request.url, "http://127.0.0.1:4646/v1/node/n1/eligibility");
    assert_eq!(request.header("X-Nomad-Token").map(|s| s.as_str()), Some("token"));
    match &request.body {
        RequestBody::NodeEligibility(p) => {
            assert_eq!(p.node_id, "n1");
            assert_eq!(p.eligibility, NodeEligibility::Ineligible);
        }
        other => panic!("unexpected body {:?}", other),
    }

    let (_, request) = client.start_node_drain("n1", false, None);
    assert_eq!(request.url, "http://127.0.0.1:4646/v1/node/n1/drain");
    match &request.body {
        RequestBody::NodeDrain(p) => {
            assert_eq!(p.node_id, "n1");
            assert_eq!(p.drain_spec, DrainSpec { deadline: 3600, ignore_system_jobs: false });
        }
        other => panic!("unexpected body {:?}", other),
    }
    let spec = DrainSpec { deadline: 10, ignore_system_jobs: true };
    let (_, request) = client.start_node_drain("n1", true, Some(spec));
    assert!(matches!(&request.body, RequestBody::NodeDrain(p) if p.drain_spec == spec));
}

#[test]
fn drain_spec_default_and_eligibility_text() {
    let spec = DrainSpec::default();
    assert_eq!(spec.deadline, 3600);
    assert!(!spec.ignore_system_jobs);
    assert_eq!(NodeEligibility::Eligible.to_display_string(), "Eligible");
    assert_eq!(NodeEligibility::Ineligible.to_display_string(), "Ineligible");
}

#[test]
fn indexed_response_reads_the_index_header() {
    let r = Client::make_indexed_response(Some("42"), "data").unwrap();
    assert_eq!(r.index, 42);
    assert_eq!(r.data, "data");
    assert_eq!(Client::make_indexed_response(None, 1u8).unwrap().index, 0);
    assert_eq!(Client::make_indexed_response(Some("+7"), ()).unwrap().index, 7);
    assert_eq!(Client::make_indexed_response(Some("18446744073709551615"), ()).unwrap().index, u64::MAX);
    assert!(matches!(Client::make_indexed_response(Some("abc"), ()), Err(Error::ParseIntError(_))));
    assert!(matches!(Client::make_indexed_response(Some(""), ()), Err(Error::ParseIntError(_))));
    assert!(matches!(Client::make_indexed_response(Some("-1"), ()), Err(Error::ParseIntError(_))));
    assert!(matches!(
        Client::make_indexed_response(Some("18446744073709551616"), ()),
        Err(Error::ParseIntError(_))
    ));
}

#[test]
fn index_written_in_a_query_reads_back() {
    let client = nomad_client();
    for index in [0u64, 9, 10, 1234, u64::MAX] {
        let request = client.build_node_details_request("id", Some(index), None);
        let written = &request.query[0].1;
        assert_eq!(Client::make_indexed_response(Some(written), ()).unwrap().index, index);
    }
    assert_eq!(nomad_drain::text::u64_to_decimal(1234), "1234");
    assert_eq!(nomad_drain::text::u64_to_decimal(0), "0");
}

#[test]
fn login_aws_iam_request_is_built_properly() {
    let address = vault_address();
    let aws_payload = vault_aws_iam_payload(None);
    let request = build_login_aws_iam_request(&address, "aws", "default", &aws_payload).unwrap();
    let built = to_reqwest(&request);

    assert_eq!(format!("{}/v1/auth/aws/login", address), built.url().to_string());
    assert_eq!(&reqwest::Method::POST, built.method());
    match &request.body {
        RequestBody::AwsIamLogin(p) => {
            assert_eq!(p.role, "default");
            assert_eq!(p.aws_payload, aws_payload);
        }
        other => panic!("unexpected body {:?}", other),
    }
}

#[test]
fn login_request_with_bad_address_fails() {
    let aws_payload = vault_aws_iam_payload(None);
    let result = build_login_aws_iam_request("not a url", "aws", "default", &aws_payload);
    assert!(matches!(result, Err(Error::UrlParseError(_))));
}

#[test]
fn nomad_token_request_is_built_properly() {
    let address = vault_address();
    let token = "vault_token";
    let request = build_nomad_token_request(&address, "nomad", "default", token).unwrap();
    let request = to_reqwest(&request);

    assert_eq!(format!("{}/v1/nomad/creds/default", address), request.url().to_string());
    assert_eq!(&reqwest::Method::GET, request.method());

    let actual_token = request.headers().get("X-Vault-Token");
    assert!(actual_token.is_some());
    assert_eq!("vault_token", actual_token.unwrap());
}
