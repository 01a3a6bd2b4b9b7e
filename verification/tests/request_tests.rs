use graphql_dispatch::percent::percent_decode;
use graphql_dispatch::query_string::{parse_query_string, QueryStringError};
use graphql_dispatch::request::{
    classify_content_type, route_request, BatchRequest, BodyKind, GraphQLRequest, QueryPayload,
    RequestError, RequestRoute,
};
use graphql_dispatch::response::{combine_batch, GraphQLResponse, ItemResponse, QueryResponse};

#[test]
fn percent_decode_unescapes_hex_pairs() {
    assert_eq!(percent_decode(&b"a%20b".to_vec()), b"a b".to_vec());
    assert_eq!(percent_decode(&b"%7Bping%7D".to_vec()), b"{ping}".to_vec());
    assert_eq!(percent_decode(&b"%41%6a".to_vec()), b"Aj".to_vec());
}

#[test]
fn percent_decode_passes_malformed_escapes_through() {
    assert_eq!(percent_decode(&b"100%".to_vec()), b"100%".to_vec());
    assert_eq!(percent_decode(&b"%2".to_vec()), b"%2".to_vec());
    assert_eq!(percent_decode(&b"%zz".to_vec()), b"%zz".to_vec());
    assert_eq!(percent_decode(&b"plain".to_vec()), b"plain".to_vec());
}

#[test]
fn parse_query_string_decodes_all_fields() {
    let input = b"query=%7Bping%7D&operation_name=Op&variables=%7B%22a%22%3A1%7D".to_vec();
    let (query, operation_name, variables) = parse_query_string(&input).unwrap();
    assert_eq!(query, b"{ping}".to_vec());
    assert_eq!(operation_name, Some(b"Op".to_vec()));
    assert_eq!(variables, Some(b"{\"a\":1}".to_vec()));
}

#[test]
fn parse_query_string_requires_query() {
    let input = b"operation_name=Op".to_vec();
    assert_eq!(parse_query_string(&input), Err(QueryStringError::MissingQuery));
}

#[test]
fn parse_query_string_rejects_repeated_keys() {
    let input = b"query=a&query=b".to_vec();
    assert_eq!(parse_query_string(&input), Err(QueryStringError::DuplicateField));
}

#[test]
fn parse_query_string_ignores_unknown_keys() {
    let input = b"other=1&query=x&=odd".to_vec();
    let (query, operation_name, variables) = parse_query_string(&input).unwrap();
    assert_eq!(query, b"x".to_vec());
    assert_eq!(operation_name, None);
    assert_eq!(variables, None);
}

#[test]
fn parse_query_string_key_without_separator_has_empty_value() {
    let input = b"query".to_vec();
    let (query, _, _) = parse_query_string(&input).unwrap();
    assert_eq!(query, b"".to_vec());
}

#[test]
fn from_query_builds_a_single_request() {
    let req = GraphQLRequest::from_query(&b"query=%7Bping%7D".to_vec()).unwrap();
    match req.0 {
        BatchRequest::Single(p) => {
            assert_eq!(p.query, b"{ping}".to_vec());
            assert_eq!(p.operation_name, None);
            assert_eq!(p.variables, None);
        },
        BatchRequest::Batch(_) => panic!("expected a single request"),
    }
}

#[test]
fn from_query_string_rejects_absent_query_string() {
    assert_eq!(
        GraphQLRequest::from_query_string(None),
        Err(RequestError::MissingQueryString)
    );
}

#[test]
fn from_graphql_body_takes_the_body_as_query() {
    let req = GraphQLRequest::from_graphql_body(b"{ping}".to_vec());
    match req.0 {
        BatchRequest::Single(p) => {
            assert_eq!(p.query, b"{ping}".to_vec());
            assert_eq!(p.operation_name, None);
            assert_eq!(p.variables, None);
        },
        BatchRequest::Batch(_) => panic!("expected a single request"),
    }
}

#[test]
fn content_types_are_classified() {
    assert_eq!(
        classify_content_type(Some(&b"application/json".to_vec())),
        BodyKind::Json
    );
    assert_eq!(
        classify_content_type(Some(&b"application/graphql".to_vec())),
        BodyKind::GraphQL
    );
    assert_eq!(
        classify_content_type(Some(&b"text/plain".to_vec())),
        BodyKind::Unsupported
    );
    assert_eq!(classify_content_type(None), BodyKind::Missing);
}

#[test]
fn methods_are_routed() {
    assert_eq!(route_request(&b"GET".to_vec()), RequestRoute::QueryString);
    assert_eq!(route_request(&b"POST".to_vec()), RequestRoute::Body);
    assert_eq!(route_request(&b"PUT".to_vec()), RequestRoute::Rejected);
}

#[test]
fn executing_a_single_request_passes_the_item_through() {
    let req = GraphQLRequest::from_graphql_body(b"{ping}".to_vec());
    let resp = req.execute(|p: QueryPayload| ItemResponse {
        is_ok: true,
        body: if p.query == b"{ping}".to_vec() {
            b"{\"data\":\"pong\"}".to_vec()
        } else {
            b"{}".to_vec()
        },
    });
    assert!(resp.is_ok);
    assert_eq!(resp.body, b"{\"data\":\"pong\"}".to_vec());
    assert_eq!(resp.status_code(), 200);
}

#[test]
fn executing_a_batch_frames_an_array_and_requires_every_item_ok() {
    let payload = |q: &[u8]| QueryPayload {
        query: q.to_vec(),
        operation_name: None,
        variables: None,
    };
    let req = GraphQLRequest(BatchRequest::Batch(vec![payload(b"one"), payload(b"two")]));
    let resp = req.execute(|p: QueryPayload| ItemResponse {
        is_ok: p.query != b"two".to_vec(),
        body: p.query,
    });
    assert!(!resp.is_ok);
    assert_eq!(resp.body, b"[one,two]".to_vec());
    assert_eq!(resp.status_code(), 400);
}

#[test]
fn empty_batch_is_an_empty_array() {
    let resp = combine_batch(vec![]);
    assert!(resp.is_ok);
    assert_eq!(resp.body, b"[]".to_vec());
}

#[test]
fn request_errors_map_to_statuses() {
    assert_eq!(RequestError::MissingQueryString.status_code(), 400);
    assert_eq!(
        RequestError::QueryString(QueryStringError::MissingQuery).status_code(),
        500
    );
    assert_eq!(
        RequestError::QueryString(QueryStringError::DuplicateField).status_code(),
        500
    );
    assert_eq!(RequestError::UnsupportedContentType.status_code(), 400);
    assert_eq!(RequestError::MissingContentType.status_code(), 400);
}

#[test]
fn responses_map_success_to_status() {
    let ok = GraphQLResponse::from_item(ItemResponse { is_ok: true, body: b"{}".to_vec() });
    assert_eq!(ok.status_code(), 200);
    let bad = QueryResponse::from_item(ItemResponse { is_ok: false, body: b"{}".to_vec() });
    assert_eq!(bad.status_code(), 400);
    assert_eq!(bad.body, b"{}".to_vec());
}
