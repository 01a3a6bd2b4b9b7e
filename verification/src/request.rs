//! The parsed request: a single query payload or a batch of them, how it
//! is obtained from a query string or a request body, and how it is
//! executed item by item.
//!
//! The execute step itself is opaque to this crate: callers supply it as
//! a function from payload to executed item. Everything around it — the
//! parsing, the single/batch structure, the combination of item results —
//! is decided and verified here.

use vstd::prelude::*;

use crate::query_string::{
    bytes_equal, parse_query_spec, parse_query_string, QueryStringError,
};
use crate::response::{all_ok, batch_body, bodies_of, combine_batch, GraphQLResponse, ItemResponse};

verus! {

/// One GraphQL request item: the query text, and the optional operation
/// name and variables document, all percent-decoded where they came from
/// a query string. The variables are carried as their raw serialized
/// text; interpreting them belongs to the execute step's host.
#[derive(Debug, PartialEq, Eq)]
pub struct QueryPayload {
    /// The query text.
    pub query: Vec<u8>,
    /// The operation to run, when the request names one.
    pub operation_name: Option<Vec<u8>>,
    /// The serialized variables document, when the request carries one.
    pub variables: Option<Vec<u8>>,
}

/// A request is either one payload or a batch of them.
#[derive(Debug, PartialEq, Eq)]
pub enum BatchRequest {
    /// One payload, answered by one item response.
    Single(QueryPayload),
    /// Several payloads, answered by an array of item responses.
    Batch(Vec<QueryPayload>),
}

/// The parsed request a driver hands to the dispatch core.
#[derive(Debug, PartialEq, Eq)]
pub struct GraphQLRequest(pub BatchRequest);

/// Why a request could not be parsed.
#[derive(Debug, PartialEq, Eq, Clone, Copy)]
pub enum RequestError {
    /// A query-string request arrived without a query string.
    MissingQueryString,
    /// The query string itself was rejected.
    QueryString(QueryStringError),
    /// The body's content type is recognized by nobody.
    UnsupportedContentType,
    /// The body arrived without a content type.
    MissingContentType,
}

impl RequestError {
    /// The HTTP status a rejected request is answered with: a failure of
    /// the query-string grammar is the server's to report, everything
    /// else is the client's fault.
    pub fn status_code(&self) -> (s: u16)
        ensures
            s == match *self {
                RequestError::QueryString(_) => 500u16,
                _ => 400u16,
            },
    {
        match self {
            RequestError::QueryString(_) => 500,
            _ => 400,
        }
    }
}

/// How a request body is to be read, by its content type.
#[derive(Debug, PartialEq, Eq, Clone, Copy)]
pub enum BodyKind {
    /// A serialized request document: single or batch.
    Json,
    /// A bare query text.
    GraphQL,
    /// A content type nothing here understands.
    Unsupported,
    /// No content type at all.
    Missing,
}

/// How an incoming request is routed by its HTTP method.
#[derive(Debug, PartialEq, Eq, Clone, Copy)]
pub enum RequestRoute {
    /// A `GET` request: the request is read from the query string.
    QueryString,
    /// A `POST` request: the request is read from the body.
    Body,
    /// Any other method is not served.
    Rejected,
}

/// The bytes of the method `GET`.
pub open spec fn get_method() -> Seq<u8> {
    seq![71u8, 69u8, 84u8]
}

/// The bytes of the method `POST`.
pub open spec fn post_method() -> Seq<u8> {
    seq![80u8, 79u8, 83u8, 84u8]
}

/// Decide where a request's content comes from: `GET` reads the query
/// string, `POST` reads the body, anything else is rejected.
pub fn route_request(method: &Vec<u8>) -> (r: RequestRoute)
    ensures
        r == if method@ == get_method() {
            RequestRoute::QueryString
        } else if method@ == post_method() {
            RequestRoute::Body
        } else {
            RequestRoute::Rejected
        },
{
    let get_lit: Vec<u8> = vec![71u8, 69u8, 84u8];
    let post_lit: Vec<u8> = vec![80u8, 79u8, 83u8, 84u8];
    proof {
        assert(get_lit@ =~= get_method());
        assert(post_lit@ =~= post_method());
    }
    if bytes_equal(method, &get_lit) {
        RequestRoute::QueryString
    } else if bytes_equal(method, &post_lit) {
        RequestRoute::Body
    } else {
        RequestRoute::Rejected
    }
}

/// The bytes of `application/json`.
pub open spec fn json_content_type() -> Seq<u8> {
    seq![97u8, 112u8, 112u8, 108u8, 105u8, 99u8, 97u8, 116u8, 105u8, 111u8, 110u8, 47u8, 106u8,
        115u8, 111u8, 110u8]
}

/// The bytes of `application/graphql`.
pub open spec fn graphql_content_type() -> Seq<u8> {
    seq![97u8, 112u8, 112u8, 108u8, 105u8, 99u8, 97u8, 116u8, 105u8, 111u8, 110u8, 47u8, 103u8,
        114u8, 97u8, 112u8, 104u8, 113u8, 108u8]
}

/// Decide how a body is to be read from its content type.
pub fn classify_content_type(content_type: Option<&Vec<u8>>) -> (k: BodyKind)
    ensures
        content_type is None ==> k == BodyKind::Missing,
        content_type matches Some(v) ==> k == if v@ == json_content_type() {
            BodyKind::Json
        } else if v@ == graphql_content_type() {
            BodyKind::GraphQL
        } else {
            BodyKind::Unsupported
        },
{
    match content_type {
        None => BodyKind::Missing,
        Some(v) => {
            let json_lit: Vec<u8> = vec![97u8, 112u8, 112u8, 108u8, 105u8, 99u8, 97u8, 116u8,
                105u8, 111u8, 110u8, 47u8, 106u8, 115u8, 111u8, 110u8];
            let graphql_lit: Vec<u8> = vec![97u8, 112u8, 112u8, 108u8, 105u8, 99u8, 97u8, 116u8,
                105u8, 111u8, 110u8, 47u8, 103u8, 114u8, 97u8, 112u8, 104u8, 113u8, 108u8];
            proof {
                assert(json_lit@ =~= json_content_type());
                assert(graphql_lit@ =~= graphql_content_type());
            }
            if bytes_equal(v, &json_lit) {
                BodyKind::Json
            } else if bytes_equal(v, &graphql_lit) {
                BodyKind::GraphQL
            } else {
                BodyKind::Unsupported
            }
        },
    }
}

impl GraphQLRequest {
    /// Parse a single request from a URL query string.
    pub fn from_query(s: &Vec<u8>) -> (r: Result<GraphQLRequest, RequestError>)
        ensures
            match r {
                Ok(req) => (req.0 matches BatchRequest::Single(p) && parse_query_spec(s@) == Ok::<
                    (Seq<u8>, Option<Seq<u8>>, Option<Seq<u8>>),
                    QueryStringError,
                >(
                    (
                        p.query@,
                        match p.operation_name {
                            Some(v) => Some(v@),
                            None => None,
                        },
                        match p.variables {
                            Some(v) => Some(v@),
                            None => None,
                        },
                    ),
                )),
                Err(e) => (e matches RequestError::QueryString(qe) && parse_query_spec(s@)
                    == Err::<(Seq<u8>, Option<Seq<u8>>, Option<Seq<u8>>), QueryStringError>(qe)),
            },
    {
        match parse_query_string(s) {
            Ok((query, operation_name, variables)) => Ok(
                GraphQLRequest(
                    BatchRequest::Single(QueryPayload { query, operation_name, variables }),
                ),
            ),
            Err(e) => Err(RequestError::QueryString(e)),
        }
    }

    /// Parse a single request from a query string that may be absent
    /// altogether.
    pub fn from_query_string(s: Option<&Vec<u8>>) -> (r: Result<GraphQLRequest, RequestError>)
        ensures
            s is None ==> r == Err::<GraphQLRequest, RequestError>(
                RequestError::MissingQueryString,
            ),
            s matches Some(v) ==> match r {
                Ok(req) => (req.0 matches BatchRequest::Single(p) && parse_query_spec(v@) == Ok::<
                    (Seq<u8>, Option<Seq<u8>>, Option<Seq<u8>>),
                    QueryStringError,
                >(
                    (
                        p.query@,
                        match p.operation_name {
                            Some(on) => Some(on@),
                            None => None,
                        },
                        match p.variables {
                            Some(vars) => Some(vars@),
                            None => None,
                        },
                    ),
                )),
                Err(e) => (e matches RequestError::QueryString(qe) && parse_query_spec(v@)
                    == Err::<(Seq<u8>, Option<Seq<u8>>, Option<Seq<u8>>), QueryStringError>(qe)),
            },
    {
        match s {
            None => Err(RequestError::MissingQueryString),
            Some(v) => GraphQLRequest::from_query(v),
        }
    }

    /// A request read from an `application/graphql` body: the body is the
    /// bare query text.
    pub fn from_graphql_body(body: Vec<u8>) -> (r: GraphQLRequest)
        ensures
            r.0 matches BatchRequest::Single(p) && p.query == body && p.operation_name is None
                && p.variables is None,
    {
        GraphQLRequest(
            BatchRequest::Single(
                QueryPayload { query: body, operation_name: None, variables: None },
            ),
        )
    }

    /// Execute the request, one call of `f` per payload, and combine the
    /// items: a single request passes its item through, a batch is framed
    /// as an array and succeeds only when every item did.
    pub fn execute<F: Fn(QueryPayload) -> ItemResponse>(self, f: F) -> (r: GraphQLResponse)
        requires
            forall|p: QueryPayload| call_requires(f, (p,)),
        ensures
            self.0 matches BatchRequest::Single(p) ==> exists|it: ItemResponse|
                #[trigger] call_ensures(f, (p,), it) && r.is_ok == it.is_ok && r.body == it.body,
            self.0 matches BatchRequest::Batch(ps) ==> exists|its: Seq<ItemResponse>|
                {
                    &&& its.len() == ps@.len()
                    &&& (forall|i: int|
                        0 <= i < ps@.len() ==> call_ensures(f, (ps@[i],), #[trigger] its[i]))
                    &&& r.is_ok == all_ok(its)
                    &&& r.body@ == batch_body(bodies_of(its))
                },
    {
        let GraphQLRequest(batch) = self;
        match batch {
            BatchRequest::Single(p) => {
                let it = f(p);
                GraphQLResponse::from_item(it)
            },
            BatchRequest::Batch(ps) => {
                let ghost ps0 = ps@;
                let mut rest = ps;
                let mut items: Vec<ItemResponse> = Vec::new();
                while rest.len() > 0
                    invariant
                        forall|p: QueryPayload| call_requires(f, (p,)),
                        items@.len() + rest@.len() == ps0.len(),
                        rest@ =~= ps0.skip(items@.len() as int),
                        forall|i: int|
                            0 <= i < items@.len() ==> call_ensures(
                                f,
                                (ps0[i],),
                                #[trigger] items@[i],
                            ),
                    decreases rest@.len(),
                {
                    let p = rest.remove(0);
                    let it = f(p);
                    items.push(it);
                    proof {
                        assert(rest@ =~= ps0.skip(items@.len() as int));
                    }
                }
                combine_batch(items)
            },
        }
    }
}

} // verus!
