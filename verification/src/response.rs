//! Executed responses and their wire framing.
//!
//! Each executed request item yields a serialized body and a success flag.
//! A single request passes its item through; a batch is framed as a JSON
//! array of the item bodies — `[`, the bodies joined by `,`, `]` — and
//! succeeds only when every item succeeded. A response's status code is
//! `200` on success and `400` on failure.

use vstd::prelude::*;

verus! {

/// One executed request item: its serialized body and whether execution
/// succeeded.
#[derive(Debug, PartialEq, Eq)]
pub struct ItemResponse {
    /// Whether this item executed without errors.
    pub is_ok: bool,
    /// The item's serialized body.
    pub body: Vec<u8>,
}

/// The response of a whole request, single or batch.
#[derive(Debug, PartialEq, Eq)]
pub struct GraphQLResponse {
    /// Whether every executed item succeeded.
    pub is_ok: bool,
    /// The serialized response body.
    pub body: Vec<u8>,
}

/// The response of a single-item request endpoint.
#[derive(Debug, PartialEq, Eq)]
pub struct QueryResponse {
    /// Whether the item executed without errors.
    pub is_ok: bool,
    /// The serialized response body.
    pub body: Vec<u8>,
}

/// The item bodies after the first, each preceded by a comma.
pub open spec fn joined_tail(bodies: Seq<Seq<u8>>) -> Seq<u8>
    decreases bodies.len(),
{
    if bodies.len() == 0 {
        Seq::empty()
    } else {
        seq![44u8] + bodies[0] + joined_tail(bodies.skip(1))
    }
}

/// The item bodies joined by commas.
pub open spec fn joined(bodies: Seq<Seq<u8>>) -> Seq<u8> {
    if bodies.len() == 0 {
        Seq::empty()
    } else {
        bodies[0] + joined_tail(bodies.skip(1))
    }
}

/// The array framing of a batch: the joined bodies in brackets.
pub open spec fn batch_body(bodies: Seq<Seq<u8>>) -> Seq<u8> {
    seq![91u8] + joined(bodies) + seq![93u8]
}

/// Whether every item succeeded.
pub open spec fn all_ok(items: Seq<ItemResponse>) -> bool {
    forall|i: int| 0 <= i < items.len() ==> items[i].is_ok
}

/// The bodies of a sequence of items.
pub open spec fn bodies_of(items: Seq<ItemResponse>) -> Seq<Seq<u8>> {
    items.map_values(|it: ItemResponse| it.body@)
}

/// Frame a batch of executed items as one response: an array of their
/// bodies, successful only when every item was.
pub fn combine_batch(items: Vec<ItemResponse>) -> (r: GraphQLResponse)
    ensures
        r.is_ok == all_ok(items@),
        r.body@ == batch_body(bodies_of(items@)),
{
    let ghost items0 = items@;
    let mut ok = true;
    let mut i: usize = 0;
    while i < items.len()
        invariant
            i <= items@.len(),
            ok == (forall|j: int| 0 <= j < i ==> items@[j].is_ok),
        decreases items@.len() - i,
    {
        let item_ok = items[i].is_ok;
        let ghost old_ok = ok;
        ok = ok && item_ok;
        proof {
            if ok {
                assert forall|j: int| 0 <= j < i + 1 implies items@[j].is_ok by {
                    if j < i {
                        assert(old_ok);
                    }
                }
            } else {
                if old_ok {
                    assert(!items@[i as int].is_ok);
                }
            }
        }
        i = i + 1;
    }
    let mut rest = items;
    let mut body: Vec<u8> = Vec::new();
    body.push(91);
    if rest.len() > 0 {
        let mut first = rest.remove(0);
        body.append(&mut first.body);
        proof {
            assert(rest@ =~= items0.skip(1));
            assert(bodies_of(rest@) =~= bodies_of(items0).skip(1));
            assert(body@ =~= seq![91u8] + bodies_of(items0)[0]);
            assert(body@ + joined_tail(bodies_of(rest@)) =~= seq![91u8] + joined(
                bodies_of(items0),
            ));
        }
        while rest.len() > 0
            invariant
                body@ + joined_tail(bodies_of(rest@)) == seq![91u8] + joined(bodies_of(items0)),
            decreases rest@.len(),
        {
            let ghost rest_before = rest@;
            let mut item = rest.remove(0);
            body.push(44);
            body.append(&mut item.body);
            proof {
                assert(rest@ =~= rest_before.skip(1));
                assert(bodies_of(rest@) =~= bodies_of(rest_before).skip(1));
                assert(body@ + joined_tail(bodies_of(rest@)) =~= seq![91u8] + joined(
                    bodies_of(items0),
                ));
            }
        }
    }
    body.push(93);
    proof {
        assert(joined_tail(bodies_of(rest@)) =~= Seq::<u8>::empty());
        assert(body@ =~= batch_body(bodies_of(items0)));
    }
    GraphQLResponse { is_ok: ok, body }
}

impl GraphQLResponse {
    /// Wrap one executed item unchanged.
    pub fn from_item(item: ItemResponse) -> (r: GraphQLResponse)
        ensures
            r.is_ok == item.is_ok,
            r.body == item.body,
    {
        GraphQLResponse { is_ok: item.is_ok, body: item.body }
    }

    /// The HTTP status this response is served with.
    pub fn status_code(&self) -> (s: u16)
        ensures
            s == if self.is_ok {
                200u16
            } else {
                400u16
            },
    {
        if self.is_ok {
            200
        } else {
            400
        }
    }
}

impl QueryResponse {
    /// Wrap one executed item unchanged.
    pub fn from_item(item: ItemResponse) -> (r: QueryResponse)
        ensures
            r.is_ok == item.is_ok,
            r.body == item.body,
    {
        QueryResponse { is_ok: item.is_ok, body: item.body }
    }

    /// The HTTP status this response is served with.
    pub fn status_code(&self) -> (s: u16)
        ensures
            s == if self.is_ok {
                200u16
            } else {
                400u16
            },
    {
        if self.is_ok {
            200
        } else {
            400
        }
    }
}

} // verus!
