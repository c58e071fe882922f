//! What publish and lookup guarantee together, over a model of the object
//! store: a map from identifier to the one object kept under it.

use vstd::prelude::*;

use crate::gateway::{holds_document, lookup_outcome, publish_outcome, ObjectModel, PutModel, PutRequest};
use crate::reply::{error_reply, found_reply, GatewayError, ReplyModel};

verus! {

/// What the store's `get` finds under `key`.
pub open spec fn store_get(store: Map<Seq<char>, ObjectModel>, key: Seq<char>) -> Option<
    ObjectModel,
> {
    if store.contains_key(key) {
        Some(store[key])
    } else {
        None
    }
}

/// The store after its `put` performed `put`: the object under the key is
/// replaced whole, every other object kept.
pub open spec fn store_put(store: Map<Seq<char>, ObjectModel>, put: PutModel) -> Map<
    Seq<char>,
    ObjectModel,
> {
    store.insert(put.key, put.object)
}

/// A lookup of the identifier a publish wrote under answers the published
/// document, whether the gateway stored it compressed or not.
pub proof fn lemma_lookup_after_publish(
    store: Map<Seq<char>, ObjectModel>,
    advisory: Option<Seq<char>>,
    body: Seq<u8>,
    put: PutRequest,
    r: ReplyModel,
)
    requires
        publish_outcome(advisory, body, Ok(put)),
        lookup_outcome(store_get(store_put(store, put@), put@.key), r),
    ensures
        r == found_reply(body),
{
    assert(holds_document(put@.object, body));
}

/// Two publishes under one identifier leave exactly one object under it,
/// the second; a lookup then answers the second document.
pub proof fn lemma_last_writer_wins(
    store: Map<Seq<char>, ObjectModel>,
    first_advisory: Option<Seq<char>>,
    first_body: Seq<u8>,
    first: PutRequest,
    second_advisory: Option<Seq<char>>,
    second_body: Seq<u8>,
    second: PutRequest,
    r: ReplyModel,
)
    requires
        publish_outcome(first_advisory, first_body, Ok(first)),
        publish_outcome(second_advisory, second_body, Ok(second)),
        first@.key == second@.key,
        lookup_outcome(store_get(store_put(store_put(store, first@), second@), second@.key), r),
    ensures
        store_put(store_put(store, first@), second@).dom() == store.dom().insert(second@.key),
        store_get(store_put(store_put(store, first@), second@), second@.key) == Some(
            second@.object,
        ),
        r == found_reply(second_body),
{
    let after = store_put(store_put(store, first@), second@);
    assert(after.dom() =~= store.dom().insert(second@.key));
    assert(holds_document(second@.object, second_body));
}

/// A lookup of an identifier under which nothing was ever stored answers
/// not-found, never a decode failure.
pub proof fn lemma_lookup_unpublished(
    store: Map<Seq<char>, ObjectModel>,
    key: Seq<char>,
    r: ReplyModel,
)
    requires
        !store.contains_key(key),
        lookup_outcome(store_get(store, key), r),
    ensures
        r == error_reply(GatewayError::NotFound),
        r != error_reply(GatewayError::DecodeFailure),
{
}

} // verus!
