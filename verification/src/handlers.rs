//! What the two endpoints answer.

use vstd::prelude::*;
use crate::identifier::{identifier, parse_id};
use crate::model::{append, length, lookup, Collections};
use crate::payload::{parse, parsed, Payload, Record};
use crate::response::{Response, StatusCode};
use crate::state::State;

verus! {

/// The answer to a fetch of the record that the path segment `id` names in
/// the collection `name`: the record if the segment is an id and the store
/// holds a record under it, a refusal if the segment is no id, and otherwise
/// the notice that nothing was found.
pub open spec fn fetched(store: Collections, name: Seq<char>, id: Seq<char>) -> Response {
    match identifier(id) {
        None => Response { status: StatusCode::BadRequest, body: None },
        Some(n) => match lookup(store, name, n as int) {
            Some(record) => Response { status: StatusCode::Success, body: Some(record) },
            None => Response { status: StatusCode::NotFound, body: None },
        },
    }
}

/// The answer to a request to create a record from `payload`, the JSON
/// value of the request body if it was JSON at all: an object is accepted
/// and echoed, anything else is refused.
pub open spec fn created(payload: Option<Payload>) -> Response {
    match payload {
        Some(Payload::Object(record)) => Response { status: StatusCode::Success, body: Some(record) },
        _ => Response { status: StatusCode::BadRequest, body: None },
    }
}

/// The store after a request to create a record from `payload` in the
/// collection `name`: an object is appended, anything else changes nothing.
pub open spec fn stored(
    store: Collections,
    name: Seq<char>,
    payload: Option<Payload>,
) -> Collections {
    match payload {
        Some(Payload::Object(record)) => append(store, name, record),
        _ => store,
    }
}

/// Endpoint handler to fetch an entity: the `id`-th record of the `typ`
/// collection, where `id` is the identifier as the request path spells it.
pub fn get(state: &State, typ: &String, id: &str) -> (response: Response)
    ensures
        response == fetched(state@, typ@, id@),
{
    let id = match parse_id(id) {
        Ok(id) => id,
        Err(error) => {
            return Response { status: error.status(), body: None };
        },
    };
    match state.get(typ, id) {
        Some(record) => Response { status: StatusCode::Success, body: Some(record) },
        None => Response { status: StatusCode::NotFound, body: None },
    }
}

/// Stores `payload`, the JSON value of a request body or nothing where the
/// body was not JSON, as a new record of the `typ` collection. The answer
/// to an accepted object echoes it.
pub fn create(state: &mut State, typ: &String, payload: Option<Payload>) -> (response: Response)
    ensures
        response == created(payload),
        final(state)@ == stored(old(state)@, typ@, payload),
{
    let record = match payload {
        Some(Payload::Object(record)) => record,
        _ => {
            return Response { status: StatusCode::BadRequest, body: None };
        },
    };
    let echo = record.clone();
    match state.insert(typ, Payload::Object(record)) {
        Ok(()) => Response { status: StatusCode::Success, body: Some(echo) },
        Err(error) => Response { status: error.status(), body: None },
    }
}

/// Handler to store a new entity in the state: `body` is the request body
/// as it came over the wire. It is parsed as JSON and handed to
/// [`create`].
pub fn post(state: &mut State, typ: &String, body: &[u8]) -> (response: Response)
    ensures
        response == created(parsed(body@)),
        final(state)@ == stored(old(state)@, typ@, parsed(body@)),
{
    create(state, typ, parse(body))
}

/// A record that was created is fetched under the id that the collection's
/// length at the time gives it, however that id is spelt, and the answer
/// to the fetch carries what the answer to the create echoed.
pub proof fn lemma_created_is_fetched(
    store: Collections,
    name: Seq<char>,
    record: Record,
    id: Seq<char>,
)
    requires
        identifier(id) is Some,
        identifier(id)->0 == length(store, name),
    ensures
        fetched(stored(store, name, Some(Payload::Object(record))), name, id) == created(
            Some(Payload::Object(record)),
        ),
        created(Some(Payload::Object(record))) == (Response {
            status: StatusCode::Success,
            body: Some(record),
        }),
{
}

/// A create that is refused leaves the store as it was: a body that is no
/// JSON object gets the refusal for an answer and creates nothing.
pub proof fn lemma_refused_create_changes_nothing(
    store: Collections,
    name: Seq<char>,
    payload: Option<Payload>,
)
    requires
        !(payload matches Some(Payload::Object(_))),
    ensures
        created(payload) == (Response { status: StatusCode::BadRequest, body: None }),
        stored(store, name, payload) == store,
{
}

} // verus!
