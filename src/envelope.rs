use vstd::prelude::*;
use crate::error::NovuError;
use crate::json::{
    field_ok, find, lookup, opt_text_of, read_int, read_opt_text, read_text, read_texts, shape_ok,
    take, text_of, texts_of, Json, Shape,
};

verus! {

/// A record that an operation expects as its success payload: it says which
/// objects count as one and how one is read from them.
pub trait WireRecord: Sized {
    /// Whether the object's entries have this record's shape.
    spec fn wire_ok(entries: Seq<(String, Json)>) -> bool;

    /// Whether `r` is what the entries decode to.
    spec fn decodes_to(entries: Seq<(String, Json)>, r: Self) -> bool;

    fn accepts(entries: &Vec<(String, Json)>) -> (b: bool)
        ensures
            b == Self::wire_ok(entries@),
    ;

    fn from_entries(entries: Vec<(String, Json)>) -> (r: Self)
        requires
            Self::wire_ok(entries@),
        ensures
            Self::decodes_to(entries@, r),
    ;
}

/// A structured error reported by the service.
#[derive(Debug)]
pub struct ServiceError {
    pub status_code: i64,
    pub message: String,
    pub error: Option<String>,
}

/// A decoded response: exactly one of the three shapes the service sends.
pub enum Envelope<T> {
    Success(T),
    ServiceError(ServiceError),
    Messages(Vec<String>),
}

/// The success shape: an object whose `data` entry is an object of `T`'s shape.
pub open spec fn success_shape<T: WireRecord>(body: Json) -> bool {
    body matches Json::Object(e) && lookup(e@, "data"@) matches Some(Json::Object(inner))
        && T::wire_ok(inner@)
}

/// The structured-error shape: an integer `statusCode`, a string `message`, and
/// an optional string `error`.
pub open spec fn service_shape(body: Json) -> bool {
    body matches Json::Object(e) && shape_ok(lookup(e@, "statusCode"@), Shape::Int) && shape_ok(
        lookup(e@, "message"@),
        Shape::Text,
    ) && shape_ok(lookup(e@, "error"@), Shape::OptText)
}

/// The message-list shape: `message` is an array of strings.
pub open spec fn messages_shape(body: Json) -> bool {
    body matches Json::Object(e) && shape_ok(lookup(e@, "message"@), Shape::TextList)
}

/// What a body decodes to, in the fixed order success, structured error,
/// message list; `None` when it has none of the three shapes.
pub open spec fn decodes_as<T: WireRecord>(body: Json, r: Option<Envelope<T>>) -> bool {
    if success_shape::<T>(body) {
        r matches Some(Envelope::Success(t)) && T::decodes_to(
            lookup(body->Object_0@, "data"@)->Some_0->Object_0@,
            t,
        )
    } else if service_shape(body) {
        let e = body->Object_0@;
        r matches Some(Envelope::ServiceError(se)) && se.status_code == lookup(
            e,
            "statusCode"@,
        )->Some_0->Int_0 && se.message == text_of(lookup(e, "message"@)) && se.error
            == opt_text_of(lookup(e, "error"@))
    } else if messages_shape(body) {
        r matches Some(Envelope::Messages(m)) && m@ == texts_of(
            lookup(body->Object_0@, "message"@)->Some_0->Array_0@,
        )
    } else {
        r is None
    }
}

/// Reads a response body as one of the three shapes, trying them in order.
pub fn decode<T: WireRecord>(body: Json) -> (r: Option<Envelope<T>>)
    ensures
        decodes_as::<T>(body, r),
{
    match body {
        Json::Object(mut e) => {
            let success = match find(&e, "data") {
                Some(i) => match &e[i].1 {
                    Json::Object(inner) => T::accepts(inner),
                    _ => false,
                },
                None => false,
            };
            if success {
                let data = take(&mut e, "data");
                match data {
                    Some(Json::Object(inner)) => {
                        return Some(Envelope::Success(T::from_entries(inner)));
                    },
                    _ => {
                        return None;
                    },
                }
            }
            let service = field_ok(&e, "statusCode", Shape::Int) && field_ok(
                &e,
                "message",
                Shape::Text,
            ) && field_ok(&e, "error", Shape::OptText);
            if service {
                let status_code = read_int(&e, "statusCode");
                let message = read_text(&e, "message");
                let error = read_opt_text(&e, "error");
                return Some(Envelope::ServiceError(ServiceError { status_code, message, error }));
            }
            if field_ok(&e, "message", Shape::TextList) {
                return Some(Envelope::Messages(read_texts(&e, "message")));
            }
            None
        },
        _ => None,
    }
}

/// Turns a decoded response into the operation's result: the payload on
/// success, and an error of the matching kind otherwise.
pub fn into_result<T>(env: Envelope<T>) -> (r: Result<T, NovuError>)
    ensures
        match env {
            Envelope::Success(t) => r == Ok::<T, NovuError>(t),
            Envelope::ServiceError(se) => r matches Err(NovuError::Service { status, error, message })
                && status == se.status_code && error == se.error && message == se.message,
            Envelope::Messages(m) => r matches Err(NovuError::Messages { messages })
                && messages == m,
        },
{
    match env {
        Envelope::Success(t) => Ok(t),
        Envelope::ServiceError(se) => Err(
            NovuError::Service { status: se.status_code, error: se.error, message: se.message },
        ),
        Envelope::Messages(m) => Err(NovuError::Messages { messages: m }),
    }
}

/// The result an operation owes for a body, by the same order of shapes as
/// `decodes_as`: the payload, a service error, a message list, or a decode
/// failure.
pub open spec fn answers<T: WireRecord>(body: Json, r: Result<T, NovuError>) -> bool {
    if success_shape::<T>(body) {
        r matches Ok(t) && T::decodes_to(lookup(body->Object_0@, "data"@)->Some_0->Object_0@, t)
    } else if service_shape(body) {
        let e = body->Object_0@;
        r matches Err(NovuError::Service { status, error, message }) && status == lookup(
            e,
            "statusCode"@,
        )->Some_0->Int_0 && message == text_of(lookup(e, "message"@)) && error == opt_text_of(
            lookup(e, "error"@),
        )
    } else if messages_shape(body) {
        r matches Err(NovuError::Messages { messages }) && messages@ == texts_of(
            lookup(body->Object_0@, "message"@)->Some_0->Array_0@,
        )
    } else {
        r matches Err(NovuError::Decode)
    }
}

/// Turns what the transport handed back (a JSON body, or the reason the call
/// failed) into the operation's result.
pub fn complete<T: WireRecord>(reply: Result<Json, String>) -> (r: Result<T, NovuError>)
    ensures
        match reply {
            Err(reason) => r matches Err(NovuError::Transport { reason: got }) && got == reason,
            Ok(body) => answers::<T>(body, r),
        },
{
    match reply {
        Err(reason) => Err(NovuError::Transport { reason }),
        Ok(body) => match decode::<T>(body) {
            Some(env) => into_result(env),
            None => Err(NovuError::Decode),
        },
    }
}

/// The decoder tells the three shapes apart: a body whose `data` is a record
/// of the expected shape is a success; a body without `data` is never a
/// success; without `data`, the structured-error shape is a service error, and
/// a message list is a message error.
pub proof fn lemma_shapes_classify<T: WireRecord>(body: Json, r: Option<Envelope<T>>)
    requires
        decodes_as::<T>(body, r),
    ensures
        success_shape::<T>(body) ==> r matches Some(Envelope::Success(_)),
        body matches Json::Object(e) && lookup(e@, "data"@) is None ==> !(r matches Some(
            Envelope::Success(_),
        )),
        body matches Json::Object(e) && lookup(e@, "data"@) is None && service_shape(body)
            ==> r matches Some(Envelope::ServiceError(_)),
        body matches Json::Object(e) && lookup(e@, "data"@) is None && messages_shape(body)
            ==> r matches Some(Envelope::Messages(_)),
{
}

} // verus!
