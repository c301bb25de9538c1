//! Listing and fetching the records of one kind: the request that asks for
//! them, and what the response body gives.

use crate::credentials::Credentials;
use crate::decode::Decode;
use crate::error::{ApiError, ErrorKind};
use crate::json::{document, schema_error, Json, JsonView};
use crate::resources::{
    option_view, seq_view, AvailablePhoneNumber, AvailablePhoneNumberView, ItemResponseWrapper,
    ListResponseWrapper, Message, MessageView, NumberOrder, NumberOrderView, Resource,
    ResourceView,
};
use vstd::prelude::*;
use vstd::string::StringExecFns;

verus! {

/// A kind of record that the API serves under a path of its own.
pub trait ApiResource: View + Sized {
    /// The path fragment under which the API serves this kind.
    spec fn fragment() -> Seq<char>;

    /// The record of this kind that `resource` holds; nothing where it holds
    /// a record of another kind.
    spec fn narrowed(resource: ResourceView) -> Option<Self::V>;

    /// The path fragment under which the API serves this kind.
    fn url_fragment() -> (res: &'static str)
        ensures
            res@ == Self::fragment(),
    ;

    /// Takes the record of this kind out of `resource`.
    fn narrow(resource: Resource) -> (res: Option<Self>)
        ensures
            option_view(res) == Self::narrowed(resource@),
    ;
}

impl ApiResource for NumberOrder {
    open spec fn fragment() -> Seq<char> {
        "number_orders"@
    }

    open spec fn narrowed(resource: ResourceView) -> Option<NumberOrderView> {
        match resource {
            ResourceView::NumberOrder(r) => Some(r),
            _ => None,
        }
    }

    fn url_fragment() -> (res: &'static str) {
        "number_orders"
    }

    fn narrow(resource: Resource) -> (res: Option<NumberOrder>) {
        match resource {
            Resource::NumberOrder(r) => Some(r),
            _ => None,
        }
    }
}

impl ApiResource for Message {
    open spec fn fragment() -> Seq<char> {
        "messages"@
    }

    open spec fn narrowed(resource: ResourceView) -> Option<MessageView> {
        match resource {
            ResourceView::Message(r) => Some(r),
            _ => None,
        }
    }

    fn url_fragment() -> (res: &'static str) {
        "messages"
    }

    fn narrow(resource: Resource) -> (res: Option<Message>) {
        match resource {
            Resource::Message(r) => Some(r),
            _ => None,
        }
    }
}

impl ApiResource for AvailablePhoneNumber {
    open spec fn fragment() -> Seq<char> {
        "available_phone_numbers"@
    }

    open spec fn narrowed(resource: ResourceView) -> Option<AvailablePhoneNumberView> {
        match resource {
            ResourceView::AvailablePhoneNumber(r) => Some(r),
            _ => None,
        }
    }

    fn url_fragment() -> (res: &'static str) {
        "available_phone_numbers"
    }

    fn narrow(resource: Resource) -> (res: Option<AvailablePhoneNumber>) {
        match resource {
            Resource::AvailablePhoneNumber(r) => Some(r),
            _ => None,
        }
    }
}

/// The URL under which the records of a kind are listed.
pub open spec fn index_url<T: ApiResource>(base: Seq<char>) -> Seq<char> {
    base + "/"@ + T::fragment()
}

/// The URL of the record `id` of a kind.
pub open spec fn item_url<T: ApiResource>(base: Seq<char>, id: Seq<char>) -> Seq<char> {
    base + "/"@ + T::fragment() + "/"@ + id
}

/// The value of the `Authorization` header for a key.
pub open spec fn bearer(api_key: Seq<char>) -> Seq<char> {
    "Bearer "@ + api_key
}

/// The URL under which the records of a kind are listed: `{prefix}/{fragment}`.
pub fn index_endpoint<T: ApiResource>(prefix: &str) -> (res: String)
    ensures
        res@ == index_url::<T>(prefix@),
{
    let mut url = String::from_str(prefix);
    url.append("/");
    url.append(T::url_fragment());
    url
}

/// The URL of one record of a kind: `{prefix}/{fragment}/{id}`. The id is
/// used as it is.
pub fn item_endpoint<T: ApiResource>(prefix: &str, id: &str) -> (res: String)
    ensures
        res@ == item_url::<T>(prefix@, id@),
{
    let mut url = String::from_str(prefix);
    url.append("/");
    url.append(T::url_fragment());
    url.append("/");
    url.append(id);
    url
}

/// The value of the `Authorization` header: `Bearer {api_key}`.
pub fn authorization(creds: &Credentials) -> (res: String)
    ensures
        res@ == bearer(creds@.api_key),
{
    let mut value = String::from_str("Bearer ");
    value.append(creds.api_key());
    value
}

/// `hyper::Request`, handed on as it is built.
#[verifier::external_type_specification]
#[verifier::external_body]
#[verifier::reject_recursive_types(T)]
pub struct ExRequest<T>(hyper::Request<T>);

/// `hyper::Body`, the body of a request.
#[verifier::external_type_specification]
#[verifier::external_body]
pub struct ExBody(hyper::Body);

/// Whether a request can be built for a URL and one header: whether the URL
/// is one, and the header's name and value are ones.
pub uninterp spec fn request_builds(uri: Seq<char>, header: Seq<char>, value: Seq<char>) -> bool;

/// `hyper::Request::builder()` with `uri`, `header` and `body` called on
/// it: a `GET` request for `uri` with one header and an empty body. Whether
/// the builder accepts the three strings depends on them alone.
#[verifier::external_body]
fn build_get(uri: String, header: &str, value: String) -> (res: Result<
    hyper::Request<hyper::Body>,
    hyper::http::Error,
>)
    ensures
        res is Ok <==> request_builds(uri@, header@, value@),
{
    hyper::Request::builder().uri(uri).header(header, value).body(hyper::Body::empty())
}

/// The request with which the records of a kind are listed: a `GET` of
/// `{api_base}/{fragment}` that carries the key as a bearer token, with an
/// empty body.
pub fn list_request<T: ApiResource>(creds: &Credentials) -> (res: Result<
    hyper::Request<hyper::Body>,
    ApiError,
>)
    ensures
        res is Ok <==> request_builds(
            index_url::<T>(creds@.api_base),
            "Authorization"@,
            bearer(creds@.api_key),
        ),
        res matches Err(e) ==> e.kind() == ErrorKind::Http,
{
    match build_get(index_endpoint::<T>(creds.api_base()), "Authorization", authorization(creds)) {
        Ok(request) => Ok(request),
        Err(e) => Err(ApiError::HttpError(e)),
    }
}

/// The request with which the record `id` of a kind is fetched: a `GET` of
/// `{api_base}/{fragment}/{id}` that carries the key as a bearer token, with
/// an empty body.
pub fn get_request<T: ApiResource>(creds: &Credentials, id: &str) -> (res: Result<
    hyper::Request<hyper::Body>,
    ApiError,
>)
    ensures
        res is Ok <==> request_builds(
            item_url::<T>(creds@.api_base, id@),
            "Authorization"@,
            bearer(creds@.api_key),
        ),
        res matches Err(e) ==> e.kind() == ErrorKind::Http,
{
    match build_get(
        item_endpoint::<T>(creds.api_base(), id),
        "Authorization",
        authorization(creds),
    ) {
        Ok(request) => Ok(request),
        Err(e) => Err(ApiError::HttpError(e)),
    }
}

/// The records of one kind that `resources` holds, in their order; nothing as
/// soon as one of them is of another kind.
pub open spec fn narrowed_all<T: ApiResource>(resources: Seq<ResourceView>) -> Option<Seq<T::V>> {
    if forall|i: int| 0 <= i < resources.len() ==> (#[trigger] T::narrowed(resources[i])) is Some {
        Some(Seq::new(resources.len(), |i: int| T::narrowed(resources[i]).unwrap()))
    } else {
        None
    }
}

/// What listing a kind gives for a response body that holds `json`. A body
/// that is no list envelope is a parse error. One record of another kind
/// fails the whole call: nothing is dropped from a listing.
pub open spec fn list_outcome<T: ApiResource>(json: JsonView) -> Result<Seq<T::V>, ErrorKind> {
    match ListResponseWrapper::decoded(json) {
        Some(envelope) => match narrowed_all::<T>(envelope.data) {
            Some(records) => Ok(records),
            None => Err(ErrorKind::ResourceMismatch),
        },
        None => Err(ErrorKind::Parse),
    }
}

/// What fetching a record of a kind gives for a response body that holds
/// `json`. A body that is no item envelope is a parse error; a record of
/// another kind is a mismatch.
pub open spec fn get_outcome<T: ApiResource>(json: JsonView) -> Result<T::V, ErrorKind> {
    match ItemResponseWrapper::decoded(json) {
        Some(envelope) => match T::narrowed(envelope.data) {
            Some(record) => Ok(record),
            None => Err(ErrorKind::ResourceMismatch),
        },
        None => Err(ErrorKind::Parse),
    }
}

/// Whether `res` is what `expected` says: the same records, or an error of
/// the same kind.
pub open spec fn is_list_outcome<T: View>(
    res: Result<Vec<T>, ApiError>,
    expected: Result<Seq<T::V>, ErrorKind>,
) -> bool {
    match expected {
        Ok(records) => res matches Ok(r) && seq_view(r@) == records,
        Err(kind) => res matches Err(e) && e.kind() == kind,
    }
}

/// Whether `res` is what `expected` says: the same record, or an error of
/// the same kind.
pub open spec fn is_get_outcome<T: View>(
    res: Result<T, ApiError>,
    expected: Result<T::V, ErrorKind>,
) -> bool {
    match expected {
        Ok(record) => res matches Ok(r) && r@ == record,
        Err(kind) => res matches Err(e) && e.kind() == kind,
    }
}

/// Takes the records of one kind out of a list envelope, in their order.
pub fn narrow_list<T: ApiResource>(envelope: ListResponseWrapper) -> (res: Result<Vec<T>, ApiError>)
    ensures
        match narrowed_all::<T>(envelope@.data) {
            Some(records) => res matches Ok(r) && seq_view(r@) == records,
            None => res matches Err(ApiError::ResourceMismatchError),
        },
{
    let ghost views = envelope@.data;
    let mut out: Vec<T> = Vec::new();
    for resource in it: envelope.data
        invariant
            views == seq_view(it.seq()),
            out.len() == it.index(),
            forall|j: int| 0 <= j < out.len() ==> T::narrowed(#[trigger] views[j]) == Some(out[j]@),
    {
        match T::narrow(resource) {
            Some(record) => {
                out.push(record);
            },
            None => {
                assert(T::narrowed(views[it.index()]) is None);
                return Err(ApiError::ResourceMismatchError);
            },
        }
    }
    assert(seq_view(out@) =~= narrowed_all::<T>(views).unwrap());
    Ok(out)
}

/// Takes the record of one kind out of an item envelope.
pub fn narrow_item<T: ApiResource>(envelope: ItemResponseWrapper) -> (res: Result<T, ApiError>)
    ensures
        match T::narrowed(envelope@.data) {
            Some(record) => res matches Ok(r) && r@ == record,
            None => res matches Err(ApiError::ResourceMismatchError),
        },
{
    match T::narrow(envelope.data) {
        Some(record) => Ok(record),
        None => Err(ApiError::ResourceMismatchError),
    }
}

/// The records of one kind in a list envelope that was parsed already.
pub fn list_from_json<T: ApiResource>(json: &Json) -> (res: Result<Vec<T>, ApiError>)
    ensures
        is_list_outcome(res, list_outcome::<T>(json@)),
{
    match ListResponseWrapper::decode(json) {
        Some(envelope) => narrow_list::<T>(envelope),
        None => Err(ApiError::ParseError(schema_error("the response is not a list of records"))),
    }
}

/// The record of one kind in an item envelope that was parsed already.
pub fn get_from_json<T: ApiResource>(json: &Json) -> (res: Result<T, ApiError>)
    ensures
        is_get_outcome(res, get_outcome::<T>(json@)),
{
    match ItemResponseWrapper::decode(json) {
        Some(envelope) => narrow_item::<T>(envelope),
        None => Err(ApiError::ParseError(schema_error("the response is not a record"))),
    }
}

/// The records of one kind that the body of a response to [`list_request`]
/// holds. A body that is not JSON is a parse error.
pub fn list_response<T: ApiResource>(body: &[u8]) -> (res: Result<Vec<T>, ApiError>)
    ensures
        match document(body@) {
            Some(json) => is_list_outcome(res, list_outcome::<T>(json)),
            None => res matches Err(ApiError::ParseError(_)),
        },
{
    match Json::parse(body) {
        Ok(json) => list_from_json::<T>(&json),
        Err(e) => Err(e),
    }
}

/// The record of one kind that the body of a response to [`get_request`]
/// holds. A body that is not JSON is a parse error.
pub fn get_response<T: ApiResource>(body: &[u8]) -> (res: Result<T, ApiError>)
    ensures
        match document(body@) {
            Some(json) => is_get_outcome(res, get_outcome::<T>(json)),
            None => res matches Err(ApiError::ParseError(_)),
        },
{
    match Json::parse(body) {
        Ok(json) => get_from_json::<T>(&json),
        Err(e) => Err(e),
    }
}

} // verus!
