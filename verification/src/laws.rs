//! What holds of every response: general statements about decoding, listing
//! and fetching, each proved from the definitions.

use crate::accessor::{get_outcome, list_outcome, ApiResource};
use crate::decode::{elements, field, list_field_or_empty, optional_field, Decode};
use crate::error::ErrorKind;
use crate::json::{lemma_without, JsonView};
use crate::resources::{
    AvailablePhoneNumber, AvailablePhoneNumberView, ItemResponseWrapper, ListResponseWrapper,
    Message, MessageAddress, MessageAddressView, MessageMedia, MessageMediaView, MessageView,
    NumberOrder, NumberOrderView, Resource, ResourceView,
};
use crate::schema::ResourceKind;
use vstd::prelude::*;

verus! {

/// A listing keeps every record. Where each item under `data` decodes to a
/// record of the kind asked for, the listing holds those records: as many as
/// there are items, each in the place of its item, none twice.
pub proof fn lemma_list_keeps_records_in_order<T: ApiResource>(
    json: JsonView,
    items: Seq<JsonView>,
)
    requires
        json.get("data"@) == Some(JsonView::Array(items)),
        forall|i: int|
            0 <= i < items.len() ==> (#[trigger] Resource::decoded(items[i])) is Some
                && T::narrowed(Resource::decoded(items[i]).unwrap()) is Some,
    ensures
        list_outcome::<T>(json) matches Ok(records) && records.len() == items.len() && forall|
            i: int,
        |
            0 <= i < items.len() ==> #[trigger] records[i] == T::narrowed(
                Resource::decoded(items[i]).unwrap(),
            ).unwrap(),
{
    let resources = elements::<Resource>(items).unwrap();
    assert(ListResponseWrapper::decoded(json).unwrap().data == resources);
    assert forall|i: int| 0 <= i < resources.len() implies (#[trigger] T::narrowed(
        resources[i],
    )) is Some by {
        assert(Resource::decoded(items[i]) is Some);
    }
}

/// A listing drops nothing. Where every item under `data` decodes and one of
/// them is a record of another kind than the one asked for, the listing fails
/// with a mismatch.
pub proof fn lemma_list_fails_on_other_kind<T: ApiResource>(
    json: JsonView,
    items: Seq<JsonView>,
    i: int,
)
    requires
        json.get("data"@) == Some(JsonView::Array(items)),
        forall|j: int| 0 <= j < items.len() ==> (#[trigger] Resource::decoded(items[j])) is Some,
        0 <= i < items.len(),
        T::narrowed(Resource::decoded(items[i]).unwrap()) is None,
    ensures
        list_outcome::<T>(json) == Err::<Seq<T::V>, ErrorKind>(ErrorKind::ResourceMismatch),
{
    let resources = elements::<Resource>(items).unwrap();
    assert(ListResponseWrapper::decoded(json).unwrap().data == resources);
    assert(T::narrowed(resources[i]) is None);
}

/// Fetching gives the record under `data`. Where `data` decodes to a record
/// of the kind asked for, that record is the result.
pub proof fn lemma_get_returns_data_record<T: ApiResource>(json: JsonView, data: JsonView)
    requires
        json.get("data"@) == Some(data),
        Resource::decoded(data) is Some,
        T::narrowed(Resource::decoded(data).unwrap()) is Some,
    ensures
        get_outcome::<T>(json) == Ok::<T::V, ErrorKind>(
            T::narrowed(Resource::decoded(data).unwrap()).unwrap(),
        ),
{
}

/// The record that fetching gives is the object under `data`, read member by
/// member by the rules of its kind: where `record_type` names the kind asked
/// for, the result is what the object decodes to as a record of that kind.
pub proof fn lemma_get_reads_data_object(json: JsonView, data: JsonView, tag: Seq<char>)
    requires
        json.get("data"@) == Some(data),
        field::<String>(data, "record_type"@) == Some(tag),
    ensures
        ResourceKind::of_tag(tag) == Some(ResourceKind::NumberOrder) && NumberOrder::decoded(
            data,
        ) is Some ==> get_outcome::<NumberOrder>(json) == Ok::<_, ErrorKind>(
            NumberOrder::decoded(data).unwrap(),
        ),
        ResourceKind::of_tag(tag) == Some(ResourceKind::Message) && Message::decoded(data) is Some
            ==> get_outcome::<Message>(json) == Ok::<_, ErrorKind>(
            Message::decoded(data).unwrap(),
        ),
        ResourceKind::of_tag(tag) == Some(ResourceKind::AvailablePhoneNumber)
            && AvailablePhoneNumber::decoded(data) is Some ==> get_outcome::<AvailablePhoneNumber>(
            json,
        ) == Ok::<_, ErrorKind>(AvailablePhoneNumber::decoded(data).unwrap()),
{
}

/// Fetching never gives a record of another kind. Where `data` decodes to a
/// record that is not of the kind asked for, the call fails with a mismatch.
pub proof fn lemma_get_rejects_other_kind<T: ApiResource>(json: JsonView, data: JsonView)
    requires
        json.get("data"@) == Some(data),
        Resource::decoded(data) is Some,
        T::narrowed(Resource::decoded(data).unwrap()) is None,
    ensures
        get_outcome::<T>(json) == Err::<T::V, ErrorKind>(ErrorKind::ResourceMismatch),
{
}

/// Each kind of record is narrowed to from its own variant and from no other.
pub proof fn lemma_narrowed_by_kind(resource: ResourceView)
    ensures
        NumberOrder::narrowed(resource) is Some <==> resource.kind() == ResourceKind::NumberOrder,
        Message::narrowed(resource) is Some <==> resource.kind() == ResourceKind::Message,
        AvailablePhoneNumber::narrowed(resource) is Some <==> resource.kind()
            == ResourceKind::AvailablePhoneNumber,
{
}

/// A member that may be missing decodes to `None` where it is missing and
/// where it is `null`.
pub proof fn lemma_absent_optional_field<T: Decode>(json: JsonView, key: Seq<char>)
    requires
        json.get(key) is None || json.get(key) == Some(JsonView::Null),
    ensures
        optional_field::<T>(json, key) == Some(None::<T::V>),
{
}

/// A list that may be missing decodes to the empty list where it is missing.
pub proof fn lemma_absent_list_field<T: Decode>(json: JsonView, key: Seq<char>)
    requires
        json.get(key) is None,
    ensures
        list_field_or_empty::<T>(json, key) == Some(Seq::<T::V>::empty()),
{
}

/// A `record_type` that names no kind is a parse error, wherever in a list
/// envelope it stands: the item is not passed over.
pub proof fn lemma_unknown_tag_fails_list<T: ApiResource>(
    json: JsonView,
    items: Seq<JsonView>,
    i: int,
    tag: Seq<char>,
)
    requires
        json.get("data"@) == Some(JsonView::Array(items)),
        0 <= i < items.len(),
        field::<String>(items[i], "record_type"@) == Some(tag),
        ResourceKind::of_tag(tag) is None,
    ensures
        Resource::decoded(items[i]) is None,
        ListResponseWrapper::decoded(json) is None,
        list_outcome::<T>(json) == Err::<Seq<T::V>, ErrorKind>(ErrorKind::Parse),
{
}

/// A `record_type` that names no kind is a parse error in an item envelope.
pub proof fn lemma_unknown_tag_fails_get<T: ApiResource>(
    json: JsonView,
    data: JsonView,
    tag: Seq<char>,
)
    requires
        json.get("data"@) == Some(data),
        field::<String>(data, "record_type"@) == Some(tag),
        ResourceKind::of_tag(tag) is None,
    ensures
        Resource::decoded(data) is None,
        ItemResponseWrapper::decoded(json) is None,
        get_outcome::<T>(json) == Err::<T::V, ErrorKind>(ErrorKind::Parse),
{
}

/// A number order does not need the members that may be missing. An object that
/// decodes still decodes when one of them is taken away: to the same record,
/// but for `None` in that member's place.
pub proof fn lemma_number_order_without_optional(json: JsonView)
    requires
        NumberOrder::decoded(json) is Some,
    ensures
        NumberOrder::decoded(json.without("billing_group_id"@)) == Some(
            NumberOrderView { billing_group_id: None, ..NumberOrder::decoded(json).unwrap() },
        ),
        NumberOrder::decoded(json.without("connection_id"@)) == Some(
            NumberOrderView { connection_id: None, ..NumberOrder::decoded(json).unwrap() },
        ),
        NumberOrder::decoded(json.without("customer_reference"@)) == Some(
            NumberOrderView { customer_reference: None, ..NumberOrder::decoded(json).unwrap() },
        ),
        NumberOrder::decoded(json.without("message_profile_id"@)) == Some(
            NumberOrderView { message_profile_id: None, ..NumberOrder::decoded(json).unwrap() },
        ),
{
    reveal_strlit("billing_group_id");
    reveal_strlit("connection_id");
    reveal_strlit("created_at");
    reveal_strlit("customer_reference");
    reveal_strlit("id");
    reveal_strlit("message_profile_id");
    reveal_strlit("phone_numbers_count");
    reveal_strlit("requirements_met");
    reveal_strlit("status");
    reveal_strlit("updated_at");
    assert("billing_group_id"@.len() == 16);
    assert("connection_id"@.len() == 13);
    assert("created_at"@.len() == 10);
    assert("customer_reference"@.len() == 18);
    assert("id"@.len() == 2);
    assert("message_profile_id"@.len() == 18);
    assert("phone_numbers_count"@.len() == 19);
    assert("requirements_met"@.len() == 16);
    assert("status"@.len() == 6);
    assert("updated_at"@.len() == 10);
    assert("customer_reference"@[0] != "message_profile_id"@[0]);
    assert("requirements_met"@[0] != "billing_group_id"@[0]);
    lemma_without(json, "billing_group_id"@);
    lemma_without(json, "connection_id"@);
    lemma_without(json, "customer_reference"@);
    lemma_without(json, "message_profile_id"@);
}

/// An address does not need the members that may be missing. An object that
/// decodes still decodes when one of them is taken away: to the same record,
/// but for `None` in that member's place.
pub proof fn lemma_message_address_without_optional(json: JsonView)
    requires
        MessageAddress::decoded(json) is Some,
    ensures
        MessageAddress::decoded(json.without("status"@)) == Some(
            MessageAddressView { status: None, ..MessageAddress::decoded(json).unwrap() },
        ),
{
    reveal_strlit("carrier");
    reveal_strlit("line_type");
    reveal_strlit("phone_number");
    reveal_strlit("status");
    assert("carrier"@.len() == 7);
    assert("line_type"@.len() == 9);
    assert("phone_number"@.len() == 12);
    assert("status"@.len() == 6);
    lemma_without(json, "status"@);
}

/// An attachment does not need the members that may be missing. An object that
/// decodes still decodes when one of them is taken away: to the same record,
/// but for `None` in that member's place.
pub proof fn lemma_message_media_without_optional(json: JsonView)
    requires
        MessageMedia::decoded(json) is Some,
    ensures
        MessageMedia::decoded(json.without("content_type"@)) == Some(
            MessageMediaView { content_type: None, ..MessageMedia::decoded(json).unwrap() },
        ),
        MessageMedia::decoded(json.without("sha256"@)) == Some(
            MessageMediaView { sha256: None, ..MessageMedia::decoded(json).unwrap() },
        ),
        MessageMedia::decoded(json.without("size"@)) == Some(
            MessageMediaView { size: None, ..MessageMedia::decoded(json).unwrap() },
        ),
{
    reveal_strlit("content_type");
    reveal_strlit("sha256");
    reveal_strlit("size");
    reveal_strlit("url");
    assert("content_type"@.len() == 12);
    assert("sha256"@.len() == 6);
    assert("size"@.len() == 4);
    assert("url"@.len() == 3);
    lemma_without(json, "content_type"@);
    lemma_without(json, "sha256"@);
    lemma_without(json, "size"@);
}

/// A message does not need the members that may be missing. An object that
/// decodes still decodes when one of them is taken away: to the same record,
/// but for `None`, or the empty list, in that member's place.
pub proof fn lemma_message_without_optional(json: JsonView)
    requires
        Message::decoded(json) is Some,
    ensures
        Message::decoded(json.without("completed_at"@)) == Some(
            MessageView { completed_at: None, ..Message::decoded(json).unwrap() },
        ),
        Message::decoded(json.without("cost"@)) == Some(
            MessageView { cost: None, ..Message::decoded(json).unwrap() },
        ),
        Message::decoded(json.without("media"@)) == Some(
            MessageView { media: Seq::empty(), ..Message::decoded(json).unwrap() },
        ),
        Message::decoded(json.without("sent_at"@)) == Some(
            MessageView { sent_at: None, ..Message::decoded(json).unwrap() },
        ),
        Message::decoded(json.without("subject"@)) == Some(
            MessageView { subject: None, ..Message::decoded(json).unwrap() },
        ),
        Message::decoded(json.without("tags"@)) == Some(
            MessageView { tags: Seq::empty(), ..Message::decoded(json).unwrap() },
        ),
        Message::decoded(json.without("valid_until"@)) == Some(
            MessageView { valid_until: None, ..Message::decoded(json).unwrap() },
        ),
{
    reveal_strlit("completed_at");
    reveal_strlit("cost");
    reveal_strlit("direction");
    reveal_strlit("encoding");
    reveal_strlit("from");
    reveal_strlit("id");
    reveal_strlit("media");
    reveal_strlit("messaging_profile_id");
    reveal_strlit("parts");
    reveal_strlit("received_at");
    reveal_strlit("sent_at");
    reveal_strlit("subject");
    reveal_strlit("tags");
    reveal_strlit("text");
    reveal_strlit("to");
    reveal_strlit("type");
    reveal_strlit("valid_until");
    reveal_strlit("webhook_failover_url");
    reveal_strlit("webhook_url");
    assert("completed_at"@.len() == 12);
    assert("cost"@.len() == 4);
    assert("direction"@.len() == 9);
    assert("encoding"@.len() == 8);
    assert("from"@.len() == 4);
    assert("id"@.len() == 2);
    assert("media"@.len() == 5);
    assert("messaging_profile_id"@.len() == 20);
    assert("parts"@.len() == 5);
    assert("received_at"@.len() == 11);
    assert("sent_at"@.len() == 7);
    assert("subject"@.len() == 7);
    assert("tags"@.len() == 4);
    assert("text"@.len() == 4);
    assert("to"@.len() == 2);
    assert("type"@.len() == 4);
    assert("valid_until"@.len() == 11);
    assert("webhook_failover_url"@.len() == 20);
    assert("webhook_url"@.len() == 11);
    assert("cost"@[0] != "tags"@[0]);
    assert("from"@[0] != "cost"@[0]);
    assert("from"@[0] != "tags"@[0]);
    assert("parts"@[0] != "media"@[0]);
    assert("received_at"@[0] != "valid_until"@[0]);
    assert("sent_at"@[1] != "subject"@[1]);
    assert("text"@[0] != "cost"@[0]);
    assert("text"@[1] != "tags"@[1]);
    assert("type"@[0] != "cost"@[0]);
    assert("type"@[1] != "tags"@[1]);
    assert("webhook_url"@[0] != "valid_until"@[0]);
    lemma_without(json, "completed_at"@);
    lemma_without(json, "cost"@);
    lemma_without(json, "media"@);
    lemma_without(json, "sent_at"@);
    lemma_without(json, "subject"@);
    lemma_without(json, "tags"@);
    lemma_without(json, "valid_until"@);
}

/// An available phone number does not need the members that may be missing. An object that
/// decodes still decodes when one of them is taken away: to the same record,
/// but for the empty list in that member's place.
pub proof fn lemma_available_phone_number_without_optional(json: JsonView)
    requires
        AvailablePhoneNumber::decoded(json) is Some,
    ensures
        AvailablePhoneNumber::decoded(json.without("region_information"@)) == Some(
            AvailablePhoneNumberView {
                region_information: Seq::empty(),
                ..AvailablePhoneNumber::decoded(json).unwrap()
            },
        ),
        AvailablePhoneNumber::decoded(json.without("regulatory_requirements"@)) == Some(
            AvailablePhoneNumberView {
                regulatory_requirements: Seq::empty(),
                ..AvailablePhoneNumber::decoded(json).unwrap()
            },
        ),
{
    reveal_strlit("best_effort");
    reveal_strlit("cost_information");
    reveal_strlit("phone_number");
    reveal_strlit("quickship");
    reveal_strlit("region_information");
    reveal_strlit("regulatory_requirements");
    reveal_strlit("reservable");
    reveal_strlit("vanity_format");
    assert("best_effort"@.len() == 11);
    assert("cost_information"@.len() == 16);
    assert("phone_number"@.len() == 12);
    assert("quickship"@.len() == 9);
    assert("region_information"@.len() == 18);
    assert("regulatory_requirements"@.len() == 23);
    assert("reservable"@.len() == 10);
    assert("vanity_format"@.len() == 13);
    lemma_without(json, "region_information"@);
    lemma_without(json, "regulatory_requirements"@);
}
} // verus!
