//! The shape of each record in JSON.

use crate::decode::{
    field, list_field, list_field_or_empty, optional_field, read_field, read_list_field,
    read_list_field_or_empty, read_optional_field, Decode,
};
use crate::json::{Json, JsonView};
use crate::resources::{
    AvailablePhoneNumber, AvailablePhoneNumberCost, AvailablePhoneNumberCostView,
    AvailablePhoneNumberRegion, AvailablePhoneNumberRegionView,
    AvailablePhoneNumberRegulatoryRequirements, AvailablePhoneNumberRegulatoryRequirementsView,
    AvailablePhoneNumberView, ItemResponseWrapper, ItemResponseWrapperView, ListResponseWrapper,
    ListResponseWrapperView, Message, MessageAddress, MessageAddressView, MessageCost,
    MessageCostView, MessageMedia, MessageMediaView, MessageView, NumberOrder, NumberOrderView,
    Resource, ResourceView,
};
use vstd::prelude::*;
use vstd::string::StringExecFns;

verus! {

/// A number order is an object. `created_at`, `id`, `status` and `updated_at` are
/// strings, `phone_numbers_count` is a count and `requirements_met` a flag; the
/// other members are strings that may be missing or `null`.
/// Members that the record does not have are passed over.
impl Decode for NumberOrder {
    open spec fn decoded(json: JsonView) -> Option<NumberOrderView> {
        if {
            &&& optional_field::<String>(json, "billing_group_id"@) is Some
            &&& optional_field::<String>(json, "connection_id"@) is Some
            &&& field::<String>(json, "created_at"@) is Some
            &&& optional_field::<String>(json, "customer_reference"@) is Some
            &&& field::<String>(json, "id"@) is Some
            &&& optional_field::<String>(json, "message_profile_id"@) is Some
            &&& field::<usize>(json, "phone_numbers_count"@) is Some
            &&& field::<bool>(json, "requirements_met"@) is Some
            &&& field::<String>(json, "status"@) is Some
            &&& field::<String>(json, "updated_at"@) is Some
        } {
            Some(
                NumberOrderView {
                    billing_group_id: optional_field::<String>(json, "billing_group_id"@).unwrap(),
                    connection_id: optional_field::<String>(json, "connection_id"@).unwrap(),
                    created_at: field::<String>(json, "created_at"@).unwrap(),
                    customer_reference: optional_field::<String>(
                        json,
                        "customer_reference"@,
                    ).unwrap(),
                    id: field::<String>(json, "id"@).unwrap(),
                    message_profile_id: optional_field::<String>(
                        json,
                        "message_profile_id"@,
                    ).unwrap(),
                    phone_numbers_count: field::<usize>(json, "phone_numbers_count"@).unwrap(),
                    requirements_met: field::<bool>(json, "requirements_met"@).unwrap(),
                    status: field::<String>(json, "status"@).unwrap(),
                    updated_at: field::<String>(json, "updated_at"@).unwrap(),
                },
            )
        } else {
            None
        }
    }

    fn decode(json: &Json) -> (res: Option<NumberOrder>) {
        let billing_group_id = read_optional_field::<String>(json, "billing_group_id")?;
        let connection_id = read_optional_field::<String>(json, "connection_id")?;
        let created_at = read_field::<String>(json, "created_at")?;
        let customer_reference = read_optional_field::<String>(json, "customer_reference")?;
        let id = read_field::<String>(json, "id")?;
        let message_profile_id = read_optional_field::<String>(json, "message_profile_id")?;
        let phone_numbers_count = read_field::<usize>(json, "phone_numbers_count")?;
        let requirements_met = read_field::<bool>(json, "requirements_met")?;
        let status = read_field::<String>(json, "status")?;
        let updated_at = read_field::<String>(json, "updated_at")?;
        Some(NumberOrder {
            billing_group_id,
            connection_id,
            created_at,
            customer_reference,
            id,
            message_profile_id,
            phone_numbers_count,
            requirements_met,
            status,
            updated_at,
        })
    }
}

/// An address is an object of three strings and a `status` that may be missing
/// or `null`.
/// Members that the record does not have are passed over.
impl Decode for MessageAddress {
    open spec fn decoded(json: JsonView) -> Option<MessageAddressView> {
        if {
            &&& field::<String>(json, "carrier"@) is Some
            &&& field::<String>(json, "line_type"@) is Some
            &&& field::<String>(json, "phone_number"@) is Some
            &&& optional_field::<String>(json, "status"@) is Some
        } {
            Some(
                MessageAddressView {
                    carrier: field::<String>(json, "carrier"@).unwrap(),
                    line_type: field::<String>(json, "line_type"@).unwrap(),
                    phone_number: field::<String>(json, "phone_number"@).unwrap(),
                    status: optional_field::<String>(json, "status"@).unwrap(),
                },
            )
        } else {
            None
        }
    }

    fn decode(json: &Json) -> (res: Option<MessageAddress>) {
        let carrier = read_field::<String>(json, "carrier")?;
        let line_type = read_field::<String>(json, "line_type")?;
        let phone_number = read_field::<String>(json, "phone_number")?;
        let status = read_optional_field::<String>(json, "status")?;
        Some(MessageAddress {
            carrier,
            line_type,
            phone_number,
            status,
        })
    }
}

/// An attachment is an object with a `url`; its other members may be missing or
/// `null`.
/// Members that the record does not have are passed over.
impl Decode for MessageMedia {
    open spec fn decoded(json: JsonView) -> Option<MessageMediaView> {
        if {
            &&& optional_field::<String>(json, "content_type"@) is Some
            &&& optional_field::<String>(json, "sha256"@) is Some
            &&& optional_field::<usize>(json, "size"@) is Some
            &&& field::<String>(json, "url"@) is Some
        } {
            Some(
                MessageMediaView {
                    content_type: optional_field::<String>(json, "content_type"@).unwrap(),
                    sha256: optional_field::<String>(json, "sha256"@).unwrap(),
                    size: optional_field::<usize>(json, "size"@).unwrap(),
                    url: field::<String>(json, "url"@).unwrap(),
                },
            )
        } else {
            None
        }
    }

    fn decode(json: &Json) -> (res: Option<MessageMedia>) {
        let content_type = read_optional_field::<String>(json, "content_type")?;
        let sha256 = read_optional_field::<String>(json, "sha256")?;
        let size = read_optional_field::<usize>(json, "size")?;
        let url = read_field::<String>(json, "url")?;
        Some(MessageMedia {
            content_type,
            sha256,
            size,
            url,
        })
    }
}

/// A cost is an object of two strings.
/// Members that the record does not have are passed over.
impl Decode for MessageCost {
    open spec fn decoded(json: JsonView) -> Option<MessageCostView> {
        if {
            &&& field::<String>(json, "amount"@) is Some
            &&& field::<String>(json, "currency"@) is Some
        } {
            Some(
                MessageCostView {
                    amount: field::<String>(json, "amount"@).unwrap(),
                    currency: field::<String>(json, "currency"@).unwrap(),
                },
            )
        } else {
            None
        }
    }

    fn decode(json: &Json) -> (res: Option<MessageCost>) {
        let amount = read_field::<String>(json, "amount")?;
        let currency = read_field::<String>(json, "currency")?;
        Some(MessageCost {
            amount,
            currency,
        })
    }
}

/// A message is an object. `from` is an address and `to` a list of addresses;
/// `media` and `tags` are lists that are empty where the member is missing;
/// `cost` and the times other than `received_at`, and `subject`, may be missing
/// or `null`; the member `type` is read into `message_type`.
/// Members that the record does not have are passed over.
impl Decode for Message {
    open spec fn decoded(json: JsonView) -> Option<MessageView> {
        if {
            &&& optional_field::<String>(json, "completed_at"@) is Some
            &&& optional_field::<MessageCost>(json, "cost"@) is Some
            &&& field::<String>(json, "direction"@) is Some
            &&& field::<String>(json, "encoding"@) is Some
            &&& field::<MessageAddress>(json, "from"@) is Some
            &&& field::<String>(json, "id"@) is Some
            &&& list_field_or_empty::<MessageMedia>(json, "media"@) is Some
            &&& field::<String>(json, "messaging_profile_id"@) is Some
            &&& field::<usize>(json, "parts"@) is Some
            &&& field::<String>(json, "received_at"@) is Some
            &&& optional_field::<String>(json, "sent_at"@) is Some
            &&& optional_field::<String>(json, "subject"@) is Some
            &&& list_field_or_empty::<String>(json, "tags"@) is Some
            &&& field::<String>(json, "text"@) is Some
            &&& list_field::<MessageAddress>(json, "to"@) is Some
            &&& field::<String>(json, "type"@) is Some
            &&& optional_field::<String>(json, "valid_until"@) is Some
            &&& field::<String>(json, "webhook_failover_url"@) is Some
            &&& field::<String>(json, "webhook_url"@) is Some
        } {
            Some(
                MessageView {
                    completed_at: optional_field::<String>(json, "completed_at"@).unwrap(),
                    cost: optional_field::<MessageCost>(json, "cost"@).unwrap(),
                    direction: field::<String>(json, "direction"@).unwrap(),
                    encoding: field::<String>(json, "encoding"@).unwrap(),
                    from: field::<MessageAddress>(json, "from"@).unwrap(),
                    id: field::<String>(json, "id"@).unwrap(),
                    media: list_field_or_empty::<MessageMedia>(json, "media"@).unwrap(),
                    messaging_profile_id: field::<String>(json, "messaging_profile_id"@).unwrap(),
                    parts: field::<usize>(json, "parts"@).unwrap(),
                    received_at: field::<String>(json, "received_at"@).unwrap(),
                    sent_at: optional_field::<String>(json, "sent_at"@).unwrap(),
                    subject: optional_field::<String>(json, "subject"@).unwrap(),
                    tags: list_field_or_empty::<String>(json, "tags"@).unwrap(),
                    text: field::<String>(json, "text"@).unwrap(),
                    to: list_field::<MessageAddress>(json, "to"@).unwrap(),
                    message_type: field::<String>(json, "type"@).unwrap(),
                    valid_until: optional_field::<String>(json, "valid_until"@).unwrap(),
                    webhook_failover_url: field::<String>(json, "webhook_failover_url"@).unwrap(),
                    webhook_url: field::<String>(json, "webhook_url"@).unwrap(),
                },
            )
        } else {
            None
        }
    }

    fn decode(json: &Json) -> (res: Option<Message>) {
        let completed_at = read_optional_field::<String>(json, "completed_at")?;
        let cost = read_optional_field::<MessageCost>(json, "cost")?;
        let direction = read_field::<String>(json, "direction")?;
        let encoding = read_field::<String>(json, "encoding")?;
        let from = read_field::<MessageAddress>(json, "from")?;
        let id = read_field::<String>(json, "id")?;
        let media = read_list_field_or_empty::<MessageMedia>(json, "media")?;
        let messaging_profile_id = read_field::<String>(json, "messaging_profile_id")?;
        let parts = read_field::<usize>(json, "parts")?;
        let received_at = read_field::<String>(json, "received_at")?;
        let sent_at = read_optional_field::<String>(json, "sent_at")?;
        let subject = read_optional_field::<String>(json, "subject")?;
        let tags = read_list_field_or_empty::<String>(json, "tags")?;
        let text = read_field::<String>(json, "text")?;
        let to = read_list_field::<MessageAddress>(json, "to")?;
        let message_type = read_field::<String>(json, "type")?;
        let valid_until = read_optional_field::<String>(json, "valid_until")?;
        let webhook_failover_url = read_field::<String>(json, "webhook_failover_url")?;
        let webhook_url = read_field::<String>(json, "webhook_url")?;
        Some(Message {
            completed_at,
            cost,
            direction,
            encoding,
            from,
            id,
            media,
            messaging_profile_id,
            parts,
            received_at,
            sent_at,
            subject,
            tags,
            text,
            to,
            message_type,
            valid_until,
            webhook_failover_url,
            webhook_url,
        })
    }
}

/// A cost breakdown is an object of three strings.
/// Members that the record does not have are passed over.
impl Decode for AvailablePhoneNumberCost {
    open spec fn decoded(json: JsonView) -> Option<AvailablePhoneNumberCostView> {
        if {
            &&& field::<String>(json, "currency"@) is Some
            &&& field::<String>(json, "monthly_cost"@) is Some
            &&& field::<String>(json, "upfront_cost"@) is Some
        } {
            Some(
                AvailablePhoneNumberCostView {
                    currency: field::<String>(json, "currency"@).unwrap(),
                    monthly_cost: field::<String>(json, "monthly_cost"@).unwrap(),
                    upfront_cost: field::<String>(json, "upfront_cost"@).unwrap(),
                },
            )
        } else {
            None
        }
    }

    fn decode(json: &Json) -> (res: Option<AvailablePhoneNumberCost>) {
        let currency = read_field::<String>(json, "currency")?;
        let monthly_cost = read_field::<String>(json, "monthly_cost")?;
        let upfront_cost = read_field::<String>(json, "upfront_cost")?;
        Some(AvailablePhoneNumberCost {
            currency,
            monthly_cost,
            upfront_cost,
        })
    }
}

/// A region is an object of two strings.
/// Members that the record does not have are passed over.
impl Decode for AvailablePhoneNumberRegion {
    open spec fn decoded(json: JsonView) -> Option<AvailablePhoneNumberRegionView> {
        if {
            &&& field::<String>(json, "region_name"@) is Some
            &&& field::<String>(json, "region_type"@) is Some
        } {
            Some(
                AvailablePhoneNumberRegionView {
                    region_name: field::<String>(json, "region_name"@).unwrap(),
                    region_type: field::<String>(json, "region_type"@).unwrap(),
                },
            )
        } else {
            None
        }
    }

    fn decode(json: &Json) -> (res: Option<AvailablePhoneNumberRegion>) {
        let region_name = read_field::<String>(json, "region_name")?;
        let region_type = read_field::<String>(json, "region_type")?;
        Some(AvailablePhoneNumberRegion {
            region_name,
            region_type,
        })
    }
}

/// A requirement is an object of three strings.
/// Members that the record does not have are passed over.
impl Decode for AvailablePhoneNumberRegulatoryRequirements {
    open spec fn decoded(json: JsonView) -> Option<AvailablePhoneNumberRegulatoryRequirementsView> {
        if {
            &&& field::<String>(json, "description"@) is Some
            &&& field::<String>(json, "field_type"@) is Some
            &&& field::<String>(json, "label"@) is Some
        } {
            Some(
                AvailablePhoneNumberRegulatoryRequirementsView {
                    description: field::<String>(json, "description"@).unwrap(),
                    field_type: field::<String>(json, "field_type"@).unwrap(),
                    label: field::<String>(json, "label"@).unwrap(),
                },
            )
        } else {
            None
        }
    }

    fn decode(json: &Json) -> (res: Option<AvailablePhoneNumberRegulatoryRequirements>) {
        let description = read_field::<String>(json, "description")?;
        let field_type = read_field::<String>(json, "field_type")?;
        let label = read_field::<String>(json, "label")?;
        Some(AvailablePhoneNumberRegulatoryRequirements {
            description,
            field_type,
            label,
        })
    }
}

/// An available phone number is an object. `region_information` and
/// `regulatory_requirements` are lists that are empty where the member is
/// missing.
/// Members that the record does not have are passed over.
impl Decode for AvailablePhoneNumber {
    open spec fn decoded(json: JsonView) -> Option<AvailablePhoneNumberView> {
        if {
            &&& field::<bool>(json, "best_effort"@) is Some
            &&& field::<AvailablePhoneNumberCost>(json, "cost_information"@) is Some
            &&& field::<String>(json, "phone_number"@) is Some
            &&& field::<bool>(json, "quickship"@) is Some
            &&& list_field_or_empty::<AvailablePhoneNumberRegion>(
                json,
                "region_information"@,
            ) is Some
            &&& list_field_or_empty::<AvailablePhoneNumberRegulatoryRequirements>(
                json,
                "regulatory_requirements"@,
            ) is Some
            &&& field::<bool>(json, "reservable"@) is Some
            &&& field::<String>(json, "vanity_format"@) is Some
        } {
            Some(
                AvailablePhoneNumberView {
                    best_effort: field::<bool>(json, "best_effort"@).unwrap(),
                    cost_information: field::<AvailablePhoneNumberCost>(
                        json,
                        "cost_information"@,
                    ).unwrap(),
                    phone_number: field::<String>(json, "phone_number"@).unwrap(),
                    quickship: field::<bool>(json, "quickship"@).unwrap(),
                    region_information: list_field_or_empty::<AvailablePhoneNumberRegion>(
                        json,
                        "region_information"@,
                    ).unwrap(),
                    regulatory_requirements: list_field_or_empty::<AvailablePhoneNumberRegulatoryRequirements>(
                        json,
                        "regulatory_requirements"@,
                    ).unwrap(),
                    reservable: field::<bool>(json, "reservable"@).unwrap(),
                    vanity_format: field::<String>(json, "vanity_format"@).unwrap(),
                },
            )
        } else {
            None
        }
    }

    fn decode(json: &Json) -> (res: Option<AvailablePhoneNumber>) {
        let best_effort = read_field::<bool>(json, "best_effort")?;
        let cost_information = read_field::<AvailablePhoneNumberCost>(json, "cost_information")?;
        let phone_number = read_field::<String>(json, "phone_number")?;
        let quickship = read_field::<bool>(json, "quickship")?;
        let region_information = read_list_field_or_empty::<AvailablePhoneNumberRegion>(
            json,
            "region_information",
        )?;
        let regulatory_requirements = read_list_field_or_empty::<AvailablePhoneNumberRegulatoryRequirements>(
            json,
            "regulatory_requirements",
        )?;
        let reservable = read_field::<bool>(json, "reservable")?;
        let vanity_format = read_field::<String>(json, "vanity_format")?;
        Some(AvailablePhoneNumber {
            best_effort,
            cost_information,
            phone_number,
            quickship,
            region_information,
            regulatory_requirements,
            reservable,
            vanity_format,
        })
    }
}

/// The kinds of record, as the member `record_type` names them.
#[derive(Debug, Clone, Copy, PartialEq, Eq, Structural)]
pub enum ResourceKind {
    NumberOrder,
    Message,
    AvailablePhoneNumber,
}

impl ResourceKind {
    /// The kind that a value of `record_type` names. Each kind has two
    /// spellings; any other string names none.
    pub open spec fn of_tag(tag: Seq<char>) -> Option<ResourceKind> {
        if tag == "NumberOrder"@ || tag == "number_order"@ {
            Some(ResourceKind::NumberOrder)
        } else if tag == "Message"@ || tag == "message"@ {
            Some(ResourceKind::Message)
        } else if tag == "AvailablePhoneNumber"@ || tag == "available_phone_number"@ {
            Some(ResourceKind::AvailablePhoneNumber)
        } else {
            None
        }
    }

    /// The kind that `tag` names.
    pub fn from_tag(tag: &str) -> (res: Option<ResourceKind>)
        ensures
            res == Self::of_tag(tag@),
    {
        if same_text(tag, "NumberOrder") || same_text(tag, "number_order") {
            Some(ResourceKind::NumberOrder)
        } else if same_text(tag, "Message") || same_text(tag, "message") {
            Some(ResourceKind::Message)
        } else if same_text(tag, "AvailablePhoneNumber") || same_text(
            tag,
            "available_phone_number",
        ) {
            Some(ResourceKind::AvailablePhoneNumber)
        } else {
            None
        }
    }
}

/// Whether two strings hold the same characters.
fn same_text(a: &str, b: &str) -> (res: bool)
    ensures
        res == (a@ == b@),
{
    String::from_str(a) == String::from_str(b)
}

impl ResourceView {
    /// The kind of this record.
    pub open spec fn kind(self) -> ResourceKind {
        match self {
            ResourceView::NumberOrder(_) => ResourceKind::NumberOrder,
            ResourceView::Message(_) => ResourceKind::Message,
            ResourceView::AvailablePhoneNumber(_) => ResourceKind::AvailablePhoneNumber,
        }
    }
}

impl Resource {
    /// The kind of this record.
    pub fn kind(&self) -> (res: ResourceKind)
        ensures
            res == self@.kind(),
    {
        match self {
            Resource::NumberOrder(_) => ResourceKind::NumberOrder,
            Resource::Message(_) => ResourceKind::Message,
            Resource::AvailablePhoneNumber(_) => ResourceKind::AvailablePhoneNumber,
        }
    }
}

/// A record of any kind is an object whose member `record_type` is a string
/// that names a kind, and whose other members make a record of that kind. A
/// `record_type` that names no kind does not decode.
impl Decode for Resource {
    open spec fn decoded(json: JsonView) -> Option<ResourceView> {
        match field::<String>(json, "record_type"@) {
            Some(tag) => match ResourceKind::of_tag(tag) {
                Some(ResourceKind::NumberOrder) => match NumberOrder::decoded(json) {
                    Some(r) => Some(ResourceView::NumberOrder(r)),
                    None => None,
                },
                Some(ResourceKind::Message) => match Message::decoded(json) {
                    Some(r) => Some(ResourceView::Message(r)),
                    None => None,
                },
                Some(ResourceKind::AvailablePhoneNumber) => match AvailablePhoneNumber::decoded(
                    json,
                ) {
                    Some(r) => Some(ResourceView::AvailablePhoneNumber(r)),
                    None => None,
                },
                None => None,
            },
            None => None,
        }
    }

    fn decode(json: &Json) -> (res: Option<Resource>) {
        let tag = read_field::<String>(json, "record_type")?;
        match ResourceKind::from_tag(tag.as_str())? {
            ResourceKind::NumberOrder => Some(Resource::NumberOrder(NumberOrder::decode(json)?)),
            ResourceKind::Message => Some(Resource::Message(Message::decode(json)?)),
            ResourceKind::AvailablePhoneNumber => Some(
                Resource::AvailablePhoneNumber(AvailablePhoneNumber::decode(json)?),
            ),
        }
    }
}

/// A list envelope is an object whose member `data` is an array of records.
impl Decode for ListResponseWrapper {
    open spec fn decoded(json: JsonView) -> Option<ListResponseWrapperView> {
        match list_field::<Resource>(json, "data"@) {
            Some(data) => Some(ListResponseWrapperView { data }),
            None => None,
        }
    }

    fn decode(json: &Json) -> (res: Option<ListResponseWrapper>) {
        let data = read_list_field::<Resource>(json, "data")?;
        Some(ListResponseWrapper { data })
    }
}

/// An item envelope is an object whose member `data` is a record.
impl Decode for ItemResponseWrapper {
    open spec fn decoded(json: JsonView) -> Option<ItemResponseWrapperView> {
        match field::<Resource>(json, "data"@) {
            Some(data) => Some(ItemResponseWrapperView { data }),
            None => None,
        }
    }

    fn decode(json: &Json) -> (res: Option<ItemResponseWrapper>) {
        let data = read_field::<Resource>(json, "data")?;
        Some(ItemResponseWrapper { data })
    }
}

} // verus!
