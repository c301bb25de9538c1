//! The records that the API returns, and the envelopes they arrive in.

use vstd::prelude::*;

verus! {

/// The view of what an `Option` holds.
pub open spec fn option_view<T: View>(value: Option<T>) -> Option<T::V> {
    match value {
        Some(v) => Some(v@),
        None => None,
    }
}

/// The views of the items of a sequence, in the same order.
pub open spec fn seq_view<T: View>(items: Seq<T>) -> Seq<T::V> {
    Seq::new(items.len(), |i: int| items[i]@)
}

/// An order for phone numbers.
#[derive(Debug, Clone)]
pub struct NumberOrder {
    pub billing_group_id: Option<String>,
    pub connection_id: Option<String>,
    pub created_at: String,
    pub customer_reference: Option<String>,
    pub id: String,
    pub message_profile_id: Option<String>,
    pub phone_numbers_count: usize,
    pub requirements_met: bool,
    pub status: String,
    pub updated_at: String,
}

/// The mathematical value of a [`NumberOrder`].
pub struct NumberOrderView {
    pub billing_group_id: Option<Seq<char>>,
    pub connection_id: Option<Seq<char>>,
    pub created_at: Seq<char>,
    pub customer_reference: Option<Seq<char>>,
    pub id: Seq<char>,
    pub message_profile_id: Option<Seq<char>>,
    pub phone_numbers_count: usize,
    pub requirements_met: bool,
    pub status: Seq<char>,
    pub updated_at: Seq<char>,
}

impl View for NumberOrder {
    type V = NumberOrderView;

    open spec fn view(&self) -> NumberOrderView {
        NumberOrderView {
            billing_group_id: option_view(self.billing_group_id),
            connection_id: option_view(self.connection_id),
            created_at: self.created_at@,
            customer_reference: option_view(self.customer_reference),
            id: self.id@,
            message_profile_id: option_view(self.message_profile_id),
            phone_numbers_count: self.phone_numbers_count,
            requirements_met: self.requirements_met,
            status: self.status@,
            updated_at: self.updated_at@,
        }
    }
}

/// One end of a message.
#[derive(Debug, Clone)]
pub struct MessageAddress {
    pub carrier: String,
    pub line_type: String,
    pub phone_number: String,
    pub status: Option<String>,
}

/// The mathematical value of a [`MessageAddress`].
pub struct MessageAddressView {
    pub carrier: Seq<char>,
    pub line_type: Seq<char>,
    pub phone_number: Seq<char>,
    pub status: Option<Seq<char>>,
}

impl View for MessageAddress {
    type V = MessageAddressView;

    open spec fn view(&self) -> MessageAddressView {
        MessageAddressView {
            carrier: self.carrier@,
            line_type: self.line_type@,
            phone_number: self.phone_number@,
            status: option_view(self.status),
        }
    }
}

/// An attachment of a message.
#[derive(Debug, Clone)]
pub struct MessageMedia {
    pub content_type: Option<String>,
    pub sha256: Option<String>,
    pub size: Option<usize>,
    pub url: String,
}

/// The mathematical value of a [`MessageMedia`].
pub struct MessageMediaView {
    pub content_type: Option<Seq<char>>,
    pub sha256: Option<Seq<char>>,
    pub size: Option<usize>,
    pub url: Seq<char>,
}

impl View for MessageMedia {
    type V = MessageMediaView;

    open spec fn view(&self) -> MessageMediaView {
        MessageMediaView {
            content_type: option_view(self.content_type),
            sha256: option_view(self.sha256),
            size: self.size,
            url: self.url@,
        }
    }
}

/// What a message cost.
#[derive(Debug, Clone)]
pub struct MessageCost {
    pub amount: String,
    pub currency: String,
}

/// The mathematical value of a [`MessageCost`].
pub struct MessageCostView {
    pub amount: Seq<char>,
    pub currency: Seq<char>,
}

impl View for MessageCost {
    type V = MessageCostView;

    open spec fn view(&self) -> MessageCostView {
        MessageCostView {
            amount: self.amount@,
            currency: self.currency@,
        }
    }
}

/// A message that was sent or received.
#[derive(Debug, Clone)]
pub struct Message {
    pub completed_at: Option<String>,
    pub cost: Option<MessageCost>,
    pub direction: String,
    pub encoding: String,
    pub from: MessageAddress,
    pub id: String,
    pub media: Vec<MessageMedia>,
    pub messaging_profile_id: String,
    pub parts: usize,
    pub received_at: String,
    pub sent_at: Option<String>,
    pub subject: Option<String>,
    pub tags: Vec<String>,
    pub text: String,
    pub to: Vec<MessageAddress>,
    /// The JSON member `type`.
    pub message_type: String,
    pub valid_until: Option<String>,
    pub webhook_failover_url: String,
    pub webhook_url: String,
}

/// The mathematical value of a [`Message`].
pub struct MessageView {
    pub completed_at: Option<Seq<char>>,
    pub cost: Option<MessageCostView>,
    pub direction: Seq<char>,
    pub encoding: Seq<char>,
    pub from: MessageAddressView,
    pub id: Seq<char>,
    pub media: Seq<MessageMediaView>,
    pub messaging_profile_id: Seq<char>,
    pub parts: usize,
    pub received_at: Seq<char>,
    pub sent_at: Option<Seq<char>>,
    pub subject: Option<Seq<char>>,
    pub tags: Seq<Seq<char>>,
    pub text: Seq<char>,
    pub to: Seq<MessageAddressView>,
    pub message_type: Seq<char>,
    pub valid_until: Option<Seq<char>>,
    pub webhook_failover_url: Seq<char>,
    pub webhook_url: Seq<char>,
}

impl View for Message {
    type V = MessageView;

    open spec fn view(&self) -> MessageView {
        MessageView {
            completed_at: option_view(self.completed_at),
            cost: option_view(self.cost),
            direction: self.direction@,
            encoding: self.encoding@,
            from: self.from@,
            id: self.id@,
            media: seq_view(self.media@),
            messaging_profile_id: self.messaging_profile_id@,
            parts: self.parts,
            received_at: self.received_at@,
            sent_at: option_view(self.sent_at),
            subject: option_view(self.subject),
            tags: seq_view(self.tags@),
            text: self.text@,
            to: seq_view(self.to@),
            message_type: self.message_type@,
            valid_until: option_view(self.valid_until),
            webhook_failover_url: self.webhook_failover_url@,
            webhook_url: self.webhook_url@,
        }
    }
}

/// What a phone number costs.
#[derive(Debug, Clone)]
pub struct AvailablePhoneNumberCost {
    pub currency: String,
    pub monthly_cost: String,
    pub upfront_cost: String,
}

/// The mathematical value of a [`AvailablePhoneNumberCost`].
pub struct AvailablePhoneNumberCostView {
    pub currency: Seq<char>,
    pub monthly_cost: Seq<char>,
    pub upfront_cost: Seq<char>,
}

impl View for AvailablePhoneNumberCost {
    type V = AvailablePhoneNumberCostView;

    open spec fn view(&self) -> AvailablePhoneNumberCostView {
        AvailablePhoneNumberCostView {
            currency: self.currency@,
            monthly_cost: self.monthly_cost@,
            upfront_cost: self.upfront_cost@,
        }
    }
}

/// A region that a phone number belongs to.
#[derive(Debug, Clone)]
pub struct AvailablePhoneNumberRegion {
    pub region_name: String,
    pub region_type: String,
}

/// The mathematical value of a [`AvailablePhoneNumberRegion`].
pub struct AvailablePhoneNumberRegionView {
    pub region_name: Seq<char>,
    pub region_type: Seq<char>,
}

impl View for AvailablePhoneNumberRegion {
    type V = AvailablePhoneNumberRegionView;

    open spec fn view(&self) -> AvailablePhoneNumberRegionView {
        AvailablePhoneNumberRegionView {
            region_name: self.region_name@,
            region_type: self.region_type@,
        }
    }
}

/// A requirement that the buyer of a phone number has to meet.
#[derive(Debug, Clone)]
pub struct AvailablePhoneNumberRegulatoryRequirements {
    pub description: String,
    pub field_type: String,
    pub label: String,
}

/// The mathematical value of a [`AvailablePhoneNumberRegulatoryRequirements`].
pub struct AvailablePhoneNumberRegulatoryRequirementsView {
    pub description: Seq<char>,
    pub field_type: Seq<char>,
    pub label: Seq<char>,
}

impl View for AvailablePhoneNumberRegulatoryRequirements {
    type V = AvailablePhoneNumberRegulatoryRequirementsView;

    open spec fn view(&self) -> AvailablePhoneNumberRegulatoryRequirementsView {
        AvailablePhoneNumberRegulatoryRequirementsView {
            description: self.description@,
            field_type: self.field_type@,
            label: self.label@,
        }
    }
}

/// A phone number that can be ordered.
#[derive(Debug, Clone)]
pub struct AvailablePhoneNumber {
    pub best_effort: bool,
    pub cost_information: AvailablePhoneNumberCost,
    pub phone_number: String,
    pub quickship: bool,
    pub region_information: Vec<AvailablePhoneNumberRegion>,
    pub regulatory_requirements: Vec<AvailablePhoneNumberRegulatoryRequirements>,
    pub reservable: bool,
    pub vanity_format: String,
}

/// The mathematical value of a [`AvailablePhoneNumber`].
pub struct AvailablePhoneNumberView {
    pub best_effort: bool,
    pub cost_information: AvailablePhoneNumberCostView,
    pub phone_number: Seq<char>,
    pub quickship: bool,
    pub region_information: Seq<AvailablePhoneNumberRegionView>,
    pub regulatory_requirements: Seq<AvailablePhoneNumberRegulatoryRequirementsView>,
    pub reservable: bool,
    pub vanity_format: Seq<char>,
}

impl View for AvailablePhoneNumber {
    type V = AvailablePhoneNumberView;

    open spec fn view(&self) -> AvailablePhoneNumberView {
        AvailablePhoneNumberView {
            best_effort: self.best_effort,
            cost_information: self.cost_information@,
            phone_number: self.phone_number@,
            quickship: self.quickship,
            region_information: seq_view(self.region_information@),
            regulatory_requirements: seq_view(self.regulatory_requirements@),
            reservable: self.reservable,
            vanity_format: self.vanity_format@,
        }
    }
}

/// A record of any of the kinds that the API returns.
#[derive(Debug, Clone)]
pub enum Resource {
    NumberOrder(NumberOrder),
    Message(Message),
    AvailablePhoneNumber(AvailablePhoneNumber),
}

/// The mathematical value of a [`Resource`].
pub enum ResourceView {
    NumberOrder(NumberOrderView),
    Message(MessageView),
    AvailablePhoneNumber(AvailablePhoneNumberView),
}

impl View for Resource {
    type V = ResourceView;

    open spec fn view(&self) -> ResourceView {
        match self {
            Resource::NumberOrder(r) => ResourceView::NumberOrder(r@),
            Resource::Message(r) => ResourceView::Message(r@),
            Resource::AvailablePhoneNumber(r) => ResourceView::AvailablePhoneNumber(r@),
        }
    }
}

/// The body of a response that lists records: `{"data": [...]}`.
pub struct ListResponseWrapper {
    pub data: Vec<Resource>,
}

/// The mathematical value of a [`ListResponseWrapper`].
pub struct ListResponseWrapperView {
    pub data: Seq<ResourceView>,
}

impl View for ListResponseWrapper {
    type V = ListResponseWrapperView;

    open spec fn view(&self) -> ListResponseWrapperView {
        ListResponseWrapperView { data: seq_view(self.data@) }
    }
}

/// The body of a response that holds one record: `{"data": {...}}`.
pub struct ItemResponseWrapper {
    pub data: Resource,
}

/// The mathematical value of an [`ItemResponseWrapper`].
pub struct ItemResponseWrapperView {
    pub data: ResourceView,
}

impl View for ItemResponseWrapper {
    type V = ItemResponseWrapperView;

    open spec fn view(&self) -> ItemResponseWrapperView {
        ItemResponseWrapperView { data: self.data@ }
    }
}

} // verus!
