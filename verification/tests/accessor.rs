use hyper::body::HttpBody;
use telnyx::accessor::{
    authorization, get_from_json, get_request, get_response, index_endpoint, item_endpoint,
    list_from_json, list_request, list_response, narrow_item, narrow_list, ApiResource,
};
use telnyx::decode::Decode;
use telnyx::json::Json;
use telnyx::resources::{
    AvailablePhoneNumber, ItemResponseWrapper, ListResponseWrapper, Message, NumberOrder, Resource,
};
use telnyx::{ApiError, Credentials, ErrorKind};

fn order(id: &str) -> String {
    format!(
        r#"{{"record_type": "number_order", "created_at": "c", "id": "{}",
            "phone_numbers_count": 2, "requirements_met": false, "status": "s",
            "updated_at": "u"}}"#,
        id
    )
}

fn message(id: &str) -> String {
    format!(
        r#"{{"record_type": "message", "direction": "inbound", "encoding": "e",
            "from": {{"carrier": "c", "line_type": "l", "phone_number": "+1"}},
            "id": "{}", "messaging_profile_id": "p", "parts": 1, "received_at": "r",
            "text": "t", "to": [], "type": "SMS", "webhook_failover_url": "f",
            "webhook_url": "w"}}"#,
        id
    )
}

fn number(phone: &str) -> String {
    format!(
        r#"{{"record_type": "available_phone_number", "best_effort": true,
            "cost_information": {{"currency": "USD", "monthly_cost": "1", "upfront_cost": "2"}},
            "phone_number": "{}", "quickship": false, "reservable": false,
            "vanity_format": "v"}}"#,
        phone
    )
}

fn list_of(items: &[String]) -> Vec<u8> {
    format!("{{\"data\": [{}]}}", items.join(", ")).into_bytes()
}

fn item_of(item: &str) -> Vec<u8> {
    format!("{{\"data\": {}}}", item).into_bytes()
}

fn list_envelope(body: &[u8]) -> ListResponseWrapper {
    ListResponseWrapper::decode(&Json::parse(body).unwrap()).unwrap()
}

fn item_envelope(body: &[u8]) -> ItemResponseWrapper {
    ItemResponseWrapper::decode(&Json::parse(body).unwrap()).unwrap()
}

#[test]
fn fragments_are_the_documented_paths() {
    assert_eq!(NumberOrder::url_fragment(), "number_orders");
    assert_eq!(Message::url_fragment(), "messages");
    assert_eq!(AvailablePhoneNumber::url_fragment(), "available_phone_numbers");
}

#[test]
fn index_endpoint_joins_prefix_and_fragment() {
    assert_eq!(
        index_endpoint::<NumberOrder>("http://localhost:12111/v2"),
        "http://localhost:12111/v2/number_orders"
    );
    assert_eq!(
        index_endpoint::<Message>("https://api.telnyx.com/v2"),
        "https://api.telnyx.com/v2/messages"
    );
    assert_eq!(
        index_endpoint::<AvailablePhoneNumber>("https://api.telnyx.com/v2"),
        "https://api.telnyx.com/v2/available_phone_numbers"
    );
}

#[test]
fn index_endpoint_adds_nothing_but_one_slash() {
    assert_eq!(index_endpoint::<Message>(""), "/messages");
    assert_eq!(index_endpoint::<Message>("http://h/"), "http://h//messages");
}

#[test]
fn item_endpoint_appends_the_id() {
    assert_eq!(
        item_endpoint::<Message>("http://localhost:12111/v2", "abcd"),
        "http://localhost:12111/v2/messages/abcd"
    );
    assert_eq!(
        item_endpoint::<NumberOrder>("https://api.telnyx.com/v2", "12ade33a"),
        "https://api.telnyx.com/v2/number_orders/12ade33a"
    );
    assert_eq!(
        item_endpoint::<AvailablePhoneNumber>("b", "+1970"),
        "b/available_phone_numbers/+1970"
    );
}

#[test]
fn item_endpoint_uses_the_id_as_it_is() {
    assert_eq!(item_endpoint::<Message>("b", "a b/c?d"), "b/messages/a b/c?d");
    assert_eq!(item_endpoint::<Message>("b", ""), "b/messages/");
}

#[test]
fn authorization_is_a_bearer_token() {
    assert_eq!(authorization(&Credentials::new("KEY0123456")), "Bearer KEY0123456");
    assert_eq!(authorization(&Credentials::new("")), "Bearer ");
}

#[test]
fn list_request_is_a_get_with_the_key() {
    let creds = Credentials::custom("KEY0123456", "http://localhost:12111/v2");
    let request = list_request::<NumberOrder>(&creds).unwrap();
    assert_eq!(request.method(), hyper::Method::GET);
    assert_eq!(request.uri().to_string(), "http://localhost:12111/v2/number_orders");
    assert_eq!(request.headers().len(), 1);
    assert_eq!(
        request.headers().get("Authorization").unwrap().to_str().unwrap(),
        "Bearer KEY0123456"
    );
    assert!(request.body().is_end_stream());
}

#[test]
fn get_request_is_a_get_of_the_item() {
    let creds = Credentials::new("KEY0123456");
    let request = get_request::<Message>(&creds, "abcd").unwrap();
    assert_eq!(request.method(), hyper::Method::GET);
    assert_eq!(request.uri().to_string(), "https://api.telnyx.com/v2/messages/abcd");
    assert_eq!(request.uri().host(), Some("api.telnyx.com"));
    assert_eq!(request.uri().path(), "/v2/messages/abcd");
    assert_eq!(
        request.headers().get(hyper::header::AUTHORIZATION).unwrap().to_str().unwrap(),
        "Bearer KEY0123456"
    );
    assert!(request.body().is_end_stream());
}

#[test]
fn request_for_a_malformed_url_is_an_http_error() {
    let creds = Credentials::custom("k", "http://bad host/v2");
    match list_request::<Message>(&creds) {
        Err(ApiError::HttpError(_)) => {}
        other => panic!("{:?}", other),
    }
    let creds = Credentials::custom("k", "http://host/v2");
    match get_request::<Message>(&creds, "a b") {
        Err(e) => assert_eq!(e.kind(), ErrorKind::Http),
        other => panic!("{:?}", other),
    }
}

#[test]
fn request_for_a_malformed_key_is_an_http_error() {
    let creds = Credentials::custom("line\nbreak", "http://host/v2");
    match get_request::<Message>(&creds, "abc") {
        Err(ApiError::HttpError(_)) => {}
        other => panic!("{:?}", other),
    }
}

#[test]
fn narrow_takes_the_own_variant_only() {
    let body = list_of(&[order("o"), message("m"), number("+1")]);
    let envelope = list_envelope(&body);
    let mut data = envelope.data;
    let n = data.pop().unwrap();
    let m = data.pop().unwrap();
    let o = data.pop().unwrap();
    assert!(Message::narrow(o.clone()).is_none());
    assert!(AvailablePhoneNumber::narrow(o.clone()).is_none());
    assert_eq!(NumberOrder::narrow(o).unwrap().id, "o");
    assert!(NumberOrder::narrow(m.clone()).is_none());
    assert!(AvailablePhoneNumber::narrow(m.clone()).is_none());
    assert_eq!(Message::narrow(m).unwrap().id, "m");
    assert!(NumberOrder::narrow(n.clone()).is_none());
    assert!(Message::narrow(n.clone()).is_none());
    assert_eq!(AvailablePhoneNumber::narrow(n).unwrap().phone_number, "+1");
}

#[test]
fn narrow_list_keeps_the_order() {
    let envelope =
        list_envelope(&list_of(&[message("c"), message("a"), message("b")]));
    let ids: Vec<String> =
        narrow_list::<Message>(envelope).unwrap().into_iter().map(|m| m.id).collect();
    assert_eq!(ids, vec!["c", "a", "b"]);
}

#[test]
fn narrow_list_fails_on_one_other_kind() {
    let envelope =
        list_envelope(&list_of(&[message("a"), order("o"), message("b")]));
    match narrow_list::<Message>(envelope) {
        Err(ApiError::ResourceMismatchError) => {}
        other => panic!("{:?}", other),
    }
}

#[test]
fn narrow_list_of_nothing_is_empty() {
    let envelope = ListResponseWrapper { data: Vec::new() };
    assert!(narrow_list::<NumberOrder>(envelope).unwrap().is_empty());
}

#[test]
fn narrow_item_checks_the_kind() {
    let envelope = item_envelope(&item_of(&order("o")));
    assert_eq!(narrow_item::<NumberOrder>(envelope).unwrap().id, "o");
    let envelope = item_envelope(&item_of(&order("o")));
    match narrow_item::<Message>(envelope) {
        Err(ApiError::ResourceMismatchError) => {}
        other => panic!("{:?}", other),
    }
}

#[test]
fn narrow_item_of_a_built_record() {
    let envelope = item_envelope(&item_of(&number("+1")));
    let record = match envelope.data {
        Resource::AvailablePhoneNumber(n) => n,
        other => panic!("{:?}", other),
    };
    let envelope = ItemResponseWrapper { data: Resource::AvailablePhoneNumber(record) };
    assert_eq!(narrow_item::<AvailablePhoneNumber>(envelope).unwrap().phone_number, "+1");
}

#[test]
fn list_response_gives_every_record_in_order() {
    let body = list_of(&[order("3"), order("1"), order("2"), order("1")]);
    let records = list_response::<NumberOrder>(&body).unwrap();
    let ids: Vec<&str> = records.iter().map(|r| r.id.as_str()).collect();
    assert_eq!(ids, vec!["3", "1", "2", "1"]);
    assert!(records.iter().all(|r| r.phone_numbers_count == 2 && !r.requirements_met));
}

#[test]
fn list_response_of_an_empty_listing_is_empty() {
    assert!(list_response::<Message>(b"{\"data\": []}").unwrap().is_empty());
    assert!(list_response::<NumberOrder>(b"{\"data\": []}").unwrap().is_empty());
}

#[test]
fn list_response_with_another_kind_is_a_mismatch() {
    let body = list_of(&[message("a"), order("o")]);
    match list_response::<Message>(&body) {
        Err(ApiError::ResourceMismatchError) => {}
        other => panic!("{:?}", other),
    }
    match list_response::<NumberOrder>(&body) {
        Err(ApiError::ResourceMismatchError) => {}
        other => panic!("{:?}", other),
    }
    match list_response::<AvailablePhoneNumber>(&list_of(&[message("a")])) {
        Err(e) => assert_eq!(e.kind(), ErrorKind::ResourceMismatch),
        other => panic!("{:?}", other),
    }
}

#[test]
fn list_response_with_an_unknown_record_type_is_a_parse_error() {
    let unknown = message("x").replace("\"message\"", "\"fax\"");
    for body in [
        list_of(&[unknown.clone()]),
        list_of(&[message("a"), unknown.clone()]),
        list_of(&[unknown.clone(), message("a")]),
        list_of(&[order("o"), unknown.clone(), message("a")]),
    ] {
        match list_response::<Message>(&body) {
            Err(ApiError::ParseError(_)) => {}
            other => panic!("{:?}", other),
        }
    }
}

#[test]
fn parse_errors_come_before_mismatches() {
    let broken = "{\"record_type\": \"message\"}".to_string();
    let body = list_of(&[order("o"), broken]);
    match list_response::<Message>(&body) {
        Err(ApiError::ParseError(_)) => {}
        other => panic!("{:?}", other),
    }
}

#[test]
fn list_response_of_a_malformed_body_is_a_parse_error() {
    for body in [
        &b""[..],
        b"not json",
        b"{\"data\": [",
        b"{}",
        b"[]",
        b"{\"data\": {}}",
        b"{\"data\": null}",
        b"{\"data\": [1]}",
        b"{\"data\": [{}]}",
        b"{\"items\": []}",
    ] {
        match list_response::<NumberOrder>(body) {
            Err(ApiError::ParseError(_)) => {}
            other => panic!("{:?} gave {:?}", body, other),
        }
    }
}

#[test]
fn get_response_gives_the_record() {
    let record = get_response::<Message>(&item_of(&message("abc"))).unwrap();
    assert_eq!(record.id, "abc");
    assert_eq!(record.direction, "inbound");
    assert_eq!(record.from.phone_number, "+1");
    assert_eq!(record.message_type, "SMS");
    let record = get_response::<NumberOrder>(&item_of(&order("o1"))).unwrap();
    assert_eq!(record.id, "o1");
    let record = get_response::<AvailablePhoneNumber>(&item_of(&number("+1970"))).unwrap();
    assert_eq!(record.phone_number, "+1970");
    assert!(record.best_effort);
}

#[test]
fn get_response_of_another_kind_is_a_mismatch() {
    match get_response::<Message>(&item_of(&order("o"))) {
        Err(ApiError::ResourceMismatchError) => {}
        other => panic!("{:?}", other),
    }
    match get_response::<NumberOrder>(&item_of(&number("+1"))) {
        Err(ApiError::ResourceMismatchError) => {}
        other => panic!("{:?}", other),
    }
    match get_response::<AvailablePhoneNumber>(&item_of(&message("m"))) {
        Err(e) => assert_eq!(e.kind(), ErrorKind::ResourceMismatch),
        other => panic!("{:?}", other),
    }
}

#[test]
fn get_response_with_an_unknown_record_type_is_a_parse_error() {
    let unknown = message("x").replace("\"message\"", "\"fax\"");
    match get_response::<Message>(&item_of(&unknown)) {
        Err(ApiError::ParseError(_)) => {}
        other => panic!("{:?}", other),
    }
}

#[test]
fn get_response_of_a_malformed_body_is_a_parse_error() {
    for body in [
        &b""[..],
        b"<html>",
        b"{\"data\": ",
        b"{}",
        b"{\"data\": []}",
        b"{\"data\": null}",
        b"{\"data\": {}}",
        b"{\"data\": {\"record_type\": \"message\"}}",
        b"{\"data\": {\"record_type\": 1}}",
    ] {
        match get_response::<Message>(body) {
            Err(ApiError::ParseError(_)) => {}
            other => panic!("{:?} gave {:?}", body, other),
        }
    }
}

#[test]
fn from_json_agrees_with_the_response() {
    let json = Json::parse(&item_of(&message("abc"))).unwrap();
    assert_eq!(get_from_json::<Message>(&json).unwrap().id, "abc");
    assert_eq!(get_from_json::<NumberOrder>(&json).unwrap_err().kind(), ErrorKind::ResourceMismatch);
    let json = Json::parse(&list_of(&[message("a"), message("b")])).unwrap();
    let ids: Vec<String> =
        list_from_json::<Message>(&json).unwrap().into_iter().map(|m| m.id).collect();
    assert_eq!(ids, vec!["a", "b"]);
    assert_eq!(list_from_json::<Message>(&Json::Null).unwrap_err().kind(), ErrorKind::Parse);
    assert_eq!(get_from_json::<Message>(&Json::Null).unwrap_err().kind(), ErrorKind::Parse);
}

#[test]
fn from_json_reads_a_built_value() {
    let record = Json::Object(vec![
        ("record_type".to_string(), Json::Text("NumberOrder".to_string())),
        ("created_at".to_string(), Json::Text("c".to_string())),
        ("id".to_string(), Json::Text("built".to_string())),
        ("phone_numbers_count".to_string(), Json::Number(Some(7))),
        ("requirements_met".to_string(), Json::Bool(true)),
        ("status".to_string(), Json::Text("s".to_string())),
        ("updated_at".to_string(), Json::Text("u".to_string())),
    ]);
    let json = Json::Object(vec![("data".to_string(), record)]);
    let order = get_from_json::<NumberOrder>(&json).unwrap();
    assert_eq!(order.id, "built");
    assert_eq!(order.phone_numbers_count, 7);
    assert!(order.requirements_met);
    assert_eq!(order.connection_id, None);
}

#[test]
fn parse_errors_say_what_was_expected() {
    match get_response::<Message>(b"{\"data\": []}") {
        Err(ApiError::ParseError(e)) => assert_eq!(e.to_string(), "the response is not a record"),
        other => panic!("{:?}", other),
    }
    match list_response::<Message>(b"{\"data\": {}}") {
        Err(ApiError::ParseError(e)) => {
            assert_eq!(e.to_string(), "the response is not a list of records")
        }
        other => panic!("{:?}", other),
    }
    match get_response::<Message>(b"{\"data\": ") {
        Err(ApiError::ParseError(e)) => assert!(e.is_eof(), "{}", e),
        other => panic!("{:?}", other),
    }
}
