use novu::envelope::{complete, decode, Envelope};
use novu::error::{ErrorKind, NovuError};
use novu::json::Json;
use novu::subscriber::{
    CreateSubscriberPayload, Credentials, SubscriberPayload, SubscriberRecord, Subscribers,
    SubscribersResponse, UpdateCredentialsPayload,
};
use novu::transport::{decimal_text, Client, Method};

fn text(s: &str) -> Json {
    Json::Text(s.to_string())
}

fn object(entries: Vec<(&str, Json)>) -> Json {
    Json::Object(entries.into_iter().map(|(k, v)| (k.to_string(), v)).collect())
}

fn subscribers() -> Subscribers {
    Subscribers::new(Client::new("https://api.novu.co/v1".to_string(), "SECRET-REDACTED".to_string()))
}

fn entries_of(j: Json) -> Vec<(String, Json)> {
    match j {
        Json::Object(e) => e,
        other => panic!("not an object: {:?}", other),
    }
}

fn lookup<'a>(e: &'a [(String, Json)], key: &str) -> Option<&'a Json> {
    e.iter().find(|(k, _)| k == key).map(|(_, v)| v)
}

fn record_body() -> Json {
    object(vec![(
        "data",
        object(vec![
            ("_id", text("64a1")),
            ("_organizationId", text("org-1")),
            ("_environmentId", text("env-1")),
            ("channels", Json::Array(vec![])),
            ("deleted", Json::Bool(false)),
            ("createdAt", text("2023-07-01T00:00:00Z")),
            ("firstName", text("Ann")),
            ("lastName", Json::Null),
            ("subscriberId", text("sub-1")),
            ("email", text("ann@example.com")),
            ("__v", Json::Int(2)),
        ]),
    )])
}

#[test]
fn success_body_decodes_to_record() {
    let r: Result<SubscriberRecord, NovuError> = complete(Ok(record_body()));
    let rec = r.unwrap();
    assert_eq!(rec.id.as_deref(), Some("64a1"));
    assert_eq!(rec.organization_id.as_deref(), Some("org-1"));
    assert_eq!(rec.environment_id.as_deref(), Some("env-1"));
    assert_eq!(rec.first_name.as_deref(), Some("Ann"));
    assert_eq!(rec.last_name, None);
    assert_eq!(rec.subscriber_id.as_deref(), Some("sub-1"));
    assert_eq!(rec.email.as_deref(), Some("ann@example.com"));
    assert_eq!(rec.version, Some(2));
    assert_eq!(rec.phone, None);
    assert_eq!(rec.data, None);
    assert!(!rec.deleted);
    assert_eq!(rec.channels, Some(vec![]));
}

#[test]
fn decode_gives_success_envelope() {
    match decode::<SubscriberRecord>(record_body()) {
        Some(Envelope::Success(rec)) => assert_eq!(rec.id.as_deref(), Some("64a1")),
        _ => panic!("expected a success"),
    }
}

#[test]
fn not_found_is_a_service_error() {
    let body = object(vec![
        ("statusCode", Json::Int(404)),
        ("message", text("Not Found")),
        ("error", text("Not Found")),
    ]);
    let err = complete::<SubscriberRecord>(Ok(body)).unwrap_err();
    assert_eq!(err.kind(), ErrorKind::Service);
    assert_eq!(err.status(), Some(404));
    assert_eq!(err.message(), "Not Found");
    match err {
        NovuError::Service { error, .. } => assert_eq!(error.as_deref(), Some("Not Found")),
        other => panic!("unexpected {:?}", other),
    }
}

#[test]
fn service_shape_is_never_success() {
    let body = object(vec![
        ("statusCode", Json::Int(409)),
        ("message", text("Subscriber already exists")),
    ]);
    match decode::<SubscriberRecord>(body) {
        Some(Envelope::ServiceError(se)) => {
            assert_eq!(se.status_code, 409);
            assert_eq!(se.message, "Subscriber already exists");
            assert_eq!(se.error, None);
        }
        _ => panic!("expected a service error"),
    }
}

#[test]
fn message_list_is_a_messages_error() {
    let body = object(vec![
        ("statusCode", Json::Int(400)),
        ("message", Json::Array(vec![text("email must be an email"), text("phone is invalid")])),
        ("error", text("Bad Request")),
    ]);
    let err = complete::<SubscriberRecord>(Ok(body)).unwrap_err();
    assert_eq!(err.kind(), ErrorKind::Messages);
    assert_eq!(err.status(), None);
    assert_eq!(err.message(), "email must be an email");
    match err {
        NovuError::Messages { messages } => {
            assert_eq!(messages, vec!["email must be an email".to_string(), "phone is invalid".to_string()])
        }
        other => panic!("unexpected {:?}", other),
    }
}

#[test]
fn unknown_shape_is_a_decode_error() {
    let err = complete::<SubscriberRecord>(Ok(object(vec![("foo", Json::Int(1))]))).unwrap_err();
    assert_eq!(err.kind(), ErrorKind::Decode);
    assert_eq!(err.message(), "response body matches no known shape");
    let err = complete::<SubscriberRecord>(Ok(text("ok"))).unwrap_err();
    assert_eq!(err.kind(), ErrorKind::Decode);
}

#[test]
fn record_without_required_field_is_not_success() {
    let body = object(vec![("data", object(vec![("_id", text("64a1"))]))]);
    assert_eq!(complete::<SubscriberRecord>(Ok(body)).unwrap_err().kind(), ErrorKind::Decode);
}

#[test]
fn record_with_mistyped_field_is_not_success() {
    let body = object(vec![(
        "data",
        object(vec![("deleted", Json::Bool(false)), ("firstName", Json::Int(5))]),
    )]);
    assert!(decode::<SubscriberRecord>(body).is_none());
}

#[test]
fn transport_failure_keeps_its_reason() {
    let err = complete::<SubscriberRecord>(Err("connection refused".to_string())).unwrap_err();
    assert_eq!(err.kind(), ErrorKind::Transport);
    assert_eq!(err.message(), "connection refused");
}

#[test]
fn list_request_carries_the_page() {
    let req = subscribers().list(12);
    assert_eq!(req.method, Method::Get);
    assert_eq!(req.url, "https://api.novu.co/v1/subscribers/?page=12");
    assert!(req.body.is_none());
    assert_eq!(req.headers[0], ("Authorization".to_string(), "ApiKey SECRET-REDACTED".to_string()));
    assert_eq!(req.headers[1], ("Content-Type".to_string(), "application/json".to_string()));
    assert_eq!(subscribers().list(0).url, "https://api.novu.co/v1/subscribers/?page=0");
}

#[test]
fn page_echo_and_length_on_a_listed_page() {
    let req = subscribers().list(3);
    assert!(req.url.ends_with("?page=3"));
    let body = object(vec![(
        "data",
        object(vec![
            ("page", Json::Int(3)),
            ("totalCount", Json::Int(32)),
            ("pageSize", Json::Int(10)),
            ("data", Json::Array(vec![text("a"), text("b")])),
        ]),
    )]);
    let page: SubscribersResponse = complete(Ok(body)).unwrap();
    assert_eq!(page.page, 3);
    assert_eq!(page.total_count, 32);
    assert_eq!(page.page_size, 10);
    assert_eq!(page.data, vec!["a".to_string(), "b".to_string()]);
    assert!(page.data.len() <= page.page_size as usize);
}

#[test]
fn page_out_of_i32_is_not_success() {
    let body = object(vec![(
        "data",
        object(vec![
            ("page", Json::Int(1 << 40)),
            ("totalCount", Json::Int(0)),
            ("pageSize", Json::Int(10)),
            ("data", Json::Array(vec![])),
        ]),
    )]);
    assert_eq!(complete::<SubscribersResponse>(Ok(body)).unwrap_err().kind(), ErrorKind::Decode);
}

#[test]
fn decimal_text_of_extremes() {
    assert_eq!(decimal_text(0), "0");
    assert_eq!(decimal_text(7), "7");
    assert_eq!(decimal_text(-45), "-45");
    assert_eq!(decimal_text(i32::MAX), "2147483647");
    assert_eq!(decimal_text(i32::MIN), "-2147483648");
}

#[test]
fn get_request_targets_the_subscriber() {
    let req = subscribers().get_subscriber("unknown-id".to_string());
    assert_eq!(req.method, Method::Get);
    assert_eq!(req.url, "https://api.novu.co/v1/subscribers/unknown-id");
}

fn update_payload() -> SubscriberPayload {
    SubscriberPayload {
        first_name: Some("Ann".to_string()),
        last_name: None,
        email: Some("ann@example.com".to_string()),
        phone: None,
        avatar: Some("https://img/a.png".to_string()),
        subscriber_id: "sub-1".to_string(),
    }
}

#[test]
fn update_request_sends_camel_case_entries() {
    let req = subscribers().update("sub-1".to_string(), update_payload());
    assert_eq!(req.method, Method::Put);
    assert_eq!(req.url, "https://api.novu.co/v1/subscribers/sub-1");
    let e = entries_of(req.body.unwrap());
    let names: Vec<&str> = e.iter().map(|(k, _)| k.as_str()).collect();
    assert_eq!(names, vec!["firstName", "lastName", "email", "phone", "avatar", "subscriberId"]);
    assert_eq!(lookup(&e, "firstName"), Some(&text("Ann")));
    assert_eq!(lookup(&e, "lastName"), Some(&Json::Null));
    assert_eq!(lookup(&e, "subscriberId"), Some(&text("sub-1")));
}

#[test]
fn update_echo_round_trips_set_fields() {
    let sent = entries_of(update_payload().to_json());
    let mut echo = vec![
        ("_id".to_string(), text("64a1")),
        ("__v".to_string(), Json::Int(0)),
        ("deleted".to_string(), Json::Bool(false)),
    ];
    echo.extend(sent.into_iter().filter(|(_, v)| *v != Json::Null));
    let rec: SubscriberRecord = complete(Ok(object(vec![("data", Json::Object(echo))]))).unwrap();
    assert_eq!(rec.id.as_deref(), Some("64a1"));
    assert_eq!(rec.version, Some(0));
    assert_eq!(rec.first_name.as_deref(), Some("Ann"));
    assert_eq!(rec.email.as_deref(), Some("ann@example.com"));
    assert_eq!(rec.avatar.as_deref(), Some("https://img/a.png"));
    assert_eq!(rec.subscriber_id.as_deref(), Some("sub-1"));
}

#[test]
fn same_update_twice_gives_same_request() {
    let a = subscribers().update("sub-1".to_string(), update_payload());
    let b = subscribers().update("sub-1".to_string(), update_payload());
    assert_eq!(a.method, b.method);
    assert_eq!(a.url, b.url);
    assert_eq!(a.headers, b.headers);
    assert_eq!(a.body, b.body);
}

#[test]
fn create_request_and_read_back() {
    let payload = CreateSubscriberPayload {
        first_name: Some("Bo".to_string()),
        last_name: Some("Lee".to_string()),
        email: None,
        phone: Some("+15550100".to_string()),
        avatar: None,
        subscriber_id: "sub-2".to_string(),
        data: Some(vec![("plan".to_string(), text("pro"))]),
    };
    let req = subscribers().create(payload);
    assert_eq!(req.method, Method::Post);
    assert_eq!(req.url, "https://api.novu.co/v1/subscribers/");
    let sent = entries_of(req.body.unwrap());
    assert_eq!(sent.len(), 7);
    assert_eq!(lookup(&sent, "data"), Some(&object(vec![("plan", text("pro"))])));
    let mut got = vec![("deleted".to_string(), Json::Bool(false))];
    got.extend(sent.into_iter().filter(|(_, v)| *v != Json::Null));
    let rec: SubscriberRecord = complete(Ok(object(vec![("data", Json::Object(got))]))).unwrap();
    assert_eq!(rec.subscriber_id.as_deref(), Some("sub-2"));
    assert_eq!(rec.first_name.as_deref(), Some("Bo"));
    assert_eq!(rec.last_name.as_deref(), Some("Lee"));
    assert_eq!(rec.phone.as_deref(), Some("+15550100"));
    assert_eq!(rec.email, None);
    assert_eq!(rec.data, Some(vec![("plan".to_string(), text("pro"))]));
}

#[test]
fn credentials_request_and_channel_in_record() {
    let payload = UpdateCredentialsPayload {
        provider_id: "fcm".to_string(),
        integration_identifier: None,
        credentials: Credentials {
            webhook_url: "".to_string(),
            channel: None,
            device_tokens: Some(vec!["tok1".to_string()]),
            title: None,
            image_url: None,
            alert_uid: None,
            state: None,
            external_url: None,
        },
    };
    let req = subscribers().update_credentials("sub-1".to_string(), payload);
    assert_eq!(req.method, Method::Put);
    assert_eq!(req.url, "https://api.novu.co/v1/subscribers/sub-1/credentials");
    let sent = entries_of(req.body.unwrap());
    assert_eq!(lookup(&sent, "providerId"), Some(&text("fcm")));
    assert_eq!(lookup(&sent, "integrationIdentifier"), Some(&Json::Null));
    let creds = match lookup(&sent, "credentials") {
        Some(Json::Object(e)) => e,
        other => panic!("credentials not an object: {:?}", other),
    };
    assert_eq!(creds.len(), 8);
    assert_eq!(lookup(&creds, "webhookUrl"), Some(&text("")));
    assert_eq!(lookup(&creds, "deviceTokens"), Some(&Json::Array(vec![text("tok1")])));
    assert_eq!(lookup(&creds, "title"), Some(&Json::Null));

    let channel = object(vec![
        ("providerId", text("fcm")),
        ("credentials", object(vec![("deviceTokens", Json::Array(vec![text("tok1")]))])),
    ]);
    let body = object(vec![(
        "data",
        object(vec![
            ("deleted", Json::Bool(false)),
            ("subscriberId", text("sub-1")),
            ("channels", Json::Array(vec![channel])),
        ]),
    )]);
    let rec: SubscriberRecord = complete(Ok(body)).unwrap();
    let channels = rec.channels.unwrap();
    assert!(channels.iter().any(|c| match c {
        Json::Object(e) => lookup(e, "providerId") == Some(&text("fcm")),
        _ => false,
    }));
}

#[test]
fn record_sent_and_read_back_is_unchanged() {
    let rec: SubscriberRecord = complete(Ok(record_body())).unwrap();
    let e = entries_of(rec.to_json());
    assert_eq!(e.len(), 17);
    assert_eq!(lookup(&e, "_id"), Some(&text("64a1")));
    assert_eq!(lookup(&e, "__v"), Some(&Json::Int(2)));
    assert_eq!(lookup(&e, "_organizationId"), Some(&text("org-1")));
    assert_eq!(lookup(&e, "lastName"), Some(&Json::Null));
    assert_eq!(lookup(&e, "data"), Some(&Json::Null));
    let back: SubscriberRecord = complete(Ok(object(vec![("data", Json::Object(e))]))).unwrap();
    assert_eq!(back.id.as_deref(), Some("64a1"));
    assert_eq!(back.version, Some(2));
    assert_eq!(back.created_at.as_deref(), Some("2023-07-01T00:00:00Z"));
    assert_eq!(back.first_name.as_deref(), Some("Ann"));
    assert_eq!(back.email.as_deref(), Some("ann@example.com"));
    assert_eq!(back.channels, Some(vec![]));
    assert!(!back.deleted);
}
