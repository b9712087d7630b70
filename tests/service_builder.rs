use did_exchange::schema::{DidDocumentBuilderError, OneOrList, ServiceBuilder, Uri, Url};

#[derive(Clone, Debug, PartialEq, Default)]
pub struct ExtraSov {
    pub priority: u32,
    pub recipient_keys: Vec<String>,
    pub routing_keys: Vec<String>,
}

fn create_valid_uri() -> Uri {
    Uri::new("http://example.com").unwrap()
}

#[test]
fn test_service_builder_basic() {
    let id = create_valid_uri();
    let service_endpoint = "http://example.com/endpoint";
    let service_type = "DIDCommMessaging".to_string();

    let service = ServiceBuilder::<ExtraSov>::new(id.clone(), Url::new(service_endpoint).unwrap())
        .unwrap()
        .add_service_type(service_type.clone())
        .unwrap()
        .build()
        .unwrap();

    assert_eq!(service.id(), &id);
    assert_eq!(service.service_endpoint().as_ref(), service_endpoint);
    assert_eq!(service.service_type(), &OneOrList::List(vec![service_type]));
}

#[test]
fn test_service_builder_add_extra() {
    let id = create_valid_uri();
    let service_endpoint = "http://example.com/endpoint";
    let service_type = "DIDCommMessaging".to_string();
    let recipient_keys = vec!["foo".to_string()];
    let routing_keys = vec!["bar".to_string()];
    let extra = ExtraSov {
        priority: 0,
        recipient_keys: recipient_keys.clone(),
        routing_keys: routing_keys.clone(),
    };

    let service = ServiceBuilder::<ExtraSov>::new(id, Url::new(service_endpoint).unwrap())
        .unwrap()
        .add_service_type(service_type)
        .unwrap()
        .add_extra(extra)
        .build()
        .unwrap();

    assert_eq!(service.extra().recipient_keys, recipient_keys);
    assert_eq!(service.extra().routing_keys, routing_keys);
}

#[test]
fn test_service_builder_add_duplicate_types() {
    let id = create_valid_uri();
    let service_endpoint = "http://example.com/endpoint";
    let service_type = "DIDCommMessaging".to_string();

    let service = ServiceBuilder::<ExtraSov>::new(id, Url::new(service_endpoint).unwrap())
        .unwrap()
        .add_service_type(service_type.clone())
        .unwrap()
        .add_service_type(service_type.clone())
        .unwrap()
        .build()
        .unwrap();

    assert_eq!(service.service_type(), &OneOrList::List(vec![service_type]));
}

#[test]
fn test_service_builder_add_type_missing_type() {
    let id = create_valid_uri();
    let service_endpoint = "http://example.com/endpoint";

    let res = ServiceBuilder::<ExtraSov>::new(id, Url::new(service_endpoint).unwrap())
        .unwrap()
        .add_service_type("".to_string());
    assert!(res.is_err());
}

#[test]
fn service_builder_without_type_fails() {
    let res = ServiceBuilder::<ExtraSov>::new(create_valid_uri(), Url::new("http://example.com/endpoint").unwrap())
        .unwrap()
        .build();
    assert_eq!(res.err(), Some(DidDocumentBuilderError::MissingField));
}

#[test]
fn service_builder_keeps_types_in_order() {
    let service = ServiceBuilder::<ExtraSov>::new(create_valid_uri(), Url::new("http://example.com/endpoint").unwrap())
        .unwrap()
        .add_service_type("b".to_string())
        .unwrap()
        .add_service_type("a".to_string())
        .unwrap()
        .add_service_type("b".to_string())
        .unwrap()
        .build()
        .unwrap();
    assert_eq!(service.service_type(), &OneOrList::List(vec!["b".to_string(), "a".to_string()]));
}

#[test]
fn url_and_uri_reject_relative_text() {
    assert_eq!(Url::new("not a url").err(), Some(DidDocumentBuilderError::InvalidUri));
    assert_eq!(Uri::new("#fragment").err(), Some(DidDocumentBuilderError::InvalidUri));
    assert_eq!(Url::new("https://example.com/endpoint").unwrap().as_str(), "https://example.com/endpoint");
    assert_eq!(Uri::new("did:sov:HR6vs6GEZ8rHaVgjg2WodM#did-communication").unwrap().as_str(), "did:sov:HR6vs6GEZ8rHaVgjg2WodM#did-communication");
}

#[test]
fn uri_and_url_keep_the_normal_form() {
    assert_eq!(Uri::new("HTTP://Example.com").unwrap().as_str(), "http://example.com/");
    assert_eq!(Url::new("http://example.com").unwrap().as_str(), "http://example.com/");
}
