use smart_trailer::discovery::{check_discovered_service, select_endpoint};
use smart_trailer::identity::{client_id_from, consumer_connect_settings, new_client_id};
use smart_trailer::model::{
    DiscoveredService, EndpointInfo, EntityAccessInfo, Metadata, ResolutionError,
};
use smart_trailer::negotiation::{check_subscription_info, frequency_constraint};
use smart_trailer::provider::TrailerConnectedProviderImpl;
use smart_trailer::stream::{StreamAction, StreamEvent, StreamSession};

#[test]
fn end_to_end_scenario() {
    let registry_answer = DiscoveredService {
        uri: "X".to_string(),
        communication_kind: "grpc+proto".to_string(),
        communication_reference: "ref".to_string(),
    };
    let x = check_discovered_service(Some(registry_answer), "grpc+proto", "ref").unwrap();
    assert_eq!(x, "X");

    let record = EntityAccessInfo {
        name: "TrailerWeight".to_string(),
        id: "dtmi:sdv:Trailer:Weight;1".to_string(),
        description: "The weight of the trailer".to_string(),
        endpoint_info_list: vec![EndpointInfo {
            protocol: "grpc".to_string(),
            operations: vec!["ManagedSubscribe".to_string()],
            uri: "Y".to_string(),
            context: "GetSubscriptionInfo".to_string(),
        }],
    };
    let ep = select_endpoint(Some(record), "grpc", &["ManagedSubscribe".to_string()])
        .ok()
        .unwrap();
    assert_eq!(ep.uri, "Y");

    let c = frequency_constraint("10000".to_string());
    assert_eq!(c.constraint_type, "frequency_ms");
    assert_eq!(c.value, "10000");

    let info = check_subscription_info("Z".to_string(), "T".to_string()).ok().unwrap();
    assert_eq!(info.uri, "Z");
    assert_eq!(info.context, "T");

    let mut s = StreamSession::new(info.context);
    assert!(matches!(s.step(StreamEvent::Start), StreamAction::Connect));
    match s.step(StreamEvent::ConnectDone(Ok(()))) {
        StreamAction::Subscribe(t) => assert_eq!(t, "T"),
        _ => panic!("expected a subscribe"),
    }
    assert!(matches!(s.step(StreamEvent::SubscribeDone(Ok(()))), StreamAction::Receive));
    let mut delivered = 0;
    for i in 0..3 {
        match s.step(StreamEvent::Message(format!("{i}"))) {
            StreamAction::Deliver(_) => delivered += 1,
            _ => panic!("expected a delivery"),
        }
    }
    assert_eq!(delivered, 3);
    assert!(matches!(s.step(StreamEvent::Shutdown), StreamAction::Unsubscribe(_)));
    assert!(matches!(s.step(StreamEvent::UnsubscribeDone(Ok(()))), StreamAction::Disconnect));
    assert!(matches!(s.step(StreamEvent::DisconnectDone(Ok(()))), StreamAction::Finish(Ok(()))));
}

#[test]
fn malformed_subscription_info_fails() {
    assert_eq!(
        check_subscription_info(String::new(), "T".to_string()).err(),
        Some(ResolutionError::NegotiationFailed)
    );
    assert_eq!(
        check_subscription_info("Z".to_string(), String::new()).err(),
        Some(ResolutionError::NegotiationFailed)
    );
}

#[test]
fn client_id_has_stem_and_suffix() {
    assert_eq!(client_id_from("abc"), "smart-trailer-consumer-abc");
}

#[test]
fn fresh_client_ids_differ() {
    let a = new_client_id();
    let b = new_client_id();
    assert!(a.starts_with("smart-trailer-consumer-"));
    assert_eq!(a.len(), "smart-trailer-consumer-".len() + 36);
    assert_ne!(a, b);
}

#[test]
fn connect_settings_values() {
    let c = consumer_connect_settings();
    assert_eq!(c.keep_alive_secs, 30);
    assert!(!c.clean_session);
    assert_eq!(c.will_topic, "test");
    assert_eq!(c.will_payload, "Receiver lost connection");
    assert_eq!(c.qos, 1);
}

#[test]
fn connected_provider_reports_connected() {
    assert!(TrailerConnectedProviderImpl::new().get());
}

#[test]
fn metadata_holds_model() {
    let m = Metadata { model: "dtmi:sdv:Trailer;1".to_string() };
    assert_eq!(m.model, "dtmi:sdv:Trailer;1");
}
