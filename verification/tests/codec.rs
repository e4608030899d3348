use icq_relay::events::{CodecError, CrossChainQueryPacket, Tag, find_value, new_tag};
use icq_relay::ident::{ChainId, ConnectionId, Height, QueryPath};

fn tag(key: &str, value: &str) -> Tag {
    new_tag(key, value)
}

fn full_tag_list() -> Vec<Tag> {
    vec![
        tag("query_id", "7"),
        tag("chain_id", "chainB-1"),
        tag("connection_id", "connection-0"),
        tag("type", "/cosmos.bank.v1beta1.Query/Balance"),
        tag("height", "100"),
        tag("module", "message"),
        tag("action", "message"),
        tag("request", "base64..."),
    ]
}

#[test]
fn decodes_scenario_tag_list() {
    let entries = full_tag_list();
    let packet = CrossChainQueryPacket::try_from_tags(&entries).unwrap();
    assert_eq!(packet.chain_id.id, "chainB-1");
    assert_eq!(packet.height.value, 100);
    assert_eq!(packet.query_id, "7");
    assert_eq!(packet.connection_id.id, "connection-0");
    assert_eq!(packet.query_type.path, "/cosmos.bank.v1beta1.Query/Balance");
    assert_eq!(packet.module, "message");
    assert_eq!(packet.action, "message");
    assert_eq!(packet.request, "base64...");
}

#[test]
fn missing_key_names_that_key() {
    let keys = [
        "module",
        "action",
        "query_id",
        "chain_id",
        "connection_id",
        "type",
        "request",
        "height",
    ];
    for missing in keys {
        let entries: Vec<Tag> = full_tag_list()
            .into_iter()
            .filter(|t| t.key != missing)
            .collect();
        match CrossChainQueryPacket::try_from_tags(&entries) {
            Err(CodecError::AttributeMissing(k)) => assert_eq!(k, missing),
            other => panic!("expected AttributeMissing({missing}), got {other:?}"),
        }
    }
}

#[test]
fn encode_then_decode_round_trips() {
    let packet = CrossChainQueryPacket {
        module: "message".to_string(),
        action: "message".to_string(),
        query_id: "query-77".to_string(),
        chain_id: ChainId::from_string("chainB-1"),
        connection_id: ConnectionId::parse("connection-0").unwrap(),
        query_type: QueryPath::parse("/cosmos.bank.v1beta1.Query/Balance").unwrap(),
        height: Height { value: 18446744073709551615 },
        request: "cXVlcnk=".to_string(),
    };
    let tags = packet.to_tags();
    assert_eq!(tags.len(), 8);
    let back = CrossChainQueryPacket::try_from_tags(&tags).unwrap();
    assert_eq!(back.module, packet.module);
    assert_eq!(back.action, packet.action);
    assert_eq!(back.query_id, packet.query_id);
    assert_eq!(back.chain_id.id, packet.chain_id.id);
    assert_eq!(back.connection_id.id, packet.connection_id.id);
    assert_eq!(back.query_type.path, packet.query_type.path);
    assert_eq!(back.height.value, packet.height.value);
    assert_eq!(back.request, packet.request);
}

#[test]
fn encode_emits_fixed_key_order() {
    let packet = CrossChainQueryPacket {
        module: "m".to_string(),
        action: "a".to_string(),
        query_id: "1".to_string(),
        chain_id: ChainId::from_string("chainA-7"),
        connection_id: ConnectionId::parse("connection-3").unwrap(),
        query_type: QueryPath::parse("/p").unwrap(),
        height: Height { value: 5 },
        request: "r".to_string(),
    };
    let tags = packet.to_tags();
    let keys: Vec<&str> = tags.iter().map(|t| t.key.as_str()).collect();
    assert_eq!(
        keys,
        vec![
            "module",
            "action",
            "query_id",
            "chain_id",
            "connection_id",
            "type",
            "request",
            "height"
        ]
    );
    assert_eq!(tags[7].value, "5");
}

#[test]
fn bad_connection_id_is_malformed_identifier() {
    let mut entries = full_tag_list();
    for t in entries.iter_mut() {
        if t.key == "connection_id" {
            t.value = "short".to_string();
        }
    }
    assert!(matches!(
        CrossChainQueryPacket::try_from_tags(&entries),
        Err(CodecError::MalformedIdentifier)
    ));
}

#[test]
fn empty_type_is_malformed_query_type() {
    let mut entries = full_tag_list();
    for t in entries.iter_mut() {
        if t.key == "type" {
            t.value = String::new();
        }
    }
    assert!(matches!(
        CrossChainQueryPacket::try_from_tags(&entries),
        Err(CodecError::MalformedQueryType)
    ));
}

#[test]
fn non_numeric_height_is_malformed_height() {
    let mut entries = full_tag_list();
    for t in entries.iter_mut() {
        if t.key == "height" {
            t.value = "12x".to_string();
        }
    }
    assert!(matches!(
        CrossChainQueryPacket::try_from_tags(&entries),
        Err(CodecError::MalformedHeight)
    ));
}

#[test]
fn find_value_takes_first_match() {
    let entries = vec![tag("height", "100"), tag("height", "200")];
    assert_eq!(find_value("height", &entries).unwrap(), "100");
}

#[test]
fn find_value_reports_missing_key() {
    let entries = vec![tag("height", "100")];
    match find_value("module", &entries) {
        Err(CodecError::AttributeMissing(k)) => assert_eq!(k, "module"),
        other => panic!("expected AttributeMissing(module), got {other:?}"),
    }
}

#[test]
fn duplicate_key_first_value_wins_in_decode() {
    let mut entries = full_tag_list();
    entries.push(tag("height", "999"));
    let packet = CrossChainQueryPacket::try_from_tags(&entries).unwrap();
    assert_eq!(packet.height.value, 100);
}

#[test]
fn to_abci_event_is_typed_message() {
    let entries = full_tag_list();
    let packet = CrossChainQueryPacket::try_from_tags(&entries).unwrap();
    let ev = packet.to_abci_event();
    assert_eq!(ev.type_str, "message");
    assert_eq!(ev.attributes.len(), 8);
}
