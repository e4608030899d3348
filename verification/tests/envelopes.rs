use icq_relay::events::CodecError;
use icq_relay::response::CrossChainQueryResponse;

#[test]
fn new_copies_every_field() {
    let r = CrossChainQueryResponse::new(
        "q-9".to_string(),
        "cosmos1sender".to_string(),
        2,
        "no such key".to_string(),
        "77".to_string(),
    );
    assert_eq!(r.id, "q-9");
    assert_eq!(r.sender, "cosmos1sender");
    assert_eq!(r.result, 2);
    assert_eq!(r.data, "no such key");
    assert_eq!(r.height, "77");
}

#[test]
fn envelope_carries_parsed_height_and_fields() {
    let r = CrossChainQueryResponse::new(
        "q-9".to_string(),
        "cosmos1sender".to_string(),
        1,
        "payload".to_string(),
        "500".to_string(),
    );
    let e = r
        .to_any("/chain.query.v1.MsgSubmitCrossChainQueryResult")
        .unwrap();
    assert_eq!(e.type_url, "/chain.query.v1.MsgSubmitCrossChainQueryResult");
    assert_eq!(e.id, "q-9");
    assert_eq!(e.query_height, 500);
    assert_eq!(e.result, 1);
    assert_eq!(e.data, b"payload".to_vec());
    assert_eq!(e.sender, "cosmos1sender");
    assert!(e.proof_specs.is_empty());
}

#[test]
fn envelope_build_fails_on_bad_height_text() {
    let r = CrossChainQueryResponse::new(
        "q-9".to_string(),
        "s".to_string(),
        1,
        "d".to_string(),
        "five hundred".to_string(),
    );
    assert!(matches!(r.to_any("/t"), Err(CodecError::MalformedHeight)));
}

#[test]
fn response_display_names_its_fields() {
    let r = CrossChainQueryResponse::new(
        "q-9".to_string(),
        "s".to_string(),
        1,
        "d".to_string(),
        "7".to_string(),
    );
    assert_eq!(r.display_string(), "id: q-9, data: d, height: 7");
}
