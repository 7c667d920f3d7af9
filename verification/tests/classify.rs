use stratum_relay::envelope::{Envelope, ParamValue};
use stratum_relay::hexbytes::parse_hex_u32;
use stratum_relay::json::extract_envelope;
use stratum_relay::message::{Classification, Message, NotifyData, classify, classify_envelope};

#[test]
fn submit_scenario() {
    let frame: &[u8] =
        b"{\"id\":1,\"method\":\"mining.submit\",\"params\":[\"bob\",\"job7\",\"0011\",\"5f5e1000\",\"1a2b3c4d\"]}";
    let c = classify(frame);
    assert_eq!(
        c,
        Classification::Decoded(Message::Submit {
            worker_name: "bob".to_string(),
            job_id: "job7".to_string(),
            extranonce2: vec![0x00, 0x11],
            ntime: 0x5f5e1000,
            nonce: 0x1a2b3c4d,
        })
    );
}

#[test]
fn submit_bad_hex_defaults() {
    let frame: &[u8] =
        b"{\"method\":\"mining.submit\",\"params\":[\"bob\",\"job7\",\"xyz\",\"nothex\",7]}";
    let c = classify(frame);
    assert_eq!(
        c,
        Classification::Decoded(Message::Submit {
            worker_name: "bob".to_string(),
            job_id: "job7".to_string(),
            extranonce2: vec![],
            ntime: 0,
            nonce: 0,
        })
    );
}

#[test]
fn subscribe_with_and_without_params() {
    let c = classify(b"{\"method\":\"mining.subscribe\",\"params\":[\"cpuminer/1.0\",\"sess\"]}");
    assert_eq!(
        c,
        Classification::Decoded(Message::Subscribe {
            user_agent: "cpuminer/1.0".to_string(),
            session_id: "sess".to_string(),
        })
    );
    let c = classify(b"{\"method\":\"mining.subscribe\"}");
    assert_eq!(
        c,
        Classification::Decoded(Message::Subscribe {
            user_agent: "".to_string(),
            session_id: "".to_string(),
        })
    );
}

#[test]
fn authorize_defaults_on_type_mismatch() {
    let c = classify(b"{\"method\":\"mining.authorize\",\"params\":[\"worker.1\",42]}");
    assert_eq!(
        c,
        Classification::Decoded(Message::Authorize {
            worker_name: "worker.1".to_string(),
            worker_password: "".to_string(),
        })
    );
}

#[test]
fn set_difficulty_carries_number_text() {
    let c = classify(b"{\"method\":\"mining.set_difficulty\",\"params\":[1.5]}");
    assert_eq!(
        c,
        Classification::Decoded(Message::SetDifficulty { value_text: "1.5".to_string() })
    );
    let c = classify(b"{\"method\":\"mining.set_difficulty\",\"params\":[8]}");
    assert_eq!(
        c,
        Classification::Decoded(Message::SetDifficulty { value_text: "8".to_string() })
    );
    let c = classify(b"{\"method\":\"mining.set_difficulty\",\"params\":[]}");
    assert_eq!(
        c,
        Classification::Decoded(Message::SetDifficulty { value_text: "0".to_string() })
    );
}

#[test]
fn notify_decodes_every_field() {
    let frame: &[u8] = b"{\"method\":\"mining.notify\",\"params\":[\"j1\",\"ff00\",\"0a0b\",\"0c\",[\"aa\",3,\"bb\"],2,27,1700000000,true]}";
    let c = classify(frame);
    assert_eq!(
        c,
        Classification::Decoded(Message::Notify(NotifyData {
            job_id: "j1".to_string(),
            prevhash: "ff00".to_string(),
            coinb1: vec![0x0a, 0x0b],
            coinb2: vec![0x0c],
            merkle_branch: vec!["aa".to_string(), "bb".to_string()],
            version: 2,
            nbits: 27,
            ntime: 1700000000,
            clean_jobs: true,
        }))
    );
}

#[test]
fn notify_truncates_oversized_integers() {
    let frame: &[u8] =
        b"{\"method\":\"mining.notify\",\"params\":[\"j\",\"p\",\"\",\"\",[],4294967298,0,0,false]}";
    let c = classify(frame);
    match c {
        Classification::Decoded(Message::Notify(d)) => {
            assert_eq!(d.version, 2);
            assert_eq!(d.coinb1, Vec::<u8>::new());
            assert_eq!(d.merkle_branch, Vec::<String>::new());
        }
        other => panic!("unexpected classification: {:?}", other),
    }
}

#[test]
fn set_extranonce_decodes() {
    let c = classify(b"{\"method\":\"mining.set_extranonce\",\"params\":[\"08000002\",4]}");
    assert_eq!(
        c,
        Classification::Decoded(Message::SetExtranonce {
            extranonce1: "08000002".to_string(),
            extranonce2_size: 4,
        })
    );
}

#[test]
fn extranonce_subscribe_is_keyed_by_id() {
    let c = classify(b"{\"id\":3,\"method\":\"mining.extranonce.subscribe\",\"params\":[]}");
    assert_eq!(
        c,
        Classification::Decoded(Message::ExtranonceSubscribeAck { request_id: 3 })
    );
    let c = classify(b"{\"method\":\"mining.extranonce.subscribe\"}");
    assert_eq!(
        c,
        Classification::Unparsed { method: Some("mining.extranonce.subscribe".to_string()) }
    );
}

#[test]
fn unknown_method_is_unparsed_with_name() {
    let c = classify(b"{\"method\":\"mining.ping\",\"params\":[1,2,3]}");
    assert_eq!(
        c,
        Classification::Unparsed { method: Some("mining.ping".to_string()) }
    );
}

#[test]
fn invalid_json_is_unparsed() {
    assert_eq!(classify(b"not json at all"), Classification::Unparsed { method: None });
    assert_eq!(classify(b""), Classification::Unparsed { method: None });
    assert_eq!(classify(&[0xff, 0xfe, 0x00]), Classification::Unparsed { method: None });
}

#[test]
fn non_string_method_is_unparsed() {
    assert_eq!(
        classify(b"{\"method\":5,\"params\":[]}"),
        Classification::Unparsed { method: None }
    );
}

#[test]
fn classify_envelope_matches_classify() {
    let env = Envelope {
        method: Some("mining.subscribe".to_string()),
        id: None,
        params: Some(vec![ParamValue::Text("agent".to_string())]),
    };
    let c = classify_envelope(&env);
    assert_eq!(
        c,
        Classification::Decoded(Message::Subscribe {
            user_agent: "agent".to_string(),
            session_id: "".to_string(),
        })
    );
    let via_frame = classify(b"{\"method\":\"mining.subscribe\",\"params\":[\"agent\"]}");
    assert_eq!(c, via_frame);
}

#[test]
fn extract_envelope_reads_the_shape() {
    let env = extract_envelope(b"{\"id\":9,\"method\":\"m\",\"params\":[\"a\",true,[\"x\"]]}").unwrap();
    assert_eq!(env.method, Some("m".to_string()));
    assert_eq!(env.id, Some(9));
    let params = env.params.unwrap();
    assert_eq!(params.len(), 3);
    assert!(matches!(&params[0], ParamValue::Text(s) if s == "a"));
    assert!(matches!(&params[1], ParamValue::Bool(true)));
    assert!(matches!(&params[2], ParamValue::List(items) if items.len() == 1));
    assert!(extract_envelope(b"{{").is_none());
}

#[test]
fn hex_u32_parsing_rules() {
    assert_eq!(parse_hex_u32("5f5e1000"), Some(0x5f5e1000));
    assert_eq!(parse_hex_u32("0"), Some(0));
    assert_eq!(parse_hex_u32("+ff"), Some(255));
    assert_eq!(parse_hex_u32("FFFFFFFF"), Some(u32::MAX));
    assert_eq!(parse_hex_u32(""), None);
    assert_eq!(parse_hex_u32("+"), None);
    assert_eq!(parse_hex_u32("-1"), None);
    assert_eq!(parse_hex_u32("g"), None);
    assert_eq!(parse_hex_u32("100000000"), None);
}
