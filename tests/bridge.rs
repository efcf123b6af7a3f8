use policy_evaluator::order::canonical_pairs;
use policy_evaluator::bridge::{
    get_oci_digest_cached, get_sigstore_pub_key_verification_cached, store_digest, store_verification,
    verification_response, digest_response, BridgeError, CallbackHandler, CallbackHandlerBuilder,
    CallbackRequestType, Dispatch, Lookup, LoopStep, MessagePoll, DEFAULT_CHANNEL_BUFF_SIZE,
};
use policy_evaluator::cache::{Flight, TtlCache, CACHE_TTL_SECS};
use policy_evaluator::keys::{keyless_verification_key, oci_digest_key, pub_key_verification_key, KeylessInfo};

fn digest_request(image: &str) -> CallbackRequestType {
    CallbackRequestType::OciManifestDigest { image: image.to_string() }
}

fn pub_key_request(image: &str, key: &str) -> CallbackRequestType {
    CallbackRequestType::SigstorePubKeyVerify {
        image: image.to_string(),
        pub_keys: vec![key.to_string()],
        annotations: None,
    }
}

#[test]
fn second_digest_request_within_a_second_is_served_from_cache() {
    let mut handler = CallbackHandler::new();
    let req = digest_request("registry.example/app:v1");
    let key = match handler.dispatch(&req, 1000) {
        Dispatch::Fetch(k) => k,
        _ => panic!("first request must query the registry"),
    };
    assert_eq!(key, "registry.example/app:v1");
    let first = handler.conclude_digest(key, Ok("sha256:abc".to_string()), 1000).unwrap();
    assert_eq!(first.payload, b"sha256:abc".to_vec());
    match handler.dispatch(&req, 1001) {
        Dispatch::Reply(second) => assert_eq!(second.payload, first.payload),
        _ => panic!("second request must be served from the cache"),
    }
}

#[test]
fn digest_lookup_marks_cached_and_fresh_values() {
    let mut cache: TtlCache<String> = TtlCache::new();
    let key = match get_oci_digest_cached(&mut cache, "img", 5) {
        Lookup::Compute(k) => k,
        _ => panic!("expected a computation"),
    };
    let fresh = store_digest(&mut cache, key, Ok("d1".to_string()), 5).unwrap();
    assert!(!fresh.was_cached);
    assert_eq!(fresh.value, "d1");
    match get_oci_digest_cached(&mut cache, "img", 5 + CACHE_TTL_SECS - 1) {
        Lookup::Cached(d) => assert_eq!(d, "d1"),
        _ => panic!("expected a cached digest"),
    }
    assert!(matches!(get_oci_digest_cached(&mut cache, "img", 5 + CACHE_TTL_SECS), Lookup::Compute(_)));
}

#[test]
fn trusted_pub_key_answers_one_and_other_key_misses() {
    let mut handler = CallbackHandler::new();
    let req = pub_key_request("x", "k1");
    let key = match handler.dispatch(&req, 10) {
        Dispatch::Fetch(k) => k,
        _ => panic!("expected a backend call"),
    };
    let resp = handler.conclude_verification(false, key, Ok(true), 10).unwrap();
    assert_eq!(resp.payload, vec![1u8]);
    match handler.dispatch(&req, 11) {
        Dispatch::Reply(r) => assert_eq!(r.payload, vec![1u8]),
        _ => panic!("expected a cached answer"),
    }
    assert!(matches!(handler.dispatch(&pub_key_request("x", "k2"), 11), Dispatch::Fetch(_)));
}

#[test]
fn failed_verification_is_not_cached() {
    let mut cache: TtlCache<bool> = TtlCache::new();
    let keys = vec!["k".to_string()];
    for _ in 0..2 {
        let key = match get_sigstore_pub_key_verification_cached(&mut cache, "img", &keys, &None, 3) {
            Lookup::Compute(k) => k,
            _ => panic!("a failing call must reach the backend again"),
        };
        let r = store_verification(&mut cache, key, Err("registry unreachable".to_string()), 3);
        assert_eq!(r.err().unwrap(), "registry unreachable");
    }
}

#[test]
fn concurrent_identical_requests_compute_once() {
    let mut cache: TtlCache<bool> = TtlCache::new();
    let key = "img|[k]|-".to_string();
    assert_eq!(cache.begin(&key, 0), Flight::Compute);
    assert_eq!(cache.begin(&key, 0), Flight::Wait);
    assert_eq!(cache.begin(&key, 1), Flight::Wait);
    cache.complete(key.clone(), Some(false), 1);
    assert_eq!(cache.begin(&key, 2), Flight::Cached);
    assert_eq!(cache.get(&key, 2), Some(&false));
}

#[test]
fn wait_then_cached_through_dispatch() {
    let mut handler = CallbackHandler::new();
    let req = digest_request("img");
    let key = match handler.dispatch(&req, 0) {
        Dispatch::Fetch(k) => k,
        _ => panic!("expected a fetch"),
    };
    assert!(matches!(handler.dispatch(&req, 0), Dispatch::Wait));
    let err = handler.conclude_digest(key, Err("boom".to_string()), 0);
    assert_eq!(err.err().unwrap(), "boom");
    assert!(matches!(handler.dispatch(&req, 0), Dispatch::Fetch(_)));
}

#[test]
fn keyless_requests_use_their_own_cache() {
    let mut handler = CallbackHandler::new();
    let req = CallbackRequestType::SigstoreKeylessVerify {
        image: "img".to_string(),
        keyless: vec![KeylessInfo { issuer: "iss".to_string(), subject: "sub".to_string() }],
        annotations: Some(vec![("env".to_string(), "prod".to_string())]),
    };
    let key = match handler.dispatch(&req, 0) {
        Dispatch::Fetch(k) => k,
        _ => panic!("expected a fetch"),
    };
    assert_eq!(key, ".i.m.g!+.i.s.s!.s.u.b!|{+.e.n.v!.p.r.o.d!|");
    let resp = handler.conclude_verification(true, key, Ok(false), 0).unwrap();
    assert_eq!(resp.payload, vec![0u8]);
    match handler.dispatch(&req, 30) {
        Dispatch::Reply(r) => assert_eq!(r.payload, vec![0u8]),
        _ => panic!("expected a cached answer"),
    }
}

#[test]
fn cache_keys_are_built_from_all_parameters() {
    assert_eq!(oci_digest_key("registry.example/app:v1"), "registry.example/app:v1");
    let keys = vec!["k1".to_string(), "k2".to_string()];
    assert_eq!(pub_key_verification_key("x", &keys, &None), ".x!+.k.1!+.k.2!|-");
    assert_eq!(pub_key_verification_key("x", &keys, &Some(vec![])), ".x!+.k.1!+.k.2!|{|");
    assert_ne!(
        pub_key_verification_key("x", &vec!["k1".to_string()], &None),
        pub_key_verification_key("x", &vec!["k2".to_string()], &None)
    );
    assert_eq!(keyless_verification_key("i", &vec![], &None), ".i!|-");
}

#[test]
fn responses_encode_payloads() {
    assert_eq!(verification_response(true).payload, vec![1u8]);
    assert_eq!(verification_response(false).payload, vec![0u8]);
    assert_eq!(digest_response(&"sha256:0f".to_string()).payload, b"sha256:0f".to_vec());
}

#[test]
fn shutdown_has_priority_over_queued_requests() {
    let mut handler = CallbackHandler::new();
    assert_eq!(handler.step(false, MessagePoll::Ready), LoopStep::Serve);
    assert_eq!(handler.step(false, MessagePoll::Pending), LoopStep::Idle);
    assert_eq!(handler.step(true, MessagePoll::Ready), LoopStep::Stop);
    assert!(handler.stopped);
    assert_eq!(handler.step(false, MessagePoll::Ready), LoopStep::Stop);
}

#[test]
fn closed_queue_stops_the_loop() {
    let mut handler = CallbackHandler::new();
    assert_eq!(handler.step(false, MessagePoll::Closed), LoopStep::Stop);
    assert_eq!(handler.step(false, MessagePoll::Ready), LoopStep::Stop);
}

#[test]
fn bridge_builder_needs_a_shutdown_signal() {
    let b: CallbackHandlerBuilder<(), (), u8> = CallbackHandlerBuilder::default();
    assert_eq!(b.channel_buffer_size, DEFAULT_CHANNEL_BUFF_SIZE);
    assert!(matches!(b.build(), Err(BridgeError::MissingShutdownChannel)));

    let b: CallbackHandlerBuilder<(), (), u8> = CallbackHandlerBuilder::default();
    assert!(matches!(b.shutdown_channel(1).channel_buffer_size(0).build(), Err(BridgeError::ZeroChannelBuffer)));

    let b: CallbackHandlerBuilder<(), (), u8> = CallbackHandlerBuilder::default();
    let setup = match b.registry_config(Some(()), None).shutdown_channel(9).channel_buffer_size(5).build() {
        Ok(s) => s,
        Err(e) => panic!("unexpected {:?}", e),
    };
    assert_eq!(setup.channel_buffer_size, 5);
    assert_eq!(setup.shutdown_channel, 9);
    assert!(setup.oci_sources.is_some());
    assert!(setup.docker_config.is_none());
    assert!(!setup.handler.stopped);
}

#[test]
fn annotation_order_does_not_change_the_key() {
    let keys = vec!["k".to_string()];
    let a1 = Some(vec![("a".to_string(), "1".to_string()), ("b".to_string(), "2".to_string())]);
    let a2 = Some(vec![("b".to_string(), "2".to_string()), ("a".to_string(), "1".to_string())]);
    let k1 = pub_key_verification_key("img", &keys, &a1);
    assert_eq!(k1, ".i.m.g!+.k!|{+.a!.1!+.b!.2!|");
    assert_eq!(k1, pub_key_verification_key("img", &keys, &a2));
    let ids = vec![KeylessInfo { issuer: "i".to_string(), subject: "s".to_string() }];
    assert_eq!(keyless_verification_key("img", &ids, &a1), keyless_verification_key("img", &ids, &a2));
}

#[test]
fn reordered_annotations_hit_the_cache() {
    let mut handler = CallbackHandler::new();
    let req = |ann: Vec<(&str, &str)>| CallbackRequestType::SigstorePubKeyVerify {
        image: "x".to_string(),
        pub_keys: vec!["k1".to_string()],
        annotations: Some(ann.into_iter().map(|(k, v)| (k.to_string(), v.to_string())).collect()),
    };
    let key = match handler.dispatch(&req(vec![("a", "1"), ("b", "2")]), 0) {
        Dispatch::Fetch(k) => k,
        _ => panic!("expected a fetch"),
    };
    handler.conclude_verification(false, key, Ok(true), 0).unwrap();
    match handler.dispatch(&req(vec![("b", "2"), ("a", "1")]), 1) {
        Dispatch::Reply(r) => assert_eq!(r.payload, vec![1u8]),
        _ => panic!("reordered annotations must hit the cache"),
    }
}

#[test]
fn canonical_annotations_sort_and_drop_repeats() {
    let p = |k: &str, v: &str| (k.to_string(), v.to_string());
    let sorted = canonical_pairs(&vec![p("b", "1"), p("a", "2"), p("b", "1"), p("a", "1"), p("ab", "0")]);
    assert_eq!(sorted, vec![p("a", "1"), p("a", "2"), p("ab", "0"), p("b", "1")]);
    assert!(canonical_pairs(&vec![]).is_empty());
}

#[test]
fn separators_inside_strings_do_not_collide() {
    let two = vec!["a".to_string(), "b".to_string()];
    let one = vec!["a][b".to_string()];
    assert_ne!(pub_key_verification_key("x", &two, &None), pub_key_verification_key("x", &one, &None));
    let a1 = Some(vec![("a=b".to_string(), "c".to_string())]);
    let a2 = Some(vec![("a".to_string(), "b=c".to_string())]);
    assert_ne!(pub_key_verification_key("x", &one, &a1), pub_key_verification_key("x", &one, &a2));
    let i1 = vec![KeylessInfo { issuer: "a=b".to_string(), subject: "c".to_string() }];
    let i2 = vec![KeylessInfo { issuer: "a".to_string(), subject: "b=c".to_string() }];
    assert_ne!(keyless_verification_key("x", &i1, &None), keyless_verification_key("x", &i2, &None));
    assert_ne!(pub_key_verification_key("x!", &vec![], &None), pub_key_verification_key("x", &vec!["".to_string()], &None));
}
