use policy_evaluator::json::{json_eq, member, to_json_string, JsonValue};
use policy_evaluator::policy_evaluator::{
    response_from_opa_result, Policy, PolicyEvaluator, PolicyExecutionMode, ValidateRequest,
};
use policy_evaluator::runtimes::wapc::{
    host_callback, protocol_version_from_guest_output, response_from_guest_output,
    settings_response_from_guest_output, CapabilityError, ClusterContext, HostCallOutcome,
    PolicyRegistry,
};
use policy_evaluator::sigstore_verification::{
    keyless_trust_guard, pub_key_trust_guard, trusted_from_verifier_outcome, KeylessInfo,
    SigstoreError,
};
use policy_evaluator::policy_metadata::ProtocolVersion;
use policy_evaluator::validation_response::{base64_encode, ValidationResponse};

fn uid_object_request(uid: &str) -> ValidateRequest {
    ValidateRequest::new(JsonValue::Obj(vec![
        (String::from("uid"), JsonValue::Str(String::from(uid))),
        (
            String::from("object"),
            JsonValue::Obj(vec![(
                String::from("kind"),
                JsonValue::Str(String::from("Pod")),
            )]),
        ),
    ]))
}

fn stub_callback(
    _id: u64,
    _binding: &str,
    _namespace: &str,
    _operation: &str,
    _payload: &[u8],
) -> Result<Vec<u8>, String> {
    Ok(Vec::new())
}

#[test]
fn policy_is_registered_in_the_mapping() {
    let policy = Policy::new(String::from("mock_policy"));
    let policy_id = 1u64;

    let mut registry = PolicyRegistry::new();
    assert!(!registry.contains(policy_id));

    PolicyEvaluator::from_contents_internal(&mut registry, policy_id, policy.clone());

    assert!(registry.contains(policy_id));
    assert_eq!(registry.get(policy_id), Some(&policy));
}

#[test]
fn registry_is_empty_after_paired_loads_and_drops() {
    let mut registry = PolicyRegistry::new();
    for i in 0..8u64 {
        registry.register(i, Policy::new(format!("policy-{}", i)));
    }
    assert!(!registry.is_empty());
    for i in 0..8u64 {
        registry.unregister(i);
    }
    assert!(registry.is_empty());
}

#[test]
fn missing_object_is_a_deterministic_rejection() {
    let mut registry = PolicyRegistry::new();
    let (evaluator, guest_id) = PolicyEvaluator::from_contents(
        &mut registry,
        String::from("test-policy"),
        b"",
        PolicyExecutionMode::Opa,
        None,
        stub_callback,
    )
    .expect("the OPA path needs no engine");
    assert_eq!(guest_id, 0);

    let request = ValidateRequest::new(JsonValue::Obj(vec![(
        String::from("uid"),
        JsonValue::Str(String::from("abc")),
    )]));
    let response = evaluator.validate(request);
    assert_eq!(response.uid, "abc");
    assert!(!response.allowed);
    let status = response.status.expect("a rejection carries a status");
    assert_eq!(status.code, Some(400));
    assert_eq!(
        status.message,
        Some(String::from("request doesn't have an 'object' value"))
    );
    assert!(response.patch.is_none());
    assert!(response.patch_type.is_none());
}

#[test]
fn uid_is_echoed_and_defaults_to_empty() {
    let with_uid = uid_object_request("u1");
    assert_eq!(with_uid.uid(), "u1");

    let without_uid = ValidateRequest::new(JsonValue::Obj(vec![]));
    assert_eq!(without_uid.uid(), "");

    let uid_not_a_string = ValidateRequest::new(JsonValue::Obj(vec![(
        String::from("uid"),
        JsonValue::Int(7),
    )]));
    assert_eq!(uid_not_a_string.uid(), "");
}

#[test]
fn native_allow_is_normalized() {
    let obj = JsonValue::Obj(vec![(
        String::from("kind"),
        JsonValue::Str(String::from("Pod")),
    )]);
    let response = response_from_guest_output(
        String::from("u1"),
        &obj,
        br#"{"accepted":true}"#,
    );
    assert_eq!(response.uid, "u1");
    assert!(response.allowed);
    assert!(response.status.is_none());
    assert!(response.patch.is_none());
    assert!(response.patch_type.is_none());
}

#[test]
fn native_reject_carries_message_and_code() {
    let obj = JsonValue::Obj(vec![]);
    let response = response_from_guest_output(
        String::from("u1"),
        &obj,
        br#"{"accepted":false,"message":"no","code":403}"#,
    );
    assert_eq!(response.uid, "u1");
    assert!(!response.allowed);
    let status = response.status.expect("a rejection carries a status");
    assert_eq!(status.message, Some(String::from("no")));
    assert_eq!(status.code, Some(403));
}

#[test]
fn native_reject_without_code_defaults_to_400() {
    let obj = JsonValue::Obj(vec![]);
    let response =
        response_from_guest_output(String::from("u1"), &obj, br#"{"accepted":false}"#);
    assert!(!response.allowed);
    assert_eq!(response.status.expect("status").code, Some(400));
}

#[test]
fn native_mutation_becomes_a_base64_patch() {
    let obj = JsonValue::Obj(vec![(String::from("a"), JsonValue::Int(2))]);
    let response = response_from_guest_output(
        String::from("u1"),
        &obj,
        br#"{"accepted":true,"mutated_object":{"a":1}}"#,
    );
    assert!(response.allowed);
    assert_eq!(response.patch_type, Some(String::from("JSONPatch")));
    assert_eq!(
        response.patch,
        Some(String::from(
            "W3sib3AiOiJyZXBsYWNlIiwicGF0aCI6IiIsInZhbHVlIjp7ImEiOjF9fV0="
        ))
    );
}

#[test]
fn native_mutation_equal_to_the_object_is_suppressed() {
    let obj = JsonValue::Obj(vec![(String::from("a"), JsonValue::Int(1))]);
    let response = response_from_guest_output(
        String::from("u1"),
        &obj,
        br#"{"accepted":true,"mutated_object":{"a":1}}"#,
    );
    assert!(response.allowed);
    assert!(response.patch.is_none());
    assert!(response.patch_type.is_none());
}

#[test]
fn undecodable_guest_output_is_an_internal_error() {
    let obj = JsonValue::Obj(vec![]);
    let response = response_from_guest_output(String::from("u1"), &obj, b"not json");
    assert_eq!(response.uid, "u1");
    assert!(!response.allowed);
    assert_eq!(response.status.expect("status").code, Some(500));
}

#[test]
fn opa_first_result_decides() {
    let allow = response_from_opa_result(String::from("u1"), Ok(vec![true]));
    assert_eq!(allow.uid, "u1");
    assert!(allow.allowed);
    assert!(allow.status.is_none());

    let deny = response_from_opa_result(String::from("u1"), Ok(vec![false]));
    assert!(!deny.allowed);
    assert!(deny.status.is_none());
}

#[test]
fn opa_failure_is_an_internal_error() {
    let response =
        response_from_opa_result(String::from("u1"), Err(String::from("engine exploded")));
    assert!(!response.allowed);
    let status = response.status.expect("status");
    assert_eq!(status.code, Some(500));
    assert_eq!(status.message, Some(String::from("engine exploded")));

    let empty = response_from_opa_result(String::from("u1"), Ok(vec![]));
    assert!(!empty.allowed);
    assert_eq!(empty.status.expect("status").code, Some(500));
}

#[test]
fn opa_settings_are_always_valid() {
    let mut registry = PolicyRegistry::new();
    let (evaluator, _) = PolicyEvaluator::from_contents(
        &mut registry,
        String::from("opa-policy"),
        b"",
        PolicyExecutionMode::OpaGatekeeper,
        None,
        stub_callback,
    )
    .expect("the OPA path needs no engine");
    let verdict = evaluator.validate_settings();
    assert!(verdict.valid);
    assert!(verdict.message.is_none());
    assert!(evaluator.protocol_version().is_err());
}

#[test]
fn wapc_mode_refuses_garbage_module_bytes() {
    let mut registry = PolicyRegistry::new();
    let result = PolicyEvaluator::from_contents(
        &mut registry,
        String::from("broken"),
        b"these are no wasm bytes",
        PolicyExecutionMode::KubewardenWapc,
        None,
        stub_callback,
    );
    assert!(result.is_err());
    assert!(registry.is_empty());
}

#[test]
fn settings_verdict_is_decoded() {
    let ok = settings_response_from_guest_output(br#"{"valid":true}"#);
    assert!(ok.valid);
    assert!(ok.message.is_none());

    let rejected = settings_response_from_guest_output(br#"{"valid":false,"message":"bad"}"#);
    assert!(!rejected.valid);
    assert_eq!(rejected.message, Some(String::from("bad")));

    let broken = settings_response_from_guest_output(b"nope");
    assert!(!broken.valid);
}

#[test]
fn protocol_version_is_decoded() {
    assert_eq!(
        protocol_version_from_guest_output(br#""v1""#),
        Ok(ProtocolVersion::V1)
    );
    assert_eq!(
        protocol_version_from_guest_output(br#""Unknown""#),
        Ok(ProtocolVersion::Unknown)
    );
    assert!(protocol_version_from_guest_output(br#""v2""#).is_err());
    assert!(protocol_version_from_guest_output(b"junk").is_err());
}

fn sample_cluster_context() -> ClusterContext {
    ClusterContext {
        ingresses: b"ingress-list".to_vec(),
        namespaces: b"namespace-list".to_vec(),
        services: b"service-list".to_vec(),
    }
}

#[test]
fn host_callback_routes_log_calls_to_the_policy() {
    let mut registry = PolicyRegistry::new();
    let policy = Policy::new(String::from("logger"));
    registry.register(7, policy.clone());
    let outcome = host_callback(
        &registry,
        &sample_cluster_context(),
        7,
        "kubewarden",
        "tracing",
        "log",
        b"hello",
    )
    .expect("the log route never fails");
    match outcome {
        HostCallOutcome::Log { policy: p, payload } => {
            assert_eq!(p, policy);
            assert_eq!(payload, b"hello");
        }
        HostCallOutcome::Reply(_) => panic!("the log route must not reply with bytes"),
    }
}

#[test]
fn host_callback_serves_cluster_context_snapshots() {
    let registry = PolicyRegistry::new();
    let ctx = sample_cluster_context();
    for (namespace, expected) in [
        ("ingresses", b"ingress-list".to_vec()),
        ("namespaces", b"namespace-list".to_vec()),
        ("services", b"service-list".to_vec()),
    ] {
        match host_callback(&registry, &ctx, 0, "kubernetes", namespace, "", b"ignored") {
            Ok(HostCallOutcome::Reply(bytes)) => assert_eq!(bytes, expected),
            other => panic!("unexpected outcome: {:?}", other),
        }
    }
}

#[test]
fn host_callback_refuses_unknown_routes() {
    let registry = PolicyRegistry::new();
    let ctx = sample_cluster_context();
    assert_eq!(
        host_callback(&registry, &ctx, 0, "kubewarden", "tracing", "shout", b"").unwrap_err(),
        CapabilityError::UnknownOperation(String::from("shout"))
    );
    assert_eq!(
        host_callback(&registry, &ctx, 0, "kubewarden", "metrics", "log", b"").unwrap_err(),
        CapabilityError::UnknownNamespace(String::from("metrics"))
    );
    assert_eq!(
        host_callback(&registry, &ctx, 0, "kubernetes", "pods", "", b"").unwrap_err(),
        CapabilityError::UnknownNamespace(String::from("pods"))
    );
    assert_eq!(
        host_callback(&registry, &ctx, 0, "cloud", "tracing", "log", b"").unwrap_err(),
        CapabilityError::UnknownBinding(String::from("cloud"))
    );
}

#[test]
fn pub_key_guard_fails_fast_on_empty_keys() {
    assert_eq!(
        pub_key_trust_guard(&Vec::new()),
        Err(SigstoreError::NoKeys)
    );
    assert_eq!(
        pub_key_trust_guard(&vec![String::from("-----BEGIN PUBLIC KEY-----")]),
        Ok(())
    );
}

#[test]
fn keyless_guard_fails_fast_on_empty_list() {
    assert_eq!(
        keyless_trust_guard(&Vec::new()),
        Err(SigstoreError::NoKeylessInfo)
    );
    assert_eq!(
        keyless_trust_guard(&vec![KeylessInfo {
            issuer: String::from("https://token.actions.githubusercontent.com"),
            subject: String::from("kubewarden"),
        }]),
        Ok(())
    );
}

#[test]
fn verifier_outcome_is_read_back() {
    assert_eq!(trusted_from_verifier_outcome(Ok(())), Ok(true));
    assert_eq!(
        trusted_from_verifier_outcome(Err(String::from("no matching signature"))),
        Err(SigstoreError::VerificationFailed(String::from(
            "no matching signature"
        )))
    );
}

#[test]
fn base64_matches_known_vectors() {
    assert_eq!(base64_encode(b""), "");
    assert_eq!(base64_encode(b"f"), "Zg==");
    assert_eq!(base64_encode(b"fo"), "Zm8=");
    assert_eq!(base64_encode(b"foo"), "Zm9v");
    assert_eq!(base64_encode(b"foob"), "Zm9vYg==");
    assert_eq!(base64_encode(b"fooba"), "Zm9vYmE=");
    assert_eq!(base64_encode(b"foobar"), "Zm9vYmFy");
}

#[test]
fn json_text_is_exact() {
    let doc = JsonValue::Obj(vec![
        (String::from("uid"), JsonValue::Str(String::from("a\"b"))),
        (
            String::from("items"),
            JsonValue::Arr(vec![
                JsonValue::Int(-42),
                JsonValue::Bool(true),
                JsonValue::Null,
            ]),
        ),
    ]);
    assert_eq!(
        to_json_string(&doc),
        r#"{"uid":"a\"b","items":[-42,true,null]}"#
    );
}

#[test]
fn json_equality_is_structural() {
    let a = JsonValue::Obj(vec![(
        String::from("k"),
        JsonValue::Arr(vec![JsonValue::Int(1), JsonValue::Str(String::from("x"))]),
    )]);
    let b = JsonValue::Obj(vec![(
        String::from("k"),
        JsonValue::Arr(vec![JsonValue::Int(1), JsonValue::Str(String::from("x"))]),
    )]);
    let c = JsonValue::Obj(vec![(
        String::from("k"),
        JsonValue::Arr(vec![JsonValue::Int(2), JsonValue::Str(String::from("x"))]),
    )]);
    assert!(json_eq(&a, &b));
    assert!(!json_eq(&a, &c));
}

#[test]
fn member_lookup_finds_the_first_binding() {
    let doc = JsonValue::Obj(vec![
        (String::from("k"), JsonValue::Int(1)),
        (String::from("k"), JsonValue::Int(2)),
    ]);
    match member(&doc, "k") {
        Some(JsonValue::Int(n)) => assert_eq!(*n, 1),
        other => panic!("unexpected member: {:?}", other),
    }
    assert!(member(&doc, "missing").is_none());
    assert!(member(&JsonValue::Null, "k").is_none());
}

#[test]
fn reject_builders_fill_the_status() {
    let rejection =
        ValidationResponse::reject(String::from("u"), String::from("denied"), 418);
    assert_eq!(rejection.uid, "u");
    assert!(!rejection.allowed);
    let status = rejection.status.expect("status");
    assert_eq!(status.message, Some(String::from("denied")));
    assert_eq!(status.code, Some(418));

    let ise =
        ValidationResponse::reject_internal_server_error(String::from("u"), String::from("boom"));
    assert_eq!(ise.status.expect("status").code, Some(500));
}

#[test]
fn serializer_output_parses_with_serde() {
    let doc = JsonValue::Obj(vec![
        (
            String::from("text"),
            JsonValue::Str(String::from("tab\t, quote\", backslash\\, newline\n")),
        ),
        (String::from("big"), JsonValue::Int(i64::MIN)),
        (
            String::from("nested"),
            JsonValue::Arr(vec![JsonValue::Obj(vec![])]),
        ),
    ]);
    let text = to_json_string(&doc);
    let parsed: serde_json::Value = serde_json::from_str(&text).expect("must parse");
    let expected: serde_json::Value = serde_json::from_str(
        "{\"text\":\"tab\\t, quote\\\", backslash\\\\, newline\\n\",\"big\":-9223372036854775808,\"nested\":[{}]}",
    )
    .expect("the expected literal must parse");
    assert_eq!(parsed, expected);
}

#[test]
fn validate_payload_holds_request_and_settings() {
    let request = uid_object_request("u9");
    let settings = vec![(String::from("limit"), JsonValue::Int(3))];
    let payload =
        policy_evaluator::runtimes::wapc::build_validate_payload(&request, &settings);
    assert_eq!(
        payload,
        r#"{"request":{"uid":"u9","object":{"kind":"Pod"}},"settings":{"limit":3}}"#
    );
}
