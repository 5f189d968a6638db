use policy_evaluator::json::JsonValue;
use policy_evaluator::policy_evaluator::PolicyExecutionMode;
use policy_evaluator::policy_metadata::{
    validate_asterisk_usage, validate_asterisk_usage_inside_of_operations, ContextAwareResource,
    Metadata, MetadataError, Operation, PolicyType, ProtocolVersion, Rule, SemverParts,
};

fn annotations_by_flavio() -> Option<Vec<(String, String)>> {
    Some(vec![(
        String::from("io.kubewarden.policy.author"),
        String::from("Flavio Castelli"),
    )])
}

#[test]
fn metadata_validation_pass() {
    let pod_rule = Rule {
        api_groups: vec![String::from("")],
        api_versions: vec![String::from("v1")],
        resources: vec![String::from("pods")],
        operations: vec![Operation::Create],
    };
    let metadata = Metadata {
        protocol_version: Some(ProtocolVersion::V1),
        rules: vec![pod_rule],
        ..Default::default()
    };
    assert!(metadata.validate().is_ok());
}

#[test]
fn metadata_validation_failure() {
    // fail because api_groups has both '*' and another value
    let mut pod_rule = Rule {
        api_groups: vec![String::from(""), String::from("*")],
        api_versions: vec![String::from("v1")],
        resources: vec![String::from("pods")],
        operations: vec![Operation::Create],
    };
    let protocol_version = Some(ProtocolVersion::V1);

    let mut metadata = Metadata {
        protocol_version,
        annotations: None,
        rules: vec![pod_rule],
        mutating: false,
        ..Default::default()
    };
    assert!(metadata.validate().is_err());

    // fail because api_group is empty
    pod_rule = Rule {
        api_groups: vec![],
        api_versions: vec![String::from("v1")],
        resources: vec![String::from("pods")],
        operations: vec![Operation::Create],
    };
    metadata.rules = vec![pod_rule];
    assert!(metadata.validate().is_err());

    // fail because operations has both '*' and another value
    pod_rule = Rule {
        api_groups: vec![String::from("")],
        api_versions: vec![String::from("v1")],
        resources: vec![String::from("pods")],
        operations: vec![Operation::All, Operation::Create],
    };
    metadata.rules = vec![pod_rule];
    assert!(metadata.validate().is_err());

    // fails because there's no valid protocol version defined
    pod_rule = Rule {
        api_groups: vec![String::from("")],
        api_versions: vec![String::from("v1")],
        resources: vec![String::from("pods")],
        operations: vec![Operation::Create],
    };
    metadata = Metadata {
        rules: vec![pod_rule],
        ..Default::default()
    };
    assert!(metadata.validate().is_err());

    pod_rule = Rule {
        api_groups: vec![String::from("")],
        api_versions: vec![String::from("v1")],
        resources: vec![String::from("pods")],
        operations: vec![Operation::Create],
    };
    metadata = Metadata {
        rules: vec![pod_rule],
        ..Default::default()
    };
    assert!(metadata.validate().is_err());

    // fails because the protocol cannot be None
    metadata = Metadata {
        protocol_version: None,
        execution_mode: PolicyExecutionMode::KubewardenWapc,
        ..Default::default()
    };

    assert!(metadata.validate().is_err());
}

#[test]
fn metadata_with_kubewarden_execution_mode_must_have_a_valid_protocol() {
    let metadata = Metadata {
        protocol_version: Some(ProtocolVersion::Unknown),
        execution_mode: PolicyExecutionMode::KubewardenWapc,
        ..Default::default()
    };

    assert!(metadata.validate().is_err());

    let metadata = Metadata {
        protocol_version: Some(ProtocolVersion::V1),
        execution_mode: PolicyExecutionMode::KubewardenWapc,
        ..Default::default()
    };

    assert!(metadata.validate().is_ok());
}

#[test]
fn metadata_with_rego_execution_mode_must_have_a_valid_protocol() {
    for mode in [PolicyExecutionMode::Opa, PolicyExecutionMode::OpaGatekeeper] {
        let metadata = Metadata {
            protocol_version: Some(ProtocolVersion::Unknown),
            execution_mode: mode,
            ..Default::default()
        };

        assert!(metadata.validate().is_ok());
    }
}

#[test]
fn metadata_backwards_compatibility() {
    // missing backgroundAudit on purpose
    // featuring the old `contextAware` boolean flag
    let json_metadata = JsonValue::Obj(vec![
        (
            String::from("protocolVersion"),
            JsonValue::Str(String::from("v1")),
        ),
        (String::from("rules"), JsonValue::Arr(vec![])),
        (String::from("mutating"), JsonValue::Bool(false)),
        (String::from("contextAware"), JsonValue::Bool(true)),
        (
            String::from("executionMode"),
            JsonValue::Str(String::from("kubewarden-wapc")),
        ),
    ]);

    let expected = Metadata {
        protocol_version: Some(ProtocolVersion::V1),
        annotations: None,
        background_audit: true,
        context_aware_resources: vec![],
        policy_type: PolicyType::Kubernetes,
        ..Default::default()
    };

    let actual = Metadata::from_json(&json_metadata).expect("cannot deserialize Metadata");
    assert_eq!(expected, actual);
}

#[test]
fn validate_resource_asterisk_can_coexist_with_resources_that_have_subresources() {
    let pod_rule = Rule {
        api_groups: vec![String::from("a")],
        api_versions: vec![String::from("a")],
        resources: vec![
            String::from("*"),
            String::from("a/b"),
            String::from("a/*"),
            String::from("*/b"),
        ],
        operations: vec![Operation::Create],
    };

    let metadata = Metadata {
        annotations: annotations_by_flavio(),
        protocol_version: Some(ProtocolVersion::V1),
        rules: vec![pod_rule],
        ..Default::default()
    };

    assert!(metadata.validate().is_ok());
}

#[test]
fn validate_resource_asterisk_cannot_mix_with_resources_that_do_not_have_subresources() {
    let pod_rule = Rule {
        api_groups: vec![String::from("a")],
        api_versions: vec![String::from("a")],
        resources: vec![String::from("*"), String::from("a")],
        operations: vec![Operation::Create],
    };

    let metadata = Metadata {
        annotations: annotations_by_flavio(),
        protocol_version: Some(ProtocolVersion::V1),
        rules: vec![pod_rule],
        ..Default::default()
    };

    assert!(metadata.validate().is_err());
}

#[test]
fn validate_resource_foo_slash_asterisk_subresource_cannot_mix_with_foo_slash_bar() {
    let pod_rule = Rule {
        api_groups: vec![String::from("a")],
        api_versions: vec![String::from("a")],
        resources: vec![String::from("a/*"), String::from("a/x")],
        operations: vec![Operation::Create],
    };

    let metadata = Metadata {
        annotations: annotations_by_flavio(),
        protocol_version: Some(ProtocolVersion::V1),
        rules: vec![pod_rule],
        ..Default::default()
    };

    assert!(metadata.validate().is_err());
}

#[test]
fn validate_resource_foo_slash_asterisk_can_mix_with_foo() {
    let pod_rule = Rule {
        api_groups: vec![String::from("a")],
        api_versions: vec![String::from("a")],
        resources: vec![String::from("a/*"), String::from("a")],
        operations: vec![Operation::Create],
    };

    let metadata = Metadata {
        annotations: annotations_by_flavio(),
        protocol_version: Some(ProtocolVersion::V1),
        rules: vec![pod_rule],
        ..Default::default()
    };

    assert!(metadata.validate().is_ok());
}

#[test]
fn validate_resource_asterisk_slash_bar_cannot_mix_with_foo_slash_bar() {
    let pod_rule = Rule {
        api_groups: vec![String::from("a")],
        api_versions: vec![String::from("a")],
        resources: vec![String::from("*/a"), String::from("x/a")],
        operations: vec![Operation::Create],
    };

    let metadata = Metadata {
        annotations: annotations_by_flavio(),
        protocol_version: Some(ProtocolVersion::V1),
        rules: vec![pod_rule],
        ..Default::default()
    };

    assert!(metadata.validate().is_err());
}

#[test]
fn validate_resource_double_asterisk_cannot_mix_with_other_resources() {
    let pod_rule = Rule {
        api_groups: vec![String::from("a")],
        api_versions: vec![String::from("a")],
        resources: vec![String::from("*/*"), String::from("a")],
        operations: vec![Operation::Create],
    };

    let metadata = Metadata {
        annotations: annotations_by_flavio(),
        protocol_version: Some(ProtocolVersion::V1),
        rules: vec![pod_rule],
        ..Default::default()
    };

    assert!(metadata.validate().is_err());
}

#[test]
fn validate_context_aware_resource_without_api_group() {
    let context_aware_resources = vec![ContextAwareResource {
        api_version: "".to_string(),
        kind: "Pod".to_string(),
    }];

    let metadata = Metadata {
        annotations: annotations_by_flavio(),
        protocol_version: Some(ProtocolVersion::V1),
        context_aware_resources,
        ..Default::default()
    };

    assert!(metadata.validate().is_err());
}

#[test]
fn validate_context_aware_resource_without_kind() {
    let context_aware_resources = vec![ContextAwareResource {
        api_version: "v1".to_string(),
        kind: "".to_string(),
    }];

    let metadata = Metadata {
        annotations: annotations_by_flavio(),
        protocol_version: Some(ProtocolVersion::V1),
        context_aware_resources,
        ..Default::default()
    };

    assert!(metadata.validate().is_err());
}

fn push_leb128(out: &mut Vec<u8>, mut n: usize) {
    while n >= 0x80 {
        out.push((n & 0x7f) as u8 | 0x80);
        n >>= 7;
    }
    out.push(n as u8);
}

fn wasm_module_with_custom_section(name: &str, payload: &[u8]) -> Vec<u8> {
    let mut module: Vec<u8> = vec![0x00, 0x61, 0x73, 0x6d, 0x01, 0x00, 0x00, 0x00];
    let mut body: Vec<u8> = Vec::new();
    push_leb128(&mut body, name.len());
    body.extend_from_slice(name.as_bytes());
    body.extend_from_slice(payload);
    module.push(0x00);
    push_leb128(&mut module, body.len());
    module.extend_from_slice(&body);
    module
}

#[test]
fn from_contents_reads_the_metadata_section() {
    let payload = br#"{"protocolVersion":"v1","rules":[],"mutating":false}"#;
    let module = wasm_module_with_custom_section("KUBEWARDEN_ANNOTATIONS", payload);
    let metadata = Metadata::from_contents(&module)
        .expect("the module must parse")
        .expect("the section must be found");
    assert_eq!(metadata.protocol_version, Some(ProtocolVersion::V1));
    assert_eq!(metadata.rules, vec![]);
    assert!(!metadata.mutating);
    assert!(metadata.background_audit);
    assert_eq!(metadata.execution_mode, PolicyExecutionMode::KubewardenWapc);
}

#[test]
fn from_contents_without_the_section_is_absent() {
    let module = wasm_module_with_custom_section("some_other_section", b"{}");
    assert_eq!(Metadata::from_contents(&module), Ok(None));
}

#[test]
fn from_contents_on_garbage_is_a_wasm_error() {
    let result = Metadata::from_contents(b"not a wasm module");
    assert!(matches!(result, Err(MetadataError::WasmPayload(_))));
}

#[test]
fn from_contents_with_a_broken_document_is_a_deserialize_error() {
    let module = wasm_module_with_custom_section("KUBEWARDEN_ANNOTATIONS", b"{ not json");
    assert!(matches!(
        Metadata::from_contents(&module),
        Err(MetadataError::Deserialize(_))
    ));
}

#[test]
fn from_contents_with_a_broken_invariant_is_refused() {
    let payload =
        br#"{"protocolVersion":"v1","mutating":false,"rules":[{"apiGroups":["a"],"apiVersions":["a"],"resources":["*","a"],"operations":["CREATE"]}]}"#;
    let module = wasm_module_with_custom_section("KUBEWARDEN_ANNOTATIONS", payload);
    assert!(matches!(
        Metadata::from_contents(&module),
        Err(MetadataError::InvariantViolated { .. })
    ));
}

#[test]
fn from_json_reads_each_field() {
    let doc = JsonValue::Obj(vec![
        (
            String::from("protocolVersion"),
            JsonValue::Str(String::from("v1")),
        ),
        (
            String::from("rules"),
            JsonValue::Arr(vec![JsonValue::Obj(vec![
                (
                    String::from("apiGroups"),
                    JsonValue::Arr(vec![JsonValue::Str(String::from(""))]),
                ),
                (
                    String::from("apiVersions"),
                    JsonValue::Arr(vec![JsonValue::Str(String::from("v1"))]),
                ),
                (
                    String::from("resources"),
                    JsonValue::Arr(vec![JsonValue::Str(String::from("pods"))]),
                ),
                (
                    String::from("operations"),
                    JsonValue::Arr(vec![JsonValue::Str(String::from("CREATE"))]),
                ),
            ])]),
        ),
        (String::from("mutating"), JsonValue::Bool(true)),
        (String::from("backgroundAudit"), JsonValue::Bool(false)),
        (
            String::from("executionMode"),
            JsonValue::Str(String::from("opa")),
        ),
        (
            String::from("policyType"),
            JsonValue::Str(String::from("raw")),
        ),
        (
            String::from("contextAwareResources"),
            JsonValue::Arr(vec![JsonValue::Obj(vec![
                (
                    String::from("apiVersion"),
                    JsonValue::Str(String::from("v1")),
                ),
                (String::from("kind"), JsonValue::Str(String::from("Pod"))),
            ])]),
        ),
        (
            String::from("minimumKubewardenVersion"),
            JsonValue::Str(String::from("1.2.3")),
        ),
    ]);
    let metadata = Metadata::from_json(&doc).expect("the document must decode");
    assert_eq!(metadata.protocol_version, Some(ProtocolVersion::V1));
    assert_eq!(
        metadata.rules,
        vec![Rule {
            api_groups: vec![String::from("")],
            api_versions: vec![String::from("v1")],
            resources: vec![String::from("pods")],
            operations: vec![Operation::Create],
        }]
    );
    assert!(metadata.mutating);
    assert!(!metadata.background_audit);
    assert_eq!(metadata.execution_mode, PolicyExecutionMode::Opa);
    assert_eq!(metadata.policy_type, PolicyType::Raw);
    assert_eq!(
        metadata.context_aware_resources,
        vec![ContextAwareResource {
            api_version: String::from("v1"),
            kind: String::from("Pod"),
        }]
    );
    assert_eq!(
        metadata.minimum_kubewarden_version,
        Some(SemverParts {
            major: 1,
            minor: 2,
            patch: 3,
            pre: String::new(),
            build: String::new(),
        })
    );
}

#[test]
fn from_json_refuses_a_bad_minimum_version() {
    let doc = JsonValue::Obj(vec![
        (String::from("rules"), JsonValue::Arr(vec![])),
        (String::from("mutating"), JsonValue::Bool(false)),
        (
            String::from("minimumKubewardenVersion"),
            JsonValue::Str(String::from("not a version")),
        ),
    ]);
    assert!(matches!(
        Metadata::from_json(&doc),
        Err(MetadataError::Deserialize(_))
    ));
}

#[test]
fn from_json_refuses_an_unknown_operation() {
    let doc = JsonValue::Obj(vec![
        (
            String::from("rules"),
            JsonValue::Arr(vec![JsonValue::Obj(vec![
                (
                    String::from("apiGroups"),
                    JsonValue::Arr(vec![JsonValue::Str(String::from("a"))]),
                ),
                (
                    String::from("apiVersions"),
                    JsonValue::Arr(vec![JsonValue::Str(String::from("a"))]),
                ),
                (
                    String::from("resources"),
                    JsonValue::Arr(vec![JsonValue::Str(String::from("pods"))]),
                ),
                (
                    String::from("operations"),
                    JsonValue::Arr(vec![JsonValue::Str(String::from("FROBNICATE"))]),
                ),
            ])]),
        ),
        (String::from("mutating"), JsonValue::Bool(false)),
    ]);
    assert!(Metadata::from_json(&doc).is_err());
}

#[test]
fn operation_names_round_trip() {
    assert_eq!(Operation::try_from("CREATE"), Ok(Operation::Create));
    assert_eq!(Operation::try_from("UPDATE"), Ok(Operation::Update));
    assert_eq!(Operation::try_from("DELETE"), Ok(Operation::Delete));
    assert_eq!(Operation::try_from("CONNECT"), Ok(Operation::Connect));
    assert_eq!(Operation::try_from("*"), Ok(Operation::All));
    assert!(Operation::try_from("create").is_err());
}

#[test]
fn asterisk_must_stand_alone_in_string_lists() {
    assert!(validate_asterisk_usage(&vec![String::from("*")]).is_ok());
    assert!(validate_asterisk_usage(&vec![String::from("a"), String::from("b")]).is_ok());
    assert!(validate_asterisk_usage(&vec![String::from("*"), String::from("a")]).is_err());
    assert!(validate_asterisk_usage(&vec![String::from("a"), String::from("*")]).is_err());
}

#[test]
fn all_must_stand_alone_in_operation_lists() {
    assert!(validate_asterisk_usage_inside_of_operations(&vec![Operation::All]).is_ok());
    assert!(
        validate_asterisk_usage_inside_of_operations(&vec![Operation::Create, Operation::Update])
            .is_ok()
    );
    assert!(
        validate_asterisk_usage_inside_of_operations(&vec![Operation::All, Operation::Create])
            .is_err()
    );
}

#[test]
fn policy_type_has_a_display_string() {
    assert_eq!(PolicyType::Kubernetes.display_string(), "kubernetes");
    assert_eq!(PolicyType::Raw.display_string(), "raw");
}

#[test]
fn metadata_without_rules() {
    let metadata = Metadata {
        protocol_version: Some(ProtocolVersion::V1),
        annotations: None,
        ..Default::default()
    };

    let expected: serde_json::Value = serde_json::from_str(
        r#"{
            "protocolVersion": "v1",
            "rules": [ ],
            "mutating": false,
            "backgroundAudit": true,
            "contextAwareResources": [ ],
            "executionMode": "kubewarden-wapc",
            "policyType": "kubernetes"
        }"#,
    )
    .unwrap();

    let actual: serde_json::Value =
        serde_json::from_str(&policy_evaluator::json::to_json_string(&metadata.to_json()))
            .unwrap();
    assert_eq!(expected, actual);
}

#[test]
fn metadata_init() {
    let pod_rule = Rule {
        api_groups: vec![String::from("")],
        api_versions: vec![String::from("v1")],
        resources: vec![String::from("pods")],
        operations: vec![Operation::Create],
    };

    let annotations = vec![(
        String::from("io.kubewarden.policy.author"),
        String::from("Flavio Castelli"),
    )];

    let metadata = Metadata {
        annotations: Some(annotations),
        protocol_version: Some(ProtocolVersion::V1),
        rules: vec![pod_rule],
        ..Default::default()
    };

    let expected: serde_json::Value = serde_json::from_str(
        r#"{
            "protocolVersion": "v1",
            "rules": [
                {
                    "apiGroups":[""],
                    "apiVersions":["v1"],
                    "resources":["pods"],
                    "operations":["CREATE"]
                }
            ],
            "annotations": {
                "io.kubewarden.policy.author": "Flavio Castelli"
            },
            "mutating": false,
            "backgroundAudit": true,
            "contextAwareResources": [ ],
            "executionMode": "kubewarden-wapc",
            "policyType": "kubernetes"
        }"#,
    )
    .unwrap();

    let actual: serde_json::Value =
        serde_json::from_str(&policy_evaluator::json::to_json_string(&metadata.to_json()))
            .unwrap();
    assert_eq!(expected, actual);
}
