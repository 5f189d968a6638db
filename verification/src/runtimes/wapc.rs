//! The native runtime: a waPC host running the policy's Wasm module,
//! the process-wide correlation table from engine-assigned guest ids
//! to policy identities, the host-capability dispatch, and the
//! decoding of what the guest hands back.

use std::collections::HashMap;

use vstd::prelude::*;

use crate::json::{
    jeq, json_member, json_of, member, obj_text, push_chars, write_json, write_obj, JsonValue,
};
use crate::policy_evaluator::{
    req_uid, Policy, SettingsValidationResponse, ValidateRequest,
};
use crate::policy_metadata::ProtocolVersion;
use crate::validation_response::{b64_chars, patch_chars, ValidationResponse};
use crate::{CODE_BAD_REQUEST, CODE_INTERNAL_SERVER_ERROR};

verus! {

broadcast use
    vstd::std_specs::vec::group_vec_axioms,
    vstd::std_specs::hash::group_hash_axioms;

/// The process-wide correlation table from engine-assigned guest ids
/// to policy identities. An entry is made when a policy is loaded and
/// taken out when its evaluator is dropped; host callbacks read it on
/// every in-guest capability call.
pub struct PolicyRegistry {
    mapping: HashMap<u64, Policy>,
}

impl View for PolicyRegistry {
    type V = Map<u64, Policy>;

    closed spec fn view(&self) -> Map<u64, Policy> {
        self.mapping@
    }
}

impl PolicyRegistry {
    /// An empty table.
    pub fn new() -> (r: PolicyRegistry)
        ensures
            r@ == Map::<u64, Policy>::empty(),
    {
        PolicyRegistry { mapping: HashMap::new() }
    }

    /// Enters a policy under an engine-assigned guest id.
    pub fn register(&mut self, guest_id: u64, policy: Policy)
        ensures
            final(self)@ == old(self)@.insert(guest_id, policy),
    {
        self.mapping.insert(guest_id, policy);
    }

    /// Takes a policy's entry out.
    pub fn unregister(&mut self, guest_id: u64)
        ensures
            final(self)@ == old(self)@.remove(guest_id),
    {
        self.mapping.remove(&guest_id);
    }

    /// The policy registered under a guest id.
    pub fn get(&self, guest_id: u64) -> (r: Option<&Policy>)
        ensures
            match r {
                Some(p) => self@.contains_key(guest_id) && *p == self@[guest_id],
                None => !self@.contains_key(guest_id),
            },
    {
        self.mapping.get(&guest_id)
    }

    /// Whether a guest id has an entry.
    pub fn contains(&self, guest_id: u64) -> (r: bool)
        ensures
            r == self@.contains_key(guest_id),
    {
        self.mapping.contains_key(&guest_id)
    }

    /// Whether the table is empty.
    pub fn is_empty(&self) -> (r: bool)
        ensures
            r == self@.is_empty(),
    {
        self.mapping.is_empty()
    }
}

/// The table after registering `ids[i]` with `ps[i]`, in order.
pub open spec fn register_all(m: Map<u64, Policy>, ids: Seq<u64>, ps: Seq<Policy>) -> Map<
    u64,
    Policy,
>
    decreases ids.len(),
{
    if ids.len() == 0 || ps.len() == 0 {
        m
    } else {
        register_all(m.insert(ids[0], ps[0]), ids.skip(1), ps.skip(1))
    }
}

/// The table after unregistering each id of `ids`.
pub open spec fn unregister_all(m: Map<u64, Policy>, ids: Seq<u64>) -> Map<u64, Policy>
    decreases ids.len(),
{
    if ids.len() == 0 {
        m
    } else {
        unregister_all(m.remove(ids[0]), ids.skip(1))
    }
}

/// Removing a key not among `ids` commutes with registering `ids`.
proof fn lemma_remove_commutes_register_all(
    m: Map<u64, Policy>,
    ids: Seq<u64>,
    ps: Seq<Policy>,
    id: u64,
)
    requires
        ps.len() == ids.len(),
        !ids.contains(id),
    ensures
        register_all(m, ids, ps).remove(id) == register_all(m.remove(id), ids, ps),
    decreases ids.len(),
{
    if ids.len() == 0 {
    } else {
        assert(ids[0] != id);
        assert(ids.skip(1).len() == ids.len() - 1);
        assert(!ids.skip(1).contains(id)) by {
            if ids.skip(1).contains(id) {
                let j = choose|j: int| 0 <= j < ids.skip(1).len() && ids.skip(1)[j] == id;
                assert(ids[j + 1] == id);
            }
        }
        lemma_remove_commutes_register_all(m.insert(ids[0], ps[0]), ids.skip(1), ps.skip(1), id);
        assert(m.insert(ids[0], ps[0]).remove(id) =~= m.remove(id).insert(ids[0], ps[0]));
    }
}

/// Law: loading any number of policies under fresh, distinct guest
/// ids and then dropping each of them leaves the correlation table as
/// it was. In particular, starting from an empty table it is empty
/// again. The hypothesis that the ids are distinct and fresh is what
/// the engine provides: it draws each host's id from a process-wide
/// counter. That counter is process state, so the id wrapper can
/// promise nothing about it, and the law takes the freshness as an
/// assumption instead.
pub proof fn lemma_capability_registration_balanced(
    m: Map<u64, Policy>,
    ids: Seq<u64>,
    ps: Seq<Policy>,
)
    requires
        ids.no_duplicates(),
        ps.len() == ids.len(),
        forall|i: int| 0 <= i < ids.len() ==> !m.dom().contains(#[trigger] ids[i]),
    ensures
        unregister_all(register_all(m, ids, ps), ids) == m,
    decreases ids.len(),
{
    if ids.len() == 0 {
    } else {
        let m1 = m.insert(ids[0], ps[0]);
        assert(!ids.skip(1).contains(ids[0])) by {
            if ids.skip(1).contains(ids[0]) {
                let j = choose|j: int|
                    0 <= j < ids.skip(1).len() && ids.skip(1)[j] == ids[0];
                assert(ids[j + 1] == ids[0]);
            }
        }
        lemma_remove_commutes_register_all(m1, ids.skip(1), ps.skip(1), ids[0]);
        assert(m1.remove(ids[0]) =~= m);
        assert(forall|i: int|
            0 <= i < ids.skip(1).len() ==> !m.dom().contains(#[trigger] ids.skip(1)[i]));
        lemma_capability_registration_balanced(m, ids.skip(1), ps.skip(1));
    }
}

/// The serialized snapshots the cluster-context provider serves: one
/// opaque byte list per resource kind.
#[derive(Debug, Clone, PartialEq, Eq)]
pub struct ClusterContext {
    pub ingresses: Vec<u8>,
    pub namespaces: Vec<u8>,
    pub services: Vec<u8>,
}

/// An in-guest capability call the host refuses.
#[derive(Debug, Clone, PartialEq, Eq)]
pub enum CapabilityError {
    UnknownBinding(String),
    UnknownNamespace(String),
    UnknownOperation(String),
}

/// What a host callback asks the embedder to do: reply with bytes, or
/// forward a payload to a policy's tracing sink and reply with empty
/// bytes.
#[derive(Debug)]
pub enum HostCallOutcome {
    Reply(Vec<u8>),
    Log { policy: Policy, payload: Vec<u8> },
}

/// Routes one in-guest host call: `kubewarden/tracing/log` forwards
/// the payload to the calling policy's sink, `kubernetes/<kind>`
/// serves the cluster-context snapshot for that kind, and every other
/// triple is refused. The table must know the calling guest on the
/// log route: the host is never asked about an unknown policy.
pub fn host_callback(
    registry: &PolicyRegistry,
    cluster_context: &ClusterContext,
    policy_id: u64,
    binding: &str,
    namespace: &str,
    operation: &str,
    payload: &[u8],
) -> (r: Result<HostCallOutcome, CapabilityError>)
    requires
        binding@ == "kubewarden"@ && namespace@ == "tracing"@ && operation@ == "log"@
            ==> registry@.contains_key(policy_id),
    ensures
        binding@ == "kubewarden"@ && namespace@ == "tracing"@ && operation@ == "log"@ ==> (
        r matches Ok(HostCallOutcome::Log { policy, payload: p }) && policy == registry@[policy_id]
            && p@ == payload@),
        binding@ == "kubewarden"@ && namespace@ == "tracing"@ && operation@ != "log"@ ==> (
        r matches Err(CapabilityError::UnknownOperation(o)) && o@ == operation@),
        binding@ == "kubewarden"@ && namespace@ != "tracing"@ ==> (r matches Err(
            CapabilityError::UnknownNamespace(n),
        ) && n@ == namespace@),
        binding@ == "kubernetes"@ && namespace@ == "ingresses"@ ==> (r matches Ok(
            HostCallOutcome::Reply(b),
        ) && b@ == cluster_context.ingresses@),
        binding@ == "kubernetes"@ && namespace@ == "namespaces"@ ==> (r matches Ok(
            HostCallOutcome::Reply(b),
        ) && b@ == cluster_context.namespaces@),
        binding@ == "kubernetes"@ && namespace@ == "services"@ ==> (r matches Ok(
            HostCallOutcome::Reply(b),
        ) && b@ == cluster_context.services@),
        binding@ == "kubernetes"@ && namespace@ != "ingresses"@ && namespace@ != "namespaces"@
            && namespace@ != "services"@ ==> (r matches Err(CapabilityError::UnknownNamespace(n))
            && n@ == namespace@),
        binding@ != "kubewarden"@ && binding@ != "kubernetes"@ ==> (r matches Err(
            CapabilityError::UnknownBinding(b),
        ) && b@ == binding@),
{
    proof {
        reveal_strlit("kubewarden");
        reveal_strlit("kubernetes");
        assert("kubewarden"@[4] == 'w');
        assert("kubernetes"@[4] == 'r');
        assert("kubewarden"@ != "kubernetes"@);
        reveal_strlit("ingresses");
        reveal_strlit("namespaces");
        reveal_strlit("services");
        assert("ingresses"@.len() == 9);
        assert("namespaces"@.len() == 10);
        assert("services"@.len() == 8);
        assert("ingresses"@ != "namespaces"@);
        assert("namespaces"@ != "services"@);
        assert("ingresses"@ != "services"@);
    }
    if crate::json::str_eq(binding, "kubewarden") {
        if crate::json::str_eq(namespace, "tracing") {
            if crate::json::str_eq(operation, "log") {
                match registry.get(policy_id) {
                    Some(policy) => Ok(
                        HostCallOutcome::Log { policy: policy.clone(), payload: vstd::slice::slice_to_vec(payload) },
                    ),
                    // The precondition makes an unknown guest id on the
                    // log route impossible.
                    None => unreached(),
                }
            } else {
                Err(CapabilityError::UnknownOperation(String::from_str(operation)))
            }
        } else {
            Err(CapabilityError::UnknownNamespace(String::from_str(namespace)))
        }
    } else if crate::json::str_eq(binding, "kubernetes") {
        if crate::json::str_eq(namespace, "ingresses") {
            Ok(HostCallOutcome::Reply(vstd::slice::slice_to_vec(cluster_context.ingresses.as_slice())))
        } else if crate::json::str_eq(namespace, "namespaces") {
            Ok(HostCallOutcome::Reply(vstd::slice::slice_to_vec(cluster_context.namespaces.as_slice())))
        } else if crate::json::str_eq(namespace, "services") {
            Ok(HostCallOutcome::Reply(vstd::slice::slice_to_vec(cluster_context.services.as_slice())))
        } else {
            Err(CapabilityError::UnknownNamespace(String::from_str(namespace)))
        }
    } else {
        Err(CapabilityError::UnknownBinding(String::from_str(binding)))
    }
}

/// Declares the waPC host type so that the runtime can own one; the
/// library reaches it only through the wrappers below.
#[verifier::external_type_specification]
#[verifier::external_body]
pub struct ExWapcHost(wapc::WapcHost);

/// Relies on `WasmtimeEngineProviderBuilder::build` and
/// `WapcHost::new`: compiles the module, instantiates it, and wires
/// the given function in as the engine's host callback. Nothing is
/// promised of the outcome: the module's bytes decide it.
#[verifier::external_body]
pub(crate) fn new_wapc_host<F: Fn(u64, &str, &str, &str, &[u8]) -> Result<Vec<u8>, String> + Send + Sync + 'static>(
    policy_contents: &[u8],
    callback: F,
) -> (r: Result<wapc::WapcHost, String>) {
    let engine = wasmtime_provider::WasmtimeEngineProviderBuilder::new()
        .module_bytes(policy_contents)
        .build()
        .map_err(|e| format!("{}", e))?;
    wapc::WapcHost::new(
        Box::new(engine),
        Some(Box::new(move |id, bd, ns, op, pl| callback(id, bd, ns, op, pl).map_err(Into::into))),
    ).map_err(|e| format!("{}", e))
}

/// Relies on `WapcHost::id`: the engine-assigned guest id of this
/// host instance.
#[verifier::external_body]
pub(crate) fn wapc_host_id(host: &wapc::WapcHost) -> u64 {
    host.id()
}

/// Relies on `WapcHost::call`: invokes the named guest export with
/// the payload and hands back the guest's reply, or the engine's
/// error as text. Nothing is promised of the outcome: the guest
/// decides it.
#[verifier::external_body]
pub(crate) fn wapc_call(host: &wapc::WapcHost, op: &str, payload: &[u8]) -> (r: Result<
    Vec<u8>,
    String,
>) {
    host.call(op, payload).map_err(|e| format!("{}", e))
}

/// Whether a JSON document has the shape of a native guest verdict.
pub open spec fn pvr_decodable(v: JsonValue) -> bool {
    &&& json_member(v, "accepted"@) matches Some(JsonValue::Bool(_))
    &&& match json_member(v, "message"@) {
        None => true,
        Some(JsonValue::Null) => true,
        Some(JsonValue::Str(_)) => true,
        Some(_) => false,
    }
    &&& match json_member(v, "code"@) {
        None => true,
        Some(JsonValue::Null) => true,
        Some(JsonValue::Int(n)) => 0 <= n <= 65535,
        Some(_) => false,
    }
}

/// Whether the verdict `p` is what the JSON document `v` describes.
pub open spec fn pvr_matches(
    p: crate::validation_response::PolicyValidationResponse,
    v: JsonValue,
) -> bool {
    &&& json_member(v, "accepted"@) matches Some(JsonValue::Bool(b)) && p.accepted == b
    &&& match json_member(v, "message"@) {
        None => p.message is None,
        Some(JsonValue::Null) => p.message is None,
        Some(JsonValue::Str(s)) => p.message matches Some(m) && m@ == s@,
        Some(_) => false,
    }
    &&& match json_member(v, "code"@) {
        None => p.code is None,
        Some(JsonValue::Null) => p.code is None,
        Some(JsonValue::Int(n)) => 0 <= n <= 65535 && p.code == Some(n as u16),
        Some(_) => false,
    }
    &&& match json_member(v, "mutated_object"@) {
        None => p.mutated_object is None,
        Some(JsonValue::Null) => p.mutated_object is None,
        Some(mo) => p.mutated_object == Some(mo),
    }
}

/// Finds the index of the first binding of `key`.
#[verifier::loop_isolation(false)]
fn find_member_index(members: &Vec<(String, JsonValue)>, key: &str) -> (r: Option<usize>)
    ensures
        match r {
            Some(idx) => idx < members@.len() && members@[idx as int].0@ == key@
                && crate::json::member_of(members@, key@) == Some(members@[idx as int].1),
            None => crate::json::member_of(members@, key@) is None,
        },
{
    proof {
        assert(members@.skip(0) =~= members@);
    }
    let mut i: usize = 0;
    while i < members.len()
        invariant
            i <= members.len(),
            crate::json::member_of(members@, key@) == crate::json::member_of(
                members@.skip(i as int),
                key@,
            ),
        decreases members.len() - i,
    {
        if crate::json::str_eq(members[i].0.as_str(), key) {
            proof {
                assert(members@.skip(i as int)[0] == members@[i as int]);
            }
            return Some(i);
        }
        proof {
            assert(members@.skip(i as int)[0] == members@[i as int]);
            assert(members@.skip(i as int).skip(1) =~= members@.skip(i as int + 1));
        }
        i += 1;
    }
    None
}

/// Reads a native guest verdict out of its JSON document.
fn policy_validation_response_from(doc: JsonValue) -> (r: Result<
    crate::validation_response::PolicyValidationResponse,
    String,
>)
    ensures
        r is Ok <==> pvr_decodable(doc),
        r matches Ok(p) ==> pvr_matches(p, doc),
{
    let accepted = match member(&doc, "accepted") {
        Some(JsonValue::Bool(b)) => *b,
        _ => {
            return Err(String::from_str("the guest verdict has no 'accepted' boolean"));
        },
    };
    let message = match member(&doc, "message") {
        None => None,
        Some(JsonValue::Null) => None,
        Some(JsonValue::Str(s)) => Some(s.clone()),
        Some(_) => {
            return Err(String::from_str("the guest verdict's 'message' is not a string"));
        },
    };
    let code = match member(&doc, "code") {
        None => None,
        Some(JsonValue::Null) => None,
        Some(JsonValue::Int(n)) => {
            let n = *n;
            if 0 <= n && n <= 65535 {
                Some(n as u16)
            } else {
                return Err(String::from_str("the guest verdict's 'code' is out of range"));
            }
        },
        Some(_) => {
            return Err(String::from_str("the guest verdict's 'code' is not a number"));
        },
    };
    let mutated_object = match doc {
        JsonValue::Obj(mut members) => match find_member_index(&members, "mutated_object") {
            Some(idx) => {
                let pair = members.swap_remove(idx);
                match pair.1 {
                    JsonValue::Null => None,
                    mo => Some(mo),
                }
            },
            None => None,
        },
        _ => None,
    };
    Ok(crate::validation_response::PolicyValidationResponse {
        accepted,
        message,
        code,
        mutated_object,
    })
}

/// Normalizes what the guest's `validate` export handed back: a
/// verdict document becomes the admission response the builder makes
/// of it, and anything that does not decode becomes an internal-error
/// rejection. The uid is echoed in every case.
pub fn response_from_guest_output(
    uid: String,
    req_obj: &JsonValue,
    output: &[u8],
) -> (r: ValidationResponse)
    ensures
        r.uid@ == uid@,
        (match json_of(output@) {
            None => true,
            Some(d) => !pvr_decodable(d),
        }) ==> (!r.allowed && r.patch is None && r.patch_type is None && (r.status matches Some(st)
            && st.code == Some(CODE_INTERNAL_SERVER_ERROR))),
        json_of(output@) matches Some(d) ==> pvr_decodable(d) ==> {
            &&& json_member(d, "accepted"@) matches Some(JsonValue::Bool(b)) && r.allowed == b
            &&& r.allowed ==> r.status is None
            &&& r.allowed || (r.status matches Some(st) && (match json_member(d, "message"@) {
                None => st.message is None,
                Some(JsonValue::Null) => st.message is None,
                Some(JsonValue::Str(s)) => st.message matches Some(m) && m@ == s@,
                Some(_) => false,
            }) && (match json_member(d, "code"@) {
                None => st.code == Some(CODE_BAD_REQUEST),
                Some(JsonValue::Null) => st.code == Some(CODE_BAD_REQUEST),
                Some(JsonValue::Int(n)) => st.code == Some(n as u16),
                Some(_) => false,
            }))
            &&& match json_member(d, "mutated_object"@) {
                None => r.patch is None && r.patch_type is None,
                Some(JsonValue::Null) => r.patch is None && r.patch_type is None,
                Some(mo) => if jeq(mo, *req_obj) {
                    r.patch is None && r.patch_type is None
                } else {
                    (r.patch matches Some(p) && p@ == b64_chars(
                        vstd::utf8::encode_utf8(patch_chars(mo)),
                    )) && (r.patch_type matches Some(t) && t@ == "JSONPatch"@)
                },
            }
        },
{
    match crate::json::decode_json(output) {
        None => ValidationResponse::reject_internal_server_error(
            uid,
            String::from_str("cannot deserialize the policy validation response"),
        ),
        Some(doc) => match policy_validation_response_from(doc) {
            Err(msg) => ValidationResponse::reject_internal_server_error(uid, msg),
            Ok(pvr) => ValidationResponse::from_policy_validation_response(uid, req_obj, pvr),
        },
    }
}

/// Whether a JSON document has the shape of a settings verdict.
pub open spec fn svr_decodable(v: JsonValue) -> bool {
    &&& json_member(v, "valid"@) matches Some(JsonValue::Bool(_))
    &&& match json_member(v, "message"@) {
        None => true,
        Some(JsonValue::Null) => true,
        Some(JsonValue::Str(_)) => true,
        Some(_) => false,
    }
}

/// Normalizes what the guest's `validate_settings` export handed
/// back; anything that does not decode becomes an invalid verdict
/// carrying the reason.
pub fn settings_response_from_guest_output(output: &[u8]) -> (r: SettingsValidationResponse)
    ensures
        (match json_of(output@) {
            None => true,
            Some(d) => !svr_decodable(d),
        }) ==> !r.valid,
        json_of(output@) matches Some(d) ==> svr_decodable(d) ==> {
            &&& json_member(d, "valid"@) matches Some(JsonValue::Bool(b)) && r.valid == b
            &&& match json_member(d, "message"@) {
                None => r.message is None,
                Some(JsonValue::Null) => r.message is None,
                Some(JsonValue::Str(s)) => r.message matches Some(m) && m@ == s@,
                Some(_) => false,
            }
        },
{
    match crate::json::decode_json(output) {
        None => SettingsValidationResponse {
            valid: false,
            message: Some(String::from_str("cannot deserialize the settings response")),
        },
        Some(doc) => {
            let valid = match member(&doc, "valid") {
                Some(JsonValue::Bool(b)) => *b,
                _ => {
                    return SettingsValidationResponse {
                        valid: false,
                        message: Some(
                            String::from_str("the settings response has no 'valid' boolean"),
                        ),
                    };
                },
            };
            let message = match member(&doc, "message") {
                None => None,
                Some(JsonValue::Null) => None,
                Some(JsonValue::Str(s)) => Some(s.clone()),
                Some(_) => {
                    return SettingsValidationResponse {
                        valid: false,
                        message: Some(
                            String::from_str("the settings response's 'message' is not a string"),
                        ),
                    };
                },
            };
            SettingsValidationResponse { valid, message }
        },
    }
}

/// Reads the protocol version the guest declared: the JSON string
/// `"v1"` or `"Unknown"`, anything else an error.
pub fn protocol_version_from_guest_output(output: &[u8]) -> (r: Result<ProtocolVersion, String>)
    ensures
        match json_of(output@) {
            Some(JsonValue::Str(s)) => if s@ == "v1"@ {
                r == Ok::<ProtocolVersion, String>(ProtocolVersion::V1)
            } else if s@ == "Unknown"@ {
                r == Ok::<ProtocolVersion, String>(ProtocolVersion::Unknown)
            } else {
                r is Err
            },
            _ => r is Err,
        },
{
    match crate::json::decode_json(output) {
        Some(JsonValue::Str(s)) => {
            if crate::json::str_eq(s.as_str(), "v1") {
                Ok(ProtocolVersion::V1)
            } else if crate::json::str_eq(s.as_str(), "Unknown") {
                Ok(ProtocolVersion::Unknown)
            } else {
                Err(String::from_str("unknown protocol version"))
            }
        },
        _ => Err(String::from_str("cannot decode the protocol version")),
    }
}

/// The guest input for a `validate` call: the request and the
/// caller's settings, side by side.
pub open spec fn validate_params_chars(req: JsonValue, settings: Seq<(String, JsonValue)>) -> Seq<
    char,
> {
    "{\"request\":"@ + crate::json::json_chars(req) + ",\"settings\":"@ + obj_text(settings)
        + "}"@
}

/// Builds the guest input for a `validate` call.
pub fn build_validate_payload(request: &ValidateRequest, settings: &Vec<(String, JsonValue)>) -> (r:
    String)
    ensures
        r@ == validate_params_chars(request.0, settings@),
{
    let mut buf: Vec<char> = Vec::new();
    push_chars(&mut buf, "{\"request\":");
    write_json(&request.0, &mut buf);
    push_chars(&mut buf, ",\"settings\":");
    write_obj(settings, &mut buf);
    push_chars(&mut buf, "}");
    let r = crate::json::chars_to_string(&buf);
    proof {
        assert(r@ =~= validate_params_chars(request.0, settings@));
    }
    r
}

/// Holds where guest output bytes decode to an accepting verdict.
/// An allow on the native path can arise from such bytes alone.
pub open spec fn accepting_guest_output(out: Seq<u8>) -> bool {
    json_of(out) matches Some(d) && pvr_decodable(d) && json_member(d, "accepted"@) == Some(
        JsonValue::Bool(true),
    )
}

/// Whether guest output bytes decode to a settings verdict that says
/// valid: only such bytes can make settings validation succeed.
pub open spec fn valid_settings_guest_output(out: Seq<u8>) -> bool {
    json_of(out) matches Some(d) && svr_decodable(d) && json_member(d, "valid"@) == Some(
        JsonValue::Bool(true),
    )
}

/// Whether guest output bytes name the given protocol version: only
/// such bytes can make the protocol query succeed with it.
pub open spec fn protocol_guest_output(out: Seq<u8>, v: ProtocolVersion) -> bool {
    json_of(out) matches Some(JsonValue::Str(s)) && ((s@ == "v1"@ && v == ProtocolVersion::V1) || (
    s@ == "Unknown"@ && v == ProtocolVersion::Unknown))
}

/// A borrowed native runtime: the policy's waPC host.
pub struct Runtime<'a> {
    pub wapc_host: &'a wapc::WapcHost,
}

impl<'a> Runtime<'a> {
    /// Answers an admission request: a request without a top-level
    /// `object` is rejected outright with status 400; otherwise the
    /// guest's `validate` export decides, its output normalized by
    /// `response_from_guest_output`, and an engine failure becomes an
    /// internal-error rejection. The uid is echoed in every case, an
    /// allow arises only from guest output that decoded to an
    /// accepting verdict, and every rejection carries a status.
    pub fn validate(
        &self,
        settings: &Vec<(String, JsonValue)>,
        request: &ValidateRequest,
    ) -> (r: ValidationResponse)
        ensures
            r.uid@ == req_uid(request.0),
            json_member(request.0, "object"@) is None ==> (!r.allowed && r.patch is None
                && r.patch_type is None && (r.status matches Some(st) && st.code == Some(
                CODE_BAD_REQUEST,
            ) && (st.message matches Some(m) && m@
                == "request doesn't have an 'object' value"@))),
            r.allowed ==> exists|out: Seq<u8>| #[trigger] accepting_guest_output(out),
            !r.allowed ==> r.status is Some,
    {
        let uid = request.uid();
        let req_obj = match member(&request.0, "object") {
            Some(o) => o,
            None => {
                return ValidationResponse::reject(
                    uid,
                    String::from_str("request doesn't have an 'object' value"),
                    CODE_BAD_REQUEST,
                );
            },
        };
        let payload = build_validate_payload(request, settings);
        match wapc_call(self.wapc_host, "validate", payload.as_str().as_bytes()) {
            Ok(output) => {
                let resp = response_from_guest_output(uid, req_obj, output.as_slice());
                proof {
                    if resp.allowed {
                        assert(accepting_guest_output(output@));
                    }
                }
                resp
            },
            Err(msg) => ValidationResponse::reject_internal_server_error(uid, msg),
        }
    }

    /// Asks the guest to validate serialized settings; an engine
    /// failure or an undecodable reply becomes an invalid verdict. A
    /// valid verdict arises only from guest output that said so.
    pub fn validate_settings(&self, settings: String) -> (r: SettingsValidationResponse)
        ensures
            r.valid ==> exists|out: Seq<u8>| #[trigger] valid_settings_guest_output(out),
    {
        match wapc_call(self.wapc_host, "validate_settings", settings.as_str().as_bytes()) {
            Ok(output) => {
                let resp = settings_response_from_guest_output(output.as_slice());
                proof {
                    if resp.valid {
                        assert(valid_settings_guest_output(output@));
                    }
                }
                resp
            },
            Err(msg) => SettingsValidationResponse { valid: false, message: Some(msg) },
        }
    }

    /// Asks the guest which protocol version it speaks. A version
    /// comes back only from guest output that named it, the sentinel
    /// included.
    pub fn protocol_version(&self) -> (r: Result<ProtocolVersion, String>)
        ensures
            r matches Ok(v) ==> exists|out: Seq<u8>| #[trigger] protocol_guest_output(out, v),
    {
        match wapc_call(self.wapc_host, "protocol_version", &[]) {
            Ok(output) => {
                let resp = protocol_version_from_guest_output(output.as_slice());
                proof {
                    match resp {
                        Ok(v) => {
                            assert(protocol_guest_output(output@, v));
                        },
                        Err(_) => {},
                    }
                }
                resp
            },
            Err(msg) => Err(msg),
        }
    }
}

} // verus!
