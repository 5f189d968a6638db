//! The policy evaluator: execution modes, identities, requests,
//! settings, and the facade that owns a runtime and answers admission
//! requests.

use vstd::prelude::*;

use crate::json::{json_member, member, JsonValue};

verus! {

/// Which engine a policy runs on: the native guest ABI, plain OPA, or
/// OPA in its Gatekeeper dialect.
#[derive(Debug, Clone, Copy, PartialEq, Eq, Structural)]
pub enum PolicyExecutionMode {
    KubewardenWapc,
    Opa,
    OpaGatekeeper,
}

/// The identity of one loaded policy: a stable id chosen by the
/// caller, its execution mode, and an optional handle to a tracing
/// sink the embedder owns.
#[derive(Debug, PartialEq, Eq)]
pub struct Policy {
    pub id: String,
    pub execution_mode: PolicyExecutionMode,
    pub log_sink: Option<u64>,
}

impl Clone for Policy {
    /// An equal identity; the id's characters are copied.
    fn clone(&self) -> (r: Self)
        ensures
            r == *self,
    {
        Policy {
            id: self.id.clone(),
            execution_mode: self.execution_mode,
            log_sink: self.log_sink,
        }
    }
}

impl Policy {
    /// A policy identity for the native mode without a tracing sink.
    pub fn new(id: String) -> (r: Policy)
        ensures
            r.id == id,
            r.execution_mode == PolicyExecutionMode::KubewardenWapc,
            r.log_sink is None,
    {
        Policy { id, execution_mode: PolicyExecutionMode::KubewardenWapc, log_sink: None }
    }
}

/// An admission request: a JSON-shaped document with at least a
/// `uid` string and a top-level `object`.
#[derive(Debug)]
pub struct ValidateRequest(pub JsonValue);

/// The uid of a request document: the string member `uid`, or the
/// empty string where there is none.
pub open spec fn req_uid(v: JsonValue) -> Seq<char> {
    match json_member(v, "uid"@) {
        Some(JsonValue::Str(s)) => s@,
        _ => Seq::empty(),
    }
}

impl ValidateRequest {
    /// Wraps a request document.
    pub fn new(request: JsonValue) -> (r: ValidateRequest)
        ensures
            r.0 == request,
    {
        ValidateRequest(request)
    }

    /// The request's uid, empty where absent.
    pub fn uid(&self) -> (r: String)
        ensures
            r@ == req_uid(self.0),
    {
        match member(&self.0, "uid") {
            Some(JsonValue::Str(s)) => s.clone(),
            _ => String::new(),
        }
    }
}

/// What a policy answers when asked to validate its settings.
#[derive(Debug, Clone, PartialEq, Eq)]
pub struct SettingsValidationResponse {
    pub valid: bool,
    pub message: Option<String>,
}

/// The state of an OPA policy: which entrypoint to evaluate, and the
/// `input` and `data` documents it is evaluated against. The OPA-Wasm
/// engine itself is the embedder's: it evaluates the entrypoint and
/// hands the results to `response_from_opa_result`.
#[derive(Debug)]
pub struct BurregoEvaluator {
    pub entrypoint_id: i32,
    pub input: JsonValue,
    pub data: JsonValue,
}

/// The engine a policy runs on: a native waPC host, or the state of
/// an OPA policy.
pub enum Runtime {
    Wapc(wapc::WapcHost),
    Burrego(Box<BurregoEvaluator>),
}

/// Turns an OPA evaluation outcome into an admission response: the
/// first result decides, `true` allowing and `false` denying, both
/// without a status; an evaluation error or an empty result list
/// becomes an internal-error rejection.
pub fn response_from_opa_result(uid: String, evaluation: Result<Vec<bool>, String>) -> (r:
    crate::validation_response::ValidationResponse)
    ensures
        r.uid@ == uid@,
        evaluation matches Ok(results) ==> results@.len() > 0 ==> (r.allowed == results@[0]
            && r.status is None && r.patch is None && r.patch_type is None),
        (match evaluation {
            Ok(results) => results@.len() == 0,
            Err(_) => true,
        }) ==> (!r.allowed && r.patch is None && r.patch_type is None && (r.status matches Some(st)
            && st.code == Some(crate::CODE_INTERNAL_SERVER_ERROR))),
{
    match evaluation {
        Ok(results) => {
            if results.len() == 0 {
                crate::validation_response::ValidationResponse::reject_internal_server_error(
                    uid,
                    String::from_str("the policy evaluated to no result"),
                )
            } else {
                crate::validation_response::ValidationResponse {
                    uid,
                    allowed: results[0],
                    patch_type: None,
                    patch: None,
                    status: None,
                }
            }
        },
        Err(msg) => crate::validation_response::ValidationResponse::reject_internal_server_error(
            uid,
            msg,
        ),
    }
}

/// The facade callers hold: a policy identity, the engine it runs on,
/// and the caller's settings, forwarded verbatim to the guest.
pub struct PolicyEvaluator {
    pub runtime: Runtime,
    pub policy: Policy,
    pub settings: Vec<(String, JsonValue)>,
}

impl PolicyEvaluator {
    /// Registers a policy in the correlation table under an
    /// engine-assigned guest id and hands the identity back.
    pub fn from_contents_internal(
        registry: &mut crate::runtimes::wapc::PolicyRegistry,
        engine_policy_id: u64,
        policy: Policy,
    ) -> (r: Policy)
        ensures
            final(registry)@ == old(registry)@.insert(engine_policy_id, policy),
            r == policy,
    {
        registry.register(engine_policy_id, policy.clone());
        policy
    }

    /// Loads a policy from a module's bytes: the native mode compiles
    /// the module into a waPC host wired to the given host callback
    /// and registers the policy under the engine's guest id; the OPA
    /// modes register under the placeholder id 0, since OPA policies
    /// make no host calls. Hands back the evaluator and the guest id
    /// it was registered under.
    pub fn from_contents<
        F: Fn(u64, &str, &str, &str, &[u8]) -> Result<Vec<u8>, String> + Send + Sync + 'static,
    >(
        registry: &mut crate::runtimes::wapc::PolicyRegistry,
        id: String,
        policy_contents: &[u8],
        policy_execution_mode: PolicyExecutionMode,
        settings: Option<Vec<(String, JsonValue)>>,
        host_callback: F,
    ) -> (r: Result<(PolicyEvaluator, u64), String>)
        ensures
            r matches Ok((pe, guest_id)) ==> {
                &&& final(registry)@ == old(registry)@.insert(guest_id, pe.policy)
                &&& pe.policy.id@ == id@
                &&& pe.policy.execution_mode == policy_execution_mode
                &&& pe.policy.log_sink is None
                &&& match settings {
                    Some(s) => pe.settings == s,
                    None => pe.settings@.len() == 0,
                }
            },
            policy_execution_mode is KubewardenWapc ==> (r matches Ok((pe, guest_id))
                ==> pe.runtime is Wapc),
            !(policy_execution_mode is KubewardenWapc) ==> (r matches Ok((pe, guest_id))
                && guest_id == 0 && (pe.runtime matches Runtime::Burrego(b) && b.entrypoint_id
                == 0 && (b.input matches JsonValue::Obj(ms) && ms@.len() == 0) && (b.data matches
            JsonValue::Obj(ms) && ms@.len() == 0))),
            r is Err ==> final(registry)@ == old(registry)@,
    {
        let policy = Policy {
            id,
            execution_mode: policy_execution_mode,
            log_sink: None,
        };
        let (runtime, guest_id) = match policy_execution_mode {
            PolicyExecutionMode::KubewardenWapc => {
                match crate::runtimes::wapc::new_wapc_host(policy_contents, host_callback) {
                    Ok(host) => {
                        let guest_id = crate::runtimes::wapc::wapc_host_id(&host);
                        (Runtime::Wapc(host), guest_id)
                    },
                    Err(e) => {
                        return Err(e);
                    },
                }
            },
            _ => {
                let evaluator = BurregoEvaluator {
                    entrypoint_id: 0,
                    input: JsonValue::Obj(Vec::new()),
                    data: JsonValue::Obj(Vec::new()),
                };
                (Runtime::Burrego(Box::new(evaluator)), 0u64)
            },
        };
        registry.register(guest_id, policy.clone());
        let settings = match settings {
            Some(s) => s,
            None => Vec::new(),
        };
        Ok((PolicyEvaluator { runtime, policy, settings }, guest_id))
    }

    /// Answers an admission request: a request without a top-level
    /// `object` is rejected outright with status 400, whatever the
    /// engine; otherwise the native guest decides, or — for an OPA
    /// policy, whose engine the embedder drives — an internal-error
    /// rejection points at `response_from_opa_result`. The uid is
    /// echoed in every case, an allow arises only from guest output
    /// that decoded to an accepting verdict, and every rejection
    /// carries a status.
    pub fn validate(&self, request: ValidateRequest) -> (r:
        crate::validation_response::ValidationResponse)
        ensures
            r.uid@ == req_uid(request.0),
            json_member(request.0, "object"@) is None ==> (!r.allowed && r.patch is None
                && r.patch_type is None && (r.status matches Some(st) && st.code == Some(
                crate::CODE_BAD_REQUEST,
            ) && (st.message matches Some(m) && m@
                == "request doesn't have an 'object' value"@))),
            r.allowed ==> exists|out: Seq<u8>|
                #[trigger] crate::runtimes::wapc::accepting_guest_output(out),
            !r.allowed ==> r.status is Some,
            self.runtime is Burrego && json_member(request.0, "object"@) is Some ==> (!r.allowed
                && (r.status matches Some(st) && st.code == Some(
                crate::CODE_INTERNAL_SERVER_ERROR,
            ))),
    {
        match &self.runtime {
            Runtime::Wapc(host) => {
                let rt = crate::runtimes::wapc::Runtime { wapc_host: host };
                rt.validate(&self.settings, &request)
            },
            Runtime::Burrego(_) => {
                let uid = request.uid();
                match member(&request.0, "object") {
                    None => crate::validation_response::ValidationResponse::reject(
                        uid,
                        String::from_str("request doesn't have an 'object' value"),
                        crate::CODE_BAD_REQUEST,
                    ),
                    Some(_) => {
                        crate::validation_response::ValidationResponse::reject_internal_server_error(
                            uid,
                            String::from_str("no OPA evaluator is linked into this build"),
                        )
                    },
                }
            },
        }
    }

    /// Asks the policy to validate the stored settings: the native
    /// guest decides through its `validate_settings` export, and a
    /// valid verdict arises only from guest output that said so; an
    /// OPA policy's settings are unconditionally valid.
    pub fn validate_settings(&self) -> (r: SettingsValidationResponse)
        ensures
            self.runtime is Burrego ==> r.valid && r.message is None,
            self.runtime is Wapc ==> (r.valid ==> exists|out: Seq<u8>|
                #[trigger] crate::runtimes::wapc::valid_settings_guest_output(out)),
    {
        match &self.runtime {
            Runtime::Wapc(host) => {
                let mut buf: Vec<char> = Vec::new();
                crate::json::write_obj(&self.settings, &mut buf);
                let settings_str = crate::json::chars_to_string(&buf);
                let rt = crate::runtimes::wapc::Runtime { wapc_host: host };
                rt.validate_settings(settings_str)
            },
            Runtime::Burrego(_) => SettingsValidationResponse { valid: true, message: None },
        }
    }

    /// Asks the native guest which protocol version it speaks: a
    /// version comes back only from guest output that named it, the
    /// sentinel included. The OPA engines have none.
    pub fn protocol_version(&self) -> (r: Result<
        crate::policy_metadata::ProtocolVersion,
        String,
    >)
        ensures
            self.runtime is Burrego ==> r is Err,
            r matches Ok(v) ==> exists|out: Seq<u8>|
                #[trigger] crate::runtimes::wapc::protocol_guest_output(out, v),
    {
        match &self.runtime {
            Runtime::Wapc(host) => {
                let rt = crate::runtimes::wapc::Runtime { wapc_host: host };
                rt.protocol_version()
            },
            Runtime::Burrego(_) => Err(
                String::from_str("protocol_version is not supported on OPA policies"),
            ),
        }
    }
}

} // verus!
