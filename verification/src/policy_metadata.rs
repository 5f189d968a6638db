//! The policy metadata document and its invariants.
//!
//! A policy module carries a JSON metadata document in a custom Wasm
//! section. This module holds that document's model, the admission-rule
//! invariants over it — notably the Kubernetes resource/subresource
//! wildcard rules — and the decoding of the document from a module's
//! bytes.

use vstd::prelude::*;

use crate::json::{json_member, member, str_eq, JsonValue};
use crate::policy_evaluator::PolicyExecutionMode;

verus! {

broadcast use vstd::std_specs::vec::group_vec_axioms;

/// What can go wrong while reading or validating metadata.
#[derive(Debug, Clone, PartialEq, Eq)]
pub enum MetadataError {
    /// The module's file could not be read; only the unverified rim
    /// around the library reads files, so nothing here constructs it.
    Path(String),
    /// The module's bytes are not a well-formed Wasm module.
    WasmPayload(String),
    /// The metadata section is not a JSON document of the expected shape.
    Deserialize(String),
    /// The document breaks one of the admission-rule invariants.
    InvariantViolated { field: String, reason: String },
}

/// A guest-ABI version a policy can speak.
#[derive(Debug, Clone, Copy, PartialEq, Eq, Structural)]
pub enum ProtocolVersion {
    /// The sentinel for an unrecognised version.
    Unknown,
    V1,
}

/// An admission operation a rule can match.
#[derive(Debug, Clone, Copy, PartialEq, Eq, Structural)]
pub enum Operation {
    Create,
    Update,
    Delete,
    Connect,
    All,
}

/// What the operation name maps to: the four admission verbs, the
/// wildcard, or nothing.
pub open spec fn spec_operation_from(s: Seq<char>) -> Option<Operation> {
    if s == "CREATE"@ {
        Some(Operation::Create)
    } else if s == "UPDATE"@ {
        Some(Operation::Update)
    } else if s == "DELETE"@ {
        Some(Operation::Delete)
    } else if s == "CONNECT"@ {
        Some(Operation::Connect)
    } else if s == "*"@ {
        Some(Operation::All)
    } else {
        None
    }
}

impl Operation {
    /// Reads an operation from its admission-review name.
    pub fn try_from(op: &str) -> (r: Result<Operation, MetadataError>)
        ensures
            match r {
                Ok(o) => spec_operation_from(op@) == Some(o),
                Err(_) => spec_operation_from(op@) is None,
            },
    {
        if str_eq(op, "CREATE") {
            Ok(Operation::Create)
        } else if str_eq(op, "UPDATE") {
            Ok(Operation::Update)
        } else if str_eq(op, "DELETE") {
            Ok(Operation::Delete)
        } else if str_eq(op, "CONNECT") {
            Ok(Operation::Connect)
        } else if str_eq(op, "*") {
            Ok(Operation::All)
        } else {
            Err(MetadataError::InvariantViolated {
                field: String::from_str("operations"),
                reason: String::from_str("unknown operation"),
            })
        }
    }
}

/// Whether the policy speaks admission documents or raw ones.
#[derive(Debug, Clone, Copy, PartialEq, Eq, Structural)]
pub enum PolicyType {
    Kubernetes,
    Raw,
}

impl PolicyType {
    /// The name under which the type appears in a metadata document.
    pub fn display_string(&self) -> (r: String)
        ensures
            *self == PolicyType::Kubernetes ==> r@ == "kubernetes"@,
            *self == PolicyType::Raw ==> r@ == "raw"@,
    {
        match self {
            PolicyType::Kubernetes => String::from_str("kubernetes"),
            PolicyType::Raw => String::from_str("raw"),
        }
    }
}

/// A Kubernetes kind the policy wishes to query through the cluster
/// context capability.
#[derive(Debug, Clone, PartialEq, Eq, PartialOrd, Ord, Hash)]
pub struct ContextAwareResource {
    pub api_version: String,
    pub kind: String,
}

/// The pieces of a semantic version string.
#[derive(Debug, Clone, PartialEq, Eq)]
pub struct SemverParts {
    pub major: u64,
    pub minor: u64,
    pub patch: u64,
    pub pre: String,
    pub build: String,
}

/// What `semver::Version::parse` reads out of a string: the version's
/// parts, or `None` where the string is not a semantic version.
pub uninterp spec fn semver_of(s: Seq<char>) -> Option<SemverParts>;

/// Relies on `semver::Version::parse`: reads a semantic version,
/// deterministically in the characters alone.
#[verifier::external_body]
pub(crate) fn parse_semver(s: &str) -> (r: Option<SemverParts>)
    ensures
        r == semver_of(s@),
{
    match semver::Version::parse(s) {
        Ok(v) => Some(SemverParts {
            major: v.major,
            minor: v.minor,
            patch: v.patch,
            pre: v.pre.as_str().to_string(),
            build: v.build.as_str().to_string(),
        }),
        Err(_) => None,
    }
}

/// The index of the first `/` in `s` at or after `i`; `-1` when there
/// is none.
pub open spec fn first_slash_from(s: Seq<char>, i: int) -> int
    decreases s.len() - i,
{
    if i < 0 || i >= s.len() {
        -1
    } else if s[i] == '/' {
        i
    } else {
        first_slash_from(s, i + 1)
    }
}

/// The index of the first `/` in `s`; `-1` when there is none.
pub open spec fn first_slash(s: Seq<char>) -> int {
    first_slash_from(s, 0)
}

/// Whether `s` names a resource together with a subresource.
pub open spec fn has_sub(s: Seq<char>) -> bool {
    first_slash(s) >= 0
}

/// The part before the first `/`.
pub open spec fn res_of(s: Seq<char>) -> Seq<char> {
    s.subrange(0, first_slash(s))
}

/// The part after the first `/`.
pub open spec fn sub_of(s: Seq<char>) -> Seq<char> {
    s.subrange(first_slash(s) + 1, s.len() as int)
}

/// Whether the earlier element `e` forbids the later element `l`: a
/// `res/*` forbids every later `res/sub`, and a `*/sub` forbids every
/// later `res/sub` of the same subresource.
pub open spec fn resource_conflict(e: Seq<char>, l: Seq<char>) -> bool {
    &&& has_sub(e)
    &&& has_sub(l)
    &&& {
        ||| (sub_of(e) == "*"@ && res_of(e) == res_of(l))
        ||| (res_of(e) == "*"@ && sub_of(e) == sub_of(l))
    }
}

/// The views of a vector of strings.
pub open spec fn views_of(ss: Seq<String>) -> Seq<Seq<char>> {
    ss.map_values(|s: String| s@)
}

/// The Kubernetes admission wildcard rules over a `resources` list:
/// no empty element; no element forbidden by an earlier wildcard
/// element; `*/*` only alone; and `*` never beside a bare resource
/// other than itself.
pub open spec fn resources_acceptable(rs: Seq<Seq<char>>) -> bool {
    &&& forall|i: int| 0 <= i < rs.len() ==> (#[trigger] rs[i]).len() > 0
    &&& forall|j: int, i: int|
        0 <= j < i < rs.len() ==> !resource_conflict(#[trigger] rs[j], #[trigger] rs[i])
    &&& ((exists|i: int| 0 <= i < rs.len() && #[trigger] rs[i] == "*/*"@) ==> rs.len() == 1)
    &&& !((exists|i: int| 0 <= i < rs.len() && #[trigger] rs[i] == "*"@) && (exists|i: int|
        0 <= i < rs.len() && !has_sub(#[trigger] rs[i]) && rs[i] != "*"@))
}

/// Finds the first `/` of a string.
#[verifier::loop_isolation(false)]
fn find_slash(s: &str) -> (r: Option<usize>)
    ensures
        match r {
            Some(k) => first_slash(s@) == k && k < s@.len(),
            None => first_slash(s@) == -1,
        },
{
    let len = s.unicode_len();
    let mut i: usize = 0;
    while i < len
        invariant
            i <= len,
            first_slash(s@) == first_slash_from(s@, i as int),
        decreases len - i,
    {
        if s.get_char(i) == '/' {
            return Some(i);
        }
        i += 1;
    }
    None
}

/// Decides whether the earlier element `e` forbids the later one `l`.
fn check_resource_conflict(e: &str, l: &str) -> (r: bool)
    ensures
        r == resource_conflict(e@, l@),
{
    let pe_opt = find_slash(e);
    let pl_opt = find_slash(l);
    match (pe_opt, pl_opt) {
        (Some(pe), Some(pl)) => {
            let e_len = e.unicode_len();
            let l_len = l.unicode_len();
            let e_res = e.substring_char(0, pe);
            let e_sub = e.substring_char(pe + 1, e_len);
            let l_res = l.substring_char(0, pl);
            let l_sub = l.substring_char(pl + 1, l_len);
            let wild_sub = str_eq(e_sub, "*") && str_eq(e_res, l_res);
            let wild_res = str_eq(e_res, "*") && str_eq(e_sub, l_sub);
            wild_sub || wild_res
        },
        _ => false,
    }
}

/// Builds the invariant-violation error for the `resources` field.
fn resources_error(reason: &str) -> (r: Result<(), MetadataError>)
    ensures
        r matches Err(e) && e is InvariantViolated,
{
    Err(MetadataError::InvariantViolated {
        field: String::from_str("resources"),
        reason: String::from_str(reason),
    })
}

/// Holds a rule's `resources` list to the Kubernetes admission
/// wildcard rules.
#[verifier::loop_isolation(false)]
pub fn validate_resources(data: &Vec<String>) -> (r: Result<(), MetadataError>)
    ensures
        r is Ok <==> resources_acceptable(views_of(data@)),
        r matches Err(e) ==> e is InvariantViolated,
{
    let ghost rs = views_of(data@);
    let n = data.len();

    let mut i: usize = 0;
    while i < n
        invariant
            i <= n,
            forall|k: int| 0 <= k < i ==> (#[trigger] rs[k]).len() > 0,
        decreases n - i,
    {
        proof {
            assert(rs[i as int] == data@[i as int]@);
        }
        if data[i].as_str().unicode_len() == 0 {
            return resources_error("empty resource is not allowed");
        }
        i += 1;
    }

    let mut i: usize = 0;
    while i < n
        invariant
            i <= n,
            forall|jj: int, ii: int|
                0 <= jj < ii < i ==> !resource_conflict(#[trigger] rs[jj], #[trigger] rs[ii]),
        decreases n - i,
    {
        let mut j: usize = 0;
        while j < i
            invariant
                j <= i < n,
                forall|jj: int| 0 <= jj < j ==> !resource_conflict(#[trigger] rs[jj], rs[i as int]),
            decreases i - j,
        {
            proof {
                assert(rs[j as int] == data@[j as int]@);
                assert(rs[i as int] == data@[i as int]@);
            }
            if check_resource_conflict(data[j].as_str(), data[i].as_str()) {
                return resources_error("a wildcard element forbids this element");
            }
            j += 1;
        }
        i += 1;
    }

    let mut has_double: bool = false;
    let mut i: usize = 0;
    while i < n
        invariant
            i <= n,
            has_double ==> exists|k: int| 0 <= k < n && #[trigger] rs[k] == "*/*"@,
            !has_double ==> forall|k: int| 0 <= k < i ==> #[trigger] rs[k] != "*/*"@,
        decreases n - i,
    {
        proof {
            assert(rs[i as int] == data@[i as int]@);
        }
        if str_eq(data[i].as_str(), "*/*") {
            has_double = true;
        }
        i += 1;
    }
    if has_double && n > 1 {
        return resources_error("if '*/*' is present, must not specify other resources");
    }

    let mut has_single: bool = false;
    let mut has_bare: bool = false;
    let mut i: usize = 0;
    while i < n
        invariant
            i <= n,
            has_single ==> exists|k: int| 0 <= k < n && #[trigger] rs[k] == "*"@,
            !has_single ==> forall|k: int| 0 <= k < i ==> #[trigger] rs[k] != "*"@,
            has_bare ==> exists|k: int|
                0 <= k < n && !has_sub(#[trigger] rs[k]) && rs[k] != "*"@,
            !has_bare ==> forall|k: int|
                0 <= k < i ==> !(!has_sub(#[trigger] rs[k]) && rs[k] != "*"@),
        decreases n - i,
    {
        proof {
            assert(rs[i as int] == data@[i as int]@);
        }
        let is_star = str_eq(data[i].as_str(), "*");
        if is_star {
            has_single = true;
        } else {
            match find_slash(data[i].as_str()) {
                Some(_) => {},
                None => {
                    has_bare = true;
                },
            }
        }
        i += 1;
    }
    if has_single && has_bare {
        return resources_error(
            "if '*' is present, must not specify other resources without subresources",
        );
    }
    Ok(())
}

/// Whether a list of strings holds the wildcard element.
pub open spec fn contains_star(rs: Seq<Seq<char>>) -> bool {
    exists|i: int| 0 <= i < rs.len() && #[trigger] rs[i] == "*"@
}

/// Holds an `api_groups` or `api_versions` list to the wildcard rule:
/// where `*` is present, it is the only element.
#[verifier::loop_isolation(false)]
pub fn validate_asterisk_usage(data: &Vec<String>) -> (r: Result<(), MetadataError>)
    ensures
        r is Ok <==> !(contains_star(views_of(data@)) && data@.len() > 1),
        r matches Err(e) ==> e is InvariantViolated,
{
    let ghost rs = views_of(data@);
    let n = data.len();
    let mut i: usize = 0;
    while i < n
        invariant
            i <= n,
            forall|k: int| 0 <= k < i ==> #[trigger] rs[k] != "*"@,
        decreases n - i,
    {
        proof {
            assert(rs[i as int] == data@[i as int]@);
        }
        if str_eq(data[i].as_str(), "*") {
            if n > 1 {
                return Err(MetadataError::InvariantViolated {
                    field: String::from_str("rule"),
                    reason: String::from_str(
                        "No other elements can be defined when '*' is used",
                    ),
                });
            }
            return Ok(());
        }
        i += 1;
    }
    Ok(())
}

/// Whether a list of operations holds the wildcard operation.
pub open spec fn contains_all(ops: Seq<Operation>) -> bool {
    exists|i: int| 0 <= i < ops.len() && #[trigger] ops[i] == Operation::All
}

/// Holds an `operations` list to the wildcard rule: where `All` is
/// present, it is the only element.
#[verifier::loop_isolation(false)]
pub fn validate_asterisk_usage_inside_of_operations(data: &Vec<Operation>) -> (r: Result<
    (),
    MetadataError,
>)
    ensures
        r is Ok <==> !(contains_all(data@) && data@.len() > 1),
        r matches Err(e) ==> e is InvariantViolated,
{
    let n = data.len();
    let mut i: usize = 0;
    while i < n
        invariant
            i <= n,
            forall|k: int| 0 <= k < i ==> #[trigger] data@[k] != Operation::All,
        decreases n - i,
    {
        if data[i] == Operation::All {
            if n > 1 {
                return Err(MetadataError::InvariantViolated {
                    field: String::from_str("operations"),
                    reason: String::from_str(
                        "No other elements can be defined when '*' is used",
                    ),
                });
            }
            return Ok(());
        }
        i += 1;
    }
    Ok(())
}

/// One admission rule: which groups, versions and resources it covers,
/// and for which operations.
#[derive(Debug, Clone, PartialEq, Eq)]
pub struct Rule {
    pub api_groups: Vec<String>,
    pub api_versions: Vec<String>,
    pub resources: Vec<String>,
    pub operations: Vec<Operation>,
}

/// The invariants of one admission rule.
pub open spec fn rule_acceptable(r: Rule) -> bool {
    &&& r.api_groups@.len() > 0
    &&& !(contains_star(views_of(r.api_groups@)) && r.api_groups@.len() > 1)
    &&& r.api_versions@.len() > 0
    &&& !(contains_star(views_of(r.api_versions@)) && r.api_versions@.len() > 1)
    &&& r.resources@.len() > 0
    &&& resources_acceptable(views_of(r.resources@))
    &&& r.operations@.len() > 0
    &&& !(contains_all(r.operations@) && r.operations@.len() > 1)
}

impl Rule {
    /// Holds the rule to its invariants.
    pub fn validate(&self) -> (r: Result<(), MetadataError>)
        ensures
            r is Ok <==> rule_acceptable(*self),
            r matches Err(e) ==> e is InvariantViolated,
    {
        if self.api_groups.len() == 0 {
            return Err(MetadataError::InvariantViolated {
                field: String::from_str("apiGroups"),
                reason: String::from_str("the list must not be empty"),
            });
        }
        if let Err(e) = validate_asterisk_usage(&self.api_groups) {
            return Err(e);
        }
        if self.api_versions.len() == 0 {
            return Err(MetadataError::InvariantViolated {
                field: String::from_str("apiVersions"),
                reason: String::from_str("the list must not be empty"),
            });
        }
        if let Err(e) = validate_asterisk_usage(&self.api_versions) {
            return Err(e);
        }
        if self.resources.len() == 0 {
            return Err(MetadataError::InvariantViolated {
                field: String::from_str("resources"),
                reason: String::from_str("the list must not be empty"),
            });
        }
        if let Err(e) = validate_resources(&self.resources) {
            return Err(e);
        }
        if self.operations.len() == 0 {
            return Err(MetadataError::InvariantViolated {
                field: String::from_str("operations"),
                reason: String::from_str("the list must not be empty"),
            });
        }
        if let Err(e) = validate_asterisk_usage_inside_of_operations(&self.operations) {
            return Err(e);
        }
        Ok(())
    }
}

/// The default for `backgroundAudit` where the document leaves the
/// field out.
pub fn _default_true() -> (r: bool)
    ensures
        r,
{
    true
}

/// The policy metadata document.
#[derive(Debug, Clone, PartialEq, Eq)]
pub struct Metadata {
    pub protocol_version: Option<ProtocolVersion>,
    pub rules: Vec<Rule>,
    pub annotations: Option<Vec<(String, String)>>,
    pub mutating: bool,
    pub background_audit: bool,
    pub execution_mode: PolicyExecutionMode,
    pub policy_type: PolicyType,
    pub context_aware_resources: Vec<ContextAwareResource>,
    pub minimum_kubewarden_version: Option<SemverParts>,
}

impl Default for Metadata {
    /// An empty document: no rules, no annotations, not mutating,
    /// audited in the background, for the native execution mode.
    fn default() -> (r: Metadata)
        ensures
            r.protocol_version is None,
            r.rules@.len() == 0,
            r.annotations matches Some(a) && a@.len() == 0,
            !r.mutating,
            r.background_audit,
            r.execution_mode == PolicyExecutionMode::KubewardenWapc,
            r.policy_type == PolicyType::Kubernetes,
            r.context_aware_resources@.len() == 0,
            r.minimum_kubewarden_version is None,
    {
        Metadata {
            protocol_version: None,
            rules: Vec::new(),
            annotations: Some(Vec::new()),
            mutating: false,
            background_audit: true,
            execution_mode: PolicyExecutionMode::KubewardenWapc,
            policy_type: PolicyType::Kubernetes,
            context_aware_resources: Vec::new(),
            minimum_kubewarden_version: None,
        }
    }
}

/// The invariants of a metadata document: every rule acceptable, every
/// context-aware resource fully named, and a real protocol version
/// wherever the native execution mode is declared.
pub open spec fn metadata_acceptable(m: Metadata) -> bool {
    &&& forall|i: int| 0 <= i < m.rules@.len() ==> rule_acceptable(#[trigger] m.rules@[i])
    &&& forall|i: int|
        0 <= i < m.context_aware_resources@.len() ==> {
            &&& (#[trigger] m.context_aware_resources@[i]).api_version@.len() > 0
            &&& m.context_aware_resources@[i].kind@.len() > 0
        }
    &&& m.execution_mode == PolicyExecutionMode::KubewardenWapc ==> (
    m.protocol_version matches Some(v) && v != ProtocolVersion::Unknown)
}

impl Metadata {
    /// Holds the document to its invariants.
    #[verifier::loop_isolation(false)]
    pub fn validate(&self) -> (r: Result<(), MetadataError>)
        ensures
            r is Ok <==> metadata_acceptable(*self),
            r matches Err(e) ==> e is InvariantViolated,
    {
        let n = self.rules.len();
        let mut i: usize = 0;
        while i < n
            invariant
                i <= n,
                forall|k: int| 0 <= k < i ==> rule_acceptable(#[trigger] self.rules@[k]),
            decreases n - i,
        {
            if let Err(e) = self.rules[i].validate() {
                return Err(e);
            }
            i += 1;
        }
        let n = self.context_aware_resources.len();
        let mut i: usize = 0;
        while i < n
            invariant
                i <= n,
                forall|k: int|
                    0 <= k < i ==> {
                        &&& (#[trigger] self.context_aware_resources@[k]).api_version@.len() > 0
                        &&& self.context_aware_resources@[k].kind@.len() > 0
                    },
            decreases n - i,
        {
            if self.context_aware_resources[i].api_version.as_str().unicode_len() == 0 {
                return Err(MetadataError::InvariantViolated {
                    field: String::from_str("contextAwareResources"),
                    reason: String::from_str("apiVersion must not be empty"),
                });
            }
            if self.context_aware_resources[i].kind.as_str().unicode_len() == 0 {
                return Err(MetadataError::InvariantViolated {
                    field: String::from_str("contextAwareResources"),
                    reason: String::from_str("kind must not be empty"),
                });
            }
            i += 1;
        }
        if matches!(self.execution_mode, PolicyExecutionMode::KubewardenWapc) {
            match self.protocol_version {
                Some(ProtocolVersion::V1) => {},
                _ => {
                    return Err(MetadataError::InvariantViolated {
                        field: String::from_str("protocolVersion"),
                        reason: String::from_str("Must specify a valid protocol version"),
                    });
                },
            }
        }
        Ok(())
    }
}

/// The name of the custom Wasm section that carries the metadata
/// document.
pub const KUBEWARDEN_CUSTOM_SECTION_METADATA: &'static str = "KUBEWARDEN_ANNOTATIONS";

/// Whether every element of a JSON array is a string.
pub open spec fn is_str_array(es: Seq<JsonValue>) -> bool {
    forall|i: int| 0 <= i < es.len() ==> #[trigger] es[i] is Str
}

/// Whether `out` holds, in order, the characters of each string of the
/// JSON array `es`.
pub open spec fn strings_match(es: Seq<JsonValue>, out: Seq<String>) -> bool {
    &&& out.len() == es.len()
    &&& forall|i: int|
        0 <= i < es.len() ==> (#[trigger] es[i] matches JsonValue::Str(s) && out[i]@ == s@)
}

/// Whether every element of a JSON array names an admission operation.
pub open spec fn is_op_array(es: Seq<JsonValue>) -> bool {
    forall|i: int|
        0 <= i < es.len() ==> (#[trigger] es[i] matches JsonValue::Str(s)
            && spec_operation_from(s@) is Some)
}

/// Whether `out` holds, in order, the operation named by each element
/// of the JSON array `es`.
pub open spec fn ops_match(es: Seq<JsonValue>, out: Seq<Operation>) -> bool {
    &&& out.len() == es.len()
    &&& forall|i: int|
        0 <= i < es.len() ==> (#[trigger] es[i] matches JsonValue::Str(s)
            && spec_operation_from(s@) == Some(out[i]))
}

/// Whether a JSON document has the shape of one admission rule: the
/// four fields present, three of them arrays of strings, the last an
/// array of operation names.
pub open spec fn rule_decodable(v: JsonValue) -> bool {
    &&& json_member(v, "apiGroups"@) matches Some(JsonValue::Arr(es)) && is_str_array(es@)
    &&& json_member(v, "apiVersions"@) matches Some(JsonValue::Arr(es)) && is_str_array(es@)
    &&& json_member(v, "resources"@) matches Some(JsonValue::Arr(es)) && is_str_array(es@)
    &&& json_member(v, "operations"@) matches Some(JsonValue::Arr(es)) && is_op_array(es@)
}

/// Whether the rule `r` is what the JSON document `v` describes.
pub open spec fn rule_matches(r: Rule, v: JsonValue) -> bool {
    &&& json_member(v, "apiGroups"@) matches Some(JsonValue::Arr(es))
        && strings_match(es@, r.api_groups@)
    &&& json_member(v, "apiVersions"@) matches Some(JsonValue::Arr(es))
        && strings_match(es@, r.api_versions@)
    &&& json_member(v, "resources"@) matches Some(JsonValue::Arr(es))
        && strings_match(es@, r.resources@)
    &&& json_member(v, "operations"@) matches Some(JsonValue::Arr(es))
        && ops_match(es@, r.operations@)
}

/// Whether a JSON document names one context-aware resource.
pub open spec fn car_decodable(v: JsonValue) -> bool {
    &&& json_member(v, "apiVersion"@) matches Some(JsonValue::Str(_))
    &&& json_member(v, "kind"@) matches Some(JsonValue::Str(_))
}

/// Whether `c` is the context-aware resource the JSON document `v`
/// describes.
pub open spec fn car_matches(c: ContextAwareResource, v: JsonValue) -> bool {
    &&& json_member(v, "apiVersion"@) matches Some(JsonValue::Str(s)) && c.api_version@ == s@
    &&& json_member(v, "kind"@) matches Some(JsonValue::Str(s)) && c.kind@ == s@
}

/// Whether the JSON document `v` has the shape of a metadata document:
/// required fields present with their types, optional fields absent or
/// well-typed, names drawn from the recognised sets. Unknown members
/// are ignored.
pub open spec fn metadata_decodable(v: JsonValue) -> bool {
    &&& match json_member(v, "protocolVersion"@) {
        None => true,
        Some(JsonValue::Null) => true,
        Some(JsonValue::Str(s)) => s@ == "v1"@ || s@ == "Unknown"@,
        Some(_) => false,
    }
    &&& json_member(v, "rules"@) matches Some(JsonValue::Arr(es)) && (forall|i: int|
        0 <= i < es@.len() ==> rule_decodable(#[trigger] es@[i]))
    &&& match json_member(v, "annotations"@) {
        None => true,
        Some(JsonValue::Null) => true,
        Some(JsonValue::Obj(ms)) => forall|i: int|
            0 <= i < ms@.len() ==> (#[trigger] ms@[i]).1 is Str,
        Some(_) => false,
    }
    &&& json_member(v, "mutating"@) matches Some(JsonValue::Bool(_))
    &&& match json_member(v, "backgroundAudit"@) {
        None => true,
        Some(JsonValue::Bool(_)) => true,
        Some(_) => false,
    }
    &&& match json_member(v, "executionMode"@) {
        None => true,
        Some(JsonValue::Str(s)) => s@ == "kubewarden-wapc"@ || s@ == "opa"@ || s@
            == "gatekeeper"@,
        Some(_) => false,
    }
    &&& match json_member(v, "policyType"@) {
        None => true,
        Some(JsonValue::Str(s)) => s@ == "kubernetes"@ || s@ == "raw"@,
        Some(_) => false,
    }
    &&& match json_member(v, "contextAwareResources"@) {
        None => true,
        Some(JsonValue::Arr(es)) => forall|i: int|
            0 <= i < es@.len() ==> car_decodable(#[trigger] es@[i]),
        Some(_) => false,
    }
    &&& match json_member(v, "minimumKubewardenVersion"@) {
        None => true,
        Some(JsonValue::Null) => true,
        Some(JsonValue::Str(s)) => semver_of(s@) is Some,
        Some(_) => false,
    }
}

/// Whether `m` is the metadata document the JSON document `v`
/// describes, defaults applied where fields are absent.
pub open spec fn metadata_matches(m: Metadata, v: JsonValue) -> bool {
    &&& match json_member(v, "protocolVersion"@) {
        None => m.protocol_version is None,
        Some(JsonValue::Null) => m.protocol_version is None,
        Some(JsonValue::Str(s)) => if s@ == "v1"@ {
            m.protocol_version == Some(ProtocolVersion::V1)
        } else if s@ == "Unknown"@ {
            m.protocol_version == Some(ProtocolVersion::Unknown)
        } else {
            false
        },
        Some(_) => false,
    }
    &&& json_member(v, "rules"@) matches Some(JsonValue::Arr(es)) && m.rules@.len() == es@.len()
        && (forall|i: int| 0 <= i < es@.len() ==> rule_matches(#[trigger] m.rules@[i], es@[i]))
    &&& match json_member(v, "annotations"@) {
        None => m.annotations is None,
        Some(JsonValue::Null) => m.annotations is None,
        Some(JsonValue::Obj(ms)) => m.annotations matches Some(ps) && ps@.len() == ms@.len()
            && (forall|i: int|
            0 <= i < ms@.len() ==> (#[trigger] ps@[i]).0@ == ms@[i].0@ && (ms@[i].1 matches
            JsonValue::Str(s) && ps@[i].1@ == s@)),
        Some(_) => false,
    }
    &&& json_member(v, "mutating"@) matches Some(JsonValue::Bool(b)) && m.mutating == b
    &&& match json_member(v, "backgroundAudit"@) {
        None => m.background_audit == true,
        Some(JsonValue::Bool(b)) => m.background_audit == b,
        Some(_) => false,
    }
    &&& match json_member(v, "executionMode"@) {
        None => m.execution_mode == PolicyExecutionMode::KubewardenWapc,
        Some(JsonValue::Str(s)) => if s@ == "kubewarden-wapc"@ {
            m.execution_mode == PolicyExecutionMode::KubewardenWapc
        } else if s@ == "opa"@ {
            m.execution_mode == PolicyExecutionMode::Opa
        } else if s@ == "gatekeeper"@ {
            m.execution_mode == PolicyExecutionMode::OpaGatekeeper
        } else {
            false
        },
        Some(_) => false,
    }
    &&& match json_member(v, "policyType"@) {
        None => m.policy_type == PolicyType::Kubernetes,
        Some(JsonValue::Str(s)) => if s@ == "kubernetes"@ {
            m.policy_type == PolicyType::Kubernetes
        } else if s@ == "raw"@ {
            m.policy_type == PolicyType::Raw
        } else {
            false
        },
        Some(_) => false,
    }
    &&& match json_member(v, "contextAwareResources"@) {
        None => m.context_aware_resources@.len() == 0,
        Some(JsonValue::Arr(es)) => m.context_aware_resources@.len() == es@.len() && (forall|
            i: int,
        |
            0 <= i < es@.len() ==> car_matches(
                #[trigger] m.context_aware_resources@[i],
                es@[i],
            )),
        Some(_) => false,
    }
    &&& match json_member(v, "minimumKubewardenVersion"@) {
        None => m.minimum_kubewarden_version is None,
        Some(JsonValue::Null) => m.minimum_kubewarden_version is None,
        Some(JsonValue::Str(s)) => semver_of(s@) is Some && m.minimum_kubewarden_version
            == semver_of(s@),
        Some(_) => false,
    }
}

/// Builds the shape-mismatch error for the metadata document.
fn deser_error(reason: &str) -> (r: MetadataError)
    ensures
        r is Deserialize,
{
    MetadataError::Deserialize(String::from_str(reason))
}

/// Reads an array of strings.
#[verifier::loop_isolation(false)]
fn strings_from(es: &Vec<JsonValue>) -> (r: Result<Vec<String>, MetadataError>)
    ensures
        match r {
            Ok(out) => is_str_array(es@) && strings_match(es@, out@),
            Err(e) => !is_str_array(es@) && e is Deserialize,
        },
{
    let mut out: Vec<String> = Vec::new();
    let n = es.len();
    let mut i: usize = 0;
    while i < n
        invariant
            i <= n,
            out@.len() == i,
            forall|k: int|
                0 <= k < i ==> (#[trigger] es@[k] matches JsonValue::Str(s) && out@[k]@ == s@),
        decreases n - i,
    {
        match &es[i] {
            JsonValue::Str(s) => {
                out.push(s.clone());
            },
            _ => {
                return Err(deser_error("expected a string"));
            },
        }
        i += 1;
    }
    Ok(out)
}

/// Reads an array of operation names.
#[verifier::loop_isolation(false)]
fn operations_from(es: &Vec<JsonValue>) -> (r: Result<Vec<Operation>, MetadataError>)
    ensures
        match r {
            Ok(out) => is_op_array(es@) && ops_match(es@, out@),
            Err(e) => !is_op_array(es@) && e is Deserialize,
        },
{
    let mut out: Vec<Operation> = Vec::new();
    let n = es.len();
    let mut i: usize = 0;
    while i < n
        invariant
            i <= n,
            out@.len() == i,
            forall|k: int|
                0 <= k < i ==> (#[trigger] es@[k] matches JsonValue::Str(s)
                    && spec_operation_from(s@) == Some(out@[k])),
        decreases n - i,
    {
        match &es[i] {
            JsonValue::Str(s) => match Operation::try_from(s.as_str()) {
                Ok(op) => {
                    out.push(op);
                },
                Err(_) => {
                    return Err(deser_error("unknown operation"));
                },
            },
            _ => {
                return Err(deser_error("expected a string"));
            },
        }
        i += 1;
    }
    Ok(out)
}

impl Rule {
    /// Reads one admission rule from its JSON document.
    pub fn from_json(v: &JsonValue) -> (r: Result<Rule, MetadataError>)
        ensures
            r matches Ok(rule) ==> rule_matches(rule, *v),
            r is Ok <==> rule_decodable(*v),
            r matches Err(e) ==> e is Deserialize,
    {
        let api_groups = match member(v, "apiGroups") {
            Some(JsonValue::Arr(es)) => match strings_from(es) {
                Ok(out) => out,
                Err(e) => {
                    return Err(e);
                },
            },
            _ => {
                return Err(deser_error("apiGroups must be an array of strings"));
            },
        };
        let api_versions = match member(v, "apiVersions") {
            Some(JsonValue::Arr(es)) => match strings_from(es) {
                Ok(out) => out,
                Err(e) => {
                    return Err(e);
                },
            },
            _ => {
                return Err(deser_error("apiVersions must be an array of strings"));
            },
        };
        let resources = match member(v, "resources") {
            Some(JsonValue::Arr(es)) => match strings_from(es) {
                Ok(out) => out,
                Err(e) => {
                    return Err(e);
                },
            },
            _ => {
                return Err(deser_error("resources must be an array of strings"));
            },
        };
        let operations = match member(v, "operations") {
            Some(JsonValue::Arr(es)) => match operations_from(es) {
                Ok(out) => out,
                Err(e) => {
                    return Err(e);
                },
            },
            _ => {
                return Err(deser_error("operations must be an array of operation names"));
            },
        };
        Ok(Rule { api_groups, api_versions, resources, operations })
    }
}

/// The admission-review name of an operation.
fn operation_name(op: &Operation) -> (r: String)
    ensures
        spec_operation_from(r@) == Some(*op),
{
    proof {
        reveal_strlit("CREATE");
        reveal_strlit("UPDATE");
        reveal_strlit("DELETE");
        reveal_strlit("CONNECT");
        reveal_strlit("*");
        assert("CREATE"@[0] == 'C');
        assert("UPDATE"@[0] == 'U');
        assert("DELETE"@[0] == 'D');
        assert("CREATE"@.len() == 6);
        assert("UPDATE"@.len() == 6);
        assert("DELETE"@.len() == 6);
        assert("CONNECT"@.len() == 7);
        assert("*"@.len() == 1);
    }
    match op {
        Operation::Create => String::from_str("CREATE"),
        Operation::Update => String::from_str("UPDATE"),
        Operation::Delete => String::from_str("DELETE"),
        Operation::Connect => String::from_str("CONNECT"),
        Operation::All => String::from_str("*"),
    }
}

/// A JSON array of the given strings.
#[verifier::loop_isolation(false)]
fn strings_to_json(ss: &Vec<String>) -> (r: Vec<JsonValue>)
    ensures
        is_str_array(r@),
        strings_match(r@, ss@),
{
    let mut out: Vec<JsonValue> = Vec::new();
    let mut i: usize = 0;
    while i < ss.len()
        invariant
            i <= ss.len(),
            out@.len() == i,
            forall|k: int|
                0 <= k < i ==> (#[trigger] out@[k] matches JsonValue::Str(s) && ss@[k]@ == s@),
        decreases ss.len() - i,
    {
        out.push(JsonValue::Str(ss[i].clone()));
        i += 1;
    }
    out
}

/// A JSON array of the given operations' names.
#[verifier::loop_isolation(false)]
fn operations_to_json(ops: &Vec<Operation>) -> (r: Vec<JsonValue>)
    ensures
        is_op_array(r@),
        ops_match(r@, ops@),
{
    let mut out: Vec<JsonValue> = Vec::new();
    let mut i: usize = 0;
    while i < ops.len()
        invariant
            i <= ops.len(),
            out@.len() == i,
            forall|k: int|
                0 <= k < i ==> (#[trigger] out@[k] matches JsonValue::Str(s)
                    && spec_operation_from(s@) == Some(ops@[k])),
        decreases ops.len() - i,
    {
        out.push(JsonValue::Str(operation_name(&ops[i])));
        i += 1;
    }
    out
}

impl Rule {
    /// The rule's JSON document; `from_json` reads it back to an
    /// equal rule.
    pub fn to_json(&self) -> (r: JsonValue)
        ensures
            rule_decodable(r),
            rule_matches(*self, r),
    {
        let mut members: Vec<(String, JsonValue)> = Vec::new();
        members.push((String::from_str("apiGroups"), JsonValue::Arr(strings_to_json(
            &self.api_groups,
        ))));
        members.push((String::from_str("apiVersions"), JsonValue::Arr(strings_to_json(
            &self.api_versions,
        ))));
        members.push((String::from_str("resources"), JsonValue::Arr(strings_to_json(
            &self.resources,
        ))));
        members.push((String::from_str("operations"), JsonValue::Arr(operations_to_json(
            &self.operations,
        ))));
        let r = JsonValue::Obj(members);
        proof {
            reveal_strlit("apiGroups");
            reveal_strlit("apiVersions");
            reveal_strlit("resources");
            reveal_strlit("operations");
            assert("apiGroups"@.len() == 9);
            assert("apiVersions"@.len() == 11);
            assert("resources"@.len() == 9);
            assert("operations"@.len() == 10);
            assert("apiGroups"@[0] == 'a');
            assert("resources"@[0] == 'r');
            reveal_with_fuel(crate::json::member_of, 6);
            assert(json_member(r, "apiGroups"@) == Some(members@[0].1));
            assert(json_member(r, "apiVersions"@) == Some(members@[1].1));
            assert(json_member(r, "resources"@) == Some(members@[2].1));
            assert(json_member(r, "operations"@) == Some(members@[3].1));
        }
        r
    }
}

/// The JSON document naming one context-aware resource.
fn car_to_json(c: &ContextAwareResource) -> (r: JsonValue)
    ensures
        car_decodable(r),
        car_matches(*c, r),
{
    let mut members: Vec<(String, JsonValue)> = Vec::new();
    members.push((String::from_str("apiVersion"), JsonValue::Str(c.api_version.clone())));
    members.push((String::from_str("kind"), JsonValue::Str(c.kind.clone())));
    let r = JsonValue::Obj(members);
    proof {
        reveal_strlit("apiVersion");
        reveal_strlit("kind");
        assert("apiVersion"@.len() == 10);
        assert("kind"@.len() == 4);
        reveal_with_fuel(crate::json::member_of, 4);
        assert(json_member(r, "apiVersion"@) == Some(members@[0].1));
        assert(json_member(r, "kind"@) == Some(members@[1].1));
    }
    r
}

/// The textual form of a version's parts.
fn semver_string(v: &SemverParts) -> String {
    let mut out: Vec<char> = Vec::new();
    crate::json::push_dec(&mut out, v.major);
    out.push('.');
    crate::json::push_dec(&mut out, v.minor);
    out.push('.');
    crate::json::push_dec(&mut out, v.patch);
    if v.pre.as_str().unicode_len() > 0 {
        out.push('-');
        crate::json::push_chars(&mut out, v.pre.as_str());
    }
    if v.build.as_str().unicode_len() > 0 {
        out.push('+');
        crate::json::push_chars(&mut out, v.build.as_str());
    }
    crate::json::chars_to_string(&out)
}

/// What the section scan of a Wasm module yields for a given name:
/// the payload of the first custom section of that name, `Ok(None)`
/// where no such section exists, and `Err` with the parser's message
/// where the module's bytes do not parse. A function of the bytes and
/// the name alone.
pub uninterp spec fn section_scan(module: Seq<u8>, name: Seq<char>) -> Result<
    Option<Seq<u8>>,
    Seq<char>,
>;

/// Relies on `wasmparser::Parser::parse_all` and
/// `Payload::CustomSection`: walks the module's payloads and hands
/// back the first custom section with the given name, `None` where
/// there is none, `Err` where the module's bytes do not parse. Every
/// return is the scan's result.
#[verifier::external_body]
fn find_custom_section(module: &[u8], name: &str) -> (r: Result<Option<Vec<u8>>, String>)
    ensures
        match r {
            Ok(Some(b)) => section_scan(module@, name@) == Ok::<Option<Seq<u8>>, Seq<char>>(
                Some(b@),
            ),
            Ok(None) => section_scan(module@, name@) == Ok::<Option<Seq<u8>>, Seq<char>>(None),
            Err(m) => section_scan(module@, name@) matches Err(e) && e == m@,
        },
{
    for payload in wasmparser::Parser::new(0).parse_all(module) {
        match payload {
            Err(e) => {
                return Err(format!("{}", e));
            },
            Ok(wasmparser::Payload::CustomSection(reader)) => {
                if reader.name() == name {
                    return Ok(Some(reader.data().to_vec()));
                }
            },
            Ok(_) => {},
        }
    }
    Ok(None)
}

impl Metadata {
    /// Reads a metadata document from its JSON form, applying the
    /// documented defaults where optional fields are absent. Unknown
    /// members — among them the legacy `contextAware` flag — are
    /// ignored.
    #[verifier::loop_isolation(false)]
    pub fn from_json(v: &JsonValue) -> (r: Result<Metadata, MetadataError>)
        ensures
            r matches Ok(m) ==> metadata_matches(m, *v),
            r is Ok <==> metadata_decodable(*v),
            r matches Err(e) ==> e is Deserialize,
    {
        let protocol_version = match member(v, "protocolVersion") {
            None => None,
            Some(JsonValue::Null) => None,
            Some(JsonValue::Str(s)) => {
                if str_eq(s.as_str(), "v1") {
                    Some(ProtocolVersion::V1)
                } else if str_eq(s.as_str(), "Unknown") {
                    Some(ProtocolVersion::Unknown)
                } else {
                    return Err(deser_error("unknown protocol version"));
                }
            },
            Some(_) => {
                return Err(deser_error("protocolVersion must be a string"));
            },
        };
        let rules = match member(v, "rules") {
            Some(JsonValue::Arr(es)) => {
                let mut out: Vec<Rule> = Vec::new();
                let n = es.len();
                let mut i: usize = 0;
                while i < n
                    invariant
                        i <= n,
                        out@.len() == i,
                        forall|k: int| 0 <= k < i ==> rule_decodable(#[trigger] es@[k]),
                        forall|k: int|
                            0 <= k < i ==> rule_matches(#[trigger] out@[k], es@[k]),
                    decreases n - i,
                {
                    match Rule::from_json(&es[i]) {
                        Ok(rule) => {
                            out.push(rule);
                        },
                        Err(e) => {
                            return Err(e);
                        },
                    }
                    i += 1;
                }
                out
            },
            _ => {
                return Err(deser_error("rules must be an array"));
            },
        };
        let annotations = match member(v, "annotations") {
            None => None,
            Some(JsonValue::Null) => None,
            Some(JsonValue::Obj(ms)) => {
                let mut out: Vec<(String, String)> = Vec::new();
                let n = ms.len();
                let mut i: usize = 0;
                while i < n
                    invariant
                        i <= n,
                        out@.len() == i,
                        forall|k: int| 0 <= k < i ==> (#[trigger] ms@[k]).1 is Str,
                        forall|k: int|
                            0 <= k < i ==> (#[trigger] out@[k]).0@ == ms@[k].0@ && (ms@[k].1
                                matches JsonValue::Str(s) && out@[k].1@ == s@),
                    decreases n - i,
                {
                    match &ms[i].1 {
                        JsonValue::Str(s) => {
                            out.push((ms[i].0.clone(), s.clone()));
                        },
                        _ => {
                            return Err(deser_error("annotations must map strings to strings"));
                        },
                    }
                    i += 1;
                }
                Some(out)
            },
            Some(_) => {
                return Err(deser_error("annotations must be an object"));
            },
        };
        let mutating = match member(v, "mutating") {
            Some(JsonValue::Bool(b)) => *b,
            _ => {
                return Err(deser_error("mutating must be a boolean"));
            },
        };
        let background_audit = match member(v, "backgroundAudit") {
            None => true,
            Some(JsonValue::Bool(b)) => *b,
            Some(_) => {
                return Err(deser_error("backgroundAudit must be a boolean"));
            },
        };
        let execution_mode = match member(v, "executionMode") {
            None => PolicyExecutionMode::KubewardenWapc,
            Some(JsonValue::Str(s)) => {
                if str_eq(s.as_str(), "kubewarden-wapc") {
                    PolicyExecutionMode::KubewardenWapc
                } else if str_eq(s.as_str(), "opa") {
                    PolicyExecutionMode::Opa
                } else if str_eq(s.as_str(), "gatekeeper") {
                    PolicyExecutionMode::OpaGatekeeper
                } else {
                    return Err(deser_error("unknown execution mode"));
                }
            },
            Some(_) => {
                return Err(deser_error("executionMode must be a string"));
            },
        };
        let policy_type = match member(v, "policyType") {
            None => PolicyType::Kubernetes,
            Some(JsonValue::Str(s)) => {
                if str_eq(s.as_str(), "kubernetes") {
                    PolicyType::Kubernetes
                } else if str_eq(s.as_str(), "raw") {
                    PolicyType::Raw
                } else {
                    return Err(deser_error("unknown policy type"));
                }
            },
            Some(_) => {
                return Err(deser_error("policyType must be a string"));
            },
        };
        let context_aware_resources = match member(v, "contextAwareResources") {
            None => Vec::new(),
            Some(JsonValue::Arr(es)) => {
                let mut out: Vec<ContextAwareResource> = Vec::new();
                let n = es.len();
                let mut i: usize = 0;
                while i < n
                    invariant
                        i <= n,
                        out@.len() == i,
                        forall|k: int| 0 <= k < i ==> car_decodable(#[trigger] es@[k]),
                        forall|k: int|
                            0 <= k < i ==> car_matches(#[trigger] out@[k], es@[k]),
                    decreases n - i,
                {
                    let api_version = match member(&es[i], "apiVersion") {
                        Some(JsonValue::Str(s)) => s.clone(),
                        _ => {
                            return Err(deser_error("apiVersion must be a string"));
                        },
                    };
                    let kind = match member(&es[i], "kind") {
                        Some(JsonValue::Str(s)) => s.clone(),
                        _ => {
                            return Err(deser_error("kind must be a string"));
                        },
                    };
                    out.push(ContextAwareResource { api_version, kind });
                    i += 1;
                }
                out
            },
            Some(_) => {
                return Err(deser_error("contextAwareResources must be an array"));
            },
        };
        let minimum_kubewarden_version = match member(v, "minimumKubewardenVersion") {
            None => None,
            Some(JsonValue::Null) => None,
            Some(JsonValue::Str(s)) => match parse_semver(s.as_str()) {
                Some(parts) => Some(parts),
                None => {
                    return Err(deser_error("minimumKubewardenVersion must be a semantic version"));
                },
            },
            Some(_) => {
                return Err(deser_error("minimumKubewardenVersion must be a string"));
            },
        };
        Ok(Metadata {
            protocol_version,
            rules,
            annotations,
            mutating,
            background_audit,
            execution_mode,
            policy_type,
            context_aware_resources,
            minimum_kubewarden_version,
        })
    }

    /// The document's JSON form, fields in their documented names and
    /// order: `protocolVersion` is written as `null` where absent,
    /// `annotations` and `minimumKubewardenVersion` are left out where
    /// absent. As long as no minimum version is set — its textual form
    /// would have to be parsed back by the version parser — the result
    /// decodes, and `from_json` reads it back to an equal document.
    #[verifier::loop_isolation(false)]
    pub fn to_json(&self) -> (r: JsonValue)
        ensures
            self.minimum_kubewarden_version is None ==> metadata_decodable(r),
            self.minimum_kubewarden_version is None ==> metadata_matches(*self, r),
    {
        let mut members: Vec<(String, JsonValue)> = Vec::new();
        let pv = match self.protocol_version {
            None => JsonValue::Null,
            Some(ProtocolVersion::V1) => JsonValue::Str(String::from_str("v1")),
            Some(ProtocolVersion::Unknown) => JsonValue::Str(String::from_str("Unknown")),
        };
        members.push((String::from_str("protocolVersion"), pv));
        let mut rules_json: Vec<JsonValue> = Vec::new();
        let mut i: usize = 0;
        while i < self.rules.len()
            invariant
                i <= self.rules.len(),
                rules_json@.len() == i,
                forall|k: int| 0 <= k < i ==> rule_decodable(#[trigger] rules_json@[k]),
                forall|k: int|
                    0 <= k < i ==> rule_matches(#[trigger] self.rules@[k], rules_json@[k]),
            decreases self.rules.len() - i,
        {
            rules_json.push(self.rules[i].to_json());
            i += 1;
        }
        members.push((String::from_str("rules"), JsonValue::Arr(rules_json)));
        match &self.annotations {
            None => {},
            Some(pairs) => {
                let mut ann: Vec<(String, JsonValue)> = Vec::new();
                let mut i: usize = 0;
                while i < pairs.len()
                    invariant
                        i <= pairs.len(),
                        ann@.len() == i,
                        forall|k: int| 0 <= k < i ==> (#[trigger] ann@[k]).1 is Str,
                        forall|k: int|
                            0 <= k < i ==> (#[trigger] ann@[k]).0@ == pairs@[k].0@ && (ann@[k].1
                                matches JsonValue::Str(s) && s@ == pairs@[k].1@),
                    decreases pairs.len() - i,
                {
                    ann.push((pairs[i].0.clone(), JsonValue::Str(pairs[i].1.clone())));
                    i += 1;
                }
                members.push((String::from_str("annotations"), JsonValue::Obj(ann)));
            },
        }
        members.push((String::from_str("mutating"), JsonValue::Bool(self.mutating)));
        members.push((String::from_str("backgroundAudit"), JsonValue::Bool(
            self.background_audit,
        )));
        let mode = match self.execution_mode {
            PolicyExecutionMode::KubewardenWapc => String::from_str("kubewarden-wapc"),
            PolicyExecutionMode::Opa => String::from_str("opa"),
            PolicyExecutionMode::OpaGatekeeper => String::from_str("gatekeeper"),
        };
        members.push((String::from_str("executionMode"), JsonValue::Str(mode)));
        members.push((String::from_str("policyType"), JsonValue::Str(
            self.policy_type.display_string(),
        )));
        let mut cars: Vec<JsonValue> = Vec::new();
        let mut i: usize = 0;
        while i < self.context_aware_resources.len()
            invariant
                i <= self.context_aware_resources.len(),
                cars@.len() == i,
                forall|k: int| 0 <= k < i ==> car_decodable(#[trigger] cars@[k]),
                forall|k: int|
                    0 <= k < i ==> car_matches(
                        #[trigger] self.context_aware_resources@[k],
                        cars@[k],
                    ),
            decreases self.context_aware_resources.len() - i,
        {
            cars.push(car_to_json(&self.context_aware_resources[i]));
            i += 1;
        }
        members.push((String::from_str("contextAwareResources"), JsonValue::Arr(cars)));
        match &self.minimum_kubewarden_version {
            None => {},
            Some(v) => {
                members.push((String::from_str("minimumKubewardenVersion"), JsonValue::Str(
                    semver_string(v),
                )));
            },
        }
        let r = JsonValue::Obj(members);
        proof {
            reveal_strlit("protocolVersion");
            reveal_strlit("rules");
            reveal_strlit("annotations");
            reveal_strlit("mutating");
            reveal_strlit("backgroundAudit");
            reveal_strlit("executionMode");
            reveal_strlit("policyType");
            reveal_strlit("contextAwareResources");
            reveal_strlit("minimumKubewardenVersion");
            reveal_strlit("v1");
            reveal_strlit("Unknown");
            reveal_strlit("kubewarden-wapc");
            reveal_strlit("opa");
            reveal_strlit("gatekeeper");
            reveal_strlit("kubernetes");
            reveal_strlit("raw");
            assert("protocolVersion"@.len() == 15);
            assert("rules"@.len() == 5);
            assert("annotations"@.len() == 11);
            assert("mutating"@.len() == 8);
            assert("backgroundAudit"@.len() == 15);
            assert("executionMode"@.len() == 13);
            assert("policyType"@.len() == 10);
            assert("contextAwareResources"@.len() == 21);
            assert("minimumKubewardenVersion"@.len() == 24);
            assert("protocolVersion"@[0] == 'p');
            assert("backgroundAudit"@[0] == 'b');
            assert("v1"@.len() == 2);
            assert("Unknown"@.len() == 7);
            assert("kubewarden-wapc"@.len() == 15);
            assert("opa"@.len() == 3);
            assert("gatekeeper"@.len() == 10);
            assert("kubernetes"@.len() == 10);
            assert("raw"@.len() == 3);
            assert("kubernetes"@[0] == 'k');
            assert("gatekeeper"@[0] == 'g');
            reveal_with_fuel(crate::json::member_of, 12);
        }
        r
    }

    /// Reads the metadata document out of a policy module's bytes:
    /// `Ok(None)` exactly where the module parses and carries no
    /// metadata section; `Ok(Some(m))` exactly where the section
    /// holds a well-shaped document meeting the invariants, `m` being
    /// that document; `Err(WasmPayload)` where the module's bytes do
    /// not parse, `Err(Deserialize)` where the section's data is not
    /// a well-shaped document, and `Err(InvariantViolated)` where the
    /// document breaks an invariant.
    pub fn from_contents(policy: &[u8]) -> (r: Result<Option<Metadata>, MetadataError>)
        ensures
            match r {
                Ok(None) => section_scan(policy@, KUBEWARDEN_CUSTOM_SECTION_METADATA@)
                    == Ok::<Option<Seq<u8>>, Seq<char>>(None),
                Ok(Some(m)) => {
                    &&& section_scan(policy@, KUBEWARDEN_CUSTOM_SECTION_METADATA@) matches Ok(o)
                        && o matches Some(b) && crate::json::json_of(b) matches Some(doc)
                        && metadata_decodable(doc) && metadata_matches(m, doc)
                    &&& metadata_acceptable(m)
                },
                Err(MetadataError::WasmPayload(msg)) => section_scan(
                    policy@,
                    KUBEWARDEN_CUSTOM_SECTION_METADATA@,
                ) matches Err(e) && e == msg@,
                Err(MetadataError::Deserialize(_)) => section_scan(
                    policy@,
                    KUBEWARDEN_CUSTOM_SECTION_METADATA@,
                ) matches Ok(o) && o matches Some(b) && (match crate::json::json_of(b) {
                    None => true,
                    Some(doc) => !metadata_decodable(doc),
                }),
                Err(MetadataError::InvariantViolated { .. }) => section_scan(
                    policy@,
                    KUBEWARDEN_CUSTOM_SECTION_METADATA@,
                ) matches Ok(o) && o matches Some(b) && (crate::json::json_of(b) matches Some(doc)
                    && metadata_decodable(doc) && (exists|m2: Metadata|
                    #[trigger] metadata_matches(m2, doc) && !metadata_acceptable(m2))),
                Err(MetadataError::Path(_)) => false,
            },
    {
        match find_custom_section(policy, KUBEWARDEN_CUSTOM_SECTION_METADATA) {
            Err(msg) => Err(MetadataError::WasmPayload(msg)),
            Ok(None) => Ok(None),
            Ok(Some(bytes)) => match crate::json::decode_json(bytes.as_slice()) {
                None => Err(deser_error("the metadata section is not a JSON document")),
                Some(doc) => match Metadata::from_json(&doc) {
                    Err(e) => Err(e),
                    Ok(m) => match m.validate() {
                        Ok(()) => Ok(Some(m)),
                        Err(e) => {
                            proof {
                                assert(metadata_matches(m, doc) && !metadata_acceptable(m));
                            }
                            Err(e)
                        },
                    },
                },
            },
        }
    }
}

/// Law: a valid rule that names `*` among its groups, versions or
/// operations names nothing else there.
pub proof fn lemma_rule_asterisk_exclusivity(r: Rule)
    requires
        rule_acceptable(r),
    ensures
        contains_star(views_of(r.api_groups@)) ==> r.api_groups@.len() == 1,
        contains_star(views_of(r.api_versions@)) ==> r.api_versions@.len() == 1,
        contains_all(r.operations@) ==> r.operations@.len() == 1,
{
}

/// Law: a `resources` list holding `*/*` beside any other element is
/// rejected.
pub proof fn lemma_double_wildcard_alone(rs: Seq<Seq<char>>, i: int)
    requires
        0 <= i < rs.len(),
        rs[i] == "*/*"@,
        rs.len() > 1,
    ensures
        !resources_acceptable(rs),
{
}

/// Law: a metadata document that validates and declares the native
/// execution mode carries a protocol version, and not the sentinel.
pub proof fn lemma_protocol_mode_coherence(m: Metadata)
    requires
        metadata_acceptable(m),
        m.execution_mode == PolicyExecutionMode::KubewardenWapc,
    ensures
        m.protocol_version matches Some(v) && v != ProtocolVersion::Unknown,
{
}

} // verus!
