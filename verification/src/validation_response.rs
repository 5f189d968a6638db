//! The admission response and its builder.
//!
//! A guest verdict — allow or reject, with an optional mutated object —
//! is turned here into the normalized admission response a Kubernetes
//! API server expects: the request's uid echoed back, an `allowed`
//! flag, a status for rejections, and a base64-encoded JSON Patch for
//! mutations.
//!
//! The patch replaces the whole document: a single `replace` operation
//! at the root, carrying the mutated object. A guest that hands back an
//! object structurally equal to the request's object produces no patch.

use vstd::prelude::*;

use crate::json::{jeq, json_chars, json_eq, push_chars, write_json, JsonValue};
use crate::CODE_INTERNAL_SERVER_ERROR;

verus! {

broadcast use vstd::std_specs::vec::group_vec_axioms;

/// The verdict a native policy hands back from its `validate` export.
#[derive(Debug)]
pub struct PolicyValidationResponse {
    pub accepted: bool,
    pub message: Option<String>,
    pub code: Option<u16>,
    pub mutated_object: Option<JsonValue>,
}

/// The status part of an admission rejection.
#[derive(Debug, Clone, PartialEq, Eq)]
pub struct ValidationResponseStatus {
    pub message: Option<String>,
    pub code: Option<u16>,
}

/// A normalized admission response.
#[derive(Debug, Clone, PartialEq, Eq)]
pub struct ValidationResponse {
    pub uid: String,
    pub allowed: bool,
    pub patch_type: Option<String>,
    pub patch: Option<String>,
    pub status: Option<ValidationResponseStatus>,
}

/// The base64 alphabet, in value order.
pub open spec fn b64_alphabet() -> Seq<char> {
    "ABCDEFGHIJKLMNOPQRSTUVWXYZabcdefghijklmnopqrstuvwxyz0123456789+/"@
}

/// The base64 text of `bytes` from offset `i` on: chunks of three
/// bytes become four characters, a trailing chunk is padded with `=`.
pub open spec fn b64_chars_from(bytes: Seq<u8>, i: int) -> Seq<char>
    decreases bytes.len() - i,
{
    if i < 0 || i >= bytes.len() {
        Seq::empty()
    } else if bytes.len() - i == 1 {
        let b0 = bytes[i] as nat;
        seq![b64_alphabet()[(b0 / 4) as int], b64_alphabet()[((b0 % 4) * 16) as int], '=', '=']
    } else if bytes.len() - i == 2 {
        let b0 = bytes[i] as nat;
        let b1 = bytes[i + 1] as nat;
        seq![
            b64_alphabet()[(b0 / 4) as int],
            b64_alphabet()[((b0 % 4) * 16 + b1 / 16) as int],
            b64_alphabet()[((b1 % 16) * 4) as int],
            '=',
        ]
    } else {
        let b0 = bytes[i] as nat;
        let b1 = bytes[i + 1] as nat;
        let b2 = bytes[i + 2] as nat;
        seq![
            b64_alphabet()[(b0 / 4) as int],
            b64_alphabet()[((b0 % 4) * 16 + b1 / 16) as int],
            b64_alphabet()[((b1 % 16) * 4 + b2 / 64) as int],
            b64_alphabet()[(b2 % 64) as int],
        ] + b64_chars_from(bytes, i + 3)
    }
}

/// The standard base64 text of `bytes`, with padding.
pub open spec fn b64_chars(bytes: Seq<u8>) -> Seq<char> {
    b64_chars_from(bytes, 0)
}

/// The character standing for one six-bit value.
fn b64_char_of(d: u8) -> (c: char)
    requires
        d < 64,
    ensures
        c == b64_alphabet()[d as int],
{
    let table = "ABCDEFGHIJKLMNOPQRSTUVWXYZabcdefghijklmnopqrstuvwxyz0123456789+/";
    proof {
        reveal_strlit("ABCDEFGHIJKLMNOPQRSTUVWXYZabcdefghijklmnopqrstuvwxyz0123456789+/");
    }
    table.get_char(d as usize)
}

/// Encodes bytes as standard base64 text with padding.
#[verifier::loop_isolation(false)]
pub fn base64_encode(bytes: &[u8]) -> (r: String)
    ensures
        r@ == b64_chars(bytes@),
{
    let n = bytes.len();
    let mut out: Vec<char> = Vec::new();
    let mut i: usize = 0;
    while i < n
        invariant
            i <= n + 2,
            i % 3 == 0 || i >= n,
            out@ + b64_chars_from(bytes@, i as int) == b64_chars(bytes@),
        decreases n + 3 - i,
    {
        let ghost prev = out@;
        let b0 = bytes[i];
        if n - i == 1 {
            out.push(b64_char_of(b0 / 4));
            out.push(b64_char_of((b0 % 4) * 16));
            out.push('=');
            out.push('=');
        } else if n - i == 2 {
            let b1 = bytes[i + 1];
            out.push(b64_char_of(b0 / 4));
            out.push(b64_char_of((b0 % 4) * 16 + b1 / 16));
            out.push(b64_char_of((b1 % 16) * 4));
            out.push('=');
        } else {
            let b1 = bytes[i + 1];
            let b2 = bytes[i + 2];
            out.push(b64_char_of(b0 / 4));
            out.push(b64_char_of((b0 % 4) * 16 + b1 / 16));
            out.push(b64_char_of((b1 % 16) * 4 + b2 / 64));
            out.push(b64_char_of(b2 % 64));
        }
        proof {
            assert(out@ + b64_chars_from(bytes@, i + 3) =~= prev + b64_chars_from(
                bytes@,
                i as int,
            ));
        }
        i += 3;
    }
    crate::json::chars_to_string(&out)
}

/// The text of the JSON Patch that replaces the whole document with
/// `v`: one `replace` operation at the root.
pub open spec fn patch_chars(v: JsonValue) -> Seq<char> {
    "[{\"op\":\"replace\",\"path\":\"\",\"value\":"@ + json_chars(v) + "}]"@
}

/// Builds the base64-encoded whole-document JSON Patch for `v`.
pub fn build_patch(v: &JsonValue) -> (r: String)
    ensures
        r@ == b64_chars(vstd::utf8::encode_utf8(patch_chars(*v))),
{
    let mut text: Vec<char> = Vec::new();
    push_chars(&mut text, "[{\"op\":\"replace\",\"path\":\"\",\"value\":");
    write_json(v, &mut text);
    push_chars(&mut text, "}]");
    let s = crate::json::chars_to_string(&text);
    proof {
        assert(s@ =~= patch_chars(*v));
    }
    base64_encode(s.as_str().as_bytes())
}

impl ValidationResponse {
    /// A rejection: not allowed, with the given message and status
    /// code, and no patch.
    pub fn reject(uid: String, message: String, code: u16) -> (r: ValidationResponse)
        ensures
            r.uid == uid,
            !r.allowed,
            r.patch is None,
            r.patch_type is None,
            r.status matches Some(st) && st.message matches Some(m) && m == message && st.code
                == Some(code),
    {
        ValidationResponse {
            uid,
            allowed: false,
            patch_type: None,
            patch: None,
            status: Some(ValidationResponseStatus { message: Some(message), code: Some(code) }),
        }
    }

    /// A rejection for an engine, decoding or response-construction
    /// failure: status code 500 with the underlying message.
    pub fn reject_internal_server_error(uid: String, message: String) -> (r: ValidationResponse)
        ensures
            r.uid == uid,
            !r.allowed,
            r.patch is None,
            r.patch_type is None,
            r.status matches Some(st) && st.message matches Some(m) && m == message && st.code
                == Some(CODE_INTERNAL_SERVER_ERROR),
    {
        ValidationResponse::reject(uid, message, CODE_INTERNAL_SERVER_ERROR)
    }

    /// Builds the admission response for a guest verdict. The uid is
    /// echoed; `allowed` follows `accepted`; a rejection carries a
    /// status with the guest's message and code, with 400 where the
    /// guest gave no code; a mutated object that differs from the
    /// request's object becomes a base64-encoded JSON Patch.
    pub fn from_policy_validation_response(
        uid: String,
        req_obj: &JsonValue,
        pol_val_resp: PolicyValidationResponse,
    ) -> (r: ValidationResponse)
        ensures
            r.uid == uid,
            r.allowed == pol_val_resp.accepted,
            pol_val_resp.accepted ==> r.status is None,
            !pol_val_resp.accepted ==> (r.status matches Some(st) && st.message
                == pol_val_resp.message && st.code == Some(
                match pol_val_resp.code {
                    Some(c) => c,
                    None => crate::CODE_BAD_REQUEST,
                },
            )),
            match pol_val_resp.mutated_object {
                Some(mutated) => if jeq(mutated, *req_obj) {
                    r.patch is None && r.patch_type is None
                } else {
                    (r.patch matches Some(p) && p@ == b64_chars(
                        vstd::utf8::encode_utf8(patch_chars(mutated)),
                    )) && (r.patch_type matches Some(t) && t@ == "JSONPatch"@)
                },
                None => r.patch is None && r.patch_type is None,
            },
    {
        let status = if pol_val_resp.accepted {
            None
        } else {
            let code = match pol_val_resp.code {
                Some(c) => c,
                None => crate::CODE_BAD_REQUEST,
            };
            Some(ValidationResponseStatus { message: pol_val_resp.message, code: Some(code) })
        };
        let (patch, patch_type) = match pol_val_resp.mutated_object {
            Some(mutated) => {
                if json_eq(&mutated, req_obj) {
                    (None, None)
                } else {
                    (Some(build_patch(&mutated)), Some(String::from_str("JSONPatch")))
                }
            },
            None => (None, None),
        };
        ValidationResponse { uid, allowed: pol_val_resp.accepted, patch_type, patch, status }
    }
}

} // verus!
