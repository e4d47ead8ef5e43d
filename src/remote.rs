//! What this library takes from the guardian software's core crate: endpoint
//! parsing, the names of the setup methods, and the JSON form of a request.

use vstd::prelude::*;
use fedimint_core::admin_client::SetLocalParamsRequest;
use fedimint_core::endpoint_constants::{
    ADD_PEER_SETUP_CODE_ENDPOINT, RESET_PEER_SETUP_CODES_ENDPOINT, SETUP_STATUS_ENDPOINT,
    SET_LOCAL_PARAMS_ENDPOINT, START_DKG_ENDPOINT,
};
use fedimint_core::module::{ApiAuth, ApiRequestErased};
use fedimint_core::util::SafeUrl;

verus! {

#[verifier::external_type_specification]
#[verifier::external_body]
pub struct ExSafeUrl(SafeUrl);

/// Whether `SafeUrl::parse` accepts the text, that is, whether the `url`
/// crate reads it as an absolute URL.
pub uninterp spec fn url_parses(s: Seq<char>) -> bool;

/// Relies on `fedimint_core::util::SafeUrl::parse`: succeeds exactly on the
/// texts that `url_parses` names, the outcome depending on the text alone.
#[verifier::external_body]
pub(crate) fn parse_safe_url(s: &str) -> (r: Option<SafeUrl>)
    ensures
        r is Some <==> url_parses(s@),
{
    SafeUrl::parse(s).ok()
}

/// Relies on `fedimint_core::endpoint_constants::SETUP_STATUS_ENDPOINT`.
#[verifier::external_body]
pub(crate) fn setup_status_method() -> (r: &'static str)
    ensures
        r@ == "setup_status"@,
{
    SETUP_STATUS_ENDPOINT
}

/// Relies on `fedimint_core::endpoint_constants::SET_LOCAL_PARAMS_ENDPOINT`.
#[verifier::external_body]
pub(crate) fn set_local_params_method() -> (r: &'static str)
    ensures
        r@ == "set_local_params"@,
{
    SET_LOCAL_PARAMS_ENDPOINT
}

/// Relies on `fedimint_core::endpoint_constants::ADD_PEER_SETUP_CODE_ENDPOINT`.
#[verifier::external_body]
pub(crate) fn add_peer_setup_code_method() -> (r: &'static str)
    ensures
        r@ == "add_peer_setup_code"@,
{
    ADD_PEER_SETUP_CODE_ENDPOINT
}

/// Relies on `fedimint_core::endpoint_constants::START_DKG_ENDPOINT`.
#[verifier::external_body]
pub(crate) fn start_dkg_method() -> (r: &'static str)
    ensures
        r@ == "start_dkg"@,
{
    START_DKG_ENDPOINT
}

/// Relies on `fedimint_core::endpoint_constants::RESET_PEER_SETUP_CODES_ENDPOINT`.
#[verifier::external_body]
pub(crate) fn reset_peer_setup_codes_method() -> (r: &'static str)
    ensures
        r@ == "reset_peer_setup_codes"@,
{
    RESET_PEER_SETUP_CODES_ENDPOINT
}

/// The JSON text of the string `s`: quoted, with serde_json's escapes.
pub uninterp spec fn json_string_text(s: Seq<char>) -> Seq<char>;

/// Relies on `serde_json::Value::String` and the value's text form, which
/// writes the string quoted and escaped; the result depends on `s` alone.
#[verifier::external_body]
pub(crate) fn json_string_of(s: &str) -> (r: String)
    ensures
        r@ == json_string_text(s@),
{
    serde_json::Value::String(s.to_string()).to_string()
}

/// The text of an optional name.
pub open spec fn optional_text(o: Option<String>) -> Option<Seq<char>> {
    match o {
        Some(s) => Some(s@),
        None => None,
    }
}

/// The JSON text of an optional string: `null` when absent.
pub open spec fn optional_json_text(o: Option<Seq<char>>) -> Seq<char> {
    match o {
        Some(s) => json_string_text(s),
        None => "null"@,
    }
}

/// The JSON text of a request: the password under `auth`, then `params`.
/// Object keys come in sorted order, as serde_json writes an object value.
pub open spec fn request_text(auth: Seq<char>, params: Seq<char>) -> Seq<char> {
    "{\"auth\":"@ + json_string_text(auth) + ",\"params\":"@ + params + "}"@
}

/// The JSON text of the local parameters, keys in sorted order.
pub open spec fn local_params_text(name: Seq<char>, federation_name: Option<Seq<char>>) -> Seq<
    char,
> {
    "{\"federation_name\":"@ + optional_json_text(federation_name) + ",\"name\":"@
        + json_string_text(name) + "}"@
}

/// Relies on `ApiRequestErased::default`, `with_auth` and `to_json` of
/// `fedimint_core::module` (`ApiAuth` is a newtype, written as its string;
/// the parameters are `null`), and on `serde_json::Value`'s text form.
#[verifier::external_body]
pub(crate) fn bare_request_to_json(auth: &str) -> (r: String)
    ensures
        r@ == request_text(auth@, "null"@),
{
    ApiRequestErased::default().with_auth(ApiAuth(auth.to_string())).to_json().to_string()
}

/// Relies on `ApiRequestErased::new` over `SetLocalParamsRequest` (fields
/// `name` and an optional `federation_name`), then `with_auth` and `to_json`,
/// and on `serde_json::Value`'s text form.
#[verifier::external_body]
pub(crate) fn local_params_request_to_json(
    auth: &str,
    name: &str,
    federation_name: &Option<String>,
) -> (r: String)
    ensures
        r@ == request_text(auth@, local_params_text(name@, optional_text(*federation_name))),
{
    let params = SetLocalParamsRequest {
        name: name.to_string(),
        federation_name: federation_name.clone(),
    };
    ApiRequestErased::new(params).with_auth(ApiAuth(auth.to_string())).to_json().to_string()
}

/// Relies on `ApiRequestErased::new` over a `String`, then `with_auth` and
/// `to_json`, and on `serde_json::Value`'s text form.
#[verifier::external_body]
pub(crate) fn peer_code_request_to_json(auth: &str, code: &str) -> (r: String)
    ensures
        r@ == request_text(auth@, json_string_text(code@)),
{
    ApiRequestErased::new(code.to_string()).with_auth(ApiAuth(auth.to_string())).to_json().to_string()
}

} // verus!
