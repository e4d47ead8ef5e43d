//! The five setup operations and the authenticated request built for each.

use vstd::prelude::*;
use vstd::string::*;
use fedimint_core::util::SafeUrl;
use crate::echo::{echo_command, render_echo};
use crate::error::{ErrorKind, SetupError};
use crate::remote::{
    add_peer_setup_code_method, bare_request_to_json, json_string_text, local_params_request_to_json,
    local_params_text, optional_text, parse_safe_url, peer_code_request_to_json, request_text, reset_peer_setup_codes_method, set_local_params_method,
    setup_status_method, start_dkg_method, url_parses,
};

verus! {

/// One step of a guardian's setup, as an operator selects it.
#[derive(PartialEq, Eq, Clone, Debug)]
pub enum Operation {
    /// Read where the guardian stands in its setup.
    QueryStatus,
    /// Set this guardian's name and, on one guardian, the federation's name.
    SetLocalParams { guardian_name: String, federation_name: Option<String> },
    /// Register a peer's setup code, forwarded as it is.
    AddPeer { peer_setup_code: String },
    /// Begin the distributed key generation.
    StartDkg,
    /// Discard the registered peer setup codes.
    ResetPeerSetupCodes,
}

/// The remote method that carries `op`.
pub open spec fn method_of(op: Operation) -> Seq<char> {
    match op {
        Operation::QueryStatus => "setup_status"@,
        Operation::SetLocalParams { .. } => "set_local_params"@,
        Operation::AddPeer { .. } => "add_peer_setup_code"@,
        Operation::StartDkg => "start_dkg"@,
        Operation::ResetPeerSetupCodes => "reset_peer_setup_codes"@,
    }
}

/// The JSON text of the request for `op`: `password` under `auth`, and the
/// operation's parameters, which are `null` for an operation without any.
pub open spec fn request_json_of(op: Operation, password: Seq<char>) -> Seq<char> {
    match op {
        Operation::SetLocalParams { guardian_name, federation_name } => request_text(
            password,
            local_params_text(guardian_name@, optional_text(federation_name)),
        ),
        Operation::AddPeer { peer_setup_code } => request_text(
            password,
            json_string_text(peer_setup_code@),
        ),
        _ => request_text(password, "null"@),
    }
}

/// The first argument of a call of `op` with `password` that is empty and
/// must not be, as the text that names the fault.
pub open spec fn empty_argument(op: Operation, password: Seq<char>) -> Option<Seq<char>> {
    if password.len() == 0 {
        Some("password must not be empty"@)
    } else {
        match op {
            Operation::SetLocalParams { guardian_name, .. } => if guardian_name@.len() == 0 {
                Some("guardian name must not be empty"@)
            } else {
                None
            },
            Operation::AddPeer { peer_setup_code } => if peer_setup_code@.len() == 0 {
                Some("peer setup code must not be empty"@)
            } else {
                None
            },
            _ => None,
        }
    }
}

/// A guardian's setup API, parsed from the text the operator gave.
pub struct Endpoint {
    pub url: SafeUrl,
    pub address: String,
}

impl Endpoint {
    /// The address is one that parses.
    pub open spec fn wf(self) -> bool {
        url_parses(self.address@)
    }

    /// Parses `api_url`; fails with `InvalidEndpoint` exactly when it is not a
    /// well-formed URL.
    pub fn parse(api_url: &str) -> (r: Result<Endpoint, SetupError>)
        ensures
            match r {
                Ok(e) => url_parses(api_url@) && e.address@ == api_url@ && e.wf(),
                Err(e) => !url_parses(api_url@) && e.is(
                    ErrorKind::InvalidEndpoint,
                    "Failed to parse API URL"@,
                    api_url@,
                ),
            },
    {
        match parse_safe_url(api_url) {
            Some(url) => Ok(Endpoint { url, address: String::from_str(api_url) }),
            None => Err(
                SetupError {
                    kind: ErrorKind::InvalidEndpoint,
                    context: String::from_str("Failed to parse API URL"),
                    detail: String::from_str(api_url),
                },
            ),
        }
    }
}

/// The request for one operation: its method, its password, and its JSON text.
#[derive(PartialEq, Eq, Clone, Debug)]
pub struct SetupRequest {
    pub operation: Operation,
    pub method: String,
    pub auth: String,
    pub json: String,
}

/// Everything needed to make one call: where, what, and the diagnostic
/// command that reproduces it.
pub struct PreparedCall {
    pub endpoint: Endpoint,
    pub request: SetupRequest,
    pub echo: String,
}

/// What `prepare(op, api_url, password)` returns.
pub open spec fn prepared(
    op: Operation,
    api_url: Seq<char>,
    password: Seq<char>,
    r: Result<PreparedCall, SetupError>,
) -> bool {
    if !url_parses(api_url) {
        r matches Err(e) && e.is(ErrorKind::InvalidEndpoint, "Failed to parse API URL"@, api_url)
    } else if let Some(fault) = empty_argument(op, password) {
        r matches Err(e) && e.is(ErrorKind::InvalidArgument, "Invalid arguments"@, fault)
    } else {
        r matches Ok(p) && {
            &&& p.endpoint.address@ == api_url
            &&& p.endpoint.wf()
            &&& p.request.operation == op
            &&& p.request.method@ == method_of(op)
            &&& p.request.auth@ == password
            &&& p.request.json@ == request_json_of(op, password)
            &&& p.echo@ == echo_command(api_url, p.request.method@, p.request.json@)
        }
    }
}

fn method_name(op: &Operation) -> (r: &'static str)
    ensures
        r@ == method_of(*op),
{
    match op {
        Operation::QueryStatus => setup_status_method(),
        Operation::SetLocalParams { .. } => set_local_params_method(),
        Operation::AddPeer { .. } => add_peer_setup_code_method(),
        Operation::StartDkg => start_dkg_method(),
        Operation::ResetPeerSetupCodes => reset_peer_setup_codes_method(),
    }
}

fn request_json(op: &Operation, password: &str) -> (r: String)
    ensures
        r@ == request_json_of(*op, password@),
{
    match op {
        Operation::SetLocalParams { guardian_name, federation_name } => local_params_request_to_json(
            password,
            guardian_name.as_str(),
            federation_name,
        ),
        Operation::AddPeer { peer_setup_code } => peer_code_request_to_json(
            password,
            peer_setup_code.as_str(),
        ),
        _ => bare_request_to_json(password),
    }
}

fn find_empty_argument(op: &Operation, password: &str) -> (r: Option<&'static str>)
    ensures
        match (r, empty_argument(*op, password@)) {
            (Some(a), Some(b)) => a@ == b,
            (None, None) => true,
            _ => false,
        },
{
    if password.unicode_len() == 0 {
        return Some("password must not be empty");
    }
    match op {
        Operation::SetLocalParams { guardian_name, .. } => if guardian_name.as_str().unicode_len()
            == 0 {
            Some("guardian name must not be empty")
        } else {
            None
        },
        Operation::AddPeer { peer_setup_code } => if peer_setup_code.as_str().unicode_len() == 0 {
            Some("peer setup code must not be empty")
        } else {
            None
        },
        _ => None,
    }
}

/// Validates the endpoint, then the arguments, and builds the authenticated
/// request for `op` with the command that reproduces it. Nothing is sent: an
/// endpoint that does not parse is reported before any connection is tried.
pub fn prepare(op: Operation, api_url: &str, password: &str) -> (r: Result<PreparedCall, SetupError>)
    ensures
        prepared(op, api_url@, password@, r),
{
    let endpoint = match Endpoint::parse(api_url) {
        Ok(e) => e,
        Err(e) => return Err(e),
    };
    if let Some(fault) = find_empty_argument(&op, password) {
        return Err(
            SetupError {
                kind: ErrorKind::InvalidArgument,
                context: String::from_str("Invalid arguments"),
                detail: String::from_str(fault),
            },
        );
    }
    let method = method_name(&op);
    let json = request_json(&op, password);
    let echo = render_echo(api_url, method, json.as_str());
    let request = SetupRequest {
        operation: op,
        method: String::from_str(method),
        auth: String::from_str(password),
        json,
    };
    Ok(PreparedCall { endpoint, request, echo })
}

} // verus!
