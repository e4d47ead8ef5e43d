//! Properties that relate the preparation of a call to its diagnostic echo,
//! and what the operator is told to what the guardian answered.

use vstd::prelude::*;
use crate::echo::{curl_command, echo_url, rpc_body};
use crate::error::{ErrorKind, SetupError};
use crate::operation::{method_of, prepared, request_json_of, Operation, PreparedCall};
use crate::outcome::{concluded, context_of, CallEvent, Outcome, RemoteFailure};
use crate::remote::url_parses;

verus! {

/// Whatever the operation and its arguments, an endpoint that does not parse
/// is reported as an invalid endpoint, and no call is prepared, so nothing is
/// sent.
pub proof fn lemma_unparsable_endpoint_rejected(
    op: Operation,
    api_url: Seq<char>,
    password: Seq<char>,
    r: Result<PreparedCall, SetupError>,
)
    requires
        prepared(op, api_url, password, r),
        !url_parses(api_url),
    ensures
        r matches Err(e) && e.kind == ErrorKind::InvalidEndpoint,
{
}

/// The diagnostic command of a prepared call posts exactly the method and the
/// JSON text of the request that is handed on, and these are the operation's
/// own method and its request authenticated with the password.
pub proof fn lemma_echo_mirrors_request(
    op: Operation,
    api_url: Seq<char>,
    password: Seq<char>,
    p: PreparedCall,
)
    requires
        prepared(op, api_url, password, Ok(p)),
    ensures
        p.echo@ == curl_command(echo_url(api_url), rpc_body(p.request.method@, p.request.json@)),
        p.request.operation == op,
        p.request.method@ == method_of(op),
        p.request.json@ == request_json_of(op, p.request.auth@),
        p.request.auth@ == password,
{
}

/// Setting the local parameters with an empty guardian name is refused before
/// any call: as an invalid argument where the endpoint parses.
pub proof fn lemma_empty_guardian_name_rejected(
    guardian_name: String,
    federation_name: Option<String>,
    api_url: Seq<char>,
    password: Seq<char>,
    r: Result<PreparedCall, SetupError>,
)
    requires
        prepared(
            Operation::SetLocalParams { guardian_name, federation_name },
            api_url,
            password,
            r,
        ),
        guardian_name@.len() == 0,
    ensures
        r is Err,
        url_parses(api_url) ==> (r matches Err(e) && e.kind == ErrorKind::InvalidArgument),
{
}

/// When the guardian refuses an operation (starting the key generation before
/// the parameters and peers are in, say), the operator gets a protocol error
/// that names the operation and carries the guardian's reason.
pub proof fn lemma_refusal_is_protocol_error(
    op: Operation,
    reason: String,
    r: Result<Outcome, SetupError>,
)
    requires
        concluded(op, CallEvent::Failed(RemoteFailure::Rejected(reason)), r),
    ensures
        r matches Err(e) && e.is(ErrorKind::RemoteProtocolError, context_of(op), reason@),
{
}

/// After a reset, a peer setup code can be submitted again: the client keeps
/// nothing of earlier attempts, so the retry is prepared as the first attempt
/// was, and it succeeds when the guardian confirms it.
pub proof fn lemma_add_peer_retry_after_reset(
    code: String,
    api_url: Seq<char>,
    password: Seq<char>,
    first: Result<PreparedCall, SetupError>,
    retry: Result<PreparedCall, SetupError>,
    reset: Result<Outcome, SetupError>,
    confirmation: String,
    added: Result<Outcome, SetupError>,
)
    requires
        prepared(Operation::AddPeer { peer_setup_code: code }, api_url, password, first),
        prepared(Operation::AddPeer { peer_setup_code: code }, api_url, password, retry),
        concluded(Operation::ResetPeerSetupCodes, CallEvent::Completed, reset),
        concluded(
            Operation::AddPeer { peer_setup_code: code },
            CallEvent::Confirmed(confirmation),
            added,
        ),
    ensures
        reset == Ok::<Outcome, SetupError>(Outcome::Completed),
        first is Ok <==> retry is Ok,
        match (first, retry) {
            (Ok(p), Ok(q)) => {
                &&& p.request.method@ == q.request.method@
                &&& p.request.json@ == q.request.json@
                &&& p.echo@ == q.echo@
            },
            _ => true,
        },
        added == Ok::<Outcome, SetupError>(Outcome::Confirmation(confirmation)),
{
}

} // verus!
