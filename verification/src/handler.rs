//! The update handler: authentication against the identity store, then
//! validation of the buffered body, each failure turned into its HTTP-style
//! response; plus the laws the endpoint obeys.

use vstd::prelude::*;
use vstd::string::StringExecFns;
use crate::identity::{auth_result, claim_view, get_user_entry, has_user, AuthError, Server, UserInfo};
use crate::payload::{
    empty_fields, entry_violation, mandatory_missing, parse_progress_update, parsed_body_of,
    recognized_key, scan_entries, validate_outcome_spec, ErrorModel, Field, JsonEntry,
    ParseOutcome, ValidationError,
};

verus! {

/// An HTTP-style response: a status code and a human-readable body.
pub struct Response {
    pub status: u16,
    pub body: String,
}

/// A response as a mathematical value.
pub ghost struct ResponseModel {
    pub status: u16,
    pub body: Seq<char>,
}

impl View for Response {
    type V = ResponseModel;

    open spec fn view(&self) -> ResponseModel {
        ResponseModel { status: self.status, body: self.body@ }
    }
}

/// The message each rejection cause produces.
pub open spec fn error_text(e: ErrorModel) -> Seq<char> {
    match e {
        ErrorModel::BadEncoding => "Expected UTF-8 text"@,
        ErrorModel::BadSyntax(m) => "Expected JSON: "@ + m,
        ErrorModel::NotObject => "Expected JSON object"@,
        ErrorModel::WrongType(Field::Manga) => "manga should be a string"@,
        ErrorModel::WrongType(Field::Source) => "source should be a string"@,
        ErrorModel::WrongType(Field::Chapter) => "chapter should be a number"@,
        ErrorModel::WrongType(Field::Page) => "page should be a number"@,
        ErrorModel::MissingMandatory => "'manga', 'source' and 'chapter' are mandatory"@,
    }
}

/// The response once authentication has ended: an authentication failure
/// short-circuits, otherwise the validation of the parsed body decides.
pub open spec fn decision_spec(auth_failure: Option<AuthError>, outcome: ParseOutcome) -> ResponseModel {
    match auth_failure {
        Some(AuthError::Unauthorized) => ResponseModel {
            status: 401,
            body: "You need to log in!"@,
        },
        Some(AuthError::NotFound) => ResponseModel { status: 404, body: "Unknown user"@ },
        None => match validate_outcome_spec(outcome) {
            Err(e) => ResponseModel { status: 400, body: error_text(e) },
            Ok(_) => ResponseModel { status: 200, body: "OK"@ },
        },
    }
}

/// The response of the whole endpoint to one request, as a function of the
/// session claim, the identity store and the parsed body.
pub open spec fn endpoint_spec(
    claim: Option<Seq<char>>,
    users: Seq<UserInfo>,
    outcome: ParseOutcome,
) -> ResponseModel {
    decision_spec(auth_result(claim, users), outcome)
}

/// The rejection message as an owned string.
fn error_body(e: ValidationError) -> (r: String)
    ensures
        r@ == error_text(e@),
{
    match e {
        ValidationError::BadEncoding => "Expected UTF-8 text".to_owned(),
        ValidationError::BadSyntax(m) => "Expected JSON: ".to_owned().concat(m.as_str()),
        ValidationError::NotObject => "Expected JSON object".to_owned(),
        ValidationError::WrongType(Field::Manga) => "manga should be a string".to_owned(),
        ValidationError::WrongType(Field::Source) => "source should be a string".to_owned(),
        ValidationError::WrongType(Field::Chapter) => "chapter should be a number".to_owned(),
        ValidationError::WrongType(Field::Page) => "page should be a number".to_owned(),
        ValidationError::MissingMandatory => "'manga', 'source' and 'chapter' are mandatory".to_owned(),
    }
}

/// Completes a request whose authentication already ended: validation of the
/// body runs here, outside any exclusive access to the shared state.
pub fn respond(auth_failure: Option<AuthError>, body: &[u8]) -> (r: Response)
    ensures
        r@ == decision_spec(auth_failure, parsed_body_of(body@)),
{
    match auth_failure {
        Some(AuthError::Unauthorized) => Response {
            status: 401,
            body: "You need to log in!".to_owned(),
        },
        Some(AuthError::NotFound) => Response { status: 404, body: "Unknown user".to_owned() },
        None => match parse_progress_update(body) {
            Ok(_update) => Response { status: 200, body: "OK".to_owned() },
            Err(e) => Response { status: 400, body: error_body(e) },
        },
    }
}

/// Handles one update request: resolves the session claim against the
/// identity store, then validates the buffered body, and produces the
/// response the endpoint owes for exactly this input.
pub fn handle_update(claim: Option<String>, server: &Server, body: &[u8]) -> (r: Response)
    ensures
        r@ == endpoint_spec(claim_view(claim), server.users@, parsed_body_of(body@)),
{
    let auth_failure: Option<AuthError> = match get_user_entry(&claim, server) {
        Ok(_user) => None,
        Err(e) => Some(e),
    };
    respond(auth_failure, body)
}

/// Builds the server-fault response for a failed exclusive access to the
/// shared state (such as a poisoned lock), with a short diagnostic.
pub fn internal_error_response(detail: &str) -> (r: Response)
    ensures
        r@.status == 500,
        r@.body == "cannot get server info: "@ + detail@,
{
    Response { status: 500, body: "cannot get server info: ".to_owned().concat(detail) }
}

/// Law: without a session claim the endpoint answers 401 Unauthorized,
/// whatever the body held.
pub proof fn lemma_no_claim_unauthorized(users: Seq<UserInfo>, outcome: ParseOutcome)
    ensures
        endpoint_spec(None, users, outcome).status == 401,
        endpoint_spec(None, users, outcome).body == "You need to log in!"@,
{
}

/// Law: a claim naming no stored identity earns 404 Not Found, whatever the
/// body held.
pub proof fn lemma_unknown_claim_not_found(
    id: Seq<char>,
    users: Seq<UserInfo>,
    outcome: ParseOutcome,
)
    requires
        !has_user(users, id),
    ensures
        endpoint_spec(Some(id), users, outcome).status == 404,
        endpoint_spec(Some(id), users, outcome).body == "Unknown user"@,
{
}

/// Law: with a valid session, a body whose validation succeeds — with or
/// without a `page` pair — is accepted with 200 and the body "OK".
pub proof fn lemma_well_formed_accepted(id: Seq<char>, users: Seq<UserInfo>, outcome: ParseOutcome)
    requires
        has_user(users, id),
        validate_outcome_spec(outcome) is Ok,
    ensures
        endpoint_spec(Some(id), users, outcome).status == 200,
        endpoint_spec(Some(id), users, outcome).body == "OK"@,
{
}

/// Law: with a valid session, an object whose scan succeeds but leaves a
/// mandatory slot empty earns 400 and the message naming the three mandatory
/// fields.
pub proof fn lemma_missing_mandatory_rejected(
    id: Seq<char>,
    users: Seq<UserInfo>,
    outcome: ParseOutcome,
)
    requires
        has_user(users, id),
        outcome is Object,
        scan_entries(empty_fields(), outcome->Object_0@) is Ok,
        mandatory_missing(scan_entries(empty_fields(), outcome->Object_0@)->Ok_0),
    ensures
        endpoint_spec(Some(id), users, outcome).status == 400,
        endpoint_spec(Some(id), users, outcome).body
            == "'manga', 'source' and 'chapter' are mandatory"@,
{
}

/// Law: with a valid session, the first wrong-typed pair decides the
/// response — 400 with the message naming that field and its expected type —
/// independent of the validity of every other pair.
pub proof fn lemma_wrong_type_rejected(
    id: Seq<char>,
    users: Seq<UserInfo>,
    outcome: ParseOutcome,
    i: int,
)
    requires
        has_user(users, id),
        outcome is Object,
        0 <= i < outcome->Object_0@.len(),
        entry_violation(outcome->Object_0@[i].0, outcome->Object_0@[i].1) is Some,
        forall|j: int|
            0 <= j < i ==> entry_violation(
                outcome->Object_0@[j].0,
                outcome->Object_0@[j].1,
            ) is None,
    ensures
        endpoint_spec(Some(id), users, outcome).status == 400,
        endpoint_spec(Some(id), users, outcome).body == error_text(
            ErrorModel::WrongType(
                entry_violation(outcome->Object_0@[i].0, outcome->Object_0@[i].1)->0,
            ),
        ),
{
    crate::payload::lemma_first_violation_rejected(outcome->Object_0@, i);
}

/// Law: the endpoint is a function of the claim, the store and the parsed
/// body alone, so an identical submission repeated under the same session
/// earns the identical response — in particular a well-formed update is
/// accepted the second time exactly as the first.
pub proof fn lemma_identical_submission_same_response(
    claim: Option<Seq<char>>,
    users: Seq<UserInfo>,
    first: ParseOutcome,
    second: ParseOutcome,
)
    requires
        first == second,
    ensures
        endpoint_spec(claim, users, first) == endpoint_spec(claim, users, second),
{
}

/// Law: a pair with an unrecognized key, inserted anywhere into an otherwise
/// unchanged object, leaves the endpoint's response unchanged.
pub proof fn lemma_extra_field_same_response(
    claim: Option<Seq<char>>,
    users: Seq<UserInfo>,
    plain: ParseOutcome,
    extended: ParseOutcome,
    i: int,
    extra: (String, JsonEntry),
)
    requires
        plain is Object,
        extended is Object,
        0 <= i <= plain->Object_0@.len(),
        !recognized_key(extra.0),
        extended->Object_0@ == plain->Object_0@.insert(i, extra),
    ensures
        endpoint_spec(claim, users, extended) == endpoint_spec(claim, users, plain),
{
    crate::payload::lemma_unknown_fields_ignored(plain->Object_0@, i, extra);
}

} // verus!
