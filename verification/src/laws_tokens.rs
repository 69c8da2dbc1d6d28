//! What the operations of the Microsoft step give, told over their arguments and
//! their results.

use vstd::prelude::*;

use crate::client::Endpoints;
use crate::error::SignInError;
use crate::laws_basics::{lemma_status_text, shown};
use crate::status::HttpStatus;
use crate::tokens::{
    body_kind, device_code_request, poll_request, poll_token, post_token, refresh_request,
    refresh_tokens, request_device_code, BodyKind, DeviceCode, FormRequest, MicrosoftTokens, Poll,
    Reply, TokenError, TokenResponse,
};

verus! {

// --- what is sent -----------------------------------------------------------

/// Whether the field at `i` of a form is called `name` and holds `value`.
pub open spec fn has_field(form: FormRequest, i: int, name: Seq<char>, value: Seq<char>) -> bool {
    form.fields@[i].0@ == name && form.fields@[i].1@ == value
}

/// The form that asks for a device code goes to the address of device codes and
/// holds the client id and the scope, and nothing else.
pub proof fn law_device_code_form(endpoints: &Endpoints, client_id: &str, r: FormRequest)
    requires
        call_ensures(device_code_request, (endpoints, client_id), r),
    ensures
        r.url@ == endpoints.device_code@,
        r.fields@.len() == 2,
        has_field(r, 0, "client_id"@, client_id@),
        has_field(r, 1, "scope"@, "XboxLive.signin offline_access"@),
{
    lemma_fields(r);
}

/// The form that polls goes to the address of tokens and holds the client id,
/// the grant of a device code and that code, and nothing else.
pub proof fn law_poll_form(
    endpoints: &Endpoints,
    client_id: &str,
    device_code: &str,
    r: FormRequest,
)
    requires
        call_ensures(poll_request, (endpoints, client_id, device_code), r),
    ensures
        r.url@ == endpoints.token@,
        r.fields@.len() == 3,
        has_field(r, 0, "client_id"@, client_id@),
        has_field(r, 1, "grant_type"@, "urn:ietf:params:oauth:grant-type:device_code"@),
        has_field(r, 2, "device_code"@, device_code@),
{
    lemma_fields(r);
}

/// The form that renews goes to the address of tokens and holds the client id,
/// the grant of a refresh token, that token and the scope, and nothing else.
pub proof fn law_refresh_form(
    endpoints: &Endpoints,
    client_id: &str,
    refresh_token: &str,
    r: FormRequest,
)
    requires
        call_ensures(refresh_request, (endpoints, client_id, refresh_token), r),
    ensures
        r.url@ == endpoints.token@,
        r.fields@.len() == 4,
        has_field(r, 0, "client_id"@, client_id@),
        has_field(r, 1, "grant_type"@, "refresh_token"@),
        has_field(r, 2, "refresh_token"@, refresh_token@),
        has_field(r, 3, "scope"@, "XboxLive.signin offline_access"@),
{
    lemma_fields(r);
}

/// The view of a form has its fields, one for one.
proof fn lemma_fields(form: FormRequest)
    ensures
        form@.url == form.url@,
        form@.fields.len() == form.fields@.len(),
        forall|i: int|
            0 <= i < form.fields@.len() ==> #[trigger] form@.fields[i] == (
                form.fields@[i].0@,
                form.fields@[i].1@,
            ),
        form.fields@.len() > 0 ==> form@.fields[0] == (form.fields@[0].0@, form.fields@[0].1@),
        form.fields@.len() > 1 ==> form@.fields[1] == (form.fields@[1].0@, form.fields@[1].1@),
        form.fields@.len() > 2 ==> form@.fields[2] == (form.fields@[2].0@, form.fields@[2].1@),
        form.fields@.len() > 3 ==> form@.fields[3] == (form.fields@[3].0@, form.fields@[3].1@),
{
}

// --- what comes back --------------------------------------------------------

/// A status whose first digit is 2 comes with the answer, every other one with
/// a refusal.
pub proof fn law_body_kind(status: HttpStatus, r: BodyKind)
    requires
        call_ensures(body_kind, (status,), r),
    ensures
        r is Answer <==> status@ / 100 == 2,
        r is Refusal <==> status@ / 100 != 2,
{
}

/// The code of a refusal: its own, or `http_` and the status where it brought
/// none.
pub open spec fn code_of(status: HttpStatus, error: Option<TokenError>) -> Seq<char> {
    if error is Some && error->0.error@.len() > 0 {
        error->0.error@
    } else {
        "http_"@ + shown(status@)
    }
}

/// The description that came with a refusal; empty where none came.
pub open spec fn described(error: Option<TokenError>) -> Seq<char> {
    if error is Some && error->0.error_description is Some {
        error->0.error_description->0@
    } else {
        Seq::empty()
    }
}

/// `first`, or `second` where `first` is empty.
pub open spec fn first_or(first: Seq<char>, second: Seq<char>) -> Seq<char> {
    if first.len() > 0 {
        first
    } else {
        second
    }
}

/// A `TokenError` describes itself by its description, or by its code where it
/// has none.
pub proof fn law_token_error_describes(error: &TokenError, r: String)
    requires
        call_ensures(TokenError::describe, (error,), r),
    ensures
        r@ == first_or(described(Some(*error)), error.error@),
{
}

/// The refusal that says nothing has neither code nor description.
pub proof fn law_default_token_error(r: TokenError)
    requires
        call_ensures(<TokenError as Default>::default, (), r),
    ensures
        r.error@.len() == 0,
        r.error_description is None,
{
    assert(r@.error.len() == 0);
    assert(r@.error_description is None);
}

/// A device code that was granted is handed on as it is; one that was refused
/// becomes an error that tells the status and what Microsoft said.
pub proof fn law_device_code_reply(reply: Reply<DeviceCode>, r: Result<DeviceCode, SignInError>)
    requires
        call_ensures(request_device_code, (reply,), r),
        reply matches Reply::Refused { status, error } ==> 100 <= status@ <= 999,
    ensures
        reply matches Reply::Accepted(code) ==> r == Ok::<DeviceCode, SignInError>(code),
        reply matches Reply::Refused { status, error } ==> (r matches Err(said) && said.message@
            == "Microsoft a refusé la demande de code ("@ + shown(status@) + ") : "@ + first_or(
            described(error),
            if error is Some {
                error->0.error@
            } else {
                Seq::empty()
            },
        )),
{
    if let Reply::Refused { status, error } = reply {
        lemma_status_text(status@);
    }
}

/// Tokens that were granted keep their places: the access token stays the access
/// token and the refresh token the refresh token. A refusal keeps its
/// description, and its code where it has one; where it has none the status
/// takes its place.
pub proof fn law_token_reply(
    reply: Reply<TokenResponse>,
    r: Result<MicrosoftTokens, TokenError>,
)
    requires
        call_ensures(post_token, (reply,), r),
        reply matches Reply::Refused { status, error } ==> 100 <= status@ <= 999,
    ensures
        reply matches Reply::Accepted(given) ==> (r matches Ok(tokens) && tokens.access_token@
            == given.access_token@ && tokens.refresh_token@ == given.refresh_token@),
        reply matches Reply::Refused { status, error } ==> (r matches Err(refusal)
            && refusal.error@ == code_of(status, error) && described(Some(refusal)) == described(
            error,
        )),
{
    if let Reply::Refused { status, error } = reply {
        lemma_status_text(status@);
        let refusal = r->Err_0;
        assert(refusal@.error == code_of(status, error));
        assert(refusal@.error_description == crate::tokens::error_or_silent(
            error,
        ).error_description);
    }
}

/// One poll. Granted tokens keep their places. Two codes mean that the user has
/// not approved yet; four more have a sentence of their own; any other refusal
/// says what Microsoft said, or its code.
pub proof fn law_poll(reply: Reply<TokenResponse>, r: Result<Poll, SignInError>)
    requires
        call_ensures(poll_token, (reply,), r),
        reply matches Reply::Refused { status, error } ==> 100 <= status@ <= 999,
    ensures
        reply matches Reply::Accepted(given) ==> (r matches Ok(Poll::Ready(tokens))
            && tokens.access_token@ == given.access_token@ && tokens.refresh_token@
            == given.refresh_token@),
        reply matches Reply::Refused { status, error } ==> {
            let code = code_of(status, error);
            &&& code == "authorization_pending"@ <==> (r matches Ok(Poll::Pending))
            &&& code == "slow_down"@ <==> (r matches Ok(Poll::SlowDown))
            &&& !(r matches Ok(Poll::Ready(_)))
            &&& code == "expired_token"@ || code == "code_expired"@ ==> (r matches Err(said)
                && said.message@ == "le code de connexion a expiré, recommencez"@)
            &&& code == "authorization_declined"@ ==> (r matches Err(said) && said.message@
                == "connexion refusée dans le navigateur"@)
            &&& code == "bad_verification_code"@ ==> (r matches Err(said) && said.message@
                == "code de connexion invalide"@)
            &&& code != "authorization_pending"@ && code != "slow_down"@ && code
                != "expired_token"@ && code != "code_expired"@ && code
                != "authorization_declined"@ && code != "bad_verification_code"@ ==> (r
                matches Err(said) && said.message@ == first_or(described(error), code))
        },
{
    reveal_strlit("authorization_pending");
    reveal_strlit("slow_down");
    reveal_strlit("expired_token");
    reveal_strlit("code_expired");
    reveal_strlit("authorization_declined");
    reveal_strlit("bad_verification_code");
    assert("authorization_pending"@[1] == 'u');
    assert("slow_down"@[0] == 's');
    assert("expired_token"@[0] == 'e');
    assert("code_expired"@[0] == 'c');
    assert("authorization_declined"@[1] == 'u');
    assert("bad_verification_code"@[0] == 'b');
    assert("authorization_pending"@.len() != "authorization_declined"@.len());
    if let Reply::Refused { status, error } = reply {
        lemma_status_text(status@);
    }
}

/// Renewing the tokens. Granted tokens keep their places. `invalid_grant` says
/// to sign in again; any other refusal says what Microsoft said, or its code.
pub proof fn law_refresh(
    reply: Reply<TokenResponse>,
    r: Result<MicrosoftTokens, SignInError>,
)
    requires
        call_ensures(refresh_tokens, (reply,), r),
        reply matches Reply::Refused { status, error } ==> 100 <= status@ <= 999,
    ensures
        reply matches Reply::Accepted(given) ==> (r matches Ok(tokens) && tokens.access_token@
            == given.access_token@ && tokens.refresh_token@ == given.refresh_token@),
        reply matches Reply::Refused { status, error } ==> {
            let code = code_of(status, error);
            &&& code == "invalid_grant"@ ==> (r matches Err(said) && said.message@
                == "session Microsoft expirée, reconnectez le compte"@)
            &&& code != "invalid_grant"@ ==> (r matches Err(said) && said.message@ == first_or(
                described(error),
                code,
            ))
        },
{
    if let Reply::Refused { status, error } = reply {
        lemma_status_text(status@);
    }
}

} // verus!
