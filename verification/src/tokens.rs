//! The Microsoft step: a code that the user types into their own browser, then
//! the tokens that Microsoft issues once they have.

use vstd::prelude::*;
use vstd::string::*;

use crate::client::Endpoints;
use crate::error::{outcome, SignInError};
use crate::status::{status_text, success, HttpStatus};
use crate::text::same_text;
use crate::xbox::optional_text;

verus! {

/// The only scope that is asked for. `offline_access` is what brings the
/// refresh token: without it the user would sign in again for every game.
pub const SCOPE: &'static str = "XboxLive.signin offline_access";

/// What the user has to do: go to `verification_uri` and type `user_code`
/// there. `device_code` does not leave the launcher.
#[derive(Debug, Clone)]
pub struct DeviceCode {
    pub device_code: String,
    pub user_code: String,
    pub verification_uri: String,
    /// For how many seconds the code is good (about 15 minutes).
    pub expires_in: u64,
    /// How many seconds to wait at least between two polls (about 5).
    pub interval: u64,
}

/// The Microsoft tokens. The access token only serves the Xbox Live exchange
/// right after; the refresh token alone is kept.
#[derive(Debug, Clone)]
pub struct MicrosoftTokens {
    pub access_token: String,
    pub refresh_token: String,
}

/// The outcome of one poll of the token endpoint.
#[derive(Debug)]
pub enum Poll {
    /// The user has not approved yet.
    Pending,
    /// The same, and Microsoft asks for more time between two polls.
    SlowDown,
    Ready(Box<MicrosoftTokens>),
}

/// The body of a reply that grants tokens.
#[derive(Debug)]
pub struct TokenResponse {
    pub access_token: String,
    pub refresh_token: String,
}

/// The body of a reply that refuses.
#[derive(Debug)]
pub struct TokenError {
    pub error: String,
    pub error_description: Option<String>,
}

/// What a `TokenError` says.
pub struct TokenErrorView {
    pub error: Seq<char>,
    pub error_description: Option<Seq<char>>,
}

impl View for TokenError {
    type V = TokenErrorView;

    open spec fn view(&self) -> TokenErrorView {
        TokenErrorView {
            error: self.error@,
            error_description: optional_text(self.error_description),
        }
    }
}

impl TokenErrorView {
    /// The refusal that says nothing.
    pub open spec fn silent() -> TokenErrorView {
        TokenErrorView { error: Seq::empty(), error_description: None }
    }

    /// The description where there is one, else the code.
    pub open spec fn description(self) -> Seq<char> {
        match self.error_description {
            Some(text) if text.len() > 0 => text,
            _ => self.error,
        }
    }

    /// The refusal with `http_` and the status for its code, where it has none.
    pub open spec fn coded(self, code: u16) -> TokenErrorView {
        TokenErrorView {
            error: if self.error.len() == 0 {
                "http_"@ + status_text(code)
            } else {
                self.error
            },
            error_description: self.error_description,
        }
    }
}

impl Default for TokenError {
    /// The refusal that says nothing.
    fn default() -> (r: Self)
        ensures
            r@ == TokenErrorView::silent(),
    {
        TokenError { error: String::new(), error_description: None }
    }
}

impl TokenError {
    /// Microsoft's description is long, but it is the only one to say what is
    /// wrong where the code is none of those that are known here.
    pub fn describe(&self) -> (r: String)
        ensures
            r@ == self@.description(),
    {
        match &self.error_description {
            Some(text) if !text.as_str().is_empty() => text.clone(),
            _ => self.error.clone(),
        }
    }
}

/// What the body of a reply of Microsoft holds.
#[derive(Debug)]
pub enum BodyKind {
    /// What was asked for.
    Answer,
    /// Why it was refused.
    Refusal,
}

/// Reads the status of a reply of Microsoft: a status that accepts comes with
/// the answer, every other one with a refusal.
pub fn body_kind(status: HttpStatus) -> (r: BodyKind)
    ensures
        r is Answer <==> success(status@),
        r is Refusal <==> !success(status@),
{
    if status.is_success() {
        BodyKind::Answer
    } else {
        BodyKind::Refusal
    }
}

/// A reply of Microsoft whose body has been read, as `body_kind` says.
#[derive(Debug)]
pub enum Reply<T> {
    /// The status accepts the request, and this is the body.
    Accepted(T),
    /// The status refuses the request; the body says why, where it could be
    /// read.
    Refused { status: HttpStatus, error: Option<TokenError> },
}

/// What a refusal says, whose body may not have been readable.
pub open spec fn error_or_silent(error: Option<TokenError>) -> TokenErrorView {
    match error {
        Some(error) => error@,
        None => TokenErrorView::silent(),
    }
}

/// The body of a refusal, or the one that says nothing.
fn or_silent(error: Option<TokenError>) -> (r: TokenError)
    ensures
        r@ == error_or_silent(error),
{
    match error {
        Some(error) => error,
        None => TokenError::default(),
    }
}

/// A `POST` of a form.
#[derive(Debug)]
pub struct FormRequest {
    pub url: String,
    pub fields: Vec<(&'static str, String)>,
}

/// What a `FormRequest` asks.
pub struct FormRequestView {
    pub url: Seq<char>,
    pub fields: Seq<(Seq<char>, Seq<char>)>,
}

impl View for FormRequest {
    type V = FormRequestView;

    open spec fn view(&self) -> FormRequestView {
        FormRequestView {
            url: self.url@,
            fields: self.fields@.map_values(|field: (&'static str, String)| (field.0@, field.1@)),
        }
    }
}

/// The request that asks for a device code.
pub fn device_code_request(endpoints: &Endpoints, client_id: &str) -> (r: FormRequest)
    ensures
        r@.url == endpoints.device_code@,
        r@.fields == seq![("client_id"@, client_id@), ("scope"@, SCOPE@)],
{
    let r = FormRequest {
        url: endpoints.device_code.clone(),
        fields: vec![("client_id", client_id.to_owned()), ("scope", SCOPE.to_owned())],
    };
    assert(r@.fields =~= seq![("client_id"@, client_id@), ("scope"@, SCOPE@)]);
    r
}

/// What is said where Microsoft refuses a device code.
pub open spec fn device_code_refusal_message(code: u16, error: TokenErrorView) -> Seq<char> {
    "Microsoft a refusé la demande de code ("@ + status_text(code) + ") : "@ + error.description()
}

/// What the reply to the request for a device code gives.
pub fn request_device_code(reply: Reply<DeviceCode>) -> (r: Result<DeviceCode, SignInError>)
    ensures
        outcome(r) == match reply {
            Reply::Accepted(code) => Ok(code),
            Reply::Refused { status, error } => Err(
                device_code_refusal_message(status@, error_or_silent(error)),
            ),
        },
{
    match reply {
        Reply::Accepted(code) => Ok(code),
        Reply::Refused { status, error } => {
            let error = or_silent(error);
            let mut message = "Microsoft a refusé la demande de code (".to_owned();
            message.append(status.to_string().as_str());
            message.append(") : ");
            message.append(error.describe().as_str());
            Err(SignInError::other(message))
        },
    }
}

/// The tokens that `response` grants.
pub open spec fn granted(response: TokenResponse) -> MicrosoftTokens {
    MicrosoftTokens { access_token: response.access_token, refresh_token: response.refresh_token }
}

/// What the reply of the token endpoint gives: the tokens, or a refusal that
/// has a code in any case. A request that failed never comes here: only a
/// refusal is to be expected in every round of the wait.
pub fn post_token(reply: Reply<TokenResponse>) -> (r: Result<MicrosoftTokens, TokenError>)
    ensures
        match reply {
            Reply::Accepted(response) => r == Ok::<MicrosoftTokens, TokenError>(granted(response)),
            Reply::Refused { status, error } => r matches Err(refusal) && refusal@
                == error_or_silent(error).coded(status@),
        },
        reply matches Reply::Accepted(response) ==> (r matches Ok(tokens) && tokens.access_token
            == response.access_token && tokens.refresh_token == response.refresh_token),
{
    match reply {
        Reply::Accepted(body) => Ok(
            MicrosoftTokens { access_token: body.access_token, refresh_token: body.refresh_token },
        ),
        Reply::Refused { status, error } => {
            let mut refusal = or_silent(error);
            if refusal.error.as_str().is_empty() {
                let mut code = "http_".to_owned();
                code.append(status.to_string().as_str());
                refusal.error = code;
            }
            Err(refusal)
        },
    }
}

/// The request that polls for the tokens of a device code.
pub fn poll_request(endpoints: &Endpoints, client_id: &str, device_code: &str) -> (r: FormRequest)
    ensures
        r@.url == endpoints.token@,
        r@.fields == seq![
            ("client_id"@, client_id@),
            ("grant_type"@, "urn:ietf:params:oauth:grant-type:device_code"@),
            ("device_code"@, device_code@),
        ],
{
    let r = FormRequest {
        url: endpoints.token.clone(),
        fields: vec![
            ("client_id", client_id.to_owned()),
            ("grant_type", "urn:ietf:params:oauth:grant-type:device_code".to_owned()),
            ("device_code", device_code.to_owned()),
        ],
    };
    assert(r@.fields =~= seq![
        ("client_id"@, client_id@),
        ("grant_type"@, "urn:ietf:params:oauth:grant-type:device_code"@),
        ("device_code"@, device_code@),
    ]);
    r
}

/// What a refused poll comes to. Two codes mean "keep waiting", every other
/// one is the end.
pub open spec fn poll_refusal(refusal: TokenErrorView) -> Result<Poll, Seq<char>> {
    if refusal.error == "authorization_pending"@ {
        Ok(Poll::Pending)
    } else if refusal.error == "slow_down"@ {
        Ok(Poll::SlowDown)
    } else if refusal.error == "expired_token"@ || refusal.error == "code_expired"@ {
        Err("le code de connexion a expiré, recommencez"@)
    } else if refusal.error == "authorization_declined"@ {
        Err("connexion refusée dans le navigateur"@)
    } else if refusal.error == "bad_verification_code"@ {
        Err("code de connexion invalide"@)
    } else {
        Err(refusal.description())
    }
}

/// What one poll of the token endpoint comes to.
pub open spec fn poll_outcome(reply: Reply<TokenResponse>) -> Result<Poll, Seq<char>> {
    match reply {
        Reply::Accepted(response) => Ok(Poll::Ready(Box::new(granted(response)))),
        Reply::Refused { status, error } => poll_refusal(error_or_silent(error).coded(status@)),
    }
}

/// One poll, one reply. The loop that waits is the caller's, who alone knows
/// when the user has given up.
pub fn poll_token(reply: Reply<TokenResponse>) -> (r: Result<Poll, SignInError>)
    ensures
        outcome(r) == poll_outcome(reply),
        reply matches Reply::Accepted(response) ==> (r matches Ok(Poll::Ready(tokens))
            && tokens.access_token == response.access_token && tokens.refresh_token
            == response.refresh_token),
{
    match post_token(reply) {
        Ok(tokens) => Ok(Poll::Ready(Box::new(tokens))),
        Err(error) => {
            let code = error.error.as_str();
            if same_text(code, "authorization_pending") {
                Ok(Poll::Pending)
            } else if same_text(code, "slow_down") {
                Ok(Poll::SlowDown)
            } else if same_text(code, "expired_token") || same_text(code, "code_expired") {
                Err(
                    SignInError::other(
                        "le code de connexion a expiré, recommencez".to_owned(),
                    ),
                )
            } else if same_text(code, "authorization_declined") {
                Err(SignInError::other("connexion refusée dans le navigateur".to_owned()))
            } else if same_text(code, "bad_verification_code") {
                Err(SignInError::other("code de connexion invalide".to_owned()))
            } else {
                Err(SignInError::other(error.describe()))
            }
        },
    }
}

/// The request that renews the tokens.
pub fn refresh_request(endpoints: &Endpoints, client_id: &str, refresh_token: &str) -> (r:
    FormRequest)
    ensures
        r@.url == endpoints.token@,
        r@.fields == seq![
            ("client_id"@, client_id@),
            ("grant_type"@, "refresh_token"@),
            ("refresh_token"@, refresh_token@),
            ("scope"@, SCOPE@),
        ],
{
    let r = FormRequest {
        url: endpoints.token.clone(),
        fields: vec![
            ("client_id", client_id.to_owned()),
            ("grant_type", "refresh_token".to_owned()),
            ("refresh_token", refresh_token.to_owned()),
            ("scope", SCOPE.to_owned()),
        ],
    };
    assert(r@.fields =~= seq![
        ("client_id"@, client_id@),
        ("grant_type"@, "refresh_token"@),
        ("refresh_token"@, refresh_token@),
        ("scope"@, SCOPE@),
    ]);
    r
}

/// What is said where the tokens could not be renewed. `invalid_grant` is a
/// changed password, a revoked session or six months without a game: only
/// signing in again helps.
pub open spec fn refresh_refusal_message(refusal: TokenErrorView) -> Seq<char> {
    if refusal.error == "invalid_grant"@ {
        "session Microsoft expirée, reconnectez le compte"@
    } else {
        refusal.description()
    }
}

/// What renewing the tokens comes to.
pub open spec fn refresh_outcome(reply: Reply<TokenResponse>) -> Result<
    MicrosoftTokens,
    Seq<char>,
> {
    match reply {
        Reply::Accepted(response) => Ok(granted(response)),
        Reply::Refused { status, error } => Err(
            refresh_refusal_message(error_or_silent(error).coded(status@)),
        ),
    }
}

/// What the reply to the request for new tokens gives.
pub fn refresh_tokens(reply: Reply<TokenResponse>) -> (r: Result<MicrosoftTokens, SignInError>)
    ensures
        outcome(r) == refresh_outcome(reply),
        reply matches Reply::Accepted(response) ==> (r matches Ok(tokens) && tokens.access_token
            == response.access_token && tokens.refresh_token == response.refresh_token),
{
    match post_token(reply) {
        Ok(tokens) => Ok(tokens),
        Err(error) => if same_text(error.error.as_str(), "invalid_grant") {
            Err(
                SignInError::other("session Microsoft expirée, reconnectez le compte".to_owned()),
            )
        } else {
            Err(SignInError::other(error.describe()))
        },
    }
}

} // verus!
