//! The four requests that lead to a Minecraft session, and what the status of
//! each reply decides.

use vstd::prelude::*;
use vstd::string::*;

use crate::client::Endpoints;
use crate::error::SignInError;
use crate::json::{Json, JsonView};
use crate::status::{status_text, success, HttpStatus};
use crate::text::trimmed;

verus! {

/// The form through which Mojang approves an Azure application. Without that
/// approval everything succeeds but the Minecraft login, which answers 403.
pub const APP_REVIEW_FORM: &'static str = "https://aka.ms/mce-reviewappid";

/// The status of a reply that asks for other credentials.
pub const UNAUTHORIZED: u16 = 401;

/// The status of a reply that forbids what was asked for.
pub const FORBIDDEN: u16 = 403;

/// The status of a reply that knows no such thing.
pub const NOT_FOUND: u16 = 404;

/// A `POST` of a JSON document, which accepts `application/json` in return.
#[derive(Debug)]
pub struct JsonRequest {
    pub url: String,
    pub body: Json,
}

/// What a `JsonRequest` asks.
pub struct JsonRequestView {
    pub url: Seq<char>,
    pub body: JsonView,
}

impl View for JsonRequest {
    type V = JsonRequestView;

    open spec fn view(&self) -> JsonRequestView {
        JsonRequestView { url: self.url@, body: self.body@ }
    }
}

/// A `GET` that carries a bearer token.
#[derive(Debug)]
pub struct BearerRequest {
    pub url: String,
    pub token: String,
}

/// What a `BearerRequest` asks.
pub struct BearerRequestView {
    pub url: Seq<char>,
    pub token: Seq<char>,
}

impl View for BearerRequest {
    type V = BearerRequestView;

    open spec fn view(&self) -> BearerRequestView {
        BearerRequestView { url: self.url@, token: self.token@ }
    }
}

/// The document that asks Xbox Live for a token. The ticket is marked `d=`, as
/// one that was obtained outside the Xbox SDK has to be.
pub open spec fn xbox_live_body(microsoft_access_token: Seq<char>) -> JsonView {
    JsonView::Object(
        seq![
            (
                "Properties"@,
                JsonView::Object(
                    seq![
                        ("AuthMethod"@, JsonView::Text("RPS"@)),
                        ("SiteName"@, JsonView::Text("user.auth.xboxlive.com"@)),
                        ("RpsTicket"@, JsonView::Text("d="@ + microsoft_access_token)),
                    ],
                ),
            ),
            ("RelyingParty"@, JsonView::Text("http://auth.xboxlive.com"@)),
            ("TokenType"@, JsonView::Text("JWT"@)),
        ],
    )
}

/// The document that asks XSTS for a Minecraft service token.
pub open spec fn xsts_body(xbl_token: Seq<char>) -> JsonView {
    JsonView::Object(
        seq![
            (
                "Properties"@,
                JsonView::Object(
                    seq![
                        ("SandboxId"@, JsonView::Text("RETAIL"@)),
                        ("UserTokens"@, JsonView::List(seq![JsonView::Text(xbl_token)])),
                    ],
                ),
            ),
            ("RelyingParty"@, JsonView::Text("rp://api.minecraftservices.com/"@)),
            ("TokenType"@, JsonView::Text("JWT"@)),
        ],
    )
}

/// The document that logs in to Minecraft.
pub open spec fn login_body(user_hash: Seq<char>, xsts_token: Seq<char>) -> JsonView {
    JsonView::Object(
        seq![
            (
                "identityToken"@,
                JsonView::Text("XBL3.0 x="@ + user_hash + ";"@ + xsts_token),
            ),
        ],
    )
}

/// The string `text` as a JSON document.
fn json_text(text: &str) -> (r: Json)
    ensures
        r@ == JsonView::Text(text@),
{
    Json::Text(text.to_owned())
}

/// The request that asks Xbox Live for a token.
pub fn xbox_live_authenticate(endpoints: &Endpoints, microsoft_access_token: &str) -> (r:
    JsonRequest)
    ensures
        r@.url == endpoints.xbox_live@,
        r@.body == xbox_live_body(microsoft_access_token@),
{
    let mut ticket = "d=".to_owned();
    ticket.append(microsoft_access_token);
    let properties = Json::Object(
        vec![
            ("AuthMethod", json_text("RPS")),
            ("SiteName", json_text("user.auth.xboxlive.com")),
            ("RpsTicket", json_text(ticket.as_str())),
        ],
    );
    let body = Json::Object(
        vec![
            ("Properties", properties),
            ("RelyingParty", json_text("http://auth.xboxlive.com")),
            ("TokenType", json_text("JWT")),
        ],
    );
    assert(properties@->Object_0 =~= xbox_live_body(
        microsoft_access_token@,
    )->Object_0[0].1->Object_0);
    assert(body@->Object_0 =~= xbox_live_body(microsoft_access_token@)->Object_0);
    JsonRequest { url: endpoints.xbox_live.clone(), body }
}

/// The request that asks XSTS for a Minecraft service token.
pub fn xsts_authorize(endpoints: &Endpoints, xbl_token: &str) -> (r: JsonRequest)
    ensures
        r@.url == endpoints.xsts@,
        r@.body == xsts_body(xbl_token@),
{
    let tokens = Json::List(vec![json_text(xbl_token)]);
    assert(tokens@->List_0 =~= seq![JsonView::Text(xbl_token@)]);
    let properties = Json::Object(
        vec![("SandboxId", json_text("RETAIL")), ("UserTokens", tokens)],
    );
    let body = Json::Object(
        vec![
            ("Properties", properties),
            ("RelyingParty", json_text("rp://api.minecraftservices.com/")),
            ("TokenType", json_text("JWT")),
        ],
    );
    assert(properties@->Object_0 =~= xsts_body(xbl_token@)->Object_0[0].1->Object_0);
    assert(body@->Object_0 =~= xsts_body(xbl_token@)->Object_0);
    JsonRequest { url: endpoints.xsts.clone(), body }
}

/// The request that logs in to Minecraft.
pub fn minecraft_login(endpoints: &Endpoints, user_hash: &str, xsts_token: &str) -> (r: JsonRequest)
    ensures
        r@.url == endpoints.minecraft_login@,
        r@.body == login_body(user_hash@, xsts_token@),
        r@.body == JsonView::Object(
            seq![
                (
                    "identityToken"@,
                    JsonView::Text("XBL3.0 x="@ + user_hash@ + ";"@ + xsts_token@),
                ),
            ],
        ),
{
    let mut identity = "XBL3.0 x=".to_owned();
    identity.append(user_hash);
    identity.append(";");
    identity.append(xsts_token);
    let body = Json::Object(vec![("identityToken", json_text(identity.as_str()))]);
    assert(body@->Object_0 =~= login_body(user_hash@, xsts_token@)->Object_0);
    JsonRequest { url: endpoints.minecraft_login.clone(), body }
}

/// The request that asks for the player's profile.
pub fn minecraft_profile(endpoints: &Endpoints, access_token: &str) -> (r: BearerRequest)
    ensures
        r@.url == endpoints.minecraft_profile@,
        r@.token == access_token@,
{
    BearerRequest { url: endpoints.minecraft_profile.clone(), token: access_token.to_owned() }
}

/// What the status of a reply decides.
#[derive(Debug)]
pub enum Verdict {
    /// The body is the answer.
    Accepted,
    /// The request was turned down, and the body says why.
    Explained,
    /// The request was turned down; the body is not read.
    Refused(SignInError),
}

/// What a `Verdict` says.
pub enum VerdictView {
    Accepted,
    Explained,
    Refused(Seq<char>),
}

impl View for Verdict {
    type V = VerdictView;

    open spec fn view(&self) -> VerdictView {
        match self {
            Verdict::Accepted => VerdictView::Accepted,
            Verdict::Explained => VerdictView::Explained,
            Verdict::Refused(error) => VerdictView::Refused(error@),
        }
    }
}

/// `what`, and the status `code` in brackets.
pub open spec fn refused_with(what: Seq<char>, code: u16) -> Seq<char> {
    what + " ("@ + status_text(code) + ")"@
}

/// The sentence `what`, and the status in brackets.
fn with_status(what: &str, status: HttpStatus) -> (r: String)
    ensures
        r@ == refused_with(what@, status@),
{
    let mut message = what.to_owned();
    message.append(" (");
    message.append(status.to_string().as_str());
    message.append(")");
    message
}

/// What the status of Xbox Live's reply decides.
pub open spec fn xbox_live_decision(code: u16) -> VerdictView {
    if success(code) {
        VerdictView::Accepted
    } else {
        VerdictView::Refused(refused_with("Xbox Live a refusé la connexion"@, code))
    }
}

/// Reads the status of Xbox Live's reply.
pub fn xbox_live_verdict(status: HttpStatus) -> (r: Verdict)
    ensures
        r@ == xbox_live_decision(status@),
{
    if status.is_success() {
        Verdict::Accepted
    } else {
        Verdict::Refused(
            SignInError::other(with_status("Xbox Live a refusé la connexion", status)),
        )
    }
}

/// What the status of XSTS's reply decides. Accounts without an Xbox profile
/// and child accounts show here: a 401 whose body says what to do.
pub open spec fn xsts_decision(code: u16) -> VerdictView {
    if code == UNAUTHORIZED {
        VerdictView::Explained
    } else if success(code) {
        VerdictView::Accepted
    } else {
        VerdictView::Refused(refused_with("XSTS a refusé la connexion"@, code))
    }
}

/// Reads the status of XSTS's reply.
pub fn xsts_verdict(status: HttpStatus) -> (r: Verdict)
    ensures
        r@ == xsts_decision(status@),
{
    if status.code() == UNAUTHORIZED {
        return Verdict::Explained;
    }
    if !status.is_success() {
        return Verdict::Refused(
            SignInError::other(with_status("XSTS a refusé la connexion", status)),
        );
    }
    Verdict::Accepted
}

/// What is said where Mojang has not approved the Azure application. The
/// account and its tokens are good: it is the application that is refused.
pub open spec fn app_not_approved_message() -> Seq<char> {
    "l'application n'est pas autorisée par Mojang à utiliser l'API Minecraft (403). Une déclaration Azure neuve doit être validée : formulaire sur "@
        + APP_REVIEW_FORM@
        + ", réponse sous quelques jours. En attendant, les comptes hors-ligne fonctionnent."@
}

/// What the status of the Minecraft login's reply decides.
pub open spec fn login_decision(code: u16) -> VerdictView {
    if code == FORBIDDEN {
        VerdictView::Refused(app_not_approved_message())
    } else if success(code) {
        VerdictView::Accepted
    } else {
        VerdictView::Explained
    }
}

/// Reads the status of the Minecraft login's reply.
pub fn login_verdict(status: HttpStatus) -> (r: Verdict)
    ensures
        r@ == login_decision(status@),
{
    if status.code() == FORBIDDEN {
        let mut message =
            "l'application n'est pas autorisée par Mojang à utiliser l'API Minecraft (403). Une déclaration Azure neuve doit être validée : formulaire sur ".to_owned();
        message.append(APP_REVIEW_FORM);
        message.append(
            ", réponse sous quelques jours. En attendant, les comptes hors-ligne fonctionnent.",
        );
        return Verdict::Refused(SignInError::other(message));
    }
    if !status.is_success() {
        return Verdict::Explained;
    }
    Verdict::Accepted
}

/// What is said where the Minecraft login was turned down with the status
/// `code` and the body `detail`: the body, where it is not blank, tells more
/// than a number of three digits.
pub open spec fn login_refusal_message(code: u16, detail: Seq<char>) -> Seq<char> {
    let what = refused_with("Minecraft a refusé la connexion"@, code);
    if trimmed(detail).len() == 0 {
        what
    } else {
        what + " : "@ + trimmed(detail)
    }
}

/// The body of a refusal that may not have been readable.
pub open spec fn text_or_empty(detail: Option<String>) -> Seq<char> {
    match detail {
        Some(text) => text@,
        None => Seq::empty(),
    }
}

/// Why the Minecraft login was turned down. `detail` is the reply's body, or
/// `None` where it could not be read.
pub fn login_refusal(status: HttpStatus, detail: Option<String>) -> (r: SignInError)
    ensures
        r@ == login_refusal_message(status@, text_or_empty(detail)),
{
    let text = match detail {
        Some(text) => text,
        None => String::new(),
    };
    let trimmed_text = text.as_str().trim();
    let mut message = with_status("Minecraft a refusé la connexion", status);
    if !trimmed_text.is_empty() {
        message.append(" : ");
        message.append(trimmed_text);
    }
    SignInError::other(message)
}

/// What the status of the profile's reply decides. An account that is not found
/// exists and is signed in: it does not own the game.
pub open spec fn profile_decision(code: u16) -> VerdictView {
    if code == NOT_FOUND {
        VerdictView::Refused("ce compte Microsoft ne possède pas Minecraft: Java Edition"@)
    } else if success(code) {
        VerdictView::Accepted
    } else {
        VerdictView::Refused(refused_with("profil Minecraft irrécupérable"@, code))
    }
}

/// Reads the status of the profile's reply.
pub fn profile_verdict(status: HttpStatus) -> (r: Verdict)
    ensures
        r@ == profile_decision(status@),
{
    if status.code() == NOT_FOUND {
        return Verdict::Refused(
            SignInError::other(
                "ce compte Microsoft ne possède pas Minecraft: Java Edition".to_owned(),
            ),
        );
    }
    if !status.is_success() {
        return Verdict::Refused(
            SignInError::other(with_status("profil Minecraft irrécupérable", status)),
        );
    }
    Verdict::Accepted
}

} // verus!
