//! From a Microsoft access token to a Minecraft session.
//!
//! Three exchanges and a look-up, each of which needs what the one before it
//! gave:
//!
//! 1. **Xbox Live** exchanges the Microsoft token for an XBL token;
//! 2. **XSTS** exchanges the XBL token for a Minecraft service token; this is
//!    where "no Xbox profile", "child account" and the like surface;
//! 3. **Minecraft** exchanges the XSTS token for the token that the game
//!    receives;
//! 4. the **profile** gives the real username and UUID.
//!
//! `SessionFlow` holds what has been learnt so far. It does no I/O: `advance`
//! takes what the network brought and says what to do next.

use vstd::prelude::*;

use crate::client::Endpoints;
use crate::clock::{clock_may_read, now_ms};
use crate::error::SignInError;
use crate::exchange::{
    login_body, login_decision, login_refusal, login_refusal_message, login_verdict,
    minecraft_login, minecraft_profile, profile_decision, profile_verdict, text_or_empty,
    xbox_live_authenticate, xbox_live_body, xbox_live_decision, xbox_live_verdict, xsts_authorize,
    xsts_body, xsts_decision, xsts_verdict, BearerRequest, BearerRequestView, JsonRequest,
    JsonRequestView, Verdict, VerdictView,
};
use crate::json::JsonView;
use crate::status::HttpStatus;
use crate::xbox::{
    optional_text, profile_uuid, xsts_description, MinecraftLogin, Profile, XboxToken, XstsError,
};

verus! {

/// The hash of the user who signs in: that of the XSTS token, else that of the
/// XBL token.
pub open spec fn session_hash(xsts: XboxToken, xbl: XboxToken) -> Option<String> {
    match xsts.claimed_hash() {
        Some(hash) => Some(hash),
        None => xbl.claimed_hash(),
    }
}

/// What is known of a session before its expiry is counted from the clock.
#[derive(Debug)]
pub struct SessionDraft {
    /// The 128 bits of the UUID, as a number.
    pub uuid: u128,
    pub username: String,
    pub access_token: String,
    /// For how many seconds the access token is good.
    pub expires_in: u64,
    pub xuid: Option<String>,
}

/// A complete Minecraft session, as the game wants it.
#[derive(Debug, Clone)]
pub struct MinecraftSession {
    /// The 128 bits of the UUID, as a number.
    pub uuid: u128,
    pub username: String,
    /// What `--accessToken` carries. Good for 24 hours.
    pub access_token: String,
    /// When the access token expires, in milliseconds since 1970.
    pub expires_at_ms: u64,
    /// The Xbox id, which the game receives as `${auth_xuid}`.
    pub xuid: Option<String>,
}

/// The milliseconds in `seconds`, at most what 64 bits hold.
pub open spec fn lifetime_ms(seconds: u64) -> int {
    if seconds * 1000 <= u64::MAX {
        seconds * 1000
    } else {
        u64::MAX as int
    }
}

impl SessionDraft {
    /// The session of a token that starts to live at `now_ms`; `None` where the
    /// time at which it expires is past what 64 bits hold.
    pub open spec fn opened_at(self, now_ms: u64) -> Option<MinecraftSession> {
        if now_ms + lifetime_ms(self.expires_in) <= u64::MAX {
            Some(
                MinecraftSession {
                    uuid: self.uuid,
                    username: self.username,
                    access_token: self.access_token,
                    expires_at_ms: (now_ms + lifetime_ms(self.expires_in)) as u64,
                    xuid: self.xuid,
                },
            )
        } else {
            None
        }
    }

    /// The session, where it is now `now_ms`; `None` where the time at which it
    /// expires is past what 64 bits hold.
    pub fn checked_open_at(self, now_ms: u64) -> (r: Option<MinecraftSession>)
        ensures
            r == self.opened_at(now_ms),
    {
        let lifetime: u64 = match self.expires_in.checked_mul(1000) {
            Some(ms) => ms,
            None => u64::MAX,
        };
        match now_ms.checked_add(lifetime) {
            Some(expires_at_ms) => Some(
                MinecraftSession {
                    uuid: self.uuid,
                    username: self.username,
                    access_token: self.access_token,
                    expires_at_ms,
                    xuid: self.xuid,
                },
            ),
            None => None,
        }
    }

    /// The session, where it is now `now_ms` and the time at which it expires
    /// fits in 64 bits.
    pub fn open_at(self, now_ms: u64) -> (r: MinecraftSession)
        requires
            now_ms + lifetime_ms(self.expires_in) <= u64::MAX,
        ensures
            Some(r) == self.opened_at(now_ms),
    {
        self.checked_open_at(now_ms).unwrap()
    }

    /// The session, by the clock: what `checked_open_at` gives at the clock's
    /// reading. Which session it is rests on the clock, its fields other than
    /// the expiry do not.
    pub fn open(self) -> (r: Option<MinecraftSession>)
        ensures
            exists|now: u64| #[trigger] clock_may_read(now) && r == self.opened_at(now),
    {
        self.checked_open_at(now_ms())
    }
}

/// How far a sign-in has come, and what it waits for.
#[derive(Debug)]
pub enum Stage {
    /// Xbox Live has been asked: waits for the status.
    XboxLive,
    /// Xbox Live has accepted: waits for its token.
    XboxLiveToken,
    /// XSTS has been asked: waits for the status.
    Xsts { xbl: XboxToken },
    /// XSTS has accepted: waits for its token.
    XstsToken { xbl: XboxToken },
    /// XSTS has turned the account down: waits for the reason.
    XstsRefused,
    /// The Minecraft login has been asked for: waits for the status.
    Login { xuid: Option<String> },
    /// The Minecraft login was accepted: waits for its answer.
    LoginAnswer { xuid: Option<String> },
    /// The Minecraft login was turned down: waits for the reason.
    LoginRefused { status: HttpStatus },
    /// The profile has been asked for: waits for the status.
    Profile { login: MinecraftLogin, xuid: Option<String> },
    /// The profile exists: waits for it.
    ProfileAnswer { login: MinecraftLogin, xuid: Option<String> },
    /// The sign-in is over.
    Closed,
}

/// What the network brought.
#[derive(Debug)]
pub enum Event {
    /// The status of the reply to the last request.
    Status(HttpStatus),
    /// The body of that reply, read as a token.
    Token(XboxToken),
    /// The body, read as an XSTS error; `None` where it could not be.
    XstsError(Option<XstsError>),
    /// The body, read as the answer of the Minecraft login.
    Login(MinecraftLogin),
    /// The body as text; `None` where it could not be read.
    Text(Option<String>),
    /// The body, read as a profile.
    Profile(Profile),
}

/// What to do next. A body that cannot be read as the answer it should be ends
/// the sign-in with the error of the transport; one that should explain a
/// refusal is handed over as `None`.
#[derive(Debug)]
pub enum Action {
    /// Send this request, and hand over the status of its reply.
    Post(JsonRequest),
    /// Send this request, and hand over the status of its reply.
    Get(BearerRequest),
    /// Read the body of the reply as a token.
    ReadToken,
    /// Read the body of the reply as an XSTS error.
    ReadXstsError,
    /// Read the body of the reply as the answer of the Minecraft login.
    ReadLogin,
    /// Read the body of the reply as text.
    ReadText,
    /// Read the body of the reply as a profile.
    ReadProfile,
    /// The sign-in is done: open the session.
    Open(SessionDraft),
    /// The sign-in has failed.
    Fail(SignInError),
    /// The event is none that was waited for: nothing has changed.
    Ignore,
}

/// What an `Action` asks for.
pub enum ActionView {
    Post(JsonRequestView),
    Get(BearerRequestView),
    ReadToken,
    ReadXstsError,
    ReadLogin,
    ReadText,
    ReadProfile,
    Open(SessionDraft),
    Fail(Seq<char>),
    Ignore,
}

impl View for Action {
    type V = ActionView;

    open spec fn view(&self) -> ActionView {
        match self {
            Action::Post(request) => ActionView::Post(request@),
            Action::Get(request) => ActionView::Get(request@),
            Action::ReadToken => ActionView::ReadToken,
            Action::ReadXstsError => ActionView::ReadXstsError,
            Action::ReadLogin => ActionView::ReadLogin,
            Action::ReadText => ActionView::ReadText,
            Action::ReadProfile => ActionView::ReadProfile,
            Action::Open(draft) => ActionView::Open(*draft),
            Action::Fail(error) => ActionView::Fail(error@),
            Action::Ignore => ActionView::Ignore,
        }
    }
}

/// The request that asks Xbox Live for a token.
pub open spec fn xbox_live_request(
    endpoints: Endpoints,
    microsoft_access_token: Seq<char>,
) -> JsonRequestView {
    JsonRequestView {
        url: endpoints.xbox_live@,
        body: xbox_live_body(microsoft_access_token),
    }
}

/// The request that asks XSTS for a token.
pub open spec fn xsts_request(endpoints: Endpoints, xbl: XboxToken) -> JsonRequestView {
    JsonRequestView { url: endpoints.xsts@, body: xsts_body(xbl.token@) }
}

/// The request that logs in to Minecraft.
pub open spec fn login_request(
    endpoints: Endpoints,
    user_hash: String,
    xsts: XboxToken,
) -> JsonRequestView {
    JsonRequestView {
        url: endpoints.minecraft_login@,
        body: login_body(user_hash@, xsts.token@),
    }
}

/// The request that asks for the profile.
pub open spec fn profile_request(
    endpoints: Endpoints,
    login: MinecraftLogin,
) -> BearerRequestView {
    BearerRequestView { url: endpoints.minecraft_profile@, token: login.access_token@ }
}

/// What is said where neither token names a user.
pub open spec fn no_user_hash_message() -> Seq<char> {
    "réponse Xbox Live sans identifiant d'utilisateur"@
}

/// What an XSTS refusal says, whose body may not have been readable.
pub open spec fn xsts_refusal_message(error: Option<XstsError>) -> Seq<char> {
    match error {
        Some(error) => xsts_description(error.xerr, optional_text(error.message)),
        None => xsts_description(0, None),
    }
}

/// What is done once the profile is known: its id and its name are the
/// session's identity.
pub open spec fn completed(
    login: MinecraftLogin,
    xuid: Option<String>,
    profile: Profile,
) -> ActionView {
    match profile_uuid(profile.id@) {
        Ok(uuid) => ActionView::Open(
            SessionDraft {
                uuid,
                username: profile.name,
                access_token: login.access_token,
                expires_in: login.expires_in,
                xuid,
            },
        ),
        Err(message) => ActionView::Fail(message),
    }
}

/// Where a status leads that decides `verdict`. Xbox Live and the profile explain
/// no refusal: for them `explained` is never taken.
pub open spec fn on_verdict(
    verdict: VerdictView,
    accepted: (Stage, ActionView),
    explained: (Stage, ActionView),
) -> (Stage, ActionView) {
    match verdict {
        VerdictView::Accepted => accepted,
        VerdictView::Explained => explained,
        VerdictView::Refused(message) => (Stage::Closed, ActionView::Fail(message)),
    }
}

/// The stage that follows `stage` when `event` happens, and what is done then.
pub open spec fn next(endpoints: Endpoints, stage: Stage, event: Event) -> (Stage, ActionView) {
    match (stage, event) {
        (Stage::XboxLive, Event::Status(status)) => on_verdict(
            xbox_live_decision(status@),
            (Stage::XboxLiveToken, ActionView::ReadToken),
            (stage, ActionView::Ignore),
        ),
        (Stage::XboxLiveToken, Event::Token(xbl)) => (
            Stage::Xsts { xbl },
            ActionView::Post(xsts_request(endpoints, xbl)),
        ),
        (Stage::Xsts { xbl }, Event::Status(status)) => on_verdict(
            xsts_decision(status@),
            (Stage::XstsToken { xbl }, ActionView::ReadToken),
            (Stage::XstsRefused, ActionView::ReadXstsError),
        ),
        (Stage::XstsRefused, Event::XstsError(error)) => (
            Stage::Closed,
            ActionView::Fail(xsts_refusal_message(error)),
        ),
        (Stage::XstsToken { xbl }, Event::Token(xsts)) => match session_hash(xsts, xbl) {
            Some(user_hash) => (
                Stage::Login { xuid: xsts.claimed_xuid() },
                ActionView::Post(login_request(endpoints, user_hash, xsts)),
            ),
            None => (Stage::Closed, ActionView::Fail(no_user_hash_message())),
        },
        (Stage::Login { xuid }, Event::Status(status)) => on_verdict(
            login_decision(status@),
            (Stage::LoginAnswer { xuid }, ActionView::ReadLogin),
            (Stage::LoginRefused { status }, ActionView::ReadText),
        ),
        (Stage::LoginRefused { status }, Event::Text(detail)) => (
            Stage::Closed,
            ActionView::Fail(login_refusal_message(status@, text_or_empty(detail))),
        ),
        (Stage::LoginAnswer { xuid }, Event::Login(login)) => (
            Stage::Profile { login, xuid },
            ActionView::Get(profile_request(endpoints, login)),
        ),
        (Stage::Profile { login, xuid }, Event::Status(status)) => on_verdict(
            profile_decision(status@),
            (Stage::ProfileAnswer { login, xuid }, ActionView::ReadProfile),
            (stage, ActionView::Ignore),
        ),
        (Stage::ProfileAnswer { login, xuid }, Event::Profile(profile)) => (
            Stage::Closed,
            completed(login, xuid, profile),
        ),
        _ => (stage, ActionView::Ignore),
    }
}

/// Where a sign-in is after `events`, one after the other, and what was done at
/// each of them.
pub open spec fn run(endpoints: Endpoints, stage: Stage, events: Seq<Event>) -> (
    Stage,
    Seq<ActionView>,
)
    decreases events.len(),
{
    if events.len() == 0 {
        (stage, Seq::empty())
    } else {
        let before = run(endpoints, stage, events.drop_last());
        let now = next(endpoints, before.0, events.last());
        (now.0, before.1.push(now.1))
    }
}

/// Whether a sign-in has been turned down, or is over.
pub open spec fn is_over(stage: Stage) -> bool {
    stage is Closed || stage is XstsRefused || stage is LoginRefused
}

/// Whether `action` takes a sign-in further: another request, or the session.
pub open spec fn goes_on(action: ActionView) -> bool {
    action is Post || action is Get || action is Open
}

/// How many events a sign-in can still take in.
pub open spec fn steps_left(stage: Stage) -> nat {
    match stage {
        Stage::XboxLive => 8,
        Stage::XboxLiveToken => 7,
        Stage::Xsts { .. } => 6,
        Stage::XstsToken { .. } => 5,
        Stage::Login { .. } => 4,
        Stage::LoginAnswer { .. } => 3,
        Stage::Profile { .. } => 2,
        Stage::ProfileAnswer { .. } | Stage::XstsRefused | Stage::LoginRefused { .. } => 1,
        Stage::Closed => 0,
    }
}

/// A sign-in under way.
#[derive(Debug)]
pub struct SessionFlow {
    pub endpoints: Endpoints,
    pub stage: Stage,
}

/// Starts the way from a fresh Microsoft access token to a Minecraft session:
/// the sign-in, and the first request to send.
pub fn minecraft_session(endpoints: Endpoints, microsoft_access_token: &str) -> (r: (
    SessionFlow,
    Action,
))
    ensures
        r.0 == (SessionFlow { endpoints, stage: Stage::XboxLive }),
        r.1@ == ActionView::Post(xbox_live_request(endpoints, microsoft_access_token@)),
        r.1@ == ActionView::Post(
            JsonRequestView {
                url: endpoints.xbox_live@,
                body: JsonView::Object(
                    seq![
                        (
                            "Properties"@,
                            JsonView::Object(
                                seq![
                                    ("AuthMethod"@, JsonView::Text("RPS"@)),
                                    ("SiteName"@, JsonView::Text("user.auth.xboxlive.com"@)),
                                    (
                                        "RpsTicket"@,
                                        JsonView::Text("d="@ + microsoft_access_token@),
                                    ),
                                ],
                            ),
                        ),
                        ("RelyingParty"@, JsonView::Text("http://auth.xboxlive.com"@)),
                        ("TokenType"@, JsonView::Text("JWT"@)),
                    ],
                ),
            },
        ),
{
    let request = xbox_live_authenticate(&endpoints, microsoft_access_token);
    (SessionFlow { endpoints, stage: Stage::XboxLive }, Action::Post(request))
}

impl SessionFlow {
    /// Takes what the network brought, and says what to do next.
    pub fn advance(self, event: Event) -> (r: (SessionFlow, Action))
        ensures
            r.0.endpoints == self.endpoints,
            (r.0.stage, r.1@) == next(self.endpoints, self.stage, event),
            self.stage is XboxLiveToken ==> (event matches Event::Token(xbl) ==> r.1@
                == ActionView::Post(
                JsonRequestView {
                    url: self.endpoints.xsts@,
                    body: JsonView::Object(
                        seq![
                            (
                                "Properties"@,
                                JsonView::Object(
                                    seq![
                                        ("SandboxId"@, JsonView::Text("RETAIL"@)),
                                        (
                                            "UserTokens"@,
                                            JsonView::List(seq![JsonView::Text(xbl.token@)]),
                                        ),
                                    ],
                                ),
                            ),
                            (
                                "RelyingParty"@,
                                JsonView::Text("rp://api.minecraftservices.com/"@),
                            ),
                            ("TokenType"@, JsonView::Text("JWT"@)),
                        ],
                    ),
                },
            )),
    {
        let endpoints = self.endpoints;
        let (stage, action) = match (self.stage, event) {
            (Stage::XboxLive, Event::Status(status)) => match xbox_live_verdict(status) {
                Verdict::Accepted => (Stage::XboxLiveToken, Action::ReadToken),
                Verdict::Explained => (Stage::XboxLive, Action::Ignore),
                Verdict::Refused(error) => (Stage::Closed, Action::Fail(error)),
            },
            (Stage::XboxLiveToken, Event::Token(xbl)) => {
                let request = xsts_authorize(&endpoints, xbl.token.as_str());
                (Stage::Xsts { xbl }, Action::Post(request))
            },
            (Stage::Xsts { xbl }, Event::Status(status)) => match xsts_verdict(status) {
                Verdict::Accepted => (Stage::XstsToken { xbl }, Action::ReadToken),
                Verdict::Explained => (Stage::XstsRefused, Action::ReadXstsError),
                Verdict::Refused(error) => (Stage::Closed, Action::Fail(error)),
            },
            (Stage::XstsRefused, Event::XstsError(error)) => {
                let error = match error {
                    Some(error) => error,
                    None => XstsError::default(),
                };
                (Stage::Closed, Action::Fail(SignInError::other(error.describe())))
            },
            (Stage::XstsToken { xbl }, Event::Token(xsts)) => {
                let user_hash = match xsts.user_hash() {
                    Some(user_hash) => Some(user_hash),
                    None => xbl.user_hash(),
                };
                match user_hash {
                    Some(user_hash) => {
                        let request = minecraft_login(
                            &endpoints,
                            user_hash.as_str(),
                            xsts.token.as_str(),
                        );
                        (Stage::Login { xuid: xsts.xuid() }, Action::Post(request))
                    },
                    None => (
                        Stage::Closed,
                        Action::Fail(
                            SignInError::other(
                                "réponse Xbox Live sans identifiant d'utilisateur".to_owned(),
                            ),
                        ),
                    ),
                }
            },
            (Stage::Login { xuid }, Event::Status(status)) => match login_verdict(status) {
                Verdict::Accepted => (Stage::LoginAnswer { xuid }, Action::ReadLogin),
                Verdict::Explained => (Stage::LoginRefused { status }, Action::ReadText),
                Verdict::Refused(error) => (Stage::Closed, Action::Fail(error)),
            },
            (Stage::LoginRefused { status }, Event::Text(detail)) => (
                Stage::Closed,
                Action::Fail(login_refusal(status, detail)),
            ),
            (Stage::LoginAnswer { xuid }, Event::Login(login)) => {
                let request = minecraft_profile(&endpoints, login.access_token.as_str());
                (Stage::Profile { login, xuid }, Action::Get(request))
            },
            (Stage::Profile { login, xuid }, Event::Status(status)) => match profile_verdict(
                status,
            ) {
                Verdict::Accepted => (
                    Stage::ProfileAnswer { login, xuid },
                    Action::ReadProfile,
                ),
                Verdict::Explained => (Stage::Profile { login, xuid }, Action::Ignore),
                Verdict::Refused(error) => (Stage::Closed, Action::Fail(error)),
            },
            (Stage::ProfileAnswer { login, xuid }, Event::Profile(profile)) => {
                match profile.uuid() {
                    Ok(uuid) => (
                        Stage::Closed,
                        Action::Open(
                            SessionDraft {
                                uuid,
                                username: profile.name,
                                access_token: login.access_token,
                                expires_in: login.expires_in,
                                xuid,
                            },
                        ),
                    ),
                    Err(error) => (Stage::Closed, Action::Fail(error)),
                }
            },
            (stage, _) => (stage, Action::Ignore),
        };
        (SessionFlow { endpoints, stage }, action)
    }
}

} // verus!
