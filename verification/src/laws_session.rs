//! What the operations after the Microsoft step give, told over their arguments
//! and their results: what is sent to Xbox Live, XSTS and Minecraft, what their
//! replies come to, and the session at the end.

use vstd::prelude::*;

use crate::client::Endpoints;
use crate::clock::clock_may_read;
use crate::error::SignInError;
use crate::exchange::{
    login_refusal, login_verdict, minecraft_login, minecraft_profile, profile_verdict,
    xbox_live_authenticate, xbox_live_verdict, xsts_authorize, xsts_verdict, BearerRequest,
    JsonRequest, Verdict,
};
use crate::json::{Json, JsonView};
use crate::laws::law_uuid_fits_in_128_bits;
use crate::laws_basics::{
    is_blank, is_core, is_milliseconds_since_epoch, law_clock_reads_milliseconds,
    law_core_is_unique, law_trimming_leaves_the_core, lemma_status_text, shown, writes_number,
};
use crate::laws_identity::{lemma_uuid_is_written, writes_uuid};
use crate::session::{
    minecraft_session, Action, Event, MinecraftSession, SessionDraft, SessionFlow, Stage,
};
use crate::status::HttpStatus;
use crate::xbox::{MinecraftLogin, Profile, XboxToken, XstsError, Xui};

verus! {

// --- what is sent -----------------------------------------------------------

/// The members of an object; none where `json` is no object.
pub open spec fn members(json: Json) -> Seq<(&'static str, Json)> {
    match json {
        Json::Object(members) => members@,
        _ => Seq::empty(),
    }
}

/// Whether `json` is the string `text`.
pub open spec fn is_text(json: Json, text: Seq<char>) -> bool {
    json matches Json::Text(held) && held@ == text
}

/// Whether the member of `json` at `i` is called `name` and is the string `text`.
pub open spec fn has_text(json: Json, i: int, name: Seq<char>, text: Seq<char>) -> bool {
    members(json)[i].0@ == name && is_text(members(json)[i].1, text)
}

/// Whether `body` asks Xbox Live to authenticate the Microsoft token `token`.
pub open spec fn asks_xbox_live(body: Json, token: Seq<char>) -> bool {
    let properties = members(body)[0].1;
    &&& members(body).len() == 3
    &&& members(body)[0].0@ == "Properties"@
    &&& members(properties).len() == 3
    &&& has_text(properties, 0, "AuthMethod"@, "RPS"@)
    &&& has_text(properties, 1, "SiteName"@, "user.auth.xboxlive.com"@)
    &&& has_text(properties, 2, "RpsTicket"@, "d="@ + token)
    &&& has_text(body, 1, "RelyingParty"@, "http://auth.xboxlive.com"@)
    &&& has_text(body, 2, "TokenType"@, "JWT"@)
}

/// Whether `body` asks XSTS to authorise the XBL token `token`, and no other.
pub open spec fn asks_xsts(body: Json, token: Seq<char>) -> bool {
    let properties = members(body)[0].1;
    &&& members(body).len() == 3
    &&& members(body)[0].0@ == "Properties"@
    &&& members(properties).len() == 2
    &&& has_text(properties, 0, "SandboxId"@, "RETAIL"@)
    &&& members(properties)[1].0@ == "UserTokens"@
    &&& members(properties)[1].1 matches Json::List(tokens)
    &&& tokens@.len() == 1
    &&& is_text(tokens@[0], token)
    &&& has_text(body, 1, "RelyingParty"@, "rp://api.minecraftservices.com/"@)
    &&& has_text(body, 2, "TokenType"@, "JWT"@)
}

/// Whether `body` logs the user `hash` in to Minecraft with the XSTS token
/// `token`.
pub open spec fn asks_login(body: Json, hash: Seq<char>, token: Seq<char>) -> bool {
    &&& members(body).len() == 1
    &&& has_text(body, 0, "identityToken"@, "XBL3.0 x="@ + hash + ";"@ + token)
}

/// What an object's view says of its members.
proof fn lemma_object(json: Json, fields: Seq<(Seq<char>, JsonView)>)
    requires
        json@ == JsonView::Object(fields),
    ensures
        members(json).len() == fields.len(),
        forall|i: int|
            0 <= i < fields.len() ==> #[trigger] members(json)[i].0@ == fields[i].0 && members(
                json,
            )[i].1@ == fields[i].1,
{
    reveal_with_fuel(<Json as View>::view, 2);
    let viewed = json@->Object_0;
    assert forall|i: int| 0 <= i < fields.len() implies #[trigger] members(json)[i].0@
        == fields[i].0 && members(json)[i].1@ == fields[i].1 by {
        assert(viewed[i] == (members(json)[i].0@, members(json)[i].1@));
    }
}

/// What a string's view says of it.
proof fn lemma_text(json: Json, text: Seq<char>)
    requires
        json@ == JsonView::Text(text),
    ensures
        is_text(json, text),
{
}

/// What an array's view says of its items.
proof fn lemma_list(json: Json, items: Seq<JsonView>)
    requires
        json@ == JsonView::List(items),
    ensures
        json matches Json::List(held) && held@.len() == items.len() && forall|i: int|
            0 <= i < items.len() ==> #[trigger] held@[i]@ == items[i],
{
    reveal_with_fuel(<Json as View>::view, 2);
    if let Json::List(held) = json {
        let viewed = json@->List_0;
        assert forall|i: int| 0 <= i < items.len() implies #[trigger] held@[i]@ == items[i] by {
            assert(viewed[i] == held@[i]@);
        }
    }
}

proof fn lemma_asks_xbox_live(body: Json, token: Seq<char>)
    requires
        body@ == JsonView::Object(
            seq![
                (
                    "Properties"@,
                    JsonView::Object(
                        seq![
                            ("AuthMethod"@, JsonView::Text("RPS"@)),
                            ("SiteName"@, JsonView::Text("user.auth.xboxlive.com"@)),
                            ("RpsTicket"@, JsonView::Text("d="@ + token)),
                        ],
                    ),
                ),
                ("RelyingParty"@, JsonView::Text("http://auth.xboxlive.com"@)),
                ("TokenType"@, JsonView::Text("JWT"@)),
            ],
        ),
    ensures
        asks_xbox_live(body, token),
{
    lemma_object(body, body@->Object_0);
    let properties = members(body)[0].1;
    assert(members(body)[0].0@ == "Properties"@);
    lemma_object(properties, properties@->Object_0);
    assert(members(properties)[0].0@ == "AuthMethod"@);
    assert(members(properties)[1].0@ == "SiteName"@);
    assert(members(properties)[2].0@ == "RpsTicket"@);
    assert(members(body)[1].0@ == "RelyingParty"@);
    assert(members(body)[2].0@ == "TokenType"@);
    lemma_text(members(properties)[0].1, "RPS"@);
    lemma_text(members(properties)[1].1, "user.auth.xboxlive.com"@);
    lemma_text(members(properties)[2].1, "d="@ + token);
    lemma_text(members(body)[1].1, "http://auth.xboxlive.com"@);
    lemma_text(members(body)[2].1, "JWT"@);
}

proof fn lemma_asks_xsts(body: Json, token: Seq<char>)
    requires
        body@ == JsonView::Object(
            seq![
                (
                    "Properties"@,
                    JsonView::Object(
                        seq![
                            ("SandboxId"@, JsonView::Text("RETAIL"@)),
                            ("UserTokens"@, JsonView::List(seq![JsonView::Text(token)])),
                        ],
                    ),
                ),
                ("RelyingParty"@, JsonView::Text("rp://api.minecraftservices.com/"@)),
                ("TokenType"@, JsonView::Text("JWT"@)),
            ],
        ),
    ensures
        asks_xsts(body, token),
{
    lemma_object(body, body@->Object_0);
    let properties = members(body)[0].1;
    assert(members(body)[0].0@ == "Properties"@);
    lemma_object(properties, properties@->Object_0);
    assert(members(properties)[0].0@ == "SandboxId"@);
    assert(members(properties)[1].0@ == "UserTokens"@);
    assert(members(body)[1].0@ == "RelyingParty"@);
    assert(members(body)[2].0@ == "TokenType"@);
    let tokens = members(properties)[1].1;
    lemma_list(tokens, tokens@->List_0);
    assert(tokens->List_0@[0]@ == JsonView::Text(token));
    lemma_text(tokens->List_0@[0], token);
    lemma_text(members(properties)[0].1, "RETAIL"@);
    lemma_text(members(body)[1].1, "rp://api.minecraftservices.com/"@);
    lemma_text(members(body)[2].1, "JWT"@);
}

proof fn lemma_asks_login(body: Json, hash: Seq<char>, token: Seq<char>)
    requires
        body@ == JsonView::Object(
            seq![("identityToken"@, JsonView::Text("XBL3.0 x="@ + hash + ";"@ + token))],
        ),
    ensures
        asks_login(body, hash, token),
{
    lemma_object(body, body@->Object_0);
    assert(members(body)[0].0@ == "identityToken"@);
    lemma_text(members(body)[0].1, "XBL3.0 x="@ + hash + ";"@ + token);
}

/// Xbox Live is sent the Microsoft token as a ticket marked `d=`.
pub proof fn law_xbox_live_request(endpoints: &Endpoints, token: &str, r: JsonRequest)
    requires
        call_ensures(xbox_live_authenticate, (endpoints, token), r),
    ensures
        r.url@ == endpoints.xbox_live@,
        asks_xbox_live(r.body, token@),
{
    lemma_asks_xbox_live(r.body, token@);
}

/// XSTS is sent the XBL token as it stands, alone.
pub proof fn law_xsts_request(endpoints: &Endpoints, token: &str, r: JsonRequest)
    requires
        call_ensures(xsts_authorize, (endpoints, token), r),
    ensures
        r.url@ == endpoints.xsts@,
        asks_xsts(r.body, token@),
{
    lemma_asks_xsts(r.body, token@);
}

/// The Minecraft login is sent the user's hash, then the XSTS token.
pub proof fn law_login_request(endpoints: &Endpoints, hash: &str, token: &str, r: JsonRequest)
    requires
        call_ensures(minecraft_login, (endpoints, hash, token), r),
    ensures
        r.url@ == endpoints.minecraft_login@,
        asks_login(r.body, hash@, token@),
{
    lemma_asks_login(r.body, hash@, token@);
}

/// The profile is asked for with the Minecraft token.
pub proof fn law_profile_request(endpoints: &Endpoints, token: &str, r: BearerRequest)
    requires
        call_ensures(minecraft_profile, (endpoints, token), r),
    ensures
        r.url@ == endpoints.minecraft_profile@,
        r.token@ == token@,
{
    assert(r@.url == r.url@);
    assert(r@.token == r.token@);
}

// --- what a status decides --------------------------------------------------

/// Xbox Live's status: accepted where its first digit is 2, else refused with
/// the status.
pub proof fn law_xbox_live_verdict(status: HttpStatus, r: Verdict)
    requires
        100 <= status@ <= 999,
        call_ensures(xbox_live_verdict, (status,), r),
    ensures
        status@ / 100 == 2 ==> r is Accepted,
        status@ / 100 != 2 ==> (r matches Verdict::Refused(error) && error.message@
            == "Xbox Live a refusé la connexion"@ + " ("@ + shown(status@) + ")"@),
{
    lemma_status_text(status@);
}

/// XSTS's status: 401 has its reason in the body; any other that does not accept
/// is refused with the status.
pub proof fn law_xsts_verdict(status: HttpStatus, r: Verdict)
    requires
        100 <= status@ <= 999,
        call_ensures(xsts_verdict, (status,), r),
    ensures
        status@ / 100 == 2 ==> r is Accepted,
        status@ == 401 ==> r is Explained,
        status@ / 100 != 2 && status@ != 401 ==> (r matches Verdict::Refused(error)
            && error.message@ == "XSTS a refusé la connexion"@ + " ("@ + shown(status@) + ")"@),
{
    lemma_status_text(status@);
}

/// The Minecraft login's status: 403 blames the application and names the form
/// that mends it; any other that does not accept has its reason in the body.
pub proof fn law_login_verdict(status: HttpStatus, r: Verdict)
    requires
        100 <= status@ <= 999,
        call_ensures(login_verdict, (status,), r),
    ensures
        status@ / 100 == 2 ==> r is Accepted,
        status@ == 403 ==> (r matches Verdict::Refused(error) && error.message@
            == "l'application n'est pas autorisée par Mojang à utiliser l'API Minecraft (403). Une déclaration Azure neuve doit être validée : formulaire sur "@
            + "https://aka.ms/mce-reviewappid"@
            + ", réponse sous quelques jours. En attendant, les comptes hors-ligne fonctionnent."@),
        status@ / 100 != 2 && status@ != 403 ==> r is Explained,
{
}

/// The profile's status: 404 is an account without the game; any other that does
/// not accept is refused with the status.
pub proof fn law_profile_verdict(status: HttpStatus, r: Verdict)
    requires
        100 <= status@ <= 999,
        call_ensures(profile_verdict, (status,), r),
    ensures
        status@ / 100 == 2 ==> r is Accepted,
        status@ == 404 ==> (r matches Verdict::Refused(error) && error.message@
            == "ce compte Microsoft ne possède pas Minecraft: Java Edition"@),
        status@ / 100 != 2 && status@ != 404 ==> (r matches Verdict::Refused(error)
            && error.message@ == "profil Minecraft irrécupérable"@ + " ("@ + shown(status@)
            + ")"@),
{
    lemma_status_text(status@);
}

/// Whether `said` is what is said of a Minecraft login that was turned down with
/// the status `code` and the body `detail`: the status, and the core of the
/// body where it is not blank.
pub open spec fn tells_login_refusal(said: Seq<char>, code: u16, detail: Seq<char>) -> bool {
    let head = "Minecraft a refusé la connexion"@ + " ("@ + shown(code) + ")"@;
    &&& is_blank(detail) ==> said == head
    &&& !is_blank(detail) ==> forall|core: Seq<char>| #[trigger]
        is_core(detail, core) ==> said == head + " : "@ + core
}

/// What a body that may not have been readable holds.
pub open spec fn held(detail: Option<String>) -> Seq<char> {
    if detail is Some {
        detail->0@
    } else {
        Seq::empty()
    }
}

proof fn lemma_login_refusal(said: Seq<char>, code: u16, detail: Seq<char>)
    requires
        100 <= code <= 999,
        said == crate::exchange::login_refusal_message(code, detail),
    ensures
        tells_login_refusal(said, code, detail),
{
    lemma_status_text(code);
    law_trimming_leaves_the_core(detail);
    assert forall|core: Seq<char>| !is_blank(detail) && #[trigger] is_core(
        detail,
        core,
    ) implies said == "Minecraft a refusé la connexion"@ + " ("@ + shown(code) + ")"@ + " : "@
        + core by {
        law_core_is_unique(detail, core, crate::text::trimmed(detail));
    }
}

/// A Minecraft login that was turned down tells the status, and the core of the
/// body where it is not blank.
pub proof fn law_login_refusal(status: HttpStatus, detail: Option<String>, r: SignInError)
    requires
        100 <= status@ <= 999,
        call_ensures(login_refusal, (status, detail), r),
    ensures
        tells_login_refusal(r.message@, status@, held(detail)),
{
    lemma_login_refusal(r.message@, status@, held(detail));
}

// --- what the services answer -----------------------------------------------

/// The first of the users that a token is about; `None` where it names none.
pub open spec fn first_user(token: XboxToken) -> Option<Xui> {
    if token.display_claims is Some && token.display_claims->0.xui@.len() > 0 {
        Some(token.display_claims->0.xui@[0])
    } else {
        None
    }
}

/// The hash and the Xbox id of a token are those of its first user.
pub proof fn law_first_user_counts(
    token: &XboxToken,
    claim: Option<&Xui>,
    hash: Option<String>,
    xuid: Option<String>,
)
    requires
        call_ensures(XboxToken::first_claim, (token,), claim),
        call_ensures(XboxToken::user_hash, (token,), hash),
        call_ensures(XboxToken::xuid, (token,), xuid),
    ensures
        first_user(*token) is None ==> claim is None && hash is None && xuid is None,
        first_user(*token) matches Some(user) ==> claim is Some && *claim->0 == user && hash
            == user.uhs && xuid == user.xid,
{
}

/// Whether `said` is what is said of an XSTS refusal with the code `xerr` and
/// the message `message`: a sentence of its own for each code that the user can
/// mend, else the message, else the code.
pub open spec fn tells_xsts_refusal(said: Seq<char>, xerr: u64, message: Seq<char>) -> bool {
    &&& xerr == 2148916227 ==> said == "ce compte Xbox Live a été suspendu"@
    &&& xerr == 2148916233 ==> said
        == "ce compte Microsoft n'a pas de profil Xbox créez-en un sur xbox.com, puis réessayez"@
    &&& xerr == 2148916235 ==> said == "Xbox Live n'est pas disponible dans le pays de ce compte"@
    &&& xerr == 2148916236 || xerr == 2148916237 ==> said
        == "ce compte doit passer la vérification d'adulte (Corée du Sud)"@
    &&& xerr == 2148916238 ==> said
        == "ce compte est un compte enfant : rattachez-le à une famille Microsoft, puis réessayez"@
    &&& xerr != 2148916227 && xerr != 2148916233 && !(2148916235 <= xerr <= 2148916238) ==> {
        &&& message.len() > 0 ==> said == message
        &&& message.len() == 0 ==> exists|number: Seq<char>| #[trigger]
            writes_number(number, xerr as int) && said
                == "Xbox Live a refusé la connexion (XErr "@ + number + ")"@
    }
}

proof fn lemma_xsts_refusal(said: Seq<char>, xerr: u64, message: Option<Seq<char>>)
    requires
        said == crate::xbox::xsts_description(xerr, message),
    ensures
        tells_xsts_refusal(
            said,
            xerr,
            if message is Some {
                message->0
            } else {
                Seq::empty()
            },
        ),
{
    crate::laws_basics::lemma_decimal_text_writes(xerr as nat);
}

/// An XSTS refusal says what the user can do where they can do something, else
/// the message that came with it, else its code.
pub proof fn law_xsts_error_describes(error: &XstsError, r: String)
    requires
        call_ensures(XstsError::describe, (error,), r),
    ensures
        tells_xsts_refusal(r@, error.xerr, held(error.message)),
{
    lemma_xsts_refusal(r@, error.xerr, crate::xbox::optional_text(error.message));
}

/// The refusal that says nothing has code 0 and no message.
pub proof fn law_default_xsts_error(r: XstsError)
    requires
        call_ensures(<XstsError as Default>::default, (), r),
    ensures
        r.xerr == 0,
        r.message is None,
{
}

// --- the session ------------------------------------------------------------

/// Whether `session` is what `draft` promises, for a token that starts to live
/// at `now`: it lives for its seconds, a thousand milliseconds each, or, where
/// these are past 64 bits, for all that 64 bits hold.
pub open spec fn is_opened(draft: SessionDraft, now: u64, session: MinecraftSession) -> bool {
    &&& session.uuid == draft.uuid
    &&& session.username@ == draft.username@
    &&& session.access_token@ == draft.access_token@
    &&& session.xuid == draft.xuid
    &&& draft.expires_in * 1000 <= u64::MAX ==> session.expires_at_ms == now + draft.expires_in
        * 1000
    &&& draft.expires_in * 1000 > u64::MAX ==> session.expires_at_ms == now + u64::MAX
}

/// Whether the time at which the token of `draft` expires fits in 64 bits.
pub open spec fn expiry_fits(draft: SessionDraft, now: u64) -> bool {
    now + draft.expires_in * 1000 <= u64::MAX || (now == 0 && draft.expires_in * 1000 > u64::MAX)
}

/// A session is opened exactly where the time at which it expires fits, and then
/// as its draft promises.
pub proof fn law_session_opens_at(
    draft: SessionDraft,
    now: u64,
    r: Option<MinecraftSession>,
)
    requires
        call_ensures(SessionDraft::checked_open_at, (draft, now), r),
    ensures
        r is Some <==> expiry_fits(draft, now),
        r matches Some(session) ==> is_opened(draft, now, session),
{
}

/// Where the expiry fits, the session is opened as its draft promises.
pub proof fn law_session_opens_where_it_fits(
    draft: SessionDraft,
    now: u64,
    r: MinecraftSession,
)
    requires
        expiry_fits(draft, now),
        call_ensures(SessionDraft::open_at, (draft, now), r),
    ensures
        is_opened(draft, now, r),
{
}

/// By the clock, a session is opened at what the clock reads in milliseconds.
pub proof fn law_session_opens_by_the_clock(draft: SessionDraft, r: Option<MinecraftSession>)
    requires
        call_ensures(SessionDraft::open, (draft,), r),
    ensures
        exists|now: u64| #[trigger]
            is_milliseconds_since_epoch(now) && (r is Some <==> expiry_fits(draft, now)) && (
            r is Some ==> is_opened(draft, now, r->0)),
{
    let now = choose|now: u64| #[trigger] clock_may_read(now) && r == draft.opened_at(now);
    law_clock_reads_milliseconds(now);
}

// --- the order of it all ----------------------------------------------------

/// Whether `action` is a failure that says `said`.
pub open spec fn fails_with(action: Action, said: Seq<char>) -> bool {
    action matches Action::Fail(error) && error.message@ == said
}

/// A sign-in starts by sending Xbox Live the Microsoft token, and waits for the
/// status.
pub proof fn law_sign_in_starts_with_xbox_live(
    endpoints: Endpoints,
    token: &str,
    r: (SessionFlow, Action),
)
    requires
        call_ensures(minecraft_session, (endpoints, token), r),
    ensures
        r.0.endpoints == endpoints,
        r.0.stage is XboxLive,
        r.1 matches Action::Post(request) && request.url@ == endpoints.xbox_live@
            && asks_xbox_live(request.body, token@),
{
    let request = r.1->Post_0;
    assert(request@.url == request.url@ && request@.body == request.body@);
    lemma_asks_xbox_live(request.body, token@);
}

/// Xbox Live's status.
pub proof fn law_on_xbox_live_status(flow: SessionFlow, status: HttpStatus, r: (SessionFlow, Action))
    requires
        100 <= status@ <= 999,
        flow.stage is XboxLive,
        call_ensures(SessionFlow::advance, (flow, Event::Status(status)), r),
    ensures
        r.0.endpoints == flow.endpoints,
        status@ / 100 == 2 ==> r.0.stage is XboxLiveToken && r.1 is ReadToken,
        status@ / 100 != 2 ==> r.0.stage is Closed && fails_with(
            r.1,
            "Xbox Live a refusé la connexion"@ + " ("@ + shown(status@) + ")"@,
        ),
{
    lemma_status_text(status@);
}

/// Xbox Live's token: XSTS is sent it, as it stands and alone.
pub proof fn law_on_xbox_live_token(flow: SessionFlow, xbl: XboxToken, r: (SessionFlow, Action))
    requires
        flow.stage is XboxLiveToken,
        call_ensures(SessionFlow::advance, (flow, Event::Token(xbl)), r),
    ensures
        r.0.endpoints == flow.endpoints,
        r.0.stage == (Stage::Xsts { xbl }),
        r.1 matches Action::Post(request) && request.url@ == flow.endpoints.xsts@ && asks_xsts(
            request.body,
            xbl.token@,
        ),
{
    let request = r.1->Post_0;
    assert(request@.url == request.url@ && request@.body == request.body@);
    lemma_asks_xsts(request.body, xbl.token@);
}

/// XSTS's status.
pub proof fn law_on_xsts_status(
    flow: SessionFlow,
    xbl: XboxToken,
    status: HttpStatus,
    r: (SessionFlow, Action),
)
    requires
        100 <= status@ <= 999,
        flow.stage == (Stage::Xsts { xbl }),
        call_ensures(SessionFlow::advance, (flow, Event::Status(status)), r),
    ensures
        r.0.endpoints == flow.endpoints,
        status@ / 100 == 2 ==> r.0.stage == (Stage::XstsToken { xbl }) && r.1 is ReadToken,
        status@ == 401 ==> r.0.stage is XstsRefused && r.1 is ReadXstsError,
        status@ / 100 != 2 && status@ != 401 ==> r.0.stage is Closed && fails_with(
            r.1,
            "XSTS a refusé la connexion"@ + " ("@ + shown(status@) + ")"@,
        ),
{
    lemma_status_text(status@);
}

/// XSTS's reason: the sign-in ends with what it says. A body that could not be
/// read has code 0 and no message.
pub proof fn law_on_xsts_error(
    flow: SessionFlow,
    error: Option<XstsError>,
    r: (SessionFlow, Action),
)
    requires
        flow.stage is XstsRefused,
        call_ensures(SessionFlow::advance, (flow, Event::XstsError(error)), r),
    ensures
        r.0.endpoints == flow.endpoints,
        r.0.stage is Closed,
        r.1 matches Action::Fail(said) && tells_xsts_refusal(
            said.message@,
            if error is Some {
                error->0.xerr
            } else {
                0
            },
            if error is Some {
                held(error->0.message)
            } else {
                Seq::empty()
            },
        ),
{
    let said = r.1->Fail_0.message@;
    match error {
        Some(error) => lemma_xsts_refusal(
            said,
            error.xerr,
            crate::xbox::optional_text(error.message),
        ),
        None => lemma_xsts_refusal(said, 0, None),
    }
}

/// The hash of the user: that of XSTS's token, else that of Xbox Live's.
pub open spec fn hash_of(xsts: XboxToken, xbl: XboxToken) -> Option<String> {
    if first_user(xsts) is Some && first_user(xsts)->0.uhs is Some {
        first_user(xsts)->0.uhs
    } else if first_user(xbl) is Some {
        first_user(xbl)->0.uhs
    } else {
        None
    }
}

/// XSTS's token: the Minecraft login is sent the user's hash and that token,
/// and its Xbox id is kept; without a hash the sign-in fails.
pub proof fn law_on_xsts_token(
    flow: SessionFlow,
    xbl: XboxToken,
    xsts: XboxToken,
    r: (SessionFlow, Action),
)
    requires
        flow.stage == (Stage::XstsToken { xbl }),
        call_ensures(SessionFlow::advance, (flow, Event::Token(xsts)), r),
    ensures
        r.0.endpoints == flow.endpoints,
        hash_of(xsts, xbl) is None ==> r.0.stage is Closed && fails_with(
            r.1,
            "réponse Xbox Live sans identifiant d'utilisateur"@,
        ),
        hash_of(xsts, xbl) matches Some(hash) ==> {
            &&& r.0.stage == (Stage::Login {
                xuid: if first_user(xsts) is Some {
                    first_user(xsts)->0.xid
                } else {
                    None
                },
            })
            &&& r.1 matches Action::Post(request)
            &&& request.url@ == flow.endpoints.minecraft_login@
            &&& asks_login(request.body, hash@, xsts.token@)
        },
{
    if let Some(hash) = hash_of(xsts, xbl) {
        let request = r.1->Post_0;
        assert(request@.url == request.url@ && request@.body == request.body@);
        lemma_asks_login(request.body, hash@, xsts.token@);
    }
}

/// The Minecraft login's status.
pub proof fn law_on_login_status(
    flow: SessionFlow,
    xuid: Option<String>,
    status: HttpStatus,
    r: (SessionFlow, Action),
)
    requires
        100 <= status@ <= 999,
        flow.stage == (Stage::Login { xuid }),
        call_ensures(SessionFlow::advance, (flow, Event::Status(status)), r),
    ensures
        r.0.endpoints == flow.endpoints,
        status@ / 100 == 2 ==> r.0.stage == (Stage::LoginAnswer { xuid }) && r.1 is ReadLogin,
        status@ == 403 ==> r.0.stage is Closed && fails_with(
            r.1,
            "l'application n'est pas autorisée par Mojang à utiliser l'API Minecraft (403). Une déclaration Azure neuve doit être validée : formulaire sur "@
                + "https://aka.ms/mce-reviewappid"@
                + ", réponse sous quelques jours. En attendant, les comptes hors-ligne fonctionnent."@,
        ),
        status@ / 100 != 2 && status@ != 403 ==> r.0.stage == (Stage::LoginRefused { status })
            && r.1 is ReadText,
{
}

/// Why the Minecraft login was turned down: the sign-in ends with what is said.
pub proof fn law_on_login_refusal(
    flow: SessionFlow,
    status: HttpStatus,
    detail: Option<String>,
    r: (SessionFlow, Action),
)
    requires
        100 <= status@ <= 999,
        flow.stage == (Stage::LoginRefused { status }),
        call_ensures(SessionFlow::advance, (flow, Event::Text(detail)), r),
    ensures
        r.0.endpoints == flow.endpoints,
        r.0.stage is Closed,
        r.1 matches Action::Fail(said) && tells_login_refusal(
            said.message@,
            status@,
            held(detail),
        ),
{
    lemma_login_refusal(r.1->Fail_0.message@, status@, held(detail));
}

/// The Minecraft login's answer: the profile is asked for with its token.
pub proof fn law_on_login_answer(
    flow: SessionFlow,
    xuid: Option<String>,
    login: MinecraftLogin,
    r: (SessionFlow, Action),
)
    requires
        flow.stage == (Stage::LoginAnswer { xuid }),
        call_ensures(SessionFlow::advance, (flow, Event::Login(login)), r),
    ensures
        r.0.endpoints == flow.endpoints,
        r.0.stage == (Stage::Profile { login, xuid }),
        r.1 matches Action::Get(request) && request.url@ == flow.endpoints.minecraft_profile@
            && request.token@ == login.access_token@,
{
    let request = r.1->Get_0;
    assert(request@.url == request.url@ && request@.token == request.token@);
}

/// The profile's status.
pub proof fn law_on_profile_status(
    flow: SessionFlow,
    login: MinecraftLogin,
    xuid: Option<String>,
    status: HttpStatus,
    r: (SessionFlow, Action),
)
    requires
        100 <= status@ <= 999,
        flow.stage == (Stage::Profile { login, xuid }),
        call_ensures(SessionFlow::advance, (flow, Event::Status(status)), r),
    ensures
        r.0.endpoints == flow.endpoints,
        status@ / 100 == 2 ==> r.0.stage == (Stage::ProfileAnswer { login, xuid })
            && r.1 is ReadProfile,
        status@ == 404 ==> r.0.stage is Closed && fails_with(
            r.1,
            "ce compte Microsoft ne possède pas Minecraft: Java Edition"@,
        ),
        status@ / 100 != 2 && status@ != 404 ==> r.0.stage is Closed && fails_with(
            r.1,
            "profil Minecraft irrécupérable"@ + " ("@ + shown(status@) + ")"@,
        ),
{
    lemma_status_text(status@);
}

/// The profile: its id and its name are the session's identity, the rest is
/// what the Minecraft login and XSTS gave.
pub proof fn law_on_profile(
    flow: SessionFlow,
    login: MinecraftLogin,
    xuid: Option<String>,
    profile: Profile,
    r: (SessionFlow, Action),
)
    requires
        flow.stage == (Stage::ProfileAnswer { login, xuid }),
        call_ensures(SessionFlow::advance, (flow, Event::Profile(profile)), r),
    ensures
        r.0.endpoints == flow.endpoints,
        r.0.stage is Closed,
        (forall|value: int| !#[trigger] writes_uuid(profile.id@, value)) ==> fails_with(
            r.1,
            "UUID de profil illisible: "@ + profile.id@,
        ),
        (exists|value: int| #[trigger] writes_uuid(profile.id@, value)) ==> {
            &&& r.1 matches Action::Open(draft)
            &&& writes_uuid(profile.id@, draft.uuid as int)
            &&& draft.username@ == profile.name@
            &&& draft.access_token@ == login.access_token@
            &&& draft.expires_in == login.expires_in
            &&& draft.xuid == xuid
        },
{
    law_uuid_fits_in_128_bits(profile.id@);
    lemma_uuid_is_written(profile.id@);
}

/// An event that is not the one the stage waits for changes nothing.
pub proof fn law_on_anything_else(flow: SessionFlow, event: Event, r: (SessionFlow, Action))
    requires
        call_ensures(SessionFlow::advance, (flow, event), r),
        event is Status ==> !(flow.stage is XboxLive || flow.stage is Xsts || flow.stage is Login
            || flow.stage is Profile),
        event is Token ==> !(flow.stage is XboxLiveToken || flow.stage is XstsToken),
        event is XstsError ==> !(flow.stage is XstsRefused),
        event is Login ==> !(flow.stage is LoginAnswer),
        event is Text ==> !(flow.stage is LoginRefused),
        event is Profile ==> !(flow.stage is ProfileAnswer),
    ensures
        r.0.endpoints == flow.endpoints,
        r.0.stage == flow.stage,
        r.1 is Ignore,
{
}

} // verus!
