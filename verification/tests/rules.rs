//! The rules one by one, on values at their edges.

use glauncher_auth::client::{resolve_client_id, Endpoints, CLIENT_ID_ENV};
use glauncher_auth::clock::{epoch_ms, is_fresh, is_fresh_at, now_ms, EXPIRY_MARGIN_MS};
use glauncher_auth::credentials::MicrosoftCredentials;
use glauncher_auth::exchange::{
    login_refusal, login_verdict, minecraft_login, minecraft_profile, profile_verdict,
    xbox_live_authenticate, xbox_live_verdict, xsts_authorize, xsts_verdict, Verdict,
};
use glauncher_auth::json::Json;
use glauncher_auth::session::{minecraft_session, Action, Event, SessionDraft, SessionFlow, Stage};
use glauncher_auth::status::HttpStatus;
use glauncher_auth::text::{decimal, same_text};
use glauncher_auth::tokens::{
    body_kind, device_code_request, poll_request, poll_token, post_token, refresh_request, refresh_tokens,
    request_device_code, BodyKind, DeviceCode, Poll, Reply, TokenError, TokenResponse,
};
use glauncher_auth::xbox::{DisplayClaims, MinecraftLogin, Profile, XboxToken, XstsError, Xui};

fn status(code: u16) -> HttpStatus {
    HttpStatus::new(code).unwrap()
}

fn text(json: &Json) -> &str {
    match json {
        Json::Text(text) => text,
        other => panic!("a string was expected, not {other:?}"),
    }
}

fn member<'a>(json: &'a Json, name: &str) -> &'a Json {
    match json {
        Json::Object(members) => {
            &members
                .iter()
                .find(|(member, _)| *member == name)
                .expect(name)
                .1
        }
        other => panic!("an object was expected, not {other:?}"),
    }
}

fn names(json: &Json) -> Vec<&'static str> {
    match json {
        Json::Object(members) => members.iter().map(|(name, _)| *name).collect(),
        other => panic!("an object was expected, not {other:?}"),
    }
}

fn fields(request: &glauncher_auth::tokens::FormRequest) -> Vec<(&str, &str)> {
    request
        .fields
        .iter()
        .map(|(name, value)| (*name, value.as_str()))
        .collect()
}

fn refusal(error: &str, description: Option<&str>) -> Option<TokenError> {
    Some(TokenError {
        error: error.to_string(),
        error_description: description.map(|text| text.to_string()),
    })
}

fn poll_refused(error: Option<TokenError>) -> Result<Poll, String> {
    poll_token(Reply::Refused {
        status: status(400),
        error,
    })
    .map_err(|error| error.to_string())
}

fn token(text: &str, uhs: Option<&str>, xid: Option<&str>) -> XboxToken {
    XboxToken {
        token: text.to_string(),
        display_claims: Some(DisplayClaims {
            xui: vec![
                Xui {
                    uhs: uhs.map(|text| text.to_string()),
                    xid: xid.map(|text| text.to_string()),
                },
                Xui {
                    uhs: Some("second".to_string()),
                    xid: Some("second".to_string()),
                },
            ],
        }),
    }
}

fn at(stage: Stage) -> SessionFlow {
    SessionFlow {
        endpoints: Endpoints::all_on("http://localhost"),
        stage,
    }
}

fn login() -> MinecraftLogin {
    MinecraftLogin {
        access_token: "JETON".to_string(),
        expires_in: 86400,
    }
}

fn refused_with(verdict: Verdict) -> String {
    match verdict {
        Verdict::Refused(error) => error.to_string(),
        other => panic!("a refusal was expected, not {other:?}"),
    }
}

fn failure(action: Action) -> String {
    match action {
        Action::Fail(error) => error.to_string(),
        other => panic!("a failure was expected, not {other:?}"),
    }
}

fn read_profile(id: &str) -> Action {
    at(Stage::ProfileAnswer {
        login: login(),
        xuid: None,
    })
    .advance(Event::Profile(Profile {
        id: id.to_string(),
        name: "Notch".to_string(),
    }))
    .1
}

#[test]
fn whitespace_of_every_kind_is_taken_off_the_client_id() {
    assert_eq!(
        resolve_client_id("\u{3000}\t a b\u{a0}\u{2028}\r\n", "compile").unwrap(),
        "a b"
    );
    assert_eq!(
        resolve_client_id("\u{85}\u{1680}\u{2003}\u{202f}\u{205f}", " compile\n").unwrap(),
        "compile"
    );
    // A zero-width space is no whitespace.
    assert_eq!(resolve_client_id("\u{200b}", "compile").unwrap(), "\u{200b}");
}

#[test]
fn choosing_the_client_id_again_changes_nothing() {
    let id = resolve_client_id("  choisi ", "compile").unwrap();
    assert_eq!(resolve_client_id(&id, "compile").unwrap(), id);
    assert_eq!(resolve_client_id("", &id).unwrap(), id);
    assert_eq!(
        resolve_client_id("  choisi ", "autre").unwrap(),
        resolve_client_id("  choisi ", "compile").unwrap()
    );
}

#[test]
fn a_missing_client_id_ends_with_the_variable() {
    let error = resolve_client_id(" \t", "\n").unwrap_err().to_string();
    assert!(error.starts_with("aucun identifiant d'application Microsoft configuré"));
    assert!(error.ends_with(CLIENT_ID_ENV));
}

#[test]
fn the_public_addresses() {
    let endpoints = Endpoints::default();
    assert_eq!(
        endpoints.device_code,
        "https://login.microsoftonline.com/consumers/oauth2/v2.0/devicecode"
    );
    assert_eq!(
        endpoints.token,
        "https://login.microsoftonline.com/consumers/oauth2/v2.0/token"
    );
    assert_eq!(
        endpoints.xbox_live,
        "https://user.auth.xboxlive.com/user/authenticate"
    );
    assert_eq!(
        endpoints.xsts,
        "https://xsts.auth.xboxlive.com/xsts/authorize"
    );
    assert_eq!(
        endpoints.minecraft_login,
        "https://api.minecraftservices.com/authentication/login_with_xbox"
    );
    assert_eq!(
        endpoints.minecraft_profile,
        "https://api.minecraftservices.com/minecraft/profile"
    );
    let local = Endpoints::all_on("http://localhost:1");
    assert_eq!(local.xbox_live, "http://localhost:1/xbl");
    assert_eq!(local.minecraft_profile, "http://localhost:1/profile");
}

#[test]
fn numbers_are_written_in_decimal() {
    assert_eq!(decimal(0), "0");
    assert_eq!(decimal(9), "9");
    assert_eq!(decimal(10), "10");
    assert_eq!(decimal(1203456789), "1203456789");
    assert_eq!(decimal(u64::MAX), u64::MAX.to_string());
    assert!(same_text("slow_down", "slow_down"));
    assert!(!same_text("slow_down ", "slow_down"));
}

#[test]
fn a_status_has_three_digits_and_shows_its_reason() {
    assert!(HttpStatus::new(99).is_none());
    assert!(HttpStatus::new(1000).is_none());
    assert_eq!(status(100).code(), 100);
    assert_eq!(status(400).to_string(), "400 Bad Request");
    assert_eq!(status(999).to_string(), "999 <unknown status code>");
    assert!(!status(199).is_success());
    assert!(status(200).is_success());
    assert!(status(299).is_success());
    assert!(!status(300).is_success());
}

#[test]
fn the_clock_counts_milliseconds_since_1970() {
    assert_eq!(epoch_ms(None), 0);
    assert_eq!(epoch_ms(Some(1_700_000_000_123)), 1_700_000_000_123);
    assert_eq!(epoch_ms(Some(u64::MAX as u128 + 6)), 5);
    // Later than 2020 and never backwards by much: this is the real clock.
    let now = now_ms();
    assert!(now > 1_577_836_800_000);
    assert!(now_ms() + 60_000 > now);
}

#[test]
fn the_margin_is_five_minutes_to_the_millisecond() {
    assert_eq!(EXPIRY_MARGIN_MS, 5 * 60 * 1000);
    assert!(is_fresh_at(1_000_000, 1_300_000));
    assert!(!is_fresh_at(1_000_000, 1_299_999));
    assert!(!is_fresh_at(u64::MAX, u64::MAX));
    assert!(is_fresh_at(u64::MAX - EXPIRY_MARGIN_MS, u64::MAX));
    assert!(!is_fresh(0));
    assert!(!is_fresh(EXPIRY_MARGIN_MS - 1));
}

#[test]
fn credentials_are_fresh_by_their_expiry() {
    let credentials = |expires_at_ms: u64| MicrosoftCredentials {
        refresh_token: "R".to_string(),
        access_token: "A".to_string(),
        expires_at_ms,
        xuid: None,
    };
    assert!(!credentials(now_ms()).is_fresh());
    assert!(!credentials(0).is_fresh());
    assert!(credentials(now_ms() + 3_600_000).is_fresh());

    assert!(credentials(1_300_000).is_fresh_at(1_000_000));
    assert!(!credentials(1_299_999).is_fresh_at(1_000_000));
    assert!(!credentials(u64::MAX).is_fresh_at(u64::MAX));
}

#[test]
fn the_tokens_and_the_xuid_have_no_say_in_freshness() {
    let one = MicrosoftCredentials {
        refresh_token: "R".to_string(),
        access_token: "A".to_string(),
        expires_at_ms: 1_300_000,
        xuid: None,
    };
    let other = MicrosoftCredentials {
        refresh_token: "".to_string(),
        access_token: "another".to_string(),
        expires_at_ms: 1_300_000,
        xuid: Some("2535".to_string()),
    };
    for now in [0, 999_999, 1_000_000, 1_000_001, 1_300_000, u64::MAX] {
        assert_eq!(one.is_fresh_at(now), other.is_fresh_at(now));
        assert_eq!(one.is_fresh_at(now), is_fresh_at(now, 1_300_000));
    }
}

#[test]
fn the_forms_in_full() {
    let endpoints = Endpoints::all_on("http://localhost");
    let request = device_code_request(&endpoints, "cli");
    assert_eq!(request.url, "http://localhost/devicecode");
    assert_eq!(
        fields(&request),
        vec![
            ("client_id", "cli"),
            ("scope", "XboxLive.signin offline_access")
        ]
    );
    let request = poll_request(&endpoints, "cli", "DEV");
    assert_eq!(request.url, "http://localhost/token");
    assert_eq!(
        fields(&request),
        vec![
            ("client_id", "cli"),
            ("grant_type", "urn:ietf:params:oauth:grant-type:device_code"),
            ("device_code", "DEV")
        ]
    );
    let request = refresh_request(&endpoints, "cli", "REF");
    assert_eq!(request.url, "http://localhost/token");
    assert_eq!(
        fields(&request),
        vec![
            ("client_id", "cli"),
            ("grant_type", "refresh_token"),
            ("refresh_token", "REF"),
            ("scope", "XboxLive.signin offline_access")
        ]
    );
}

#[test]
fn a_status_that_accepts_comes_with_the_answer() {
    assert!(matches!(body_kind(status(200)), BodyKind::Answer));
    assert!(matches!(body_kind(status(299)), BodyKind::Answer));
    assert!(matches!(body_kind(status(300)), BodyKind::Refusal));
    assert!(matches!(body_kind(status(400)), BodyKind::Refusal));
}

#[test]
fn a_refused_device_code_says_why() {
    let refused = |error: Option<TokenError>| {
        let reply: Reply<DeviceCode> = Reply::Refused {
            status: status(401),
            error,
        };
        request_device_code(reply).unwrap_err().to_string()
    };
    assert_eq!(
        refused(refusal("invalid_client", Some("no such application"))),
        "Microsoft a refusé la demande de code (401 Unauthorized) : no such application"
    );
    assert_eq!(
        refused(refusal("invalid_client", Some(""))),
        "Microsoft a refusé la demande de code (401 Unauthorized) : invalid_client"
    );
    assert_eq!(
        refused(None),
        "Microsoft a refusé la demande de code (401 Unauthorized) : "
    );
}

#[test]
fn every_code_of_a_refused_poll() {
    let said = |code: &str| poll_refused(refusal(code, Some("details"))).unwrap_err();
    assert_eq!(
        said("expired_token"),
        "le code de connexion a expiré, recommencez"
    );
    assert_eq!(
        said("code_expired"),
        "le code de connexion a expiré, recommencez"
    );
    assert_eq!(
        said("authorization_declined"),
        "connexion refusée dans le navigateur"
    );
    assert_eq!(said("bad_verification_code"), "code de connexion invalide");
    assert_eq!(said("server_error"), "details");
    assert_eq!(
        poll_refused(refusal("server_error", None)).unwrap_err(),
        "server_error"
    );
    assert!(matches!(
        poll_refused(refusal("authorization_pending", None)),
        Ok(Poll::Pending)
    ));
    assert!(matches!(
        poll_refused(refusal("slow_down", Some("details"))),
        Ok(Poll::SlowDown)
    ));
}

#[test]
fn a_refusal_without_a_code_gets_the_status() {
    let reply: Reply<TokenResponse> = Reply::Refused {
        status: status(503),
        error: None,
    };
    let error = post_token(reply).unwrap_err();
    assert_eq!(error.error, "http_503 Service Unavailable");
    assert_eq!(error.error_description, None);
    assert_eq!(poll_refused(None).unwrap_err(), "http_400 Bad Request");
    assert_eq!(
        poll_refused(refusal("", Some("the body"))).unwrap_err(),
        "the body"
    );
    let reply: Reply<TokenResponse> = Reply::Refused {
        status: status(400),
        error: refusal("other", None),
    };
    assert_eq!(post_token(reply).unwrap_err().error, "other");
}

#[test]
fn renewing_grants_or_describes() {
    let response = || TokenResponse {
        access_token: "A".to_string(),
        refresh_token: "R".to_string(),
    };
    let tokens = refresh_tokens(Reply::Accepted(response())).unwrap();
    let Ok(Poll::Ready(polled)) = poll_token(Reply::Accepted(response())) else {
        panic!("tokens were expected");
    };
    assert_eq!(tokens.access_token, polled.access_token);
    assert_eq!(tokens.refresh_token, polled.refresh_token);
    let said = |error: Option<TokenError>| {
        let reply: Reply<TokenResponse> = Reply::Refused {
            status: status(400),
            error,
        };
        refresh_tokens(reply).unwrap_err().to_string()
    };
    // Waiting makes no sense here: its code is an error like any other.
    assert_eq!(
        said(refusal("authorization_pending", None)),
        "authorization_pending"
    );
    assert_eq!(said(refusal("other", Some("details"))), "details");
    assert_eq!(said(None), "http_400 Bad Request");
}

#[test]
fn the_documents_in_full() {
    let endpoints = Endpoints::all_on("http://localhost");

    let request = xbox_live_authenticate(&endpoints, "JETON");
    assert_eq!(request.url, "http://localhost/xbl");
    assert_eq!(
        names(&request.body),
        vec!["Properties", "RelyingParty", "TokenType"]
    );
    let properties = member(&request.body, "Properties");
    assert_eq!(
        names(properties),
        vec!["AuthMethod", "SiteName", "RpsTicket"]
    );
    assert_eq!(text(member(properties, "AuthMethod")), "RPS");
    assert_eq!(
        text(member(properties, "SiteName")),
        "user.auth.xboxlive.com"
    );
    assert_eq!(text(member(properties, "RpsTicket")), "d=JETON");
    assert_eq!(
        text(member(&request.body, "RelyingParty")),
        "http://auth.xboxlive.com"
    );
    assert_eq!(text(member(&request.body, "TokenType")), "JWT");

    let request = xsts_authorize(&endpoints, "XBL");
    assert_eq!(request.url, "http://localhost/xsts");
    let properties = member(&request.body, "Properties");
    assert_eq!(text(member(properties, "SandboxId")), "RETAIL");
    let Json::List(tokens) = member(properties, "UserTokens") else {
        panic!("an array was expected");
    };
    assert_eq!(tokens.len(), 1);
    assert_eq!(text(&tokens[0]), "XBL");
    assert_eq!(
        text(member(&request.body, "RelyingParty")),
        "rp://api.minecraftservices.com/"
    );
    assert_eq!(text(member(&request.body, "TokenType")), "JWT");

    let request = minecraft_login(&endpoints, "hash", "XSTS");
    assert_eq!(request.url, "http://localhost/login_with_xbox");
    assert_eq!(names(&request.body), vec!["identityToken"]);
    assert_eq!(
        text(member(&request.body, "identityToken")),
        "XBL3.0 x=hash;XSTS"
    );

    let request = minecraft_profile(&endpoints, "JETON");
    assert_eq!(request.url, "http://localhost/profile");
    assert_eq!(request.token, "JETON");
}

#[test]
fn what_each_status_decides() {
    assert!(matches!(xbox_live_verdict(status(201)), Verdict::Accepted));
    assert_eq!(
        refused_with(xbox_live_verdict(status(401))),
        "Xbox Live a refusé la connexion (401 Unauthorized)"
    );
    assert!(matches!(xsts_verdict(status(200)), Verdict::Accepted));
    assert!(matches!(xsts_verdict(status(401)), Verdict::Explained));
    assert_eq!(
        refused_with(xsts_verdict(status(500))),
        "XSTS a refusé la connexion (500 Internal Server Error)"
    );
    assert!(matches!(login_verdict(status(200)), Verdict::Accepted));
    assert!(matches!(login_verdict(status(429)), Verdict::Explained));
    assert_eq!(
        refused_with(login_verdict(status(403))),
        "l'application n'est pas autorisée par Mojang à utiliser l'API Minecraft \
         (403). Une déclaration Azure neuve doit être validée : formulaire sur \
         https://aka.ms/mce-reviewappid, réponse sous quelques jours. En attendant, les comptes \
         hors-ligne fonctionnent."
    );
    assert!(matches!(profile_verdict(status(200)), Verdict::Accepted));
    assert_eq!(
        refused_with(profile_verdict(status(404))),
        "ce compte Microsoft ne possède pas Minecraft: Java Edition"
    );
    assert_eq!(
        refused_with(profile_verdict(status(302))),
        "profil Minecraft irrécupérable (302 Found)"
    );
}

#[test]
fn a_refused_login_quotes_a_body_that_is_not_blank() {
    let said =
        |detail: Option<&str>| login_refusal(status(400), detail.map(|d| d.to_string())).to_string();
    assert_eq!(
        said(None),
        "Minecraft a refusé la connexion (400 Bad Request)"
    );
    assert_eq!(
        said(Some(" \n")),
        "Minecraft a refusé la connexion (400 Bad Request)"
    );
    assert_eq!(
        said(Some(" {\"error\": 1}\n")),
        "Minecraft a refusé la connexion (400 Bad Request) : {\"error\": 1}"
    );
}

#[test]
fn every_code_of_an_xsts_refusal() {
    let said = |xerr: u64, message: Option<&str>| {
        XstsError {
            xerr,
            message: message.map(|text| text.to_string()),
        }
        .describe()
    };
    assert_eq!(
        said(2148916227, Some("raw")),
        "ce compte Xbox Live a été suspendu"
    );
    assert_eq!(
        said(2148916233, Some("raw")),
        "ce compte Microsoft n'a pas de profil Xbox créez-en un sur \
         xbox.com, puis réessayez"
    );
    assert_eq!(
        said(2148916235, None),
        "Xbox Live n'est pas disponible dans le pays de ce compte"
    );
    assert_eq!(
        said(2148916236, None),
        "ce compte doit passer la vérification d'adulte (Corée du Sud)"
    );
    assert_eq!(
        said(2148916237, None),
        "ce compte doit passer la vérification d'adulte (Corée du Sud)"
    );
    assert_eq!(
        said(2148916238, None),
        "ce compte est un compte enfant : rattachez-le à une famille \
         Microsoft, puis réessayez"
    );
    assert_eq!(said(2148916234, Some("raw")), "raw");
    assert_eq!(
        said(2148916234, Some("")),
        "Xbox Live a refusé la connexion (XErr 2148916234)"
    );
    assert_eq!(said(0, None), "Xbox Live a refusé la connexion (XErr 0)");
}

#[test]
fn the_first_claim_names_the_user() {
    let named = token("T", Some("hash"), Some("2535"));
    assert_eq!(named.user_hash().as_deref(), Some("hash"));
    assert_eq!(named.xuid().as_deref(), Some("2535"));
    // The second claim does not count.
    let unnamed = token("T", None, None);
    assert!(unnamed.first_claim().is_some());
    assert_eq!(unnamed.user_hash(), None);
    assert_eq!(unnamed.xuid(), None);
    let empty = XboxToken {
        token: "T".to_string(),
        display_claims: Some(DisplayClaims { xui: vec![] }),
    };
    assert!(empty.first_claim().is_none());
    let none = XboxToken {
        token: "T".to_string(),
        display_claims: None,
    };
    assert!(none.first_claim().is_none());
    assert_eq!(none.user_hash(), None);
}

#[test]
fn the_hash_of_xsts_wins_over_that_of_xbox_live() {
    let logged = |xbl: Option<&str>, xsts: Option<&str>| {
        at(Stage::XstsToken {
            xbl: token("XBL", xbl, Some("not this one")),
        })
        .advance(Event::Token(token("XSTS", xsts, None)))
        .1
    };
    let identity = |action: Action| match action {
        Action::Post(request) => text(member(&request.body, "identityToken")).to_string(),
        other => panic!("a request was expected, not {other:?}"),
    };
    assert_eq!(identity(logged(Some("a"), Some("b"))), "XBL3.0 x=b;XSTS");
    assert_eq!(identity(logged(Some("a"), None)), "XBL3.0 x=a;XSTS");
    assert_eq!(
        failure(logged(None, None)),
        "réponse Xbox Live sans identifiant d'utilisateur"
    );
    // The Xbox id is that of the XSTS token alone.
    let (flow, _) = at(Stage::XstsToken {
        xbl: token("XBL", Some("a"), Some("not this one")),
    })
    .advance(Event::Token(token("XSTS", None, None)));
    assert!(matches!(flow.stage, Stage::Login { xuid: None }));
}

#[test]
fn the_uuid_is_read_in_each_of_its_forms() {
    let uuid = |id: &str| match read_profile(id) {
        Action::Open(draft) => draft.uuid,
        other => panic!("a session was expected, not {other:?}"),
    };
    let expected = 0x069a79f444e94726a5befca90e38aaf5u128;
    assert_eq!(uuid("069a79f444e94726a5befca90e38aaf5"), expected);
    assert_eq!(uuid("069A79F444E94726A5BEFCA90E38AAF5"), expected);
    assert_eq!(uuid("069a79f4-44e9-4726-a5be-fca90e38aaf5"), expected);
    assert_eq!(uuid("{069a79f4-44e9-4726-a5be-fca90e38aaf5}"), expected);
    assert_eq!(
        uuid("urn:uuid:069a79f4-44e9-4726-a5be-fca90e38aaf5"),
        expected
    );
    assert_eq!(
        uuid("URN:Uuid:069a79f4-44e9-4726-a5be-fca90e38aaf5"),
        expected
    );
    assert_eq!(uuid("ffffffffffffffffffffffffffffffff"), u128::MAX);
}

#[test]
fn an_unreadable_uuid_is_quoted() {
    let unreadable = [
        "",
        "Notch",
        "069a79f444e94726a5befca90e38aaf",
        "069a79f444e94726a5befca90e38aag5",
        "069a79f4-44e9-4726-a5befca9-0e38aaf5",
        "{069a79f4-44e9-4726-a5be-fca90e38aaf5)",
        "{069a79f444e94726a5befca90e38aaf5}",
        "urn:guid:069a79f4-44e9-4726-a5be-fca90e38aaf5",
        "069a79f444e94726a5befca90e38aaé5",
    ];
    for id in unreadable {
        assert_eq!(
            failure(read_profile(id)),
            format!("UUID de profil illisible: {id}")
        );
    }
}

#[test]
fn a_session_expires_when_its_token_does() {
    let draft = |expires_in: u64| SessionDraft {
        uuid: 7,
        username: "Notch".to_string(),
        access_token: "JETON".to_string(),
        expires_in,
        xuid: Some("2535".to_string()),
    };
    let session = draft(86400).open_at(1_000);
    assert_eq!(session.expires_at_ms, 86_401_000);
    assert_eq!(session.uuid, 7);
    assert_eq!(session.username, "Notch");
    assert_eq!(session.access_token, "JETON");
    assert_eq!(session.xuid.as_deref(), Some("2535"));
    assert_eq!(draft(0).open_at(1_000).expires_at_ms, 1_000);
    // A lifetime past 64 bits counts as all that 64 bits hold.
    assert_eq!(draft(u64::MAX).open_at(0).expires_at_ms, u64::MAX);
    // An expiry past 64 bits opens nothing.
    assert_eq!(
        draft(1).checked_open_at(u64::MAX - 1_000).unwrap().expires_at_ms,
        u64::MAX
    );
    assert!(draft(1).checked_open_at(u64::MAX - 999).is_none());
    assert!(draft(u64::MAX).checked_open_at(1).is_none());
    assert_eq!(
        draft(0).checked_open_at(u64::MAX).unwrap().expires_at_ms,
        u64::MAX
    );
    // Fresh when opened, if it lives for the margin.
    assert!(is_fresh_at(1_000, draft(300).open_at(1_000).expires_at_ms));
    assert!(!is_fresh_at(1_000, draft(299).open_at(1_000).expires_at_ms));

    let before = now_ms();
    let session = draft(86400).open().unwrap();
    assert!(session.expires_at_ms >= before + 86_400_000);
    assert!(session.expires_at_ms <= now_ms() + 86_400_000);
    // By the clock, a lifetime that fills 64 bits has no end that fits.
    assert!(draft(u64::MAX).open().is_none());
}

#[test]
fn a_refusal_is_the_end_at_every_service() {
    let stages = || {
        vec![
            Stage::XboxLive,
            Stage::Xsts {
                xbl: token("XBL", None, None),
            },
            Stage::Login { xuid: None },
            Stage::Profile {
                login: login(),
                xuid: None,
            },
        ]
    };
    for code in [199, 302, 400, 401, 403, 404, 500] {
        for stage in stages() {
            let (flow, action) = at(stage).advance(Event::Status(status(code)));
            assert!(matches!(
                flow.stage,
                Stage::Closed | Stage::XstsRefused | Stage::LoginRefused { .. }
            ));
            assert!(!matches!(
                action,
                Action::Post(_) | Action::Get(_) | Action::Open(_)
            ));
            // Nothing follows it.
            let (flow, action) = flow.advance(Event::Status(status(200)));
            assert!(matches!(action, Action::Ignore));
            let (_, action) = flow.advance(Event::Token(token("T", Some("h"), None)));
            assert!(matches!(action, Action::Ignore));
        }
    }
}

#[test]
fn refusals_read_their_reason() {
    let (flow, action) = at(Stage::Xsts {
        xbl: token("XBL", None, None),
    })
    .advance(Event::Status(status(401)));
    assert!(matches!(action, Action::ReadXstsError));
    let (flow, action) = flow.advance(Event::XstsError(None));
    assert_eq!(
        failure(action),
        "Xbox Live a refusé la connexion (XErr 0)"
    );
    assert!(matches!(flow.stage, Stage::Closed));

    let (flow, action) = at(Stage::Login { xuid: None }).advance(Event::Status(status(429)));
    assert!(matches!(action, Action::ReadText));
    let (flow, action) = flow.advance(Event::Text(Some("slow".to_string())));
    assert_eq!(
        failure(action),
        "Minecraft a refusé la connexion (429 Too Many Requests) : slow"
    );
    assert!(matches!(flow.stage, Stage::Closed));
}

#[test]
fn an_event_out_of_turn_changes_nothing() {
    let (flow, _) = minecraft_session(Endpoints::default(), "JETON");
    let (flow, action) = flow.advance(Event::Profile(Profile {
        id: "069a79f444e94726a5befca90e38aaf5".to_string(),
        name: "Notch".to_string(),
    }));
    assert!(matches!(action, Action::Ignore));
    assert!(matches!(flow.stage, Stage::XboxLive));
    let (flow, action) = flow.advance(Event::Token(token("T", None, None)));
    assert!(matches!(action, Action::Ignore));
    let (flow, action) = flow.advance(Event::Status(status(200)));
    assert!(matches!(action, Action::ReadToken));
    assert!(matches!(flow.stage, Stage::XboxLiveToken));
    assert_eq!(
        flow.endpoints.xsts,
        "https://xsts.auth.xboxlive.com/xsts/authorize"
    );
}

#[test]
fn each_service_is_asked_once_and_in_order() {
    let (mut flow, action) = minecraft_session(Endpoints::all_on("http://localhost"), "JETON");
    let mut asked: Vec<String> = Vec::new();
    let note = |asked: &mut Vec<String>, action: &Action| match action {
        Action::Post(request) => asked.push(request.url.clone()),
        Action::Get(request) => asked.push(request.url.clone()),
        _ => {}
    };
    note(&mut asked, &action);
    // Every event comes twice, and most of them out of turn.
    for _ in 0..8 {
        for twice in 0..2 {
            let events = vec![
                Event::Token(token(&format!("T{twice}"), Some("h"), Some("2535"))),
                Event::Login(login()),
                Event::Status(status(200)),
            ];
            for event in events {
                let (next, action) = flow.advance(event);
                note(&mut asked, &action);
                flow = next;
            }
        }
    }
    assert!(matches!(flow.stage, Stage::ProfileAnswer { .. }));
    assert_eq!(
        asked,
        vec![
            "http://localhost/xbl",
            "http://localhost/xsts",
            "http://localhost/login_with_xbox",
            "http://localhost/profile"
        ]
    );
}
