//! The sign-in, exchange by exchange, with the replies that the services give.

use glauncher_auth::client::{
    client_id, resolve_client_id, Endpoints, CLIENT_ID_ENV, DEFAULT_CLIENT_ID,
};
use glauncher_auth::clock::{is_fresh, is_fresh_at, now_ms};
use glauncher_auth::exchange::{BearerRequest, JsonRequest, APP_REVIEW_FORM};
use glauncher_auth::json::Json;
use glauncher_auth::session::{minecraft_session, Action, Event, SessionFlow, Stage};
use glauncher_auth::status::HttpStatus;
use glauncher_auth::tokens::{
    device_code_request, poll_request, poll_token, refresh_request, refresh_tokens,
    request_device_code, DeviceCode, FormRequest, Poll, Reply, TokenError, TokenResponse,
};
use glauncher_auth::xbox::{DisplayClaims, MinecraftLogin, Profile, XboxToken, XstsError, Xui};
use uuid::Uuid;

const BASE: &str = "http://127.0.0.1:4321";

fn endpoints() -> Endpoints {
    Endpoints::all_on(BASE)
}

fn status(code: u16) -> HttpStatus {
    HttpStatus::new(code).unwrap()
}

/// The fields of a form as they are sent.
fn sent(request: &FormRequest) -> String {
    let mut text = String::new();
    for (name, value) in &request.fields {
        text.push_str(&format!("{name}={value}&"));
    }
    text
}

fn refused<T>(code: u16, error: &str, description: Option<&str>) -> Reply<T> {
    Reply::Refused {
        status: status(code),
        error: Some(TokenError {
            error: error.to_string(),
            error_description: description.map(|text| text.to_string()),
        }),
    }
}

fn token(text: &str, uhs: Option<&str>, xid: Option<&str>) -> XboxToken {
    XboxToken {
        token: text.to_string(),
        display_claims: Some(DisplayClaims {
            xui: vec![Xui {
                uhs: uhs.map(|text| text.to_string()),
                xid: xid.map(|text| text.to_string()),
            }],
        }),
    }
}

/// The document as it is sent, without the escapes that no test needs.
fn written(json: &Json) -> String {
    match json {
        Json::Text(text) => format!("\"{text}\""),
        Json::List(items) => {
            let items: Vec<String> = items.iter().map(written).collect();
            format!("[{}]", items.join(","))
        }
        Json::Object(members) => {
            let members: Vec<String> = members
                .iter()
                .map(|(name, value)| format!("\"{name}\":{}", written(value)))
                .collect();
            format!("{{{}}}", members.join(","))
        }
    }
}

fn posted(action: Action) -> JsonRequest {
    match action {
        Action::Post(request) => request,
        other => panic!("a request was expected, not {other:?}"),
    }
}

fn asked(action: Action) -> BearerRequest {
    match action {
        Action::Get(request) => request,
        other => panic!("a request was expected, not {other:?}"),
    }
}

fn failure(action: Action) -> String {
    match action {
        Action::Fail(error) => error.to_string(),
        other => panic!("a failure was expected, not {other:?}"),
    }
}

/// Goes through Xbox Live, XSTS and the Minecraft login with replies that
/// accept, up to the request for the profile.
fn happy_chain() -> (SessionFlow, BearerRequest) {
    let (flow, action) = minecraft_session(endpoints(), "MS-ACCESS");
    let request = posted(action);
    assert_eq!(request.url, format!("{BASE}/xbl"));
    // The ticket carries its `d=` prefix.
    assert!(written(&request.body).contains("d=MS-ACCESS"));

    let (flow, action) = flow.advance(Event::Status(status(200)));
    assert!(matches!(action, Action::ReadToken));
    let (flow, action) = flow.advance(Event::Token(token(
        "XBL-TOKEN",
        Some("hachage-utilisateur"),
        None,
    )));
    let request = posted(action);
    assert_eq!(request.url, format!("{BASE}/xsts"));
    assert!(written(&request.body).contains("XBL-TOKEN"));

    let (flow, action) = flow.advance(Event::Status(status(200)));
    assert!(matches!(action, Action::ReadToken));
    let (flow, action) = flow.advance(Event::Token(token(
        "XSTS-TOKEN",
        Some("hachage-utilisateur"),
        Some("2535"),
    )));
    let request = posted(action);
    assert_eq!(request.url, format!("{BASE}/login_with_xbox"));
    assert!(written(&request.body).contains("XBL3.0 x=hachage-utilisateur;XSTS-TOKEN"));

    let (flow, action) = flow.advance(Event::Status(status(200)));
    assert!(matches!(action, Action::ReadLogin));
    let (flow, action) = flow.advance(Event::Login(MinecraftLogin {
        access_token: "JETON-MINECRAFT".to_string(),
        expires_in: 86400,
    }));
    (flow, asked(action))
}

#[test]
fn the_compiled_client_id_is_a_real_application_id() {
    let id = client_id("").expect("un identifiant est compilé");
    assert!(Uuid::parse_str(&id).is_ok(), "identifiant illisible: {id}");
    assert_eq!(id, DEFAULT_CLIENT_ID);
}

#[test]
fn the_environment_wins_and_two_empties_name_the_variable_to_set() {
    assert_eq!(
        resolve_client_id("  de-la-variable  ", "compile").unwrap(),
        "de-la-variable"
    );
    assert_eq!(resolve_client_id("   ", "compile").unwrap(), "compile");

    let error = resolve_client_id("", "").unwrap_err().to_string();
    assert!(error.contains(CLIENT_ID_ENV), "{error}");
}

#[test]
fn the_device_code_request_asks_for_the_offline_scope() {
    let request = device_code_request(&endpoints(), "cli");
    assert_eq!(request.url, format!("{BASE}/devicecode"));
    assert!(sent(&request).contains("offline_access"));
    assert!(sent(&request).contains("client_id=cli"));

    let code = request_device_code(Reply::Accepted(DeviceCode {
        device_code: "DEV".to_string(),
        user_code: "ABCD-EFGH".to_string(),
        verification_uri: "https://microsoft.com/link".to_string(),
        expires_in: 900,
        interval: 5,
    }))
    .unwrap();
    assert_eq!(code.user_code, "ABCD-EFGH");
    assert_eq!(code.interval, 5);
    assert_eq!(code.device_code, "DEV");
}

#[test]
fn waiting_for_the_user_is_not_an_error() {
    let request = poll_request(&endpoints(), "cli", "EN-ATTENTE");
    assert_eq!(request.url, format!("{BASE}/token"));
    assert!(sent(&request).contains("device_code=EN-ATTENTE"));
    assert!(matches!(
        poll_token(refused(
            400,
            "authorization_pending",
            Some("The user has not yet completed authentication.")
        ))
        .unwrap(),
        Poll::Pending
    ));

    let request = poll_request(&endpoints(), "cli", "TROP-VITE");
    assert!(sent(&request).contains("device_code=TROP-VITE"));
    assert!(matches!(
        poll_token(refused(400, "slow_down", None)).unwrap(),
        Poll::SlowDown
    ));

    // This one, though, is the end.
    let request = poll_request(&endpoints(), "cli", "PERIME");
    assert!(sent(&request).contains("device_code=PERIME"));
    let error = poll_token(refused(400, "expired_token", None)).unwrap_err();
    assert!(error.to_string().contains("expiré"), "{}", error.to_string());
}

#[test]
fn a_validated_code_yields_both_tokens() {
    let outcome = poll_token(Reply::Accepted(TokenResponse {
        access_token: "MS-ACCESS".to_string(),
        refresh_token: "MS-REFRESH".to_string(),
    }))
    .unwrap();
    let Poll::Ready(tokens) = outcome else {
        panic!("jetons attendus, obtenu {outcome:?}");
    };
    assert_eq!(tokens.access_token, "MS-ACCESS");
    assert_eq!(tokens.refresh_token, "MS-REFRESH");
}

#[test]
fn a_revoked_refresh_token_says_to_sign_in_again() {
    let request = refresh_request(&endpoints(), "cli", "vieux");
    assert_eq!(request.url, format!("{BASE}/token"));
    assert!(sent(&request).contains("refresh_token=vieux"));
    let error = refresh_tokens(refused(
        400,
        "invalid_grant",
        Some("AADSTS70000: The provided grant has expired."),
    ))
    .unwrap_err();
    assert_eq!(
        error.to_string(),
        "session Microsoft expirée, reconnectez le compte"
    );
}

#[test]
fn the_full_chain_returns_the_server_side_identity() {
    let (flow, request) = happy_chain();
    assert_eq!(request.url, format!("{BASE}/profile"));
    assert_eq!(request.token, "JETON-MINECRAFT");

    let (flow, action) = flow.advance(Event::Status(status(200)));
    assert!(matches!(action, Action::ReadProfile));
    let (flow, action) = flow.advance(Event::Profile(Profile {
        id: "069a79f444e94726a5befca90e38aaf5".to_string(),
        name: "Notch".to_string(),
    }));
    assert!(matches!(flow.stage, Stage::Closed));
    let Action::Open(draft) = action else {
        panic!("a session was expected, not {action:?}");
    };
    let session = draft.open().unwrap();

    assert_eq!(session.username, "Notch");
    // The UUID comes from the server, never from the username.
    assert_eq!(
        Uuid::from_u128(session.uuid).to_string(),
        "069a79f4-44e9-4726-a5be-fca90e38aaf5"
    );
    assert_eq!(session.access_token, "JETON-MINECRAFT");
    assert_eq!(session.xuid.as_deref(), Some("2535"));
    assert!(is_fresh(session.expires_at_ms));
}

#[test]
fn an_account_without_the_game_is_told_so_plainly() {
    let (flow, _) = happy_chain();
    let (_, action) = flow.advance(Event::Status(status(404)));
    let error = failure(action);
    assert!(error.contains("ne possède pas Minecraft"), "{error}");
}

#[test]
fn an_unapproved_azure_app_blames_the_app_not_the_account() {
    let (flow, _) = minecraft_session(endpoints(), "MS-ACCESS");
    let (flow, _) = flow.advance(Event::Status(status(200)));
    let (flow, _) = flow.advance(Event::Token(token(
        "XBL-TOKEN",
        Some("hachage-utilisateur"),
        None,
    )));
    let (flow, _) = flow.advance(Event::Status(status(200)));
    let (flow, action) = flow.advance(Event::Token(token(
        "XSTS-TOKEN",
        Some("hachage-utilisateur"),
        None,
    )));
    assert_eq!(posted(action).url, format!("{BASE}/login_with_xbox"));
    let (_, action) = flow.advance(Event::Status(status(403)));
    let error = failure(action);
    assert!(error.contains("pas autorisée par Mojang"), "{error}");
    // And what is said holds the address of the form, the only thing to do.
    assert!(error.contains(APP_REVIEW_FORM), "{error}");
}

#[test]
fn an_account_without_an_xbox_profile_gets_actionable_advice() {
    let (flow, _) = minecraft_session(endpoints(), "MS-ACCESS");
    let (flow, _) = flow.advance(Event::Status(status(200)));
    let (flow, _) = flow.advance(Event::Token(token(
        "XBL-TOKEN",
        Some("hachage-utilisateur"),
        None,
    )));
    let (flow, action) = flow.advance(Event::Status(status(401)));
    assert!(matches!(action, Action::ReadXstsError));
    let (_, action) = flow.advance(Event::XstsError(Some(XstsError {
        xerr: 2148916233u64,
        message: Some("".to_string()),
    })));
    let error = failure(action);
    assert!(error.contains("xbox.com"), "{error}");

    // And the child account, the other frequent case.
    assert!(XstsError {
        xerr: 2148916238,
        message: None
    }
    .describe()
    .contains("compte enfant"));
}

#[test]
fn freshness_leaves_a_margin_before_expiry() {
    let now = now_ms();
    assert!(!is_fresh(now));
    // Just before the expiry: stale here, the game would not start in time.
    assert!(!is_fresh(now + 60 * 1000));
    assert!(is_fresh(now + 60 * 60 * 1000));

    assert!(!is_fresh_at(now, now));
    assert!(!is_fresh_at(now, now + 60 * 1000));
    assert!(is_fresh_at(now, now + 60 * 60 * 1000));
}
