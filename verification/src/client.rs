//! Which application signs in, and which services it talks to.

use vstd::prelude::*;
use vstd::string::*;

use crate::error::SignInError;
use crate::text::trimmed;

verus! {

/// Replaces the Azure application id without recompiling.
pub const CLIENT_ID_ENV: &'static str = "GLAUNCHER_MS_CLIENT_ID";

/// The launcher's Azure AD application id.
///
/// It is compiled in: the installer goes to players who will set no environment
/// variable, and the id of a public OAuth client is no secret. Only the consent
/// that the user gives in their own browser authorises anything.
pub const DEFAULT_CLIENT_ID: &'static str = "f3b05cee-8075-4d25-bf37-5441fae62747";

/// `consumers` and not `common`: Minecraft is sold to personal Microsoft
/// accounts, not to those of a company.
pub const AUTHORITY: &'static str = "https://login.microsoftonline.com/consumers/oauth2/v2.0";

/// The id that is used where the environment holds `from_env` and the launcher
/// was compiled with `compiled`: the first that is not blank, without the
/// whitespace around it.
pub open spec fn chosen_client_id(from_env: Seq<char>, compiled: Seq<char>) -> Seq<char> {
    if trimmed(from_env).len() > 0 {
        trimmed(from_env)
    } else {
        trimmed(compiled)
    }
}

/// What is said where no id is configured.
pub open spec fn no_client_id_message() -> Seq<char> {
    "aucun identifiant d'application Microsoft configuré enregistrez une application Azure (comptes personnels, flux client public) puis renseignez son identifiant dans la variable d'environnement "@
        + CLIENT_ID_ENV@
}

/// The environment variable wins over the compiled value. Where both are blank
/// the error names the variable to set.
pub fn resolve_client_id(from_env: &str, compiled: &str) -> (r: Result<String, SignInError>)
    ensures
        r is Ok <==> chosen_client_id(from_env@, compiled@).len() > 0,
        r matches Ok(id) ==> id@ == chosen_client_id(from_env@, compiled@),
        r matches Err(error) ==> error@ == no_client_id_message(),
{
    let id = if from_env.trim().is_empty() {
        compiled.trim()
    } else {
        from_env.trim()
    };
    if id.is_empty() {
        let mut message =
            "aucun identifiant d'application Microsoft configuré enregistrez une application Azure (comptes personnels, flux client public) puis renseignez son identifiant dans la variable d'environnement ".to_owned();
        message.append(CLIENT_ID_ENV);
        return Err(SignInError::other(message));
    }
    Ok(id.to_owned())
}

/// The application id to sign in with, where the environment variable
/// `CLIENT_ID_ENV` holds `from_env` (empty where it is not set). There always is
/// one: the compiled value is not blank.
pub fn client_id(from_env: &str) -> (r: Result<String, SignInError>)
    ensures
        r matches Ok(id) && id@ == (if trimmed(from_env@).len() > 0 {
            trimmed(from_env@)
        } else {
            DEFAULT_CLIENT_ID@
        }),
{
    proof {
        reveal_strlit("f3b05cee-8075-4d25-bf37-5441fae62747");
        assert(trimmed(DEFAULT_CLIENT_ID@) == DEFAULT_CLIENT_ID@);
    }
    resolve_client_id(from_env, DEFAULT_CLIENT_ID)
}

/// The URLs of the four services.
#[derive(Debug, Clone)]
pub struct Endpoints {
    pub device_code: String,
    pub token: String,
    pub xbox_live: String,
    pub xsts: String,
    pub minecraft_login: String,
    pub minecraft_profile: String,
}

/// `base` followed by `path`.
fn under(base: &str, path: &str) -> (r: String)
    ensures
        r@ == base@ + path@,
{
    let mut url = base.to_owned();
    url.append(path);
    url
}

impl Default for Endpoints {
    /// The services' public addresses.
    fn default() -> (r: Self)
        ensures
            r.device_code@ == AUTHORITY@ + "/devicecode"@,
            r.token@ == AUTHORITY@ + "/token"@,
            r.xbox_live@ == "https://user.auth.xboxlive.com/user/authenticate"@,
            r.xsts@ == "https://xsts.auth.xboxlive.com/xsts/authorize"@,
            r.minecraft_login@
                == "https://api.minecraftservices.com/authentication/login_with_xbox"@,
            r.minecraft_profile@ == "https://api.minecraftservices.com/minecraft/profile"@,
    {
        Endpoints {
            device_code: under(AUTHORITY, "/devicecode"),
            token: under(AUTHORITY, "/token"),
            xbox_live: "https://user.auth.xboxlive.com/user/authenticate".to_owned(),
            xsts: "https://xsts.auth.xboxlive.com/xsts/authorize".to_owned(),
            minecraft_login:
                "https://api.minecraftservices.com/authentication/login_with_xbox".to_owned(),
            minecraft_profile: "https://api.minecraftservices.com/minecraft/profile".to_owned(),
        }
    }
}

impl Endpoints {
    /// All routes on one base, for a local stand-in of the services.
    pub fn all_on(base: &str) -> (r: Self)
        ensures
            r.device_code@ == base@ + "/devicecode"@,
            r.token@ == base@ + "/token"@,
            r.xbox_live@ == base@ + "/xbl"@,
            r.xsts@ == base@ + "/xsts"@,
            r.minecraft_login@ == base@ + "/login_with_xbox"@,
            r.minecraft_profile@ == base@ + "/profile"@,
    {
        Endpoints {
            device_code: under(base, "/devicecode"),
            token: under(base, "/token"),
            xbox_live: under(base, "/xbl"),
            xsts: under(base, "/xsts"),
            minecraft_login: under(base, "/login_with_xbox"),
            minecraft_profile: under(base, "/profile"),
        }
    }
}

} // verus!
