//! What Xbox Live, XSTS and Minecraft answer.

use vstd::prelude::*;
use vstd::string::*;

use crate::error::{outcome, SignInError};
use crate::identity::{parse_uuid, uuid_value};
use crate::text::{decimal, decimal_text};

verus! {

/// `text` taken by its view.
pub open spec fn optional_text(text: Option<String>) -> Option<Seq<char>> {
    match text {
        Some(text) => Some(text@),
        None => None,
    }
}

/// A copy of `text`.
pub(crate) fn copy_optional(text: &Option<String>) -> (r: Option<String>)
    ensures
        r == *text,
{
    match text {
        Some(text) => Some(text.clone()),
        None => None,
    }
}

/// The answer of Xbox Live, and that of XSTS: they have the same shape.
#[derive(Debug)]
pub struct XboxToken {
    pub token: String,
    pub display_claims: Option<DisplayClaims>,
}

/// The users that a token is about.
#[derive(Debug)]
pub struct DisplayClaims {
    pub xui: Vec<Xui>,
}

/// One user: their hash and their Xbox id.
#[derive(Debug)]
pub struct Xui {
    pub uhs: Option<String>,
    pub xid: Option<String>,
}

impl XboxToken {
    /// The first user that the token is about.
    pub open spec fn claim(&self) -> Option<Xui> {
        match self.display_claims {
            Some(claims) => if claims.xui@.len() > 0 {
                Some(claims.xui@[0])
            } else {
                None
            },
            None => None,
        }
    }

    /// The hash of that user.
    pub open spec fn claimed_hash(&self) -> Option<String> {
        match self.claim() {
            Some(xui) => xui.uhs,
            None => None,
        }
    }

    /// The Xbox id of that user.
    pub open spec fn claimed_xuid(&self) -> Option<String> {
        match self.claim() {
            Some(xui) => xui.xid,
            None => None,
        }
    }

    /// The first user that the token is about.
    pub fn first_claim(&self) -> (r: Option<&Xui>)
        ensures
            r is Some <==> self.claim() is Some,
            r matches Some(xui) ==> self.claim() == Some(*xui),
    {
        match &self.display_claims {
            Some(claims) => if claims.xui.len() > 0 {
                Some(&claims.xui[0])
            } else {
                None
            },
            None => None,
        }
    }

    /// The hash of the first user.
    pub fn user_hash(&self) -> (r: Option<String>)
        ensures
            r == self.claimed_hash(),
    {
        match self.first_claim() {
            Some(xui) => copy_optional(&xui.uhs),
            None => None,
        }
    }

    /// The Xbox id of the first user.
    pub fn xuid(&self) -> (r: Option<String>)
        ensures
            r == self.claimed_xuid(),
    {
        match self.first_claim() {
            Some(xui) => copy_optional(&xui.xid),
            None => None,
        }
    }
}

/// Why XSTS turned an account down.
#[derive(Debug)]
pub struct XstsError {
    pub xerr: u64,
    pub message: Option<String>,
}

/// The sentence for the code `xerr`, where the user can mend it themselves.
pub open spec fn xsts_advice(xerr: u64) -> Option<Seq<char>> {
    if xerr == 2148916227 {
        Some("ce compte Xbox Live a été suspendu"@)
    } else if xerr == 2148916233 {
        Some(
            "ce compte Microsoft n'a pas de profil Xbox créez-en un sur xbox.com, puis réessayez"@,
        )
    } else if xerr == 2148916235 {
        Some("Xbox Live n'est pas disponible dans le pays de ce compte"@)
    } else if xerr == 2148916236 || xerr == 2148916237 {
        Some("ce compte doit passer la vérification d'adulte (Corée du Sud)"@)
    } else if xerr == 2148916238 {
        Some(
            "ce compte est un compte enfant : rattachez-le à une famille Microsoft, puis réessayez"@,
        )
    } else {
        None
    }
}

/// What an XSTS refusal says: the advice for its code, else the message that
/// came with it, else the bare code.
pub open spec fn xsts_description(xerr: u64, message: Option<Seq<char>>) -> Seq<char> {
    match xsts_advice(xerr) {
        Some(advice) => advice,
        None => match message {
            Some(text) if text.len() > 0 => text,
            _ => "Xbox Live a refusé la connexion (XErr "@ + decimal_text(xerr as nat) + ")"@,
        },
    }
}

impl Default for XstsError {
    /// The refusal that says nothing.
    fn default() -> (r: Self)
        ensures
            r.xerr == 0,
            r.message is None,
    {
        XstsError { xerr: 0, message: None }
    }
}

impl XstsError {
    /// The codes that the user can mend themselves get a sentence that says
    /// what to do; the rest falls back on the raw message.
    pub fn describe(&self) -> (r: String)
        ensures
            r@ == xsts_description(self.xerr, optional_text(self.message)),
    {
        match self.xerr {
            2148916227 => "ce compte Xbox Live a été suspendu".to_owned(),
            2148916233 =>
                "ce compte Microsoft n'a pas de profil Xbox créez-en un sur xbox.com, puis réessayez".to_owned(),
            2148916235 =>
                "Xbox Live n'est pas disponible dans le pays de ce compte".to_owned(),
            2148916236 | 2148916237 =>
                "ce compte doit passer la vérification d'adulte (Corée du Sud)".to_owned(),
            2148916238 =>
                "ce compte est un compte enfant : rattachez-le à une famille Microsoft, puis réessayez".to_owned(),
            other => {
                match &self.message {
                    Some(text) if !text.as_str().is_empty() => text.clone(),
                    _ => {
                        let mut message = "Xbox Live a refusé la connexion (XErr ".to_owned();
                        message.append(decimal(other).as_str());
                        message.append(")");
                        message
                    },
                }
            },
        }
    }
}

/// The answer of Minecraft's login: the token that the game receives, and for
/// how many seconds it is good.
#[derive(Debug)]
pub struct MinecraftLogin {
    pub access_token: String,
    pub expires_in: u64,
}

/// The player's profile.
#[derive(Debug)]
pub struct Profile {
    /// The UUID, without hyphens as Mojang writes it.
    pub id: String,
    pub name: String,
}

/// The UUID that a profile's `id` writes, or what is said where it writes none.
pub open spec fn profile_uuid(id: Seq<char>) -> Result<u128, Seq<char>> {
    match uuid_value(id) {
        Some(value) => Ok(value as u128),
        None => Err("UUID de profil illisible: "@ + id),
    }
}

impl Profile {
    /// The player's UUID.
    pub fn uuid(&self) -> (r: Result<u128, SignInError>)
        ensures
            outcome(r) == profile_uuid(self.id@),
            r matches Ok(value) ==> uuid_value(self.id@) == Some(value as nat),
    {
        match parse_uuid(self.id.as_str()) {
            Ok(value) => Ok(value),
            Err(_) => {
                let mut message = "UUID de profil illisible: ".to_owned();
                message.append(self.id.as_str());
                Err(SignInError::other(message))
            },
        }
    }
}

} // verus!
