//! Microsoft sign-in for a Minecraft launcher.
//!
//! The flow is that of the **device code**: the launcher opens no sign-in
//! window, it shows a code that the user types into their own browser. Four
//! steps stand behind the single button:
//!
//! 1. **Microsoft**: a device code, then waiting for the user to approve it
//!    (`tokens`);
//! 2. **Xbox Live**: the Microsoft token is exchanged for an XBL token;
//! 3. **XSTS**: the XBL token is exchanged for a Minecraft service token;
//! 4. **Minecraft**: the XSTS token is exchanged for the token that the game
//!    receives, then the profile gives the real username and UUID (`exchange`
//!    for the requests and what a status decides, `xbox` for the answers,
//!    `session` for the order of it all).
//!
//! The username and the UUID come from the server, never from a computation of
//! the launcher's own. `laws` states that, and what else holds of the library
//! as a whole. `laws_basics`, `laws_tokens`, `laws_identity` and `laws_session`
//! say of each operation what its result is, over its arguments alone.
//!
//! The library does no I/O. It says what to send, and what to make of what
//! comes back.

pub mod client;
pub mod clock;
pub mod credentials;
pub mod error;
pub mod exchange;
pub mod identity;
pub mod json;
pub mod laws;
pub mod laws_basics;
pub mod laws_identity;
pub mod laws_session;
pub mod laws_tokens;
pub mod session;
pub mod status;
pub mod text;
pub mod tokens;
pub mod xbox;
