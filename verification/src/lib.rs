//! Logging in to QQ and Qzone.
//!
//! An account logs in by a QR code that is scanned with a phone, or through a browser window. This
//! crate holds what both ways decide and remember; it opens no connection and no window. The
//! application around it performs the requests, hands in what came back, and is told what to do
//! next.
//!
//! - [`state`] and [`session`]: the state of all logins, and what is kept of each.
//! - [`start`] and [`poll`]: the login by QR code, from the first request to the last.
//! - [`web`]: the login through a browser window, and logging out.
//! - [`profile`]: the name and the picture of the account.
//! - [`status`]: what the user interface is told.
//! - [`account`], [`agent`], [`callback`], [`codec`], [`cookies`], [`link`], [`token`], [`clock`]:
//!   the forms that account numbers, browser names, answers, images, cookies, addresses, tokens
//!   and times have.
//! - [`text`] and [`strmap`]: texts, and maps from texts.
//! - [`laws`]: what holds over several operations; [`laws_text`], [`laws_format`], [`laws_state`],
//!   [`laws_qr`], [`laws_web`] and [`laws_profile`]: what each of them is for.

pub mod account;
pub mod agent;
pub mod callback;
pub mod clock;
pub mod codec;
pub mod cookies;
pub mod laws;
pub mod laws_format;
pub mod laws_profile;
pub mod laws_qr;
pub mod laws_state;
pub mod laws_text;
pub mod laws_web;
pub mod link;
pub mod poll;
pub mod profile;
pub mod session;
pub mod start;
pub mod state;
pub mod status;
pub mod strmap;
pub mod text;
pub mod token;
pub mod web;
