//! Verified core of a desktop translator that talks to a chat-completion API:
//! the language and model catalogs, request and prompt construction, reply
//! interpretation, the parsing of pointer coordinates and clipboard output,
//! text measures, the tray icon, and the decisions of the popup and desktop
//! windows.
pub mod catalog;
pub mod clipboard;
pub mod config;
pub mod desktop;
pub mod icon;
pub mod keys;
pub mod pointer;
pub mod popup;
pub mod request;
pub mod response;
pub mod text;
pub mod window;
