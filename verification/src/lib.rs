//! A parser and renderer for the Netscape bookmark file format.
//!
//! Markup text is first turned into a generic tree of [`dom::Node`] values
//! (by an HTML parser behind a small trusted boundary), and the typed
//! bookmark structures are then built from that tree by verified code.

pub mod bookmark;
pub mod dom;
pub mod folder;
pub mod item;
pub mod json;
pub mod laws;
pub mod netscape;
pub mod render;
