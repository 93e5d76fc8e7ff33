//! Turns contact data (a link, a phone number, an e-mail address or a postal
//! address) into the payload of a QR code and renders that code as a PNG
//! image or as SVG markup.

pub mod api;
pub mod color;
pub mod error;
pub mod geocode;
pub mod json;
pub mod models;
pub mod payload;
pub mod render;
