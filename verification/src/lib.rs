//! Tier-gated rendering of protected text annotations.
//!
//! A request carries obscured annotations and a session token. Every session
//! is first rendered as an opaque raster; only a session whose entitlement
//! tier is positive can be turned into the elevated kind, which alone can be
//! rendered as selectable text nodes.

pub mod cipher;
pub mod composite;
pub mod css;
pub mod font;
pub mod model;
pub mod pipeline;
pub mod raster;
pub mod trace;
pub mod user;
