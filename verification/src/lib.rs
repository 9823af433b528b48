//! Bindings for remotely callable services, derived from a plain interface
//! definition, together with a pluggable wire-format layer.
//!
//! The crate has four parts. `descriptor` models an interface definition and
//! the service descriptors derived from it; `generate` turns a definition into
//! client operations, a server routing table and wire paths; `codec` is the
//! encode/decode contract satisfied by four interchangeable byte formats; and
//! `calls` governs how frames flow once a binding is invoked. `routing` holds
//! the server-side dispatcher and `services` a few small verified handlers.

pub mod calls;
pub mod codec;
pub mod descriptor;
pub mod generate;
pub mod json_codec;
pub mod routing;
pub mod services;
