//! Client-side signed-request protocol for the Addie payment and identity service.
//!
//! Every call to the service carries a millisecond timestamp and a signature over
//! a canonical message built from the call's own fields. This crate builds those
//! messages and requests, signs them, and settles responses; sending them over
//! HTTP is left to the caller.
mod client;
mod decimal;
mod error;
mod request;
mod signer;
mod structs;

pub use decimal::{decimal, decimal_string, digit_char, lemma_decimal_injective};
pub use signer::{is_lower_hex, public_key_hex, signature_hex};
pub use request::{lemma_fresh_message, lemma_message_is_sent, number_of, text_of, text_field, Field, FieldValue, Method, SignedRequest};
pub use client::{Addie, DEFAULT_BASE_URL};
pub use structs::{AddieUser, Gateway, Nineum, Payee, PaymentIntent, Spell, SpellResult, SuccessResult};
pub use error::{is_success_status, lemma_failures_distinct, outcome, settle, AddieError};
