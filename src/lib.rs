//! Authentication material for a trading-exchange API: one-time passwords
//! (HOTP / TOTP) and per-request HMAC signatures.
pub mod clock;
pub mod crypto;
pub mod encoding;
pub mod otp;
pub mod sign;

pub use otp::Algorithm;
