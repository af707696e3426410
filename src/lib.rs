//! Authentication and session lifecycle engine: credential login with
//! optional one-time-password step-up, registration and password-reset
//! tokens, login/OTP/email throttles, session creation and purging, and
//! OAuth account linkage, together with the project configuration model.

pub mod text;
pub mod config;
pub mod time;
pub mod otp;
pub mod password;
pub mod token;
pub mod model;
pub mod engine;
pub mod auth;
pub mod oauth;
pub mod laws;
