//! Issues signed room-admission tokens for a real-time media platform and
//! answers discovery requests for the addresses of the collaborating services.

pub mod grant;
pub mod query;
pub mod router;
pub mod discovery;
pub mod settings;
