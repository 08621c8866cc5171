//! Browser-based OpenID Connect login against a secrets-management backend.
//!
//! The handshake has two phases. `OIDCLogin::login` asks the backend for an
//! authorization URL and has a one-shot listener started on the loopback
//! interface; `OIDCCallback::callback` takes what the listener captured from
//! the redirect and names the token exchange to perform. Every decision of
//! the handshake is a function from plain values to plain values with a
//! contract; sockets, tasks and the backend itself are driven by the caller.

pub mod callback;
pub mod endpoint;
pub mod listener;
pub mod login;
pub mod params;
pub mod resolve;

pub use callback::{CaptureError, ExchangeRequest, OIDCCallback};
pub use endpoint::{RedirectTarget, DEFAULT_PORT};
pub use listener::{Listener, ListenerAction};
pub use login::{LoginAction, LoginEvent, LoginStage, OIDCLogin, SetupError};
pub use params::OIDCCallbackParams;
