//! A terminal remote control for a streaming-music account: the credential
//! lifecycle, the modal key handling of the control surface, and the
//! differential redraw of the now-playing banner, as verified decisions over
//! plain values. Network, terminal and timer work is left to the caller.

mod json;
mod text;

pub mod display;
pub mod spotify_client_auth;
pub mod tui;

pub use display::{Banner, CacheView, DisplayCache};
pub use json::{json_bool_at, json_has, json_str_at, json_u64_at};
pub use spotify_client_auth::{
    AuthError, BootstrapStep, ClientConfig, ExchangeRequest, PlaybackCall, SpotifyClientAuth,
    SpotifyCurrentPlaying, TokenGrant, TokenStep,
};
pub use tui::{BoxedLabel, Control, InputAction, Key, KeyPress, Tui, TuiState, TuiView};
