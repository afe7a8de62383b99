//! Navigation guard for the Bow desktop shell: decides which URLs the
//! embedded webview may load.

pub mod lemmas;
pub mod navigation;
pub mod text;
pub mod url_host;

pub use navigation::{
    is_allowed_url, validate_navigation, NavigationGuard, NavigationResult, ABOUT_PREFIX,
    APP_ORIGIN, ASSET_SCHEME_PREFIX, SHELL_SCHEME_PREFIX,
};
