//! The on-disk home layout of a developer tool manager: where its root
//! directory lives, the paths derived from it, how the layout is created on
//! disk, and where an outside credential cache keeps its tokens.

pub mod artiaa;
pub mod error;
pub mod layout;
pub mod paths;

pub use artiaa::{ArtiaaEnv, Platform, get_artiaa_path_based_on_os};
pub use error::ForemanError;
pub use paths::ForemanPaths;
