//! Where the ArtiAA credential cache keeps its tokens on each platform.

use vstd::prelude::*;
use crate::error::{ErrorView, ForemanError, path_result_view};

verus! {

/// The platform families the token path is known for.
#[derive(Debug, Clone, Copy, PartialEq, Eq, Structural)]
pub enum Platform {
    Windows,
    MacOs,
    /// A Unix-like system other than macOS.
    OtherUnix,
    /// Any other platform.
    Unsupported,
}

/// The variables of the environment that the token path is read from, as
/// the process found them (`None` where one is not set).
#[derive(Debug, Clone, PartialEq, Eq)]
pub struct ArtiaaEnv {
    /// `LOCALAPPDATA`
    pub local_app_data: Option<String>,
    /// `HOME`
    pub home: Option<String>,
    /// `XDG_DATA_HOME`
    pub xdg_data_home: Option<String>,
}

/// The token path, or the error, for a platform and an environment.
pub open spec fn artiaa_path_spec(platform: Platform, env: ArtiaaEnv) -> Result<Seq<char>, ErrorView> {
    match platform {
        Platform::Windows => match env.local_app_data {
            Some(v) => Ok(v@ + "\\ArtiAA\\artiaa-tokens.json"@),
            None => Err(ErrorView::EnvVarNotFound("%$LOCALAPPDATA%"@)),
        },
        Platform::MacOs => match env.home {
            Some(h) => Ok(h@ + "/Library/Application Support/ArtiAA/artiaa-tokens.json"@),
            None => Err(ErrorView::EnvVarNotFound("$HOME"@)),
        },
        Platform::OtherUnix => match env.xdg_data_home {
            Some(x) => Ok(x@ + "/artiaa-tokens.json"@),
            None => match env.home {
                Some(h) => Ok(h@ + "/.local/share/artiaa-tokens.json"@),
                None => Err(ErrorView::EnvVarNotFound("$HOME"@)),
            },
        },
        Platform::Unsupported => Err(ErrorView::UnsupportedPlatform),
    }
}

fn concat_str(base: &String, tail: &str) -> (r: String)
    ensures
        r@ == base@ + tail@,
{
    base.clone().concat(tail)
}

fn env_var_not_found(name: &str) -> (e: ForemanError)
    ensures
        e@ == ErrorView::EnvVarNotFound(name@),
{
    ForemanError::EnvVarNotFound { env_var: String::from_str(name) }
}

/// The path of the ArtiAA token cache on `platform`, read from `env`.
pub fn get_artiaa_path_based_on_os(platform: Platform, env: &ArtiaaEnv) -> (r: Result<String, ForemanError>)
    ensures
        path_result_view(r) == artiaa_path_spec(platform, *env),
{
    match platform {
        Platform::Windows => match &env.local_app_data {
            Some(v) => Ok(concat_str(v, "\\ArtiAA\\artiaa-tokens.json")),
            None => Err(env_var_not_found("%$LOCALAPPDATA%")),
        },
        Platform::MacOs => match &env.home {
            Some(h) => Ok(concat_str(h, "/Library/Application Support/ArtiAA/artiaa-tokens.json")),
            None => Err(env_var_not_found("$HOME")),
        },
        Platform::OtherUnix => match &env.xdg_data_home {
            Some(x) => Ok(concat_str(x, "/artiaa-tokens.json")),
            None => match &env.home {
                Some(h) => Ok(concat_str(h, "/.local/share/artiaa-tokens.json")),
                None => Err(env_var_not_found("$HOME")),
            },
        },
        Platform::Unsupported => Err(ForemanError::UnsupportedPlatform),
    }
}

} // verus!
