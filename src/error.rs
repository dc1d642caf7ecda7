//! Errors of the home layout.

use vstd::prelude::*;

verus! {

#[derive(Debug, Clone, PartialEq, Eq)]
pub enum ForemanError {
    /// A variable of the environment that the operation needs is not set;
    /// `env_var` names it as a shell would.
    EnvVarNotFound { env_var: String },
    /// The operation has no meaning on the platform it was asked for.
    UnsupportedPlatform,
    /// A directory of the layout is taken by something that is not a
    /// directory.
    NotADirectory { path: String },
    /// Creating a directory or writing a file failed.
    Io { path: String, message: String },
}

/// What a `ForemanError` says, over plain values.
pub enum ErrorView {
    EnvVarNotFound(Seq<char>),
    UnsupportedPlatform,
    NotADirectory(Seq<char>),
    Io(Seq<char>, Seq<char>),
}

impl View for ForemanError {
    type V = ErrorView;

    open spec fn view(&self) -> ErrorView {
        match self {
            ForemanError::EnvVarNotFound { env_var } => ErrorView::EnvVarNotFound(env_var@),
            ForemanError::UnsupportedPlatform => ErrorView::UnsupportedPlatform,
            ForemanError::NotADirectory { path } => ErrorView::NotADirectory(path@),
            ForemanError::Io { path, message } => ErrorView::Io(path@, message@),
        }
    }
}

/// A path result seen over plain values.
pub open spec fn path_result_view(r: Result<String, ForemanError>) -> Result<Seq<char>, ErrorView> {
    match r {
        Ok(p) => Ok(p@),
        Err(e) => Err(e@),
    }
}

} // verus!
