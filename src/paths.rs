//! The root directory and every path derived from it.

use vstd::prelude::*;
use crate::artiaa::{ArtiaaEnv, Platform, artiaa_path_spec, get_artiaa_path_based_on_os};
use crate::error::{ErrorView, ForemanError, path_result_view};

verus! {

/// The path that `child` names below `base`, for a relative `child`: a
/// separator is put between the two unless `base` is empty or already ends
/// with one.
pub open spec fn join(base: Seq<char>, child: Seq<char>) -> Seq<char> {
    if base.len() == 0 || base.last() == '/' {
        base + child
    } else {
        base + seq!['/'] + child
    }
}

/// For a root that is not empty and does not end with a separator, each
/// path of the layout is the root followed by its fixed suffix.
pub proof fn lemma_derived_paths(root: Seq<char>)
    requires
        root.len() > 0,
        root.last() != '/',
    ensures
        join(root, "tools"@) == root + "/tools"@,
        join(root, "bin"@) == root + "/bin"@,
        join(root, "auth.toml"@) == root + "/auth.toml"@,
        join(root, "foreman.toml"@) == root + "/foreman.toml"@,
        join(root, "tool-cache.json"@) == root + "/tool-cache.json"@,
{
    reveal_strlit("tools");
    reveal_strlit("/tools");
    reveal_strlit("bin");
    reveal_strlit("/bin");
    reveal_strlit("auth.toml");
    reveal_strlit("/auth.toml");
    reveal_strlit("foreman.toml");
    reveal_strlit("/foreman.toml");
    reveal_strlit("tool-cache.json");
    reveal_strlit("/tool-cache.json");
    assert(join(root, "tools"@) =~= root + "/tools"@);
    assert(join(root, "bin"@) =~= root + "/bin"@);
    assert(join(root, "auth.toml"@) =~= root + "/auth.toml"@);
    assert(join(root, "foreman.toml"@) =~= root + "/foreman.toml"@);
    assert(join(root, "tool-cache.json"@) =~= root + "/tool-cache.json"@);
}

/// What a look at a path on disk found there.
#[derive(Debug, Clone, Copy, PartialEq, Eq, Structural)]
pub enum PathKind {
    Missing,
    Directory,
    /// Something that is not a directory.
    Other,
}

/// Why the root directory named by the environment was not used.
#[derive(Debug, Clone, PartialEq, Eq)]
pub enum OverrideWarning {
    NotADirectory { path: String },
    DoesNotExist { path: String },
}

/// The warning that a root override `value`, found to be of `kind`, gives:
/// `None` where it gives none.
pub open spec fn override_warning_spec(value: Option<String>, kind: PathKind, w: Option<OverrideWarning>) -> bool {
    match value {
        None => w is None,
        Some(v) => match kind {
            PathKind::Directory => w is None,
            PathKind::Missing => w matches Some(OverrideWarning::DoesNotExist { path }) && path@ == v@,
            PathKind::Other => w matches Some(OverrideWarning::NotADirectory { path }) && path@ == v@,
        },
    }
}

/// Relies on dirs::home_dir: the user's home directory, where one can be
/// found, as UTF-8 text.
#[verifier::external_body]
fn home_dir() -> (r: Option<String>) {
    dirs::home_dir().and_then(|p| p.into_os_string().into_string().ok())
}

/// The home layout, fixed by its root directory.
#[derive(Debug, Clone, PartialEq, Eq)]
pub struct ForemanPaths {
    root_dir: String,
}

impl View for ForemanPaths {
    type V = Seq<char>;

    /// The root directory.
    closed spec fn view(&self) -> Seq<char> {
        self.root_dir@
    }
}

impl ForemanPaths {
    /// A layout rooted at `root_dir`.
    pub fn new(root_dir: String) -> (r: Self)
        ensures
            r@ == root_dir@,
    {
        ForemanPaths { root_dir }
    }

    /// The root directory.
    pub fn root_dir(&self) -> (r: String)
        ensures
            r@ == self@,
    {
        self.root_dir.clone()
    }

    /// The path `child` below the root.
    fn from_root(&self, child: &str) -> (r: String)
        ensures
            r@ == join(self@, child@),
    {
        let mut dir = self.root_dir();
        let n = dir.as_str().unicode_len();
        if n == 0 || dir.as_str().get_char(n - 1) == '/' {
            dir.append(child);
        } else {
            dir.append("/");
            proof {
                reveal_strlit("/");
            }
            dir.append(child);
        }
        dir
    }

    /// The directory that caches installed tools.
    pub fn tools_dir(&self) -> (r: String)
        ensures
            r@ == join(self@, "tools"@),
    {
        self.from_root("tools")
    }

    /// The directory of the executable links.
    pub fn bin_dir(&self) -> (r: String)
        ensures
            r@ == join(self@, "bin"@),
    {
        self.from_root("bin")
    }

    /// The file of access tokens.
    pub fn auth_store(&self) -> (r: String)
        ensures
            r@ == join(self@, "auth.toml"@),
    {
        self.from_root("auth.toml")
    }

    /// The user's configuration file.
    pub fn user_config(&self) -> (r: String)
        ensures
            r@ == join(self@, "foreman.toml"@),
    {
        self.from_root("foreman.toml")
    }

    /// The index of the tool cache; nothing here creates it.
    pub fn index_file(&self) -> (r: String)
        ensures
            r@ == join(self@, "tool-cache.json"@),
    {
        self.from_root("tool-cache.json")
    }

    /// The layout below a home directory: `<home>/.foreman`.
    pub fn from_home(home: String) -> (r: Self)
        ensures
            r@ == join(home@, ".foreman"@),
    {
        let home = ForemanPaths { root_dir: home };
        ForemanPaths { root_dir: home.from_root(".foreman") }
    }

    /// The default layout, below the user's home directory. Fails, naming
    /// `$HOME`, where the home directory cannot be found.
    pub fn default_root() -> (r: Result<Self, ForemanError>)
        ensures
            r matches Ok(p) ==> exists|h: Seq<char>| p@ == join(h, ".foreman"@),
            r matches Err(e) ==> e@ == ErrorView::EnvVarNotFound("$HOME"@),
    {
        match home_dir() {
            Some(h) => Ok(Self::from_home(h)),
            None => Err(ForemanError::EnvVarNotFound { env_var: String::from_str("$HOME") }),
        }
    }

    /// The layout that a root override names: `value` is the override (`None`
    /// where it is not set) and `kind` what is on disk at that path. The
    /// override is taken only where it is a directory; otherwise the result
    /// holds no layout, and a warning where the override was set.
    pub fn from_override(value: Option<String>, kind: PathKind) -> (r: (Option<Self>, Option<OverrideWarning>))
        ensures
            (value is Some && kind == PathKind::Directory) <==> r.0 is Some,
            r.0 matches Some(p) ==> p@ == value->Some_0@,
            override_warning_spec(value, kind, r.1),
    {
        match value {
            None => (None, None),
            Some(v) => match kind {
                PathKind::Directory => (Some(ForemanPaths { root_dir: v }), None),
                PathKind::Missing => (None, Some(OverrideWarning::DoesNotExist { path: v })),
                PathKind::Other => (None, Some(OverrideWarning::NotADirectory { path: v })),
            },
        }
    }

    /// The layout in use: the one the root override names where that is a
    /// directory, else `default`; with the warning that the override gives.
    pub fn resolve(value: Option<String>, kind: PathKind, default: Self) -> (r: (Self, Option<OverrideWarning>))
        ensures
            r.0@ == (if value is Some && kind == PathKind::Directory {
                value->Some_0@
            } else {
                default@
            }),
            override_warning_spec(value, kind, r.1),
    {
        let (found, warning) = Self::from_override(value, kind);
        match found {
            Some(p) => (p, warning),
            None => (default, warning),
        }
    }

    /// Where the ArtiAA token cache lives on `platform`, given `env`.
    pub fn artiaa_path(&self, platform: Platform, env: &ArtiaaEnv) -> (r: Result<String, ForemanError>)
        ensures
            path_result_view(r) == artiaa_path_spec(platform, *env),
    {
        get_artiaa_path_based_on_os(platform, env)
    }
}

} // verus!
