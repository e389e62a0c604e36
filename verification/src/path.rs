//! Where the configuration file lies.
//!
//! A path given by the user stands as it is. Without one the file is
//! `winston/config.toml` under the configuration home, if the environment
//! names one that is a directory, and `.config/winston/config.toml` under the
//! user's home directory otherwise.

use vstd::prelude::*;
use crate::config::text_view;
use crate::error::ConfigError;

verus! {

/// The directory of this application under a configuration home.
pub const APP_DIR: &'static str = "winston";

/// The name of the configuration file.
pub const FILE_NAME: &'static str = "config.toml";

/// The configuration home under a home directory.
pub const CONFIG_DIR: &'static str = ".config";

/// What stands between two parts of a path.
pub const SEPARATOR: &'static str = "/";

/// What the environment says of the configuration home: the path that the
/// variable holds, and whether a directory lies there.
#[derive(Clone, Debug, PartialEq, Eq)]
pub struct DirectoryProbe {
    pub path: String,
    pub is_directory: bool,
}

/// The place of a configuration file.
#[derive(Clone, Debug, PartialEq, Eq)]
pub enum PathSpec {
    /// The path that the user gave.
    Explicit(String),
    /// `winston/config.toml` under this configuration home.
    UnderConfigHome(String),
    /// `.config/winston/config.toml` under this home directory.
    UnderHome(String),
}

/// What a [`PathSpec`] holds, as a mathematical value.
pub enum PathSpecView {
    Explicit(Seq<char>),
    UnderConfigHome(Seq<char>),
    UnderHome(Seq<char>),
}

impl View for PathSpec {
    type V = PathSpecView;

    open spec fn view(&self) -> PathSpecView {
        match self {
            PathSpec::Explicit(p) => PathSpecView::Explicit(p@),
            PathSpec::UnderConfigHome(d) => PathSpecView::UnderConfigHome(d@),
            PathSpec::UnderHome(h) => PathSpecView::UnderHome(h@),
        }
    }
}

impl PathSpecView {
    /// The path as one text, its parts joined by `/`.
    pub open spec fn joined(self) -> Seq<char> {
        match self {
            PathSpecView::Explicit(p) => p,
            PathSpecView::UnderConfigHome(d) => d + SEPARATOR@ + APP_DIR@ + SEPARATOR@
                + FILE_NAME@,
            PathSpecView::UnderHome(h) => h + SEPARATOR@ + CONFIG_DIR@ + SEPARATOR@ + APP_DIR@
                + SEPARATOR@ + FILE_NAME@,
        }
    }
}

impl PathSpec {
    /// The path as one text, its parts joined by `/`.
    pub fn to_path_string(&self) -> (r: String)
        ensures
            r@ == self@.joined(),
    {
        match self {
            PathSpec::Explicit(p) => p.clone(),
            PathSpec::UnderConfigHome(d) => {
                let mut s = d.clone();
                s.append(SEPARATOR);
                s.append(APP_DIR);
                s.append(SEPARATOR);
                s.append(FILE_NAME);
                s
            },
            PathSpec::UnderHome(h) => {
                let mut s = h.clone();
                s.append(SEPARATOR);
                s.append(CONFIG_DIR);
                s.append(SEPARATOR);
                s.append(APP_DIR);
                s.append(SEPARATOR);
                s.append(FILE_NAME);
                s
            },
        }
    }
}

/// The configuration home, where the environment names one that is a
/// directory.
pub open spec fn config_home_of(probe: Option<DirectoryProbe>) -> Option<Seq<char>> {
    match probe {
        Some(p) => if p.is_directory {
            Some(p.path@)
        } else {
            None
        },
        None => None,
    }
}

/// The home directory, where one is known and its path is not empty.
pub open spec fn home_of(home: Option<String>) -> Option<Seq<char>> {
    match home {
        Some(h) => if h@.len() > 0 {
            Some(h@)
        } else {
            None
        },
        None => None,
    }
}

/// The default place of the file, given the configuration home and the home
/// directory as far as they can be used.
pub open spec fn derived(config_home: Option<Seq<char>>, home: Option<Seq<char>>) -> Result<
    PathSpecView,
    ConfigError,
> {
    match config_home {
        Some(d) => Ok(PathSpecView::UnderConfigHome(d)),
        None => match home {
            Some(h) => Ok(PathSpecView::UnderHome(h)),
            None => Err(ConfigError::NoHomeDirectory),
        },
    }
}

/// The view of an outcome that holds a path.
pub open spec fn path_result_view(r: Result<PathSpec, ConfigError>) -> Result<
    PathSpecView,
    ConfigError,
> {
    match r {
        Ok(p) => Ok(p@),
        Err(e) => Err(e),
    }
}

/// The default place of the configuration file.
///
/// Under the configuration home if the probe found a directory there; else
/// under the home directory if one is given and not empty; else the error
/// `NoHomeDirectory`.
pub fn derive_path(config_home: Option<DirectoryProbe>, home: Option<String>) -> (r: Result<
    PathSpec,
    ConfigError,
>)
    ensures
        path_result_view(r) == derived(config_home_of(config_home), home_of(home)),
{
    if let Some(probe) = config_home {
        if probe.is_directory {
            return Ok(PathSpec::UnderConfigHome(probe.path));
        }
    }
    match home {
        Some(h) => {
            if h.as_str().is_empty() {
                Err(ConfigError::NoHomeDirectory)
            } else {
                Ok(PathSpec::UnderHome(h))
            }
        },
        None => Err(ConfigError::NoHomeDirectory),
    }
}

/// `dirs::home_dir`, with the path as text: the home directory of the user
/// as the platform knows it. `None` where there is none or where its path is
/// not valid Unicode. The result depends on the environment of the process,
/// so the contract promises nothing of it.
#[verifier::external_body]
fn home_dir() -> (r: Option<String>) {
    match dirs::home_dir() {
        Some(path) => path.into_os_string().into_string().ok(),
        None => None,
    }
}

/// Whether an outcome is a default place for the given configuration home:
/// under it where there is one, and else under a home directory whose path
/// is not empty, or `NoHomeDirectory`.
pub open spec fn is_default_for(
    config_home: Option<Seq<char>>,
    r: Result<PathSpecView, ConfigError>,
) -> bool {
    match config_home {
        Some(d) => r == Ok::<PathSpecView, ConfigError>(PathSpecView::UnderConfigHome(d)),
        None => match r {
            Ok(p) => p is UnderHome && p->UnderHome_0.len() > 0,
            Err(e) => e == ConfigError::NoHomeDirectory,
        },
    }
}

/// The default place of the configuration file on this machine.
///
/// The configuration home wins where the probe found a directory. Otherwise
/// the home directory of the user is looked up, and the outcome is what
/// `derive_path` gives for it.
pub fn default_path(config_home: Option<DirectoryProbe>) -> (r: Result<PathSpec, ConfigError>)
    ensures
        is_default_for(config_home_of(config_home), path_result_view(r)),
{
    let usable = match &config_home {
        Some(probe) => probe.is_directory,
        None => false,
    };
    let home = if usable {
        None
    } else {
        home_dir()
    };
    derive_path(config_home, home)
}

/// Whether an outcome is the place of the file for the given explicit path
/// and configuration home: the explicit path where there is one, else a
/// default place.
pub open spec fn is_place_for(
    explicit: Option<Seq<char>>,
    config_home: Option<Seq<char>>,
    r: Result<PathSpecView, ConfigError>,
) -> bool {
    match explicit {
        Some(p) => r == Ok::<PathSpecView, ConfigError>(PathSpecView::Explicit(p)),
        None => is_default_for(config_home, r),
    }
}

/// The place of the configuration file: the path that the user gave, or
/// without one the default place on this machine.
pub fn config_path(explicit: Option<String>, config_home: Option<DirectoryProbe>) -> (r: Result<
    PathSpec,
    ConfigError,
>)
    ensures
        is_place_for(text_view(explicit), config_home_of(config_home), path_result_view(r)),
{
    match explicit {
        Some(p) => Ok(PathSpec::Explicit(p)),
        None => default_path(config_home),
    }
}

} // verus!
