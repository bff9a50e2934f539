//! The resolved configuration of a run, and how command-line values
//! override stored ones.

use crate::text::{spec_trim, trim};
use vstd::prelude::*;
use vstd::string::*;

verus! {

/// Where wallpapers go when no directory is configured.
pub open spec fn spec_default_dir() -> Seq<char> {
    "./"@
}

/// Where the configuration file is looked for when no path is given.
pub open spec fn spec_default_config_path() -> Seq<char> {
    "./config.toml"@
}

/// What a run needs to know: the credential, the account, the collections
/// to mirror and the directory to mirror them into.
#[derive(Debug)]
pub struct WallhavenConfig {
    /// API key; empty for unauthenticated requests.
    pub apikey: String,
    /// Account whose collections are mirrored.
    pub username: String,
    /// Comma-separated collection names; empty for all collections.
    pub collections: String,
    /// Destination directory.
    pub dir: String,
}

/// A configuration as plain text values.
pub struct ConfigView {
    pub apikey: Seq<char>,
    pub username: Seq<char>,
    pub collections: Seq<char>,
    pub dir: Seq<char>,
}

impl View for WallhavenConfig {
    type V = ConfigView;

    open spec fn view(&self) -> ConfigView {
        ConfigView {
            apikey: self.apikey@,
            username: self.username@,
            collections: self.collections@,
            dir: self.dir@,
        }
    }
}

impl DeepView for WallhavenConfig {
    type V = ConfigView;

    open spec fn deep_view(&self) -> ConfigView {
        self@
    }
}

/// Values given on the command line; each one that is present overrides
/// the stored configuration.
#[derive(Debug)]
pub struct DownloadArgs {
    pub apikey: Option<String>,
    pub username: Option<String>,
    pub collections: Option<String>,
    pub dir: Option<String>,
}

/// What the program can be asked to do.
#[derive(Debug)]
pub enum SubCommand {
    /// Mirror the configured collections.
    Download(DownloadArgs),
}

/// The command line as a whole.
#[derive(Debug)]
pub struct Cli {
    /// Where the configuration file is, where it is not at its default
    /// place.
    pub config_path: Option<String>,
    pub subcommand: SubCommand,
}

/// Command-line values as plain text values.
pub struct ArgsView {
    pub apikey: Option<Seq<char>>,
    pub username: Option<Seq<char>>,
    pub collections: Option<Seq<char>>,
    pub dir: Option<Seq<char>>,
}

impl View for DownloadArgs {
    type V = ArgsView;

    open spec fn view(&self) -> ArgsView {
        ArgsView {
            apikey: self.apikey.deep_view(),
            username: self.username.deep_view(),
            collections: self.collections.deep_view(),
            dir: self.dir.deep_view(),
        }
    }
}

impl ConfigView {
    /// The configuration in which nothing is set.
    pub open spec fn empty() -> ConfigView {
        ConfigView {
            apikey: Seq::empty(),
            username: Seq::empty(),
            collections: Seq::empty(),
            dir: Seq::empty(),
        }
    }

    /// `self` with the values of `args` laid over it: a given API key is
    /// trimmed, the other given values are taken as they are, and a
    /// directory that is still empty becomes the default directory.
    pub open spec fn overridden(self, args: ArgsView) -> ConfigView {
        let dir = match args.dir {
            Some(dir) => dir,
            None => self.dir,
        };
        ConfigView {
            apikey: match args.apikey {
                Some(apikey) => spec_trim(apikey),
                None => self.apikey,
            },
            username: match args.username {
                Some(username) => username,
                None => self.username,
            },
            collections: match args.collections {
                Some(collections) => collections,
                None => self.collections,
            },
            dir: if dir.len() == 0 {
                spec_default_dir()
            } else {
                dir
            },
        }
    }
}

impl Default for WallhavenConfig {
    fn default() -> (config: WallhavenConfig)
        ensures
            config@ == ConfigView::empty(),
    {
        WallhavenConfig {
            apikey: String::new(),
            username: String::new(),
            collections: String::new(),
            dir: String::new(),
        }
    }
}

impl WallhavenConfig {
    /// The configuration of a run, given what the configuration file held
    /// (`None` where there is no such file).
    pub open spec fn spec_load(stored: Option<ConfigView>, args: ArgsView) -> ConfigView {
        match stored {
            Some(stored) => stored.overridden(args),
            None => ConfigView::empty().overridden(args),
        }
    }

    /// Resolves the configuration of a run from the stored configuration,
    /// if there is one, and the command-line values.
    pub fn load(stored: Option<WallhavenConfig>, download_args: &DownloadArgs) -> (config:
        WallhavenConfig)
        ensures
            config@ == Self::spec_load(stored.deep_view(), download_args@),
    {
        let mut config = match stored {
            Some(stored) => stored,
            None => WallhavenConfig::default(),
        };
        if let Some(apikey) = &download_args.apikey {
            config.apikey = trim(apikey.as_str()).to_owned();
        }
        if let Some(username) = &download_args.username {
            config.username = username.clone();
        }
        if let Some(collections) = &download_args.collections {
            config.collections = collections.clone();
        }
        if let Some(dir) = &download_args.dir {
            config.dir = dir.clone();
        }
        if config.dir.as_str().is_empty() {
            config.dir = "./".to_owned();
        }
        config
    }
}

impl Cli {
    /// The path of the configuration file: the one given on the command
    /// line, or the default.
    pub fn config_file(&self) -> (path: String)
        ensures
            path@ == match self.config_path {
                Some(given) => given@,
                None => spec_default_config_path(),
            },
    {
        match &self.config_path {
            Some(given) => given.clone(),
            None => "./config.toml".to_owned(),
        }
    }
}

} // verus!
