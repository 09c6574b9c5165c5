//! Where the store lies and which domains the session is restricted to.

use vstd::prelude::*;
use vstd::string::*;

verus! {

/// Where the browser keeps its observation store, below the home directory.
pub const DATABASE_PATH: &'static str =
    "Library/Containers/com.apple.Safari/Data/Library/WebKit/WebsiteData/ResourceLoadStatistics/observations.db";

/// The settings of one session.
#[derive(Debug)]
pub struct Config {
    /// Path of the observation store.
    pub path: Option<String>,
    /// The scope: the domains to show, in the order to show them in.
    pub domains: Option<Vec<String>>,
}

/// The mathematical content of a [`Config`].
pub ghost struct ConfigView {
    pub path: Option<Seq<char>>,
    pub domains: Option<Seq<Seq<char>>>,
}

/// The names that a list of strings holds, in order.
pub open spec fn names_of(list: Seq<String>) -> Seq<Seq<char>> {
    list.map_values(|name: String| name@)
}

/// The names of a scope, where there is one.
pub open spec fn scope_names(scope: Option<Vec<String>>) -> Option<Seq<Seq<char>>> {
    match scope {
        Some(list) => Some(names_of(list@)),
        None => None,
    }
}

impl View for Config {
    type V = ConfigView;

    open spec fn view(&self) -> ConfigView {
        ConfigView {
            path: match self.path {
                Some(path) => Some(path@),
                None => None,
            },
            domains: scope_names(self.domains),
        }
    }
}

impl Default for Config {
    fn default() -> (config: Config)
        ensures
            config@ == (ConfigView { path: None, domains: None }),
    {
        Config { path: None, domains: None }
    }
}

/// The first of two optional values that is present.
pub open spec fn preferred<T>(first: Option<T>, second: Option<T>) -> Option<T> {
    if first is Some {
        first
    } else {
        second
    }
}

/// The store's default location below `home`.
pub open spec fn default_store_path(home: Seq<char>) -> Seq<char> {
    home + "/"@ + DATABASE_PATH@
}

/// The settings that hold when the command line gave `flags`, the settings
/// file gave `file` and the home directory is `home`: a flag wins over the
/// file, the file over the default, and only the path has a default.
/// Without a path and without a home directory there are no settings.
pub open spec fn resolved(
    flags: ConfigView,
    file: Option<ConfigView>,
    home: Option<Seq<char>>,
) -> Option<ConfigView> {
    let from_file = match file {
        Some(file) => file,
        None => ConfigView { path: None, domains: None },
    };
    let domains = preferred(flags.domains, from_file.domains);
    match preferred(flags.path, from_file.path) {
        Some(path) => Some(ConfigView { path: Some(path), domains }),
        None => match home {
            Some(home) => Some(ConfigView { path: Some(default_store_path(home)), domains }),
            None => None,
        },
    }
}

/// The view of an optional settings file.
pub open spec fn file_view(file: Option<Config>) -> Option<ConfigView> {
    match file {
        Some(file) => Some(file@),
        None => None,
    }
}

/// The view of an optional string.
pub open spec fn text_view(text: Option<String>) -> Option<Seq<char>> {
    match text {
        Some(text) => Some(text@),
        None => None,
    }
}

/// Merges the command line's settings, the settings file's and the default
/// location into the settings of the session.
pub fn fetch_config(flags: Config, file: Option<Config>, home: Option<String>) -> (config: Option<
    Config,
>)
    ensures
        file_view(config) == resolved(flags@, file_view(file), text_view(home)),
{
    let Config { path: flag_path, domains: flag_domains } = flags;
    let (file_path, file_domains) = match file {
        Some(Config { path, domains }) => (path, domains),
        None => (None, None),
    };
    let domains = if flag_domains.is_some() {
        flag_domains
    } else {
        file_domains
    };
    let path = if flag_path.is_some() {
        flag_path
    } else {
        file_path
    };
    match path {
        Some(path) => Some(Config { path: Some(path), domains }),
        None => match home {
            Some(home) => {
                let below = home.concat("/").concat(DATABASE_PATH);
                Some(Config { path: Some(below), domains })
            },
            None => None,
        },
    }
}

} // verus!
