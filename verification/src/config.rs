//! Process configuration: the values the program runs with. Reading and
//! writing the configuration file happens outside this crate; this is the
//! shape of the data and its defaults.

use vstd::prelude::*;

verus! {

/// What the process is configured with: the connection token, the command
/// prefix, where data files live, and an optional presence line.
#[derive(Debug, Clone)]
pub struct Config {
    pub token: String,
    pub prefix: String,
    pub data_directory: String,
    pub status: Option<String>,
}

impl Config {
    /// The command prefix used when none is configured.
    pub fn default_prefix() -> (r: String)
        ensures
            r@ == spec_default_prefix(),
    {
        proof {
            reveal_strlit("~");
        }
        String::from_str("~")
    }

    /// The data directory used when none is configured.
    pub fn default_data_dir() -> (r: String)
        ensures
            r@ == spec_default_data_dir(),
    {
        proof {
            reveal_strlit("data/");
        }
        String::from_str("data/")
    }
}

/// The default command prefix.
pub open spec fn spec_default_prefix() -> Seq<char> {
    "~"@
}

/// The default data directory, relative to the configuration root.
pub open spec fn spec_default_data_dir() -> Seq<char> {
    "data/"@
}

impl Default for Config {
    /// An empty token, the default prefix and data directory, no status.
    fn default() -> (r: Config)
        ensures
            r.token@ == Seq::<char>::empty(),
            r.prefix@ == spec_default_prefix(),
            r.data_directory@ == spec_default_data_dir(),
            r.status is None,
    {
        proof {
            reveal_strlit("");
        }
        Config {
            token: String::from_str(""),
            prefix: Config::default_prefix(),
            data_directory: Config::default_data_dir(),
            status: None,
        }
    }
}

} // verus!
