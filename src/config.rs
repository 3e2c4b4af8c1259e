//! The persisted configuration record and where its files lie under the
//! user's home directory.
use vstd::prelude::*;
use vstd::string::*;

verus! {

/// Directory of the configuration, relative to the home directory.
pub const CONFIG_DIR: &'static str = ".config/cards/";

/// Name of the configuration file in that directory.
pub const CONFIG_FILE: &'static str = "config.json";

/// Name of the default store file in that directory.
pub const DEFAULT_DB_FILE: &'static str = "cards.db";

/// Highlight color used when the configuration file cannot be read.
pub const FALLBACK_COLOR: u8 = 7;

/// Highlight color of a freshly written configuration.
pub const INITIAL_COLOR: u8 = 4;

/// The persisted record: where the store lies, relative to the home
/// directory, and the highlight color.
pub struct Config {
    pub db_file: String,
    pub highlight_color: u8,
}

/// `home`, a slash, then `rel`.
pub open spec fn under_home(home: Seq<char>, rel: Seq<char>) -> Seq<char> {
    home + "/"@ + rel
}

/// Relies on String::push_str: appends `t` at the end.
#[verifier::external_body]
fn push_text(s: &mut String, t: &str)
    ensures
        final(s)@ == old(s)@ + t@,
{
    s.push_str(t)
}

/// The path of `rel` under the home directory.
pub fn home_path(home: &str, rel: &str) -> (r: String)
    ensures
        r@ == under_home(home@, rel@),
{
    let mut r = home.to_owned();
    push_text(&mut r, "/");
    push_text(&mut r, rel);
    r
}

/// The path of the configuration directory.
pub fn config_dir_path(home: &str) -> (r: String)
    ensures
        r@ == under_home(home@, CONFIG_DIR@),
{
    home_path(home, CONFIG_DIR)
}

/// The path of the configuration file.
pub fn config_file_path(home: &str) -> (r: String)
    ensures
        r@ == under_home(home@, CONFIG_DIR@ + CONFIG_FILE@),
{
    let mut r = home_path(home, CONFIG_DIR);
    push_text(&mut r, CONFIG_FILE);
    proof {
        assert(r@ =~= under_home(home@, CONFIG_DIR@ + CONFIG_FILE@));
    }
    r
}

/// The path of the default store file.
pub fn default_db_path(home: &str) -> (r: String)
    ensures
        r@ == under_home(home@, CONFIG_DIR@ + DEFAULT_DB_FILE@),
{
    let mut r = home_path(home, CONFIG_DIR);
    push_text(&mut r, DEFAULT_DB_FILE);
    proof {
        assert(r@ =~= under_home(home@, CONFIG_DIR@ + DEFAULT_DB_FILE@));
    }
    r
}

/// The store file to open: the configured one when it exists (`exists`
/// tells whether `home_path(home, configured)` does), else the default one.
pub fn resolve_db_file(home: &str, configured: &str, exists: bool) -> (r: String)
    ensures
        exists ==> r@ == under_home(home@, configured@),
        !exists ==> r@ == under_home(home@, CONFIG_DIR@ + DEFAULT_DB_FILE@),
{
    if exists {
        home_path(home, configured)
    } else {
        default_db_path(home)
    }
}

impl Config {
    /// The record written when no configuration exists yet: the default
    /// store file and the initial highlight color.
    pub fn initial() -> (r: Config)
        ensures
            r.db_file@ == CONFIG_DIR@ + DEFAULT_DB_FILE@,
            r.highlight_color == INITIAL_COLOR,
    {
        let mut db_file = CONFIG_DIR.to_owned();
        push_text(&mut db_file, DEFAULT_DB_FILE);
        Config { db_file, highlight_color: INITIAL_COLOR }
    }
}

} // verus!
