//! Where the configuration document lives, and what a fresh one says.

use vstd::prelude::*;

verus! {

/// Name of the application, and of its directory under the user's
/// configuration directory.
pub const APP_NAME: &'static str = "sapin";

/// File name of the configuration document.
pub const CONFIG_FILE: &'static str = "config.toml";

/// The document written on first run, when no configuration file exists.
pub const DEFAULT_DOCUMENT: &'static str = "# any valid CSS color, e.g. \"limegreen\", \"#034017\", \"rgb(255, 0, 0)\"
color = \"green\"
alpha = 0.7 # 0.0 - 1.0
debug = false
# prevents the window contents from being captured by other apps
protected = true

[crosshair]
size = 22
thickness = 4
gap = 12

# to use a dot uncomment the following lines (and remove the [crosshair] section)
#[dot]
#radius = 4
";

/// The path text that `std::path::Path::join` makes of `base` and `tail`.
pub uninterp spec fn path_joined(base: Seq<char>, tail: Seq<char>) -> Seq<char>;

/// Relies on `std::path::Path::join`: the joined path depends on the two
/// parts alone. Both parts are UTF-8, so the lossless text of the result is
/// returned.
#[verifier::external_body]
fn join_path(base: &str, tail: &str) -> (r: String)
    ensures
        r@ == path_joined(base@, tail@),
{
    std::path::Path::new(base).join(tail).to_string_lossy().into_owned()
}

/// The configuration document's directory and file name.
#[derive(Debug)]
pub struct ConfigFile {
    pub path: String,
    pub filename: String,
}

impl Clone for ConfigFile {
    fn clone(&self) -> (r: ConfigFile)
        ensures
            r == *self,
    {
        ConfigFile { path: self.path.clone(), filename: self.filename.clone() }
    }
}

impl ConfigFile {
    /// The document of this application under the user's configuration
    /// directory `config_dir`.
    pub fn new(config_dir: &str) -> (r: ConfigFile)
        ensures
            r.path@ == path_joined(config_dir@, APP_NAME@),
            r.filename@ == CONFIG_FILE@,
    {
        ConfigFile { path: join_path(config_dir, APP_NAME), filename: CONFIG_FILE.to_owned() }
    }

    /// The path of the document itself.
    pub fn full_path(&self) -> (r: String)
        ensures
            r@ == path_joined(self.path@, self.filename@),
    {
        join_path(self.path.as_str(), self.filename.as_str())
    }
}

} // verus!
