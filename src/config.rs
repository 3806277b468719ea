use vstd::prelude::*;
use crate::proton::{join, path_join, AUTO_DETECT};

verus! {

/// The user's settings.
#[derive(Clone, Debug, PartialEq, Eq)]
pub struct Config {
    pub votv_exe_path: String,
    pub install_dir: String,
    pub steam_path: String,
    pub proton_version: String,
}

/// The default install directory, under the home directory.
pub const DEFAULT_INSTALL_SUBDIR: &'static str = "Downloads/VOTV";

/// The default Steam root, under the home directory.
pub const DEFAULT_STEAM_SUBDIR: &'static str = ".steam/steam";

/// Relies on dirs::home_dir: the user's home directory as text, or empty
/// text when there is none. It depends on the environment, so nothing is
/// promised of it.
#[verifier::external_body]
fn home_dir_text() -> (r: String) {
    dirs::home_dir().unwrap_or_default().to_string_lossy().to_string()
}

impl Config {
    /// Whether these are the default settings for home directory `home`.
    pub open spec fn is_default_for(&self, home: Seq<char>) -> bool {
        &&& self.votv_exe_path@ == Seq::<char>::empty()
        &&& self.install_dir@ == path_join(home, DEFAULT_INSTALL_SUBDIR@)
        &&& self.steam_path@ == path_join(home, DEFAULT_STEAM_SUBDIR@)
        &&& self.proton_version@ == AUTO_DETECT@
    }

    /// The default settings for home directory `home`: no game selected, the
    /// install and Steam directories under `home`, Proton auto-detected.
    pub fn with_home(home: &String) -> (r: Config)
        ensures
            r.is_default_for(home@),
    {
        Config {
            votv_exe_path: String::new(),
            install_dir: join(home, DEFAULT_INSTALL_SUBDIR),
            steam_path: join(home, DEFAULT_STEAM_SUBDIR),
            proton_version: String::from_str(AUTO_DETECT),
        }
    }
}

impl Default for Config {
    /// The default settings for the current user's home directory.
    fn default() -> (r: Config)
        ensures
            exists|home: Seq<char>| r.is_default_for(home),
    {
        let home = home_dir_text();
        Config::with_home(&home)
    }
}

} // verus!
