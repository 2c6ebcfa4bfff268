use vstd::prelude::*;
use vstd::string::*;
use crate::text::joined;

verus! {

/// The family of operating system that the program runs on, as far as the
/// places of its files depend on it.
#[derive(Clone, Copy, Debug, PartialEq, Eq, Structural)]
pub enum Platform {
    Linux,
    Windows,
}

/// Where the program keeps its files.
pub struct SettingsProvider {}

/// The directory of the program below the user's directory for application
/// data: `.var/app/carbon` on Linux, `carbon` on Windows.
pub open spec fn default_path_of(platform: Platform, app_data: Seq<char>) -> Seq<char> {
    match platform {
        Platform::Linux => app_data + "/.var/app/"@ + SettingsProvider::APP_NAME@,
        Platform::Windows => app_data + "\\"@ + SettingsProvider::APP_NAME@,
    }
}

/// A file or directory directly below `dir`.
pub open spec fn child_of(platform: Platform, dir: Seq<char>, name: Seq<char>) -> Seq<char> {
    match platform {
        Platform::Linux => dir + "/"@ + name,
        Platform::Windows => dir + "\\"@ + name,
    }
}

impl SettingsProvider {
    pub const APP_NAME: &'static str = "carbon";

    /// The program's own directory below `app_data`.
    pub fn default_path(platform: Platform, app_data: &str) -> (path: String)
        ensures
            path@ == default_path_of(platform, app_data@),
    {
        let mut path = match platform {
            Platform::Linux => joined(app_data, "/.var/app/"),
            Platform::Windows => joined(app_data, "\\"),
        };
        path.append(Self::APP_NAME);
        path
    }

    fn child(platform: Platform, dir: &str, name: &str) -> (path: String)
        ensures
            path@ == child_of(platform, dir@, name@),
    {
        let mut path = match platform {
            Platform::Linux => joined(dir, "/"),
            Platform::Windows => joined(dir, "\\"),
        };
        path.append(name);
        path
    }

    /// The file that holds the key to the service.
    pub fn api_key_path(platform: Platform, app_data: &str) -> (path: String)
        ensures
            path@ == child_of(platform, default_path_of(platform, app_data@), "api_key.txt"@),
    {
        let dir = Self::default_path(platform, app_data);
        Self::child(platform, dir.as_str(), "api_key.txt")
    }

    /// The directory that holds the cache.
    pub fn cache_dir(platform: Platform, app_data: &str) -> (path: String)
        ensures
            path@ == child_of(platform, default_path_of(platform, app_data@), "cache"@),
    {
        let dir = Self::default_path(platform, app_data);
        Self::child(platform, dir.as_str(), "cache")
    }

    /// The database file, in the directory of the cache.
    pub fn database_path(platform: Platform, app_data: &str) -> (path: String)
        ensures
            path@ == child_of(
                platform,
                child_of(platform, default_path_of(platform, app_data@), "cache"@),
                "carbon.db"@,
            ),
    {
        let dir = Self::cache_dir(platform, app_data);
        Self::child(platform, dir.as_str(), "carbon.db")
    }
}

} // verus!
