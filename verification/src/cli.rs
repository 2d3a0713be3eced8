//! What the command line says about the configuration file.

use vstd::prelude::*;

verus! {

/// The options of the command line.
#[derive(Debug)]
pub struct AppCli {
    /// The path of the configuration file, where one was given.
    pub app_config: Option<String>,
    /// Whether a default configuration may be written where none exists.
    pub allow_save_default_app_config: bool,
}

/// Where the configuration file is looked for.
#[derive(Debug, PartialEq, Eq, Structural, Clone, Copy)]
pub enum ConfigSource {
    /// At the path given on the command line.
    Given,
    /// In the project's configuration directory.
    ProjectDir,
    /// Nowhere: no path was given and no project directory is known.
    Unknown,
}

impl AppCli {
    /// The options as given: a path or none, and the permission to write a
    /// default configuration.
    pub fn new(app_config: Option<String>, allow_save_default_app_config: bool) -> (r: AppCli)
        ensures
            r.app_config == app_config,
            r.allow_save_default_app_config == allow_save_default_app_config,
    {
        AppCli { app_config, allow_save_default_app_config }
    }

    /// The path of the configuration file, where one was given.
    pub fn get_app_config(&self) -> (r: Option<&str>)
        ensures
            r is Some <==> self.app_config is Some,
            r matches Some(path) ==> path@ == self.app_config.unwrap()@,
    {
        match &self.app_config {
            Some(path) => Some(path.as_str()),
            None => None,
        }
    }

    /// Says whether a default configuration may be written where none
    /// exists.
    pub fn get_allow_save_default_app_config(&self) -> (r: bool)
        ensures
            r == self.allow_save_default_app_config,
    {
        self.allow_save_default_app_config
    }

    /// Where the configuration file is looked for: at the given path where
    /// there is one, whatever else is known; else in the project's
    /// configuration directory, where `project_dir_known` says there is
    /// one.
    pub fn config_source(&self, project_dir_known: bool) -> (r: ConfigSource)
        ensures
            r == if self.app_config is Some {
                ConfigSource::Given
            } else if project_dir_known {
                ConfigSource::ProjectDir
            } else {
                ConfigSource::Unknown
            },
    {
        if self.app_config.is_some() {
            ConfigSource::Given
        } else if project_dir_known {
            ConfigSource::ProjectDir
        } else {
            ConfigSource::Unknown
        }
    }
}

/// Why no configuration file can be looked for.
#[derive(Debug, PartialEq, Eq, Structural, Clone, Copy)]
pub enum ConfigPathError {
    /// No path was given and the project's directories could not be
    /// determined.
    NoProjectDirs,
}

/// The name of the configuration file in the project's configuration
/// directory.
pub const APP_CONFIG_FILE: &'static str = "AppConfig.toml";

/// The project's configuration directory, as `directories::ProjectDirs::from`
/// and `config_dir` give it, as text. What comes back depends on the
/// operating system and on the user's environment, so nothing is claimed of
/// it: `None` where no home directory could be found.
#[verifier::external_body]
fn project_config_dir(qualifier: &str, organization: &str, application: &str) -> (r: Option<
    String,
>) {
    directories::ProjectDirs::from(qualifier, organization, application).map(
        |dirs| dirs.config_dir().to_string_lossy().into_owned(),
    )
}

/// The path of the file `name` in the directory `dir`, as
/// `std::path::Path::join` gives it, as text. The separator depends on the
/// platform, so nothing is claimed of the result.
#[verifier::external_body]
fn join_path(dir: &str, name: &str) -> (r: String) {
    std::path::Path::new(dir).join(name).to_string_lossy().into_owned()
}

/// The path at which the configuration is looked for, once it is known
/// what the command line gave and where the default file would be: the
/// given path where there is one, else the default file, else an error.
pub fn config_path_from(given: Option<&str>, default_file: Option<String>) -> (r: Result<
    String,
    ConfigPathError,
>)
    ensures
        match (given, default_file) {
            (Some(path), _) => r matches Ok(p) && p@ == path@,
            (None, Some(file)) => r == Ok::<String, ConfigPathError>(file),
            (None, None) => r == Err::<String, ConfigPathError>(ConfigPathError::NoProjectDirs),
        },
{
    match given {
        Some(path) => Ok(path.to_owned()),
        None => match default_file {
            Some(file) => Ok(file),
            None => Err(ConfigPathError::NoProjectDirs),
        },
    }
}

impl AppCli {
    /// Finds the path of the configuration file and hands it to `next`. A
    /// path given on the command line is taken as it is, and then `next` is
    /// always called. Without one, the file is looked for in the
    /// configuration directory of the project named by `qualifier`,
    /// `organization` and `application`; where that directory cannot be
    /// determined, `next` is not called and the result is an error.
    pub fn search_default_appconfigpath<R, F: FnOnce(&str) -> R>(
        &self,
        qualifier: &str,
        organization: &str,
        application: &str,
        next: F,
    ) -> (r: Result<R, ConfigPathError>)
        requires
            forall|path: &str| call_requires(next, (path,)),
        ensures
            self.app_config matches Some(given) ==> r matches Ok(v) && exists|path: &str|
                path@ == given@ && #[trigger] call_ensures(next, (path,), v),
            r matches Ok(v) ==> exists|path: &str| #[trigger] call_ensures(next, (path,), v),
            r matches Err(e) ==> e == ConfigPathError::NoProjectDirs,
    {
        let default_file = match self.get_app_config() {
            Some(_) => None,
            None => match project_config_dir(qualifier, organization, application) {
                Some(dir) => Some(join_path(dir.as_str(), APP_CONFIG_FILE)),
                None => None,
            },
        };
        let path = match config_path_from(self.get_app_config(), default_file) {
            Ok(path) => path,
            Err(e) => {
                return Err(e);
            },
        };
        let text = path.as_str();
        let v = next(text);
        let r = Ok(v);
        assert(call_ensures(next, (text,), r->Ok_0));
        r
    }
}

} // verus!
