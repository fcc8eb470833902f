//! Where the files of the configuration are.
use crate::config::Config;
use crate::error::ConfigError;
use crate::text::texts;
use vstd::prelude::*;

verus! {

pub const CONFIG_FILE_NAME: &'static str = "config.yaml";

pub const ROLES_FILE_NAME: &'static str = "roles.yaml";

pub const MESSAGES_FILE_NAME: &'static str = "messages.md";

pub const SESSIONS_DIR_NAME: &'static str = "sessions";

/// What the environment says of places, each a path of the platform's own kind.
#[derive(Debug)]
pub struct Surroundings<P> {
    /// The directory of the configuration, where a variable gives it.
    pub config_dir: Option<P>,
    /// The directory that the platform has for the configurations of a user.
    pub user_config_dir: Option<P>,
    /// The file of the roles, where a variable gives it.
    pub roles_file: Option<P>,
    /// The name of the program, under which it keeps its own directory there.
    pub program: String,
}

/// A place: a path, and the names that are pushed onto it in turn.
#[derive(Debug)]
pub struct LocalPath<P> {
    pub base: P,
    pub names: Vec<String>,
}

impl<P> LocalPath<P> {
    /// The place is `base` with `names` pushed onto it.
    pub open spec fn is(&self, base: P, names: Seq<Seq<char>>) -> bool {
        self.base == base && texts(self.names@) == names
    }

    fn push(&mut self, name: &str)
        ensures
            final(self).is(old(self).base, texts(old(self).names@).push(name@)),
    {
        self.names.push(name.to_owned());
        assert(texts(self.names@) =~= texts(old(self).names@).push(name@));
    }
}

/// `result` is the place `names` below the directory of the configuration, or an error where
/// there is no such directory.
pub open spec fn located<P>(
    around: Surroundings<P>,
    names: Seq<Seq<char>>,
    result: Result<LocalPath<P>, ConfigError>,
) -> bool {
    match (around.config_dir, around.user_config_dir) {
        (Some(dir), _) => result matches Ok(path) && path.is(dir, names),
        (None, Some(dir)) => result matches Ok(path) && path.is(
            dir,
            seq![around.program@] + names,
        ),
        (None, None) => result == Err::<LocalPath<P>, _>(ConfigError::NoConfigDir),
    }
}

/// `result` is the place of the roles: the one that a variable gives, else the one in the
/// directory of the configuration, or an error where there is no such directory.
pub open spec fn roles_located<P>(
    around: Surroundings<P>,
    result: Result<LocalPath<P>, ConfigError>,
) -> bool {
    match around.roles_file {
        Some(file) => result matches Ok(path) && path.is(file, Seq::empty()),
        None => located(around, seq![ROLES_FILE_NAME@], result),
    }
}

/// The name of the file that holds the session `name`.
pub open spec fn session_file_name(name: Seq<char>) -> Seq<char> {
    name + ".yaml"@
}

impl Config {
    /// The directory of the configuration: the one that a variable gives, else the program's own
    /// below that of the user.
    pub fn config_dir<P>(around: Surroundings<P>) -> (result: Result<LocalPath<P>, ConfigError>)
        ensures
            located(around, Seq::empty(), result),
    {
        if let Some(base) = around.config_dir {
            let path = LocalPath { base, names: Vec::new() };
            assert(texts(path.names@) =~= Seq::empty());
            Ok(path)
        } else {
            match around.user_config_dir {
                Some(base) => {
                    let mut path = LocalPath { base, names: Vec::new() };
                    path.push(around.program.as_str());
                    assert(texts(path.names@) =~= seq![around.program@] + Seq::empty());
                    Ok(path)
                },
                None => Err(ConfigError::NoConfigDir),
            }
        }
    }

    /// The place `name` in the directory of the configuration.
    pub fn local_path<P>(around: Surroundings<P>, name: &str) -> (result: Result<
        LocalPath<P>,
        ConfigError,
    >)
        ensures
            located(around, seq![name@], result),
    {
        match Self::config_dir(around) {
            Ok(mut path) => {
                path.push(name);
                assert(Seq::<Seq<char>>::empty().push(name@) =~= seq![name@]);
                assert(seq![around.program@].push(name@) =~= seq![around.program@] + seq![name@]);
                assert(seq![around.program@] + Seq::empty() =~= seq![around.program@]);
                Ok(path)
            },
            Err(error) => Err(error),
        }
    }

    pub fn config_file<P>(around: Surroundings<P>) -> (result: Result<LocalPath<P>, ConfigError>)
        ensures
            located(around, seq![CONFIG_FILE_NAME@], result),
    {
        Self::local_path(around, CONFIG_FILE_NAME)
    }

    /// The file of the roles: the one that a variable gives, else the one in the directory of
    /// the configuration.
    pub fn roles_file<P>(around: Surroundings<P>) -> (result: Result<LocalPath<P>, ConfigError>)
        ensures
            roles_located(around, result),
    {
        let Surroundings { config_dir, user_config_dir, roles_file, program } = around;
        match roles_file {
            Some(base) => {
                let path = LocalPath { base, names: Vec::new() };
                assert(texts(path.names@) =~= Seq::empty());
                Ok(path)
            },
            None => Self::local_path(
                Surroundings { config_dir, user_config_dir, roles_file: None, program },
                ROLES_FILE_NAME,
            ),
        }
    }

    pub fn messages_file<P>(around: Surroundings<P>) -> (result: Result<
        LocalPath<P>,
        ConfigError,
    >)
        ensures
            located(around, seq![MESSAGES_FILE_NAME@], result),
    {
        Self::local_path(around, MESSAGES_FILE_NAME)
    }

    pub fn sessions_dir<P>(around: Surroundings<P>) -> (result: Result<LocalPath<P>, ConfigError>)
        ensures
            located(around, seq![SESSIONS_DIR_NAME@], result),
    {
        Self::local_path(around, SESSIONS_DIR_NAME)
    }

    /// The file that holds the session `name`.
    pub fn session_file<P>(around: Surroundings<P>, name: &str) -> (result: Result<
        LocalPath<P>,
        ConfigError,
    >)
        ensures
            located(around, seq![SESSIONS_DIR_NAME@, session_file_name(name@)], result),
    {
        match Self::sessions_dir(around) {
            Ok(mut path) => {
                let file = name.to_owned().concat(".yaml");
                path.push(file.as_str());
                assert(seq![SESSIONS_DIR_NAME@].push(file@) =~= seq![SESSIONS_DIR_NAME@, file@]);
                assert((seq![around.program@] + seq![SESSIONS_DIR_NAME@]).push(file@) =~= seq![
                    around.program@,
                ] + seq![SESSIONS_DIR_NAME@, file@]);
                Ok(path)
            },
            Err(error) => Err(error),
        }
    }
}

} // verus!
