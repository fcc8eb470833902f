//! What the user is shown of the configuration, and how answers are shown.
use crate::config::Config;
use crate::error::ConfigError;
use crate::paths::{
    located, roles_located, LocalPath, Surroundings, CONFIG_FILE_NAME, MESSAGES_FILE_NAME,
    SESSIONS_DIR_NAME,
};
use crate::role::Temperature;
use crate::text::{padded, padded_text, truth, truth_text};
use vstd::prelude::*;

verus! {

/// A place that the configuration uses, and whether something is there.
#[derive(Debug)]
pub struct PathState {
    pub path: String,
    pub exists_there: bool,
}

impl PathState {
    /// The place, with a mark behind it where nothing is there.
    pub open spec fn text(&self) -> Seq<char> {
        if self.exists_there {
            self.path@
        } else {
            self.path@ + " ⚠️"@
        }
    }

    fn stringify(&self) -> (text: String)
        ensures
            text@ == self.text(),
    {
        if self.exists_there {
            self.path.clone()
        } else {
            self.path.clone().concat(" ⚠️")
        }
    }
}

/// The places that the configuration uses.
#[derive(Debug)]
pub struct InfoPaths {
    pub config_file: PathState,
    pub roles_file: PathState,
    pub messages_file: PathState,
    pub sessions_dir: PathState,
}

/// Where the theme of highlighted text comes from.
#[derive(Debug)]
pub enum ThemeSource {
    /// There is no theme.
    Plain,
    /// The theme file of that name in the directory of the configuration.
    File(String),
    /// The theme that comes with the program.
    Builtin { light: bool },
}

/// How answers are shown.
#[derive(Debug)]
pub struct RenderOptions {
    pub theme: ThemeSource,
    pub wrap: Option<String>,
    pub wrap_code: bool,
}

/// `outcome` is what `look` sees at `place`, or the error that there is instead of a place.
pub open spec fn seen<P, K: Fn(LocalPath<P>) -> PathState>(
    place: Result<LocalPath<P>, ConfigError>,
    look: K,
    outcome: Result<PathState, ConfigError>,
) -> bool {
    match place {
        Ok(path) => outcome matches Ok(state) && look.ensures((path,), state),
        Err(error) => outcome == Err::<PathState, _>(error),
    }
}

/// `outcome` is what `look` sees at the place `name` in the directory of the configuration, which
/// is where `around` says.
pub open spec fn looked_at<P, A: Fn() -> Surroundings<P>, K: Fn(LocalPath<P>) -> PathState>(
    around: A,
    name: Seq<char>,
    look: K,
    outcome: Result<PathState, ConfigError>,
) -> bool {
    exists|here: Surroundings<P>, place: Result<LocalPath<P>, ConfigError>|
        {
            &&& #[trigger] around.ensures((), here)
            &&& located(here, seq![name], place)
            &&& #[trigger] seen(place, look, outcome)
        }
}

/// `outcome` is what `look` sees at the place of the roles, which is where `around` says.
pub open spec fn roles_looked_at<P, A: Fn() -> Surroundings<P>, K: Fn(LocalPath<P>) -> PathState>(
    around: A,
    look: K,
    outcome: Result<PathState, ConfigError>,
) -> bool {
    exists|here: Surroundings<P>, place: Result<LocalPath<P>, ConfigError>|
        {
            &&& #[trigger] around.ensures((), here)
            &&& roles_located(here, place)
            &&& #[trigger] seen(place, look, outcome)
        }
}

/// `result` is what `look` sees at each of the places, or the error of one that there is not.
pub open spec fn paths_seen<P, A: Fn() -> Surroundings<P>, K: Fn(LocalPath<P>) -> PathState>(
    around: A,
    look: K,
    result: Result<InfoPaths, ConfigError>,
) -> bool {
    match result {
        Ok(paths) => {
            &&& looked_at(around, CONFIG_FILE_NAME@, look, Ok(paths.config_file))
            &&& roles_looked_at(around, look, Ok(paths.roles_file))
            &&& looked_at(around, MESSAGES_FILE_NAME@, look, Ok(paths.messages_file))
            &&& looked_at(around, SESSIONS_DIR_NAME@, look, Ok(paths.sessions_dir))
        },
        Err(error) => {
            ||| looked_at(around, CONFIG_FILE_NAME@, look, Err(error))
            ||| roles_looked_at(around, look, Err(error))
            ||| looked_at(around, MESSAGES_FILE_NAME@, look, Err(error))
            ||| looked_at(around, SESSIONS_DIR_NAME@, look, Err(error))
        },
    }
}

/// `text` is what `show` makes of the temperature, and a dash where there is none.
pub open spec fn temperature_shown<T: FnOnce(Temperature) -> String>(
    temperature: Option<Temperature>,
    show: T,
    text: Seq<char>,
) -> bool {
    match temperature {
        Some(value) => exists|shown: String| #[trigger]
            show.ensures((value,), shown) && shown@ == text,
        None => text == "-"@,
    }
}

/// One line: a name in a column of its own, and a value.
pub open spec fn info_line(name: Seq<char>, value: Seq<char>) -> Seq<char> {
    padded_text(name, 20) + value + "\n"@
}

/// The line of every setting, in order. `temperature` is the temperature in use as a text, or
/// what stands in its place.
pub open spec fn info_text(
    config: Config,
    paths: InfoPaths,
    temperature: Seq<char>,
) -> Seq<char> {
    info_line("config_file"@, paths.config_file.text())
        + info_line("roles_file"@, paths.roles_file.text())
        + info_line("messages_file"@, paths.messages_file.text())
        + info_line("sessions_dir"@, paths.sessions_dir.text())
        + info_line("model"@, config.model_info.text())
        + info_line("temperature"@, temperature)
        + info_line("save"@, truth_text(config.save))
        + info_line("highlight"@, truth_text(config.highlight))
        + info_line("light_theme"@, truth_text(config.light_theme))
        + info_line(
        "wrap"@,
        match config.wrap {
            Some(wrap) => wrap@,
            None => "no"@,
        },
    ) + info_line("wrap_code"@, truth_text(config.wrap_code)) + info_line(
        "dry_run"@,
        truth_text(config.dry_run),
    ) + info_line("keybindings"@, config.keybindings.text())
}

/// The name of the file of a theme.
pub open spec fn theme_file_name(light: bool) -> Seq<char> {
    if light {
        "light.tmTheme"@
    } else {
        "dark.tmTheme"@
    }
}

fn push_line(output: &mut String, name: &str, value: &str)
    ensures
        final(output)@ == old(output)@ + info_line(name@, value@),
{
    output.append(padded(name, 20).as_str());
    output.append(value);
    output.append("\n");
    assert(output@ =~= old(output)@ + info_line(name@, value@));
}

fn see<P, K: Fn(LocalPath<P>) -> PathState>(
    place: Result<LocalPath<P>, ConfigError>,
    look: &K,
) -> (outcome: Result<PathState, ConfigError>)
    requires
        forall|path: LocalPath<P>| #[trigger] look.requires((path,)),
    ensures
        seen(place, *look, outcome),
{
    match place {
        Ok(path) => Ok(look(path)),
        Err(error) => Err(error),
    }
}

impl Config {
    /// What `look` sees at each of the places that the configuration uses. Where those are,
    /// `around` says.
    pub fn info_paths<P, A: Fn() -> Surroundings<P>, K: Fn(LocalPath<P>) -> PathState>(
        around: A,
        look: K,
    ) -> (result: Result<InfoPaths, ConfigError>)
        requires
            around.requires(()),
            forall|path: LocalPath<P>| #[trigger] look.requires((path,)),
        ensures
            paths_seen(around, look, result),
    {
        let config_file = match see(Self::config_file(around()), &look) {
            Ok(state) => state,
            Err(error) => return Err(error),
        };
        let roles_file = match see(Self::roles_file(around()), &look) {
            Ok(state) => state,
            Err(error) => return Err(error),
        };
        let messages_file = match see(Self::messages_file(around()), &look) {
            Ok(state) => state,
            Err(error) => return Err(error),
        };
        let sessions_dir = match see(Self::sessions_dir(around()), &look) {
            Ok(state) => state,
            Err(error) => return Err(error),
        };
        Ok(InfoPaths { config_file, roles_file, messages_file, sessions_dir })
    }

    /// The settings, a line for each: `look` tells what is at each place, where `around` says
    /// that it is, and `show` writes the temperature in use as a text.
    pub fn info<
        P,
        A: Fn() -> Surroundings<P>,
        K: Fn(LocalPath<P>) -> PathState,
        T: FnOnce(Temperature) -> String,
    >(&self, around: A, look: K, show: T) -> (result: Result<String, ConfigError>)
        requires
            around.requires(()),
            forall|path: LocalPath<P>| #[trigger] look.requires((path,)),
            self.temperature matches Some(value) ==> show.requires((value,)),
        ensures
            match result {
                Ok(output) => exists|paths: InfoPaths, temperature: Seq<char>|
                    {
                        &&& #[trigger] paths_seen(around, look, Ok(paths))
                        &&& #[trigger] temperature_shown(self.temperature, show, temperature)
                        &&& output@ == info_text(*self, paths, temperature)
                    },
                Err(error) => paths_seen(around, look, Err(error)),
            },
    {
        let temperature = match self.temperature {
            Some(value) => show(value),
            None => "-".to_owned(),
        };
        assert(temperature_shown(self.temperature, show, temperature@));
        let paths = match Self::info_paths(around, look) {
            Ok(paths) => paths,
            Err(error) => return Err(error),
        };
        assert(paths_seen(around, look, Ok(paths)));
        Ok(self.info_lines(&paths, temperature.as_str()))
    }

    /// The settings, a line for each. `temperature` is the temperature in use as a text, or what
    /// stands in its place.
    pub fn info_lines(&self, paths: &InfoPaths, temperature: &str) -> (output: String)
        ensures
            output@ == info_text(*self, *paths, temperature@),
    {
        let mut output = String::new();
        push_line(&mut output, "config_file", paths.config_file.stringify().as_str());
        push_line(&mut output, "roles_file", paths.roles_file.stringify().as_str());
        push_line(&mut output, "messages_file", paths.messages_file.stringify().as_str());
        push_line(&mut output, "sessions_dir", paths.sessions_dir.stringify().as_str());
        push_line(&mut output, "model", self.model_info.stringify().as_str());
        push_line(&mut output, "temperature", temperature);
        push_line(&mut output, "save", truth(self.save));
        push_line(&mut output, "highlight", truth(self.highlight));
        push_line(&mut output, "light_theme", truth(self.light_theme));
        push_line(
            &mut output,
            "wrap",
            match &self.wrap {
                Some(wrap) => wrap.as_str(),
                None => "no",
            },
        );
        push_line(&mut output, "wrap_code", truth(self.wrap_code));
        push_line(&mut output, "dry_run", truth(self.dry_run));
        push_line(&mut output, "keybindings", self.keybindings.stringify());
        assert(output@ =~= info_text(*self, *paths, temperature@));
        output
    }

    /// The name of the theme file that is looked for, unless highlighting is disabled.
    pub fn theme_file(&self) -> (name: Option<String>)
        ensures
            self.highlight == (name is None),
            name matches Some(name) ==> name@ == theme_file_name(self.light_theme),
    {
        if self.highlight {
            None
        } else if self.light_theme {
            Some("light.tmTheme".to_owned())
        } else {
            Some("dark.tmTheme".to_owned())
        }
    }

    /// How answers are shown, where `theme_exists` tells whether the theme file is there. There is
    /// no theme where highlighting is disabled.
    pub fn get_render_options(&self, theme_exists: bool, is_terminal: bool) -> (options:
        RenderOptions)
        ensures
            self.highlight ==> options.theme == ThemeSource::Plain,
            !self.highlight ==> (if theme_exists {
                &&& options.theme matches ThemeSource::File(name)
                &&& name@ == theme_file_name(self.light_theme)
            } else {
                options.theme == (ThemeSource::Builtin { light: self.light_theme })
            }),
            options.wrap == (if is_terminal {
                self.wrap
            } else {
                None
            }),
            options.wrap_code == self.wrap_code,
    {
        let theme = match self.theme_file() {
            Some(name) => if theme_exists {
                ThemeSource::File(name)
            } else {
                ThemeSource::Builtin { light: self.light_theme }
            },
            None => ThemeSource::Plain,
        };
        let wrap = if is_terminal {
            match &self.wrap {
                Some(wrap) => Some(wrap.clone()),
                None => None,
            }
        } else {
            None
        };
        RenderOptions { theme, wrap, wrap_code: self.wrap_code }
    }
}

} // verus!
