//! What the user is shown of the configuration, and where its files are.
use crate::config::Config;
use crate::error::ConfigError;
use crate::info::{
    info_line, info_text, looked_at, paths_seen, roles_looked_at, seen, temperature_shown,
    InfoPaths, PathState, RenderOptions, ThemeSource,
};
use crate::keybindings::Keybindings;
use crate::paths::{located, roles_located, LocalPath, Surroundings};
use crate::role::Temperature;
use crate::text::{padded_text, texts};
use vstd::prelude::*;

verus! {

pub open spec fn switch_shown(on: bool) -> Seq<char> {
    if on {
        "true"@
    } else {
        "false"@
    }
}

pub open spec fn place_shown(state: PathState) -> Seq<char> {
    if state.exists_there {
        state.path@
    } else {
        state.path@ + " ⚠️"@
    }
}

pub open spec fn mode_shown(wrap: Option<String>) -> Seq<char> {
    match wrap {
        Some(wrap) => wrap@,
        None => "no"@,
    }
}

pub open spec fn keys_shown(keys: Keybindings) -> Seq<char> {
    match keys {
        Keybindings::Emacs => "emacs"@,
        Keybindings::Vi => "vi"@,
    }
}

/// Every setting, with the column in which its name stands and the value that it has.
pub open spec fn settings_shown(
    config: Config,
    paths: InfoPaths,
    temperature: Seq<char>,
) -> Seq<(Seq<char>, Seq<char>)> {
    seq![
        ("config_file         "@, place_shown(paths.config_file)),
        ("roles_file          "@, place_shown(paths.roles_file)),
        ("messages_file       "@, place_shown(paths.messages_file)),
        ("sessions_dir        "@, place_shown(paths.sessions_dir)),
        ("model               "@, config.model_info.client@ + ":"@ + config.model_info.name@),
        ("temperature         "@, temperature),
        ("save                "@, switch_shown(config.save)),
        ("highlight           "@, switch_shown(config.highlight)),
        ("light_theme         "@, switch_shown(config.light_theme)),
        ("wrap                "@, mode_shown(config.wrap)),
        ("wrap_code           "@, switch_shown(config.wrap_code)),
        ("dry_run             "@, switch_shown(config.dry_run)),
        ("keybindings         "@, keys_shown(config.keybindings)),
    ]
}

/// A line for each of the items: its column, and its value behind it.
pub open spec fn screen(items: Seq<(Seq<char>, Seq<char>)>) -> Seq<char>
    decreases items.len(),
{
    if items.len() == 0 {
        Seq::empty()
    } else {
        screen(items.drop_last()) + (items.last().0 + items.last().1 + "\n"@)
    }
}

proof fn lemma_next_line(items: Seq<(Seq<char>, Seq<char>)>, column: Seq<char>, value: Seq<char>)
    ensures
        screen(items.push((column, value))) == screen(items) + (column + value + "\n"@),
{
    assert(items.push((column, value)).drop_last() =~= items);
}

#[verifier::rlimit(40)]
proof fn lemma_screen(config: Config, paths: InfoPaths, temperature: Seq<char>)
    ensures
        info_text(config, paths, temperature) == screen(
            settings_shown(config, paths, temperature),
        ),
{
    reveal_strlit("config_file");
    reveal_strlit("config_file         ");
    assert(padded_text("config_file"@, 20) =~= "config_file         "@);
    reveal_strlit("roles_file");
    reveal_strlit("roles_file          ");
    assert(padded_text("roles_file"@, 20) =~= "roles_file          "@);
    reveal_strlit("messages_file");
    reveal_strlit("messages_file       ");
    assert(padded_text("messages_file"@, 20) =~= "messages_file       "@);
    reveal_strlit("sessions_dir");
    reveal_strlit("sessions_dir        ");
    assert(padded_text("sessions_dir"@, 20) =~= "sessions_dir        "@);
    reveal_strlit("model");
    reveal_strlit("model               ");
    assert(padded_text("model"@, 20) =~= "model               "@);
    reveal_strlit("temperature");
    reveal_strlit("temperature         ");
    assert(padded_text("temperature"@, 20) =~= "temperature         "@);
    reveal_strlit("save");
    reveal_strlit("save                ");
    assert(padded_text("save"@, 20) =~= "save                "@);
    reveal_strlit("highlight");
    reveal_strlit("highlight           ");
    assert(padded_text("highlight"@, 20) =~= "highlight           "@);
    reveal_strlit("light_theme");
    reveal_strlit("light_theme         ");
    assert(padded_text("light_theme"@, 20) =~= "light_theme         "@);
    reveal_strlit("wrap");
    reveal_strlit("wrap                ");
    assert(padded_text("wrap"@, 20) =~= "wrap                "@);
    reveal_strlit("wrap_code");
    reveal_strlit("wrap_code           ");
    assert(padded_text("wrap_code"@, 20) =~= "wrap_code           "@);
    reveal_strlit("dry_run");
    reveal_strlit("dry_run             ");
    assert(padded_text("dry_run"@, 20) =~= "dry_run             "@);
    reveal_strlit("keybindings");
    reveal_strlit("keybindings         ");
    assert(padded_text("keybindings"@, 20) =~= "keybindings         "@);
    let items = settings_shown(config, paths, temperature);
    assert(items.take(0) =~= Seq::empty());
    assert(screen(items.take(0)) =~= Seq::empty());
    assert(items.take(1) =~= items.take(0).push(items[0]));
    lemma_next_line(items.take(0), items[0].0, items[0].1);
    assert(items.take(2) =~= items.take(1).push(items[1]));
    lemma_next_line(items.take(1), items[1].0, items[1].1);
    assert(items.take(3) =~= items.take(2).push(items[2]));
    lemma_next_line(items.take(2), items[2].0, items[2].1);
    assert(items.take(4) =~= items.take(3).push(items[3]));
    lemma_next_line(items.take(3), items[3].0, items[3].1);
    assert(items.take(5) =~= items.take(4).push(items[4]));
    lemma_next_line(items.take(4), items[4].0, items[4].1);
    assert(items.take(6) =~= items.take(5).push(items[5]));
    lemma_next_line(items.take(5), items[5].0, items[5].1);
    assert(items.take(7) =~= items.take(6).push(items[6]));
    lemma_next_line(items.take(6), items[6].0, items[6].1);
    assert(items.take(8) =~= items.take(7).push(items[7]));
    lemma_next_line(items.take(7), items[7].0, items[7].1);
    assert(items.take(9) =~= items.take(8).push(items[8]));
    lemma_next_line(items.take(8), items[8].0, items[8].1);
    assert(items.take(10) =~= items.take(9).push(items[9]));
    lemma_next_line(items.take(9), items[9].0, items[9].1);
    assert(items.take(11) =~= items.take(10).push(items[10]));
    lemma_next_line(items.take(10), items[10].0, items[10].1);
    assert(items.take(12) =~= items.take(11).push(items[11]));
    lemma_next_line(items.take(11), items[11].0, items[11].1);
    assert(items.take(13) =~= items.take(12).push(items[12]));
    lemma_next_line(items.take(12), items[12].0, items[12].1);
    assert(items.take(13) =~= items);
    let first = info_line("config_file"@, paths.config_file.text());
    assert(screen(items.take(1)) =~= first);
}

/// Every setting is shown, each with its own value under its own name, in a column of twenty
/// characters, and in this order.
pub proof fn law_settings_stand_under_their_names(
    config: Config,
    paths: InfoPaths,
    temperature: &str,
    output: String,
)
    requires
        call_ensures(Config::info_lines, (&config, &paths, temperature), output),
    ensures
        output@ == screen(settings_shown(config, paths, temperature@)),
{
    lemma_screen(config, paths, temperature@);
}

/// `text` is `front`, the line that shows `value` behind `column`, and `back`.
pub open spec fn split_at(
    front: Seq<char>,
    back: Seq<char>,
    column: Seq<char>,
    value: Seq<char>,
    text: Seq<char>,
) -> bool {
    text == front + (column + value + "\n"@) + back
}

/// Two texts are the same but for one line, which shows one value in the first and the other in
/// the second.
pub open spec fn same_but_for(
    column: Seq<char>,
    value: Seq<char>,
    other_value: Seq<char>,
    text: Seq<char>,
    other_text: Seq<char>,
) -> bool {
    exists|front: Seq<char>, back: Seq<char>|
        {
            &&& #[trigger] split_at(front, back, column, value, text)
            &&& #[trigger] split_at(front, back, column, other_value, other_text)
        }
}

proof fn lemma_line_parts_the_screen(items: Seq<(Seq<char>, Seq<char>)>, i: int)
    requires
        0 <= i < items.len(),
    ensures
        split_at(
            screen(items.take(i)),
            screen(items.skip(i + 1)),
            items[i].0,
            items[i].1,
            screen(items),
        ),
    decreases items.len(),
{
    let front = screen(items.take(i));
    let line = items[i].0 + items[i].1 + "\n"@;
    let shorter = items.drop_last();
    if i == items.len() - 1 {
        assert(shorter =~= items.take(i));
        assert(items.skip(i + 1).len() == 0);
        assert(screen(items) =~= front + line + screen(items.skip(i + 1)));
    } else {
        lemma_line_parts_the_screen(shorter, i);
        let last = items.last().0 + items.last().1 + "\n"@;
        assert(shorter.take(i) =~= items.take(i));
        assert(items.skip(i + 1).drop_last() =~= shorter.skip(i + 1));
        assert(screen(items.skip(i + 1)) == screen(shorter.skip(i + 1)) + last);
        assert(front + line + screen(shorter.skip(i + 1)) + last =~= front + line + screen(
            items.skip(i + 1),
        ));
    }
}

proof fn lemma_one_line_apart(
    items: Seq<(Seq<char>, Seq<char>)>,
    other: Seq<(Seq<char>, Seq<char>)>,
    i: int,
)
    requires
        0 <= i < items.len(),
        items[i].0 == other[i].0,
        other =~= items.update(i, other[i]),
    ensures
        same_but_for(items[i].0, items[i].1, other[i].1, screen(items), screen(other)),
{
    assert(other.take(i) =~= items.take(i));
    assert(other.skip(i + 1) =~= items.skip(i + 1));
    lemma_line_parts_the_screen(items, i);
    lemma_line_parts_the_screen(other, i);
}

proof fn lemma_switch_changes_its_own_line(
    config: Config,
    other: Config,
    paths: InfoPaths,
    temperature: Seq<char>,
)
    ensures
        other == (Config { save: other.save, ..config }) ==> same_but_for(
            "save                "@,
            switch_shown(config.save),
            switch_shown(other.save),
            screen(settings_shown(config, paths, temperature)),
            screen(settings_shown(other, paths, temperature)),
        ),
        other == (Config { highlight: other.highlight, ..config }) ==> same_but_for(
            "highlight           "@,
            switch_shown(config.highlight),
            switch_shown(other.highlight),
            screen(settings_shown(config, paths, temperature)),
            screen(settings_shown(other, paths, temperature)),
        ),
        other == (Config { light_theme: other.light_theme, ..config }) ==> same_but_for(
            "light_theme         "@,
            switch_shown(config.light_theme),
            switch_shown(other.light_theme),
            screen(settings_shown(config, paths, temperature)),
            screen(settings_shown(other, paths, temperature)),
        ),
        other == (Config { wrap_code: other.wrap_code, ..config }) ==> same_but_for(
            "wrap_code           "@,
            switch_shown(config.wrap_code),
            switch_shown(other.wrap_code),
            screen(settings_shown(config, paths, temperature)),
            screen(settings_shown(other, paths, temperature)),
        ),
        other == (Config { dry_run: other.dry_run, ..config }) ==> same_but_for(
            "dry_run             "@,
            switch_shown(config.dry_run),
            switch_shown(other.dry_run),
            screen(settings_shown(config, paths, temperature)),
            screen(settings_shown(other, paths, temperature)),
        ),
{
    let shown = settings_shown(config, paths, temperature);
    let other_shown = settings_shown(other, paths, temperature);
    if other == (Config { save: other.save, ..config }) {
        lemma_one_line_apart(shown, other_shown, 6);
    }
    if other == (Config { highlight: other.highlight, ..config }) {
        lemma_one_line_apart(shown, other_shown, 7);
    }
    if other == (Config { light_theme: other.light_theme, ..config }) {
        lemma_one_line_apart(shown, other_shown, 8);
    }
    if other == (Config { wrap_code: other.wrap_code, ..config }) {
        lemma_one_line_apart(shown, other_shown, 10);
    }
    if other == (Config { dry_run: other.dry_run, ..config }) {
        lemma_one_line_apart(shown, other_shown, 11);
    }
}

/// Two configurations that differ in one switch are shown alike but for the line of that switch,
/// which reads `true` for the one that has it on and `false` for the one that has it off.
pub proof fn law_switch_changes_its_own_line(
    config: Config,
    other: Config,
    paths: InfoPaths,
    temperature: &str,
    output: String,
    other_output: String,
)
    requires
        call_ensures(Config::info_lines, (&config, &paths, temperature), output),
        call_ensures(Config::info_lines, (&other, &paths, temperature), other_output),
    ensures
        other == (Config { save: other.save, ..config }) ==> same_but_for(
            "save                "@,
            switch_shown(config.save),
            switch_shown(other.save),
            output@,
            other_output@,
        ),
        other == (Config { highlight: other.highlight, ..config }) ==> same_but_for(
            "highlight           "@,
            switch_shown(config.highlight),
            switch_shown(other.highlight),
            output@,
            other_output@,
        ),
        other == (Config { light_theme: other.light_theme, ..config }) ==> same_but_for(
            "light_theme         "@,
            switch_shown(config.light_theme),
            switch_shown(other.light_theme),
            output@,
            other_output@,
        ),
        other == (Config { wrap_code: other.wrap_code, ..config }) ==> same_but_for(
            "wrap_code           "@,
            switch_shown(config.wrap_code),
            switch_shown(other.wrap_code),
            output@,
            other_output@,
        ),
        other == (Config { dry_run: other.dry_run, ..config }) ==> same_but_for(
            "dry_run             "@,
            switch_shown(config.dry_run),
            switch_shown(other.dry_run),
            output@,
            other_output@,
        ),
{
    law_settings_stand_under_their_names(config, paths, temperature, output);
    law_settings_stand_under_their_names(other, paths, temperature, other_output);
    lemma_switch_changes_its_own_line(config, other, paths, temperature@);
}

/// `path` is `base` with `names` pushed onto it, one after the other.
pub open spec fn leads_to<P>(path: LocalPath<P>, base: P, names: Seq<Seq<char>>) -> bool {
    &&& path.base == base
    &&& path.names@.len() == names.len()
    &&& forall|i: int| 0 <= i < names.len() ==> (#[trigger] path.names@[i])@ == names[i]
}

/// `result` is the place `names` below the directory that a variable gives; where none does, below
/// the program's own in that of the user; and an error where there is neither.
pub open spec fn placed<P>(
    around: Surroundings<P>,
    names: Seq<Seq<char>>,
    result: Result<LocalPath<P>, ConfigError>,
) -> bool {
    &&& around.config_dir matches Some(dir) ==> result is Ok && leads_to(result->Ok_0, dir, names)
    &&& around.config_dir is None ==> {
        &&& around.user_config_dir matches Some(dir) ==> result is Ok && leads_to(
            result->Ok_0,
            dir,
            seq![around.program@] + names,
        )
        &&& around.user_config_dir is None ==> result == Err::<LocalPath<P>, _>(
            ConfigError::NoConfigDir,
        )
    }
}

proof fn lemma_names_of<P>(path: LocalPath<P>, base: P, names: Seq<Seq<char>>)
    requires
        path.is(base, names),
    ensures
        leads_to(path, base, names),
{
    assert forall|i: int| 0 <= i < names.len() implies (#[trigger] path.names@[i])@ == names[i] by {
        assert(texts(path.names@)[i] == path.names@[i]@);
    }
}

proof fn lemma_placed<P>(
    around: Surroundings<P>,
    names: Seq<Seq<char>>,
    result: Result<LocalPath<P>, ConfigError>,
)
    requires
        located(around, names, result),
    ensures
        placed(around, names, result),
{
    match (around.config_dir, around.user_config_dir) {
        (Some(dir), _) => lemma_names_of(result->Ok_0, dir, names),
        (None, Some(dir)) => lemma_names_of(result->Ok_0, dir, seq![around.program@] + names),
        (None, None) => {},
    }
}

/// Each file of the configuration has its own name in the one directory that the configuration
/// has, and the sessions have a directory of their own below it.
pub proof fn law_files_have_their_places<P>(
    around: Surroundings<P>,
    name: &str,
    dir: Result<LocalPath<P>, ConfigError>,
    local: Result<LocalPath<P>, ConfigError>,
    config_file: Result<LocalPath<P>, ConfigError>,
    messages_file: Result<LocalPath<P>, ConfigError>,
    sessions_dir: Result<LocalPath<P>, ConfigError>,
    session_file: Result<LocalPath<P>, ConfigError>,
)
    requires
        call_ensures(Config::config_dir::<P>, (around,), dir),
        call_ensures(Config::local_path::<P>, (around, name), local),
        call_ensures(Config::config_file::<P>, (around,), config_file),
        call_ensures(Config::messages_file::<P>, (around,), messages_file),
        call_ensures(Config::sessions_dir::<P>, (around,), sessions_dir),
        call_ensures(Config::session_file::<P>, (around, name), session_file),
    ensures
        placed(around, Seq::empty(), dir),
        placed(around, seq![name@], local),
        placed(around, seq!["config.yaml"@], config_file),
        placed(around, seq!["messages.md"@], messages_file),
        placed(around, seq!["sessions"@], sessions_dir),
        placed(around, seq!["sessions"@, name@ + ".yaml"@], session_file),
{
    lemma_placed(around, Seq::empty(), dir);
    lemma_placed(around, seq![name@], local);
    lemma_placed(around, seq!["config.yaml"@], config_file);
    lemma_placed(around, seq!["messages.md"@], messages_file);
    lemma_placed(around, seq!["sessions"@], sessions_dir);
    lemma_placed(around, seq!["sessions"@, name@ + ".yaml"@], session_file);
}

/// The roles are in the file that a variable gives, whatever directory there is, and where none
/// does in a file of the directory of the configuration.
pub proof fn law_roles_have_their_place<P>(
    around: Surroundings<P>,
    roles_file: Result<LocalPath<P>, ConfigError>,
)
    requires
        call_ensures(Config::roles_file::<P>, (around,), roles_file),
    ensures
        around.roles_file matches Some(file) ==> roles_file is Ok && leads_to(
            roles_file->Ok_0,
            file,
            Seq::empty(),
        ),
        around.roles_file is None ==> placed(around, seq!["roles.yaml"@], roles_file),
{
    match around.roles_file {
        Some(file) => lemma_names_of(roles_file->Ok_0, file, Seq::empty()),
        None => lemma_placed(around, seq!["roles.yaml"@], roles_file),
    }
}

/// `look` found `state` at the place `name` in the directory of the configuration.
pub open spec fn found_at<P, A: Fn() -> Surroundings<P>, K: Fn(LocalPath<P>) -> PathState>(
    around: A,
    name: Seq<char>,
    look: K,
    state: PathState,
) -> bool {
    exists|here: Surroundings<P>, path: LocalPath<P>|
        {
            &&& #[trigger] around.ensures((), here)
            &&& placed(here, seq![name], Ok(path))
            &&& #[trigger] look.ensures((path,), state)
        }
}

/// `look` found `state` at the place of the roles.
pub open spec fn roles_found_at<P, A: Fn() -> Surroundings<P>, K: Fn(LocalPath<P>) -> PathState>(
    around: A,
    look: K,
    state: PathState,
) -> bool {
    exists|here: Surroundings<P>, path: LocalPath<P>|
        {
            &&& #[trigger] around.ensures((), here)
            &&& match here.roles_file {
                Some(file) => leads_to(path, file, Seq::empty()),
                None => placed(here, seq!["roles.yaml"@], Ok(path)),
            }
            &&& #[trigger] look.ensures((path,), state)
        }
}

proof fn lemma_found_at<P, A: Fn() -> Surroundings<P>, K: Fn(LocalPath<P>) -> PathState>(
    around: A,
    name: Seq<char>,
    look: K,
    state: PathState,
)
    requires
        looked_at(around, name, look, Ok(state)),
    ensures
        found_at(around, name, look, state),
{
    let (here, place) = choose|here: Surroundings<P>, place: Result<LocalPath<P>, ConfigError>|
        {
            &&& #[trigger] around.ensures((), here)
            &&& located(here, seq![name], place)
            &&& #[trigger] seen(place, look, Ok(state))
        };
    lemma_placed(here, seq![name], place);
    assert(look.ensures((place->Ok_0,), state));
}

proof fn lemma_roles_found_at<P, A: Fn() -> Surroundings<P>, K: Fn(LocalPath<P>) -> PathState>(
    around: A,
    look: K,
    state: PathState,
)
    requires
        roles_looked_at(around, look, Ok(state)),
    ensures
        roles_found_at(around, look, state),
{
    let (here, place) = choose|here: Surroundings<P>, place: Result<LocalPath<P>, ConfigError>|
        {
            &&& #[trigger] around.ensures((), here)
            &&& roles_located(here, place)
            &&& #[trigger] seen(place, look, Ok(state))
        };
    match here.roles_file {
        Some(file) => lemma_names_of(place->Ok_0, file, Seq::empty()),
        None => lemma_placed(here, seq!["roles.yaml"@], place),
    }
    assert(look.ensures((place->Ok_0,), state));
}

/// The screen is made of what was found at the four places, and shows the temperature in use in
/// the words of `show`, or a dash where there is none.
pub proof fn law_screen_shows_places_and_temperature<
    P,
    A: Fn() -> Surroundings<P>,
    K: Fn(LocalPath<P>) -> PathState,
    T: FnOnce(Temperature) -> String,
>(config: Config, around: A, look: K, show: T, result: Result<String, ConfigError>)
    requires
        call_ensures(Config::info::<P, A, K, T>, (&config, around, look, show), result),
    ensures
        result matches Ok(output) ==> exists|paths: InfoPaths, temperature: Seq<char>|
            {
                &&& output@ == screen(#[trigger] settings_shown(config, paths, temperature))
                &&& found_at(around, "config.yaml"@, look, paths.config_file)
                &&& roles_found_at(around, look, paths.roles_file)
                &&& found_at(around, "messages.md"@, look, paths.messages_file)
                &&& found_at(around, "sessions"@, look, paths.sessions_dir)
                &&& config.temperature is None ==> temperature == "-"@
                &&& config.temperature matches Some(value) ==> exists|shown: String|
                    #[trigger] show.ensures((value,), shown) && temperature == shown@
            },
        result matches Err(error) ==> {
            &&& error == ConfigError::NoConfigDir
            &&& exists|here: Surroundings<P>| #[trigger]
                around.ensures((), here) && here.config_dir is None && here.user_config_dir is None
        },
{
    if let Ok(output) = result {
        let (paths, temperature) = choose|paths: InfoPaths, temperature: Seq<char>|
            {
                &&& #[trigger] paths_seen(around, look, Ok(paths))
                &&& #[trigger] temperature_shown(config.temperature, show, temperature)
                &&& output@ == info_text(config, paths, temperature)
            };
        lemma_screen(config, paths, temperature);
        lemma_found_at(around, "config.yaml"@, look, paths.config_file);
        lemma_roles_found_at(around, look, paths.roles_file);
        lemma_found_at(around, "messages.md"@, look, paths.messages_file);
        lemma_found_at(around, "sessions"@, look, paths.sessions_dir);
        assert(output@ == screen(settings_shown(config, paths, temperature)));
    }
}

/// Answers are shown with a theme exactly where highlighting is not disabled: the one in the file
/// that the light or the dark theme has, where that is there, else the program's own.
pub proof fn law_theme_is_the_one_asked_for(
    config: Config,
    theme_exists: bool,
    is_terminal: bool,
    file: Option<String>,
    options: RenderOptions,
)
    requires
        call_ensures(Config::theme_file, (&config,), file),
        call_ensures(Config::get_render_options, (&config, theme_exists, is_terminal), options),
    ensures
        config.highlight ==> file is None && options.theme is Plain,
        !config.highlight ==> {
            &&& file is Some
            &&& config.light_theme ==> file->0@ == "light.tmTheme"@
            &&& !config.light_theme ==> file->0@ == "dark.tmTheme"@
            &&& theme_exists ==> options.theme is File && options.theme->File_0@ == file->0@
            &&& !theme_exists ==> options.theme == (ThemeSource::Builtin {
                light: config.light_theme,
            })
        },
{
}

/// Text is wrapped as the configuration says at a terminal, and nowhere else; code as it says
/// everywhere.
pub proof fn law_wrapping_is_for_terminals(
    config: Config,
    theme_exists: bool,
    is_terminal: bool,
    options: RenderOptions,
)
    requires
        call_ensures(Config::get_render_options, (&config, theme_exists, is_terminal), options),
    ensures
        is_terminal ==> options.wrap == config.wrap,
        !is_terminal ==> options.wrap is None,
        options.wrap_code == config.wrap_code,
{
}

/// The user is told what is wrong, and what it was about.
pub proof fn law_errors_say_what_is_wrong(error: ConfigError, message: String)
    requires
        call_ensures(ConfigError::message, (&error,), message),
    ensures
        error matches ConfigError::UnknownRole(name) ==> message@ == "Unknown role `"@ + name@
            + "`"@,
        error is NoConfigDir ==> message@ == "Not found config dir"@,
        error is ExceedMaxTokens ==> message@ == "Exceed max tokens limit"@,
        error is InvalidWrap ==> message@ == "Invalid wrap value"@,
        error matches ConfigError::UnknownModel(name) ==> message@ == "Unknown model '"@ + name@
            + "'"@,
        error is UpdateUsage ==> message@
            == "Usage: .set <key> <value>. If value is null, unset key."@,
        error is InvalidValue ==> message@ == "Invalid value"@,
        error matches ConfigError::UnknownKey(key) ==> message@ == "Unknown key `"@ + key@ + "`"@,
        error is AlreadyInSession ==> message@
            == "Already in a session, please use '.clear session' to exit the session first?"@,
        error is CleanSession ==> message@ == "Failed to clean previous session"@,
        error is NoModel ==> message@ == "No available model"@,
        error matches ConfigError::NoParent(path) ==> message@ == "Failed to write to "@ + path@
            + ", No parent path"@,
        error matches ConfigError::InvalidConfig(text) ==> message@ == text@,
        error matches ConfigError::Session(text) ==> message@ == text@,
{
}

} // verus!
