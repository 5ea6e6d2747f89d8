//! The launch tab: the launch options of the game and the lines it wrote.
use crate::app::{Action, Key, TabBinding};
use crate::arguments::{
    Environment, LaunchOptions, asset_index_name, fill_model, get_args_from_manifest,
    launch_args_model,
};
use crate::manifest::version::Main;
use crate::rendering::utils::{StatefulList, can_move_down, can_move_up, next_row, previous_row};
use crate::text::{split_spec, split_str, to_owned_string};
use vstd::prelude::*;

verus! {

pub struct GameLogTab {
    pub launch_options: Option<LaunchOptions>,
    pub game_logs: StatefulList<String>,
}

/// The lines shown for what the game wrote: a header, the lines of its
/// standard output, a header, the lines of its error output.
pub open spec fn log_lines_model(stdout: Seq<char>, stderr: Seq<char>) -> Seq<Seq<char>> {
    seq!["==========Stdout========="@] + split_spec(stdout, '\n') + seq![
        "==========Stderr========="@,
    ] + split_spec(stderr, '\n')
}

/// The lines shown for what the game wrote (see `log_lines_model`).
pub fn log_lines(stdout: &str, stderr: &str) -> (r: Vec<String>)
    ensures
        r.deep_view() == log_lines_model(stdout@, stderr@),
{
    let mut lines: Vec<String> = Vec::new();
    lines.push(to_owned_string("==========Stdout========="));
    let mut out = split_str(stdout, '\n');
    lines.append(&mut out);
    lines.push(to_owned_string("==========Stderr========="));
    let mut err = split_str(stderr, '\n');
    let ghost before = lines.deep_view();
    lines.append(&mut err);
    assert(lines.deep_view() =~= log_lines_model(stdout@, stderr@));
    lines
}

/// What a key does to the launch tab: Up and Down move in the lines,
/// other keys change nothing.
pub open spec fn launch_key_effect(a: GameLogTab, key: Key, b: GameLogTab) -> bool {
    &&& b.launch_options == a.launch_options
    &&& b.game_logs.items@ == a.game_logs.items@
    &&& b.game_logs.allow_oob == a.game_logs.allow_oob
    &&& key == Key::Up ==> b.game_logs.selected == Some(
        previous_row(a.game_logs.selected, a.game_logs.items@.len(), a.game_logs.allow_oob) as usize,
    )
    &&& key == Key::Down ==> b.game_logs.selected == Some(
        next_row(a.game_logs.selected, a.game_logs.items@.len(), a.game_logs.allow_oob) as usize,
    )
    &&& key != Key::Up && key != Key::Down ==> b.game_logs.selected == a.game_logs.selected
}

impl GameLogTab {
    /// No options yet, no lines.
    pub fn new() -> (r: GameLogTab)
        ensures
            r.launch_options is None,
            r.game_logs.items@.len() == 0,
            r.game_logs.selected is None,
            !r.game_logs.allow_oob,
    {
        GameLogTab { launch_options: None, game_logs: StatefulList::new() }
    }

    /// Prepares the launch of `version` for a player: the launch options
    /// (kept only when they can be made), and, from the options the tab
    /// holds then, the game's arguments with their placeholders filled.
    /// `natives_directory`, `classpath`, `game_directory` and
    /// `assets_directory` are as for `LaunchOptions::from_version`;
    /// `log_path` is the logging configuration file, `launcher_version` and
    /// `game_assets` fill their placeholders.
    pub fn init(
        &mut self,
        version: &Main,
        player_name: String,
        player_uuid: String,
        player_token: String,
        user_type: String,
        natives_directory: Option<String>,
        classpath: String,
        game_directory: String,
        assets_directory: String,
        env: &Environment,
        log_path: Option<String>,
        launcher_version: &str,
        game_assets: &str,
    ) -> (r: Option<Vec<String>>)
        ensures
            (natives_directory is None || asset_index_name(version.deep_view()) is None)
                ==> final(self).launch_options == old(self).launch_options,
            final(self).game_logs == old(self).game_logs,
            match final(self).launch_options {
                None => r is None,
                Some(o) => match launch_args_model(
                    version.deep_view(),
                    (o.demo, o.custom_resolution),
                    env.os@,
                    env.arch@,
                    env.os_version,
                    log_path.deep_view(),
                ) {
                    None => r is None,
                    Some(args) => r matches Some(filled) && filled@.len() == args.len() && forall|
                        i: int,
                    | 0 <= i < args.len() ==> #[trigger] filled@[i]@ == fill_model(
                        args[i],
                        o,
                        launcher_version@,
                        game_assets@,
                    ),
                },
            },
            natives_directory is Some && asset_index_name(version.deep_view()) is Some
                ==> (final(self).launch_options matches Some(o) && o.natives_directory
                == natives_directory->0 && o.classpath == classpath && o.player_name == player_name
                && o.version@ == version.id@ && o.game_directory == game_directory
                && o.assets_directory == assets_directory && o.assets_index@ == asset_index_name(
                version.deep_view(),
            )->0 && o.player_uuid == player_uuid && o.player_token == player_token && o.user_type
                == user_type && o.version_type@ == crate::manifest::version::version_type_name(
                version._type,
            ) && !o.demo && !o.custom_resolution && o.width is None && o.height is None),
    {
        match LaunchOptions::from_version(
            version,
            player_name,
            player_uuid,
            player_token,
            user_type,
            natives_directory,
            classpath,
            game_directory,
            assets_directory,
        ) {
            Ok(launch_options) => {
                self.launch_options = Some(launch_options);
            },
            Err(_) => {},
        }
        match &self.launch_options {
            None => None,
            Some(options) => {
                let mut options = options.clone();
                match get_args_from_manifest(version, &options, env, log_path) {
                    None => None,
                    Some(args) => {
                        let ghost argv = args.deep_view();
                        let filled = options.fill_argument_list(args, launcher_version, game_assets);
                        assert(forall|i: int| 0 <= i < argv.len() ==> argv[i] == args@[i]@);
                        Some(filled)
                    },
                }
            },
        }
    }

    /// Shows what the game wrote, when it is more lines than shown already;
    /// the first line is then selected.
    pub fn update_logs(&mut self, stdout: &str, stderr: &str)
        ensures
            final(self).launch_options == old(self).launch_options,
            ({
                let lines = log_lines_model(stdout@, stderr@);
                if old(self).game_logs.items@.len() < lines.len() {
                    final(self).game_logs.items.deep_view() == lines
                        && final(self).game_logs.selected == Some(0usize)
                        && !final(self).game_logs.allow_oob
                } else {
                    final(self).game_logs == old(self).game_logs
                }
            }),
    {
        let lines = log_lines(stdout, stderr);
        if self.game_logs.items.len() < lines.len() {
            self.game_logs = StatefulList::with_items(lines);
        }
    }

    /// Up and Down move in the lines.
    pub fn on_key_press(&mut self, key: Key) -> (r: Action)
        requires
            key == Key::Up ==> can_move_up(
                old(self).game_logs.selected,
                old(self).game_logs.items@.len(),
                old(self).game_logs.allow_oob,
            ),
            key == Key::Down ==> can_move_down(
                old(self).game_logs.selected,
                old(self).game_logs.items@.len(),
            ),
        ensures
            r is Nothing,
            launch_key_effect(*old(self), key, *final(self)),
    {
        match key {
            Key::Up => {
                self.game_logs.previous();
            },
            Key::Down => {
                self.game_logs.next();
            },
            _ => {},
        }
        Action::Nothing
    }

    pub fn get_bindings(&self) -> (r: Vec<TabBinding>)
        ensures
            r@.len() == 0,
    {
        Vec::new()
    }
}

} // verus!
