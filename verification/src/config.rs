//! The configuration that the client is started with: the sources to show,
//! the user's name and the key bindings.

use vstd::prelude::*;

verus! {

/// The name under which the client keeps its files.
pub const APPNAME: &'static str = "adoboards";

/// A team backlog to show.
#[derive(Debug, PartialEq, Eq)]
pub struct BoardConfig {
    pub organization: String,
    pub project: String,
    pub team: String,
}

/// The mathematical value of a [`BoardConfig`].
pub struct BoardConfigView {
    pub organization: Seq<char>,
    pub project: Seq<char>,
    pub team: Seq<char>,
}

impl View for BoardConfig {
    type V = BoardConfigView;

    open spec fn view(&self) -> BoardConfigView {
        BoardConfigView {
            organization: self.organization@,
            project: self.project@,
            team: self.team@,
        }
    }
}

impl DeepView for BoardConfig {
    type V = BoardConfigView;

    open spec fn deep_view(&self) -> BoardConfigView {
        self@
    }
}

impl Clone for BoardConfig {
    fn clone(&self) -> (r: Self)
        ensures
            r@ == self@,
    {
        BoardConfig {
            organization: self.organization.clone(),
            project: self.project.clone(),
            team: self.team.clone(),
        }
    }
}

impl Default for BoardConfig {
    fn default() -> (r: Self)
        ensures
            r@ == (BoardConfigView {
                organization: "<organization>"@,
                project: "<project>"@,
                team: "<team>"@,
            }),
    {
        BoardConfig {
            organization: String::from_str("<organization>"),
            project: String::from_str("<project>"),
            team: String::from_str("<team>"),
        }
    }
}

/// A team iteration to show.
#[derive(Debug, PartialEq, Eq)]
pub struct IterationConfig {
    pub organization: String,
    pub project: String,
    pub team: String,
    pub iteration: String,
}

/// The mathematical value of a [`IterationConfig`].
pub struct IterationConfigView {
    pub organization: Seq<char>,
    pub project: Seq<char>,
    pub team: Seq<char>,
    pub iteration: Seq<char>,
}

impl View for IterationConfig {
    type V = IterationConfigView;

    open spec fn view(&self) -> IterationConfigView {
        IterationConfigView {
            organization: self.organization@,
            project: self.project@,
            team: self.team@,
            iteration: self.iteration@,
        }
    }
}

impl DeepView for IterationConfig {
    type V = IterationConfigView;

    open spec fn deep_view(&self) -> IterationConfigView {
        self@
    }
}

impl Clone for IterationConfig {
    fn clone(&self) -> (r: Self)
        ensures
            r@ == self@,
    {
        IterationConfig {
            organization: self.organization.clone(),
            project: self.project.clone(),
            team: self.team.clone(),
            iteration: self.iteration.clone(),
        }
    }
}

impl Default for IterationConfig {
    fn default() -> (r: Self)
        ensures
            r@ == (IterationConfigView {
                organization: "<organization>"@,
                project: "<project>"@,
                team: "<team>"@,
                iteration: "<iteration path>"@,
            }),
    {
        IterationConfig {
            organization: String::from_str("<organization>"),
            project: String::from_str("<project>"),
            team: String::from_str("<team>"),
            iteration: String::from_str("<iteration path>"),
        }
    }
}

/// What holds for every source: the user's own display name.
#[derive(Debug, PartialEq, Eq)]
pub struct CommonConfig {
    pub me: String,
}

/// The mathematical value of a [`CommonConfig`].
pub struct CommonConfigView {
    pub me: Seq<char>,
}

impl View for CommonConfig {
    type V = CommonConfigView;

    open spec fn view(&self) -> CommonConfigView {
        CommonConfigView {
            me: self.me@,
        }
    }
}

impl DeepView for CommonConfig {
    type V = CommonConfigView;

    open spec fn deep_view(&self) -> CommonConfigView {
        self@
    }
}

impl Clone for CommonConfig {
    fn clone(&self) -> (r: Self)
        ensures
            r@ == self@,
    {
        CommonConfig {
            me: self.me.clone(),
        }
    }
}

impl Default for CommonConfig {
    fn default() -> (r: Self)
        ensures
            r@ == (CommonConfigView {
                me: ""@,
            }),
    {
        CommonConfig {
            me: String::from_str(""),
        }
    }
}

/// The key bindings: for each command the one or two characters that call it.
#[derive(Debug, PartialEq, Eq)]
pub struct KeysConfig {
    pub quit: String,
    pub next: String,
    pub previous: String,
    pub hover: String,
    pub open: String,
    pub next_board: String,
    pub previous_board: String,
    pub search: String,
    pub assigned_to_me_filter: String,
    pub work_item_type_filter: String,
    pub jump_to_top: String,
    pub jump_to_end: String,
    pub refresh: String,
    pub edit_config: String,
    pub edit_item: String,
}

/// The mathematical value of a [`KeysConfig`].
pub struct KeysConfigView {
    pub quit: Seq<char>,
    pub next: Seq<char>,
    pub previous: Seq<char>,
    pub hover: Seq<char>,
    pub open: Seq<char>,
    pub next_board: Seq<char>,
    pub previous_board: Seq<char>,
    pub search: Seq<char>,
    pub assigned_to_me_filter: Seq<char>,
    pub work_item_type_filter: Seq<char>,
    pub jump_to_top: Seq<char>,
    pub jump_to_end: Seq<char>,
    pub refresh: Seq<char>,
    pub edit_config: Seq<char>,
    pub edit_item: Seq<char>,
}

impl View for KeysConfig {
    type V = KeysConfigView;

    open spec fn view(&self) -> KeysConfigView {
        KeysConfigView {
            quit: self.quit@,
            next: self.next@,
            previous: self.previous@,
            hover: self.hover@,
            open: self.open@,
            next_board: self.next_board@,
            previous_board: self.previous_board@,
            search: self.search@,
            assigned_to_me_filter: self.assigned_to_me_filter@,
            work_item_type_filter: self.work_item_type_filter@,
            jump_to_top: self.jump_to_top@,
            jump_to_end: self.jump_to_end@,
            refresh: self.refresh@,
            edit_config: self.edit_config@,
            edit_item: self.edit_item@,
        }
    }
}

impl DeepView for KeysConfig {
    type V = KeysConfigView;

    open spec fn deep_view(&self) -> KeysConfigView {
        self@
    }
}

impl Clone for KeysConfig {
    fn clone(&self) -> (r: Self)
        ensures
            r@ == self@,
    {
        KeysConfig {
            quit: self.quit.clone(),
            next: self.next.clone(),
            previous: self.previous.clone(),
            hover: self.hover.clone(),
            open: self.open.clone(),
            next_board: self.next_board.clone(),
            previous_board: self.previous_board.clone(),
            search: self.search.clone(),
            assigned_to_me_filter: self.assigned_to_me_filter.clone(),
            work_item_type_filter: self.work_item_type_filter.clone(),
            jump_to_top: self.jump_to_top.clone(),
            jump_to_end: self.jump_to_end.clone(),
            refresh: self.refresh.clone(),
            edit_config: self.edit_config.clone(),
            edit_item: self.edit_item.clone(),
        }
    }
}

impl Default for KeysConfig {
    fn default() -> (r: Self)
        ensures
            r@ == (KeysConfigView {
                quit: "q"@,
                next: "j"@,
                previous: "k"@,
                hover: "K"@,
                open: "o"@,
                next_board: ">"@,
                previous_board: "<"@,
                search: "/"@,
                assigned_to_me_filter: "m"@,
                work_item_type_filter: "t"@,
                jump_to_top: "gg"@,
                jump_to_end: "G"@,
                refresh: "r"@,
                edit_config: "c"@,
                edit_item: "e"@,
            }),
    {
        KeysConfig {
            quit: String::from_str("q"),
            next: String::from_str("j"),
            previous: String::from_str("k"),
            hover: String::from_str("K"),
            open: String::from_str("o"),
            next_board: String::from_str(">"),
            previous_board: String::from_str("<"),
            search: String::from_str("/"),
            assigned_to_me_filter: String::from_str("m"),
            work_item_type_filter: String::from_str("t"),
            jump_to_top: String::from_str("gg"),
            jump_to_end: String::from_str("G"),
            refresh: String::from_str("r"),
            edit_config: String::from_str("c"),
            edit_item: String::from_str("e"),
        }
    }
}

/// The whole configuration.
#[derive(Debug, PartialEq, Eq)]
pub struct AppConfig {
    pub common: CommonConfig,
    pub boards: Vec<BoardConfig>,
    pub iterations: Vec<IterationConfig>,
    pub keys: KeysConfig,
}

/// The mathematical value of an [`AppConfig`].
pub struct AppConfigView {
    pub common: CommonConfigView,
    pub boards: Seq<BoardConfigView>,
    pub iterations: Seq<IterationConfigView>,
    pub keys: KeysConfigView,
}

impl View for AppConfig {
    type V = AppConfigView;

    open spec fn view(&self) -> AppConfigView {
        AppConfigView {
            common: self.common@,
            boards: self.boards.deep_view(),
            iterations: self.iterations.deep_view(),
            keys: self.keys@,
        }
    }
}

impl Default for AppConfig {
    fn default() -> (r: Self)
        ensures
            r@ == default_config(),
    {
        let mut boards: Vec<BoardConfig> = Vec::new();
        boards.push(BoardConfig::default());
        let r = AppConfig {
            common: CommonConfig::default(),
            boards,
            iterations: Vec::new(),
            keys: KeysConfig::default(),
        };
        assert(r@.boards =~= seq![default_board()]);
        assert(r@.iterations =~= Seq::<IterationConfigView>::empty());
        r
    }
}

/// The backlog that a fresh configuration file holds as a placeholder.
pub open spec fn default_board() -> BoardConfigView {
    BoardConfigView { organization: "<organization>"@, project: "<project>"@, team: "<team>"@ }
}

/// The iteration that a fresh configuration file holds as a placeholder.
pub open spec fn default_iteration() -> IterationConfigView {
    IterationConfigView {
        organization: "<organization>"@,
        project: "<project>"@,
        team: "<team>"@,
        iteration: "<iteration path>"@,
    }
}

/// The default key bindings.
pub open spec fn default_keys() -> KeysConfigView {
    KeysConfigView {
        quit: "q"@,
        next: "j"@,
        previous: "k"@,
        hover: "K"@,
        open: "o"@,
        next_board: ">"@,
        previous_board: "<"@,
        search: "/"@,
        assigned_to_me_filter: "m"@,
        work_item_type_filter: "t"@,
        jump_to_top: "gg"@,
        jump_to_end: "G"@,
        refresh: "r"@,
        edit_config: "c"@,
        edit_item: "e"@,
    }
}

/// The configuration of a fresh installation: no name, the placeholder
/// backlog, no iteration, the default keys.
pub open spec fn default_config() -> AppConfigView {
    AppConfigView {
        common: CommonConfigView { me: ""@ },
        boards: seq![default_board()],
        iterations: Seq::empty(),
        keys: default_keys(),
    }
}

/// Whether the backlogs of a configuration name something to show: there is
/// one, and they are not just the placeholder.
pub open spec fn boards_usable(boards: Seq<BoardConfigView>) -> bool {
    boards.len() > 0 && !(boards.len() == 1 && boards[0] == default_board())
}

/// Whether the iterations of a configuration name something to show.
pub open spec fn iterations_usable(iterations: Seq<IterationConfigView>) -> bool {
    iterations.len() > 0 && !(iterations.len() == 1 && iterations[0] == default_iteration())
}

/// Whether two backlogs are the same.
pub fn same_board(a: &BoardConfig, b: &BoardConfig) -> (r: bool)
    ensures
        r == (a@ == b@),
{
    a.organization == b.organization && a.project == b.project && a.team == b.team
}

/// Whether two iterations are the same.
pub fn same_iteration(a: &IterationConfig, b: &IterationConfig) -> (r: bool)
    ensures
        r == (a@ == b@),
{
    a.organization == b.organization && a.project == b.project && a.team == b.team && a.iteration
        == b.iteration
}

/// Whether a configuration names a source to show. Where it does not, the
/// user is sent to the configuration file.
pub fn config_is_usable(config: &AppConfig) -> (r: bool)
    ensures
        r == (boards_usable(config@.boards) || iterations_usable(config@.iterations)),
{
    let boards_ok = if config.boards.len() == 0 {
        false
    } else if config.boards.len() == 1 {
        let placeholder = BoardConfig::default();
        assert(config.boards.deep_view()[0] == config.boards@[0]@);
        !same_board(&config.boards[0], &placeholder)
    } else {
        true
    };
    let iterations_ok = if config.iterations.len() == 0 {
        false
    } else if config.iterations.len() == 1 {
        let placeholder = IterationConfig::default();
        assert(config.iterations.deep_view()[0] == config.iterations@[0]@);
        !same_iteration(&config.iterations[0], &placeholder)
    } else {
        true
    };
    boards_ok || iterations_ok
}

} // verus!
