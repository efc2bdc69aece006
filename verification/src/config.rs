//! Resolution of the menu configuration from environment values.
//!
//! The menu has exactly [`SLOT_COUNT`] action slots.  Slots 1 to 3 are the
//! built-in actions (exit the session, power off, reboot) and fall back to
//! built-in commands and labels when their variables are unset; slots 4 to
//! 6 are custom actions with no fallback at all.  A configured command
//! string is tokenized with shell-word rules; a command that is malformed
//! or empty after tokenization fails the whole resolution with an error
//! that names its slot.

use vstd::prelude::*;

use crate::shell;

verus! {

/// Number of action slots in the menu.
pub const SLOT_COUNT: usize = 6;

/// One action slot: an optional tokenized command and an optional label.
#[derive(Clone, Debug)]
pub struct Action {
    pub command: Option<Vec<String>>,
    pub label: Option<String>,
}

impl Action {
    /// The command as a mathematical list of token character sequences.
    pub open spec fn command_view(self) -> Option<Seq<Seq<char>>> {
        self.command.deep_view()
    }

    /// The label as a mathematical character sequence.
    pub open spec fn label_view(self) -> Option<Seq<char>> {
        self.label.deep_view()
    }

    /// A slot is rendered as a clickable element only when both its label
    /// and its command are present.
    pub open spec fn renderable(self) -> bool {
        self.label is Some && self.command is Some
    }
}

/// The resolved configuration: a stylesheet path and exactly
/// [`SLOT_COUNT`] action slots.
#[derive(Clone, Debug)]
pub struct Config {
    pub css_path: String,
    pub actions: Vec<Action>,
}

impl Config {
    pub open spec fn wf(self) -> bool {
        self.actions@.len() == SLOT_COUNT
    }
}

/// A fatal configuration error; `slot` is the 1-based slot it names.
#[derive(Clone, Copy, Debug, PartialEq, Eq, Structural)]
pub enum ConfigError {
    /// The command variable for `slot` was set but held no tokens.
    EmptyCommand { slot: usize },
    /// The command variable for `slot` had malformed quoting.
    ParseFailure { slot: usize },
}

/// The decimal digit for a slot number, as written in variable names.
pub open spec fn slot_digit_spec(slot: usize) -> Seq<char> {
    if slot == 1 {
        "1"@
    } else if slot == 2 {
        "2"@
    } else if slot == 3 {
        "3"@
    } else if slot == 4 {
        "4"@
    } else if slot == 5 {
        "5"@
    } else if slot == 6 {
        "6"@
    } else {
        "?"@
    }
}

fn slot_digit(slot: usize) -> (r: &'static str)
    ensures
        r@ == slot_digit_spec(slot),
{
    if slot == 1 {
        "1"
    } else if slot == 2 {
        "2"
    } else if slot == 3 {
        "3"
    } else if slot == 4 {
        "4"
    } else if slot == 5 {
        "5"
    } else if slot == 6 {
        "6"
    } else {
        "?"
    }
}

impl ConfigError {
    /// The 1-based slot the error names.
    pub open spec fn slot_spec(self) -> usize {
        match self {
            ConfigError::EmptyCommand { slot } => slot,
            ConfigError::ParseFailure { slot } => slot,
        }
    }

    /// The slot this error names.
    pub fn slot(&self) -> (s: usize)
        ensures
            s == self.slot_spec(),
    {
        match self {
            ConfigError::EmptyCommand { slot } => *slot,
            ConfigError::ParseFailure { slot } => *slot,
        }
    }

    /// The diagnostic text for this error, naming the slot's variable.
    pub open spec fn message_spec(self) -> Seq<char> {
        match self {
            ConfigError::EmptyCommand { slot } => "BBMENU_ACTION"@ + slot_digit_spec(slot)
                + "_CMD is empty after parsing"@,
            ConfigError::ParseFailure { slot } => "Failed to parse BBMENU_ACTION"@
                + slot_digit_spec(slot) + "_CMD: missing closing quote"@,
        }
    }

    /// Renders the diagnostic text for this error.
    pub fn message(&self) -> (r: String)
        ensures
            r@ == self.message_spec(),
    {
        match self {
            ConfigError::EmptyCommand { slot } => "BBMENU_ACTION".to_owned().concat(
                slot_digit(*slot),
            ).concat("_CMD is empty after parsing"),
            ConfigError::ParseFailure { slot } => "Failed to parse BBMENU_ACTION".to_owned().concat(
                slot_digit(*slot),
            ).concat("_CMD: missing closing quote"),
        }
    }
}

/// What resolving one slot's command variable yields: the tokens of a set,
/// well-formed, non-empty command string; the default on an unset one; and
/// otherwise the error naming the slot.
pub open spec fn parse_command_spec(
    value: Option<Seq<char>>,
    default: Option<Seq<Seq<char>>>,
    idx: usize,
) -> Result<Option<Seq<Seq<char>>>, ConfigError> {
    match value {
        Some(s) => match shell::shell_split_of(s) {
            Some(words) => if words.len() > 0 {
                Ok(Some(words))
            } else {
                Err(ConfigError::EmptyCommand { slot: idx })
            },
            None => Err(ConfigError::ParseFailure { slot: idx }),
        },
        None => Ok(default),
    }
}

/// Resolves one slot's command: tokenizes a set command string with
/// shell-word rules, falls back to `default` on an unset one, and reports
/// a malformed or empty command string as the error naming slot `idx`.
///
/// In particular an empty or whitespace-only command string always yields
/// the configuration error that names the slot.
pub fn parse_command_or_error(value: Option<String>, default: Option<Vec<String>>, idx: usize) -> (r:
    Result<Option<Vec<String>>, ConfigError>)
    requires
        1 <= idx <= SLOT_COUNT,
    ensures
        ({
            let expect = parse_command_spec(value.deep_view(), default.deep_view(), idx);
            match r {
                Ok(command) => expect == Ok::<Option<Seq<Seq<char>>>, ConfigError>(
                    command.deep_view(),
                ),
                Err(e) => expect == Err::<Option<Seq<Seq<char>>>, ConfigError>(e),
            }
        }),
        value matches Some(v) && shell::whitespace_only(v@) ==> r == Err::<
            Option<Vec<String>>,
            ConfigError,
        >(ConfigError::EmptyCommand { slot: idx }),
{
    match value {
        Some(cmd) => match shell::split_line(cmd.as_str()) {
            Ok(parts) => {
                if parts.len() > 0 {
                    Ok(Some(parts))
                } else {
                    Err(ConfigError::EmptyCommand { slot: idx })
                }
            },
            Err(_) => Err(ConfigError::ParseFailure { slot: idx }),
        },
        None => Ok(default),
    }
}

/// The environment values the resolver reads, gathered once at startup:
/// the stylesheet override, the two directories a default stylesheet path
/// can be derived from, the user name, and one command and one label
/// variable per slot (`None` for an unset variable).
pub struct Environment {
    pub css_path: Option<String>,
    pub xdg_config_home: Option<String>,
    pub home: Option<String>,
    pub user: Option<String>,
    pub action_cmds: Vec<Option<String>>,
    pub action_labels: Vec<Option<String>>,
}

impl Environment {
    /// A snapshot holds one command and one label variable per slot.
    pub open spec fn wf(self) -> bool {
        self.action_cmds@.len() == SLOT_COUNT && self.action_labels@.len() == SLOT_COUNT
    }

    pub open spec fn css_view(self) -> Option<Seq<char>> {
        self.css_path.deep_view()
    }

    pub open spec fn xdg_view(self) -> Option<Seq<char>> {
        self.xdg_config_home.deep_view()
    }

    pub open spec fn home_view(self) -> Option<Seq<char>> {
        self.home.deep_view()
    }

    /// The user name, with an unset variable read as the empty string.
    pub open spec fn user_view(self) -> Seq<char> {
        match self.user {
            Some(u) => u@,
            None => Seq::empty(),
        }
    }

    pub open spec fn cmd_view(self, i: int) -> Option<Seq<char>> {
        self.action_cmds.deep_view()[i]
    }

    pub open spec fn label_view(self, i: int) -> Option<Seq<char>> {
        self.action_labels.deep_view()[i]
    }
}

/// The built-in fallback command of slot `idx`: terminate the user's
/// session, power off, reboot; custom slots have none.
pub open spec fn default_command_spec(idx: usize, user: Seq<char>) -> Option<Seq<Seq<char>>> {
    if idx == 1 {
        Some(seq!["/usr/bin/loginctl"@, "terminate-user"@, user])
    } else if idx == 2 {
        Some(seq!["/usr/bin/systemctl"@, "poweroff"@])
    } else if idx == 3 {
        Some(seq!["/usr/bin/systemctl"@, "reboot"@])
    } else {
        None
    }
}

/// The built-in fallback label of slot `idx`; custom slots have none.
pub open spec fn default_label_spec(idx: usize) -> Option<Seq<char>> {
    if idx == 1 {
        Some("_exit"@)
    } else if idx == 2 {
        Some("_shutdown"@)
    } else if idx == 3 {
        Some("_reboot"@)
    } else {
        None
    }
}

/// The stylesheet path: an explicit override verbatim; otherwise derived
/// from the configuration home, from the home directory, or, with neither
/// discoverable, a bare relative file name.
pub open spec fn css_path_spec(
    css: Option<Seq<char>>,
    xdg: Option<Seq<char>>,
    home: Option<Seq<char>>,
) -> Seq<char> {
    match css {
        Some(p) => p,
        None => match xdg {
            Some(d) => d + "/byebyemenu/style.css"@,
            None => match home {
                Some(h) => h + "/.config"@ + "/byebyemenu/style.css"@,
                None => "style.css"@,
            },
        },
    }
}

/// The built-in fallback command of slot `idx`, for the given user name.
pub fn default_command(idx: usize, user: &Option<String>) -> (r: Option<Vec<String>>)
    ensures
        r.deep_view() == default_command_spec(
            idx,
            match user.deep_view() {
                Some(u) => u,
                None => Seq::<char>::empty(),
            },
        ),
{
    if idx == 1 {
        let u: String = match user {
            Some(s) => s.clone(),
            None => String::new(),
        };
        let command: Vec<String> = vec![
            "/usr/bin/loginctl".to_owned(),
            "terminate-user".to_owned(),
            u,
        ];
        assert(command.deep_view() =~= default_command_spec(
            1,
            match user.deep_view() {
                Some(us) => us,
                None => Seq::<char>::empty(),
            },
        )->0);
        Some(command)
    } else if idx == 2 {
        let command: Vec<String> = vec!["/usr/bin/systemctl".to_owned(), "poweroff".to_owned()];
        assert(command.deep_view() =~= default_command_spec(2, Seq::<char>::empty())->0);
        Some(command)
    } else if idx == 3 {
        let command: Vec<String> = vec!["/usr/bin/systemctl".to_owned(), "reboot".to_owned()];
        assert(command.deep_view() =~= default_command_spec(3, Seq::<char>::empty())->0);
        Some(command)
    } else {
        None
    }
}

/// The built-in fallback label of slot `idx`.
pub fn default_label(idx: usize) -> (r: Option<String>)
    ensures
        r.deep_view() == default_label_spec(idx),
{
    if idx == 1 {
        Some("_exit".to_owned())
    } else if idx == 2 {
        Some("_shutdown".to_owned())
    } else if idx == 3 {
        Some("_reboot".to_owned())
    } else {
        None
    }
}

/// What resolving the command of 0-based slot `i` yields.
pub open spec fn slot_command_spec(env: Environment, i: int) -> Result<
    Option<Seq<Seq<char>>>,
    ConfigError,
> {
    parse_command_spec(
        env.cmd_view(i),
        default_command_spec((i + 1) as usize, env.user_view()),
        (i + 1) as usize,
    )
}

/// The label of 0-based slot `i`: the label variable verbatim when set,
/// the built-in fallback otherwise.
pub open spec fn resolved_label_spec(env: Environment, i: int) -> Option<Seq<char>> {
    match env.label_view(i) {
        Some(l) => Some(l),
        None => default_label_spec((i + 1) as usize),
    }
}

/// The command of 0-based slot `i` resolves without error.
pub open spec fn slot_ok(env: Environment, i: int) -> bool {
    slot_command_spec(env, i) is Ok
}

/// Every slot's command resolves without error.
pub open spec fn all_slots_ok(env: Environment) -> bool {
    forall|i: int| 0 <= i < SLOT_COUNT ==> slot_ok(env, i)
}

/// The least 0-based slot at or after `i` whose command does not resolve,
/// or `SLOT_COUNT` when every one from `i` on resolves.
pub open spec fn first_bad_slot_from(env: Environment, i: int) -> int
    decreases SLOT_COUNT - i,
{
    if i >= SLOT_COUNT {
        SLOT_COUNT as int
    } else if !slot_ok(env, i) {
        i
    } else {
        first_bad_slot_from(env, i + 1)
    }
}

/// The least 0-based slot whose command does not resolve.
pub open spec fn first_bad_slot(env: Environment) -> int {
    first_bad_slot_from(env, 0)
}

/// The error the resolution reports: the one named after the first slot
/// whose command does not resolve.
pub open spec fn first_error(env: Environment) -> ConfigError {
    slot_command_spec(env, first_bad_slot(env))->Err_0
}

/// An unset command variable never fails a slot: slots 1 to 3 fall back
/// to their fixed built-in command, and the custom slots to no command.
pub proof fn lemma_unset_command_defaults(env: Environment, i: int)
    requires
        0 <= i < SLOT_COUNT,
        env.cmd_view(i) is None,
    ensures
        slot_ok(env, i),
        slot_command_spec(env, i)->Ok_0 == default_command_spec((i + 1) as usize, env.user_view()),
        i >= 3 ==> slot_command_spec(env, i)->Ok_0 is None,
{
}

/// An unset label variable falls back to the fixed built-in label for
/// slots 1 to 3, and to no label for the custom slots.
pub proof fn lemma_unset_label_defaults(env: Environment, i: int)
    requires
        0 <= i < SLOT_COUNT,
        env.label_view(i) is None,
    ensures
        resolved_label_spec(env, i) == default_label_spec((i + 1) as usize),
        i >= 3 ==> resolved_label_spec(env, i) is None,
{
}

/// How the stylesheet path is derived: an explicit override wins
/// verbatim; otherwise the configuration home is preferred, then the
/// home directory's configuration subdirectory; with neither
/// discoverable the path is the bare relative file name.
pub proof fn lemma_css_path_derivation(
    css: Option<Seq<char>>,
    xdg: Option<Seq<char>>,
    home: Option<Seq<char>>,
)
    ensures
        css is Some ==> css_path_spec(css, xdg, home) == css->0,
        css is None && xdg is Some ==> css_path_spec(css, xdg, home) == xdg->0
            + "/byebyemenu/style.css"@,
        css is None && xdg is None && home is Some ==> css_path_spec(css, xdg, home) == home->0
            + "/.config"@ + "/byebyemenu/style.css"@,
        css is None && xdg is None && home is None ==> css_path_spec(css, xdg, home)
            == "style.css"@,
{
}

proof fn lemma_first_bad_slot_from(env: Environment, k: int, i: int)
    requires
        0 <= k <= i < SLOT_COUNT,
        forall|j: int| k <= j < i ==> slot_ok(env, j),
        !slot_ok(env, i),
    ensures
        first_bad_slot_from(env, k) == i,
    decreases i - k,
{
    if k < i {
        lemma_first_bad_slot_from(env, k + 1, i);
    }
}

fn clone_opt_string(s: &Option<String>) -> (r: Option<String>)
    ensures
        r == *s,
{
    match s {
        Some(v) => Some(v.clone()),
        None => None,
    }
}

/// Resolves the whole configuration from an environment snapshot.
///
/// On success every slot holds its resolved command and label: a set
/// command or label variable is honoured, an unset one falls back to the
/// slot's built-in default (none for a custom slot).  A malformed or
/// empty command string fails the whole resolution with the error naming
/// the first such slot; in particular a whitespace-only command string
/// for a slot whose predecessors are well-formed yields exactly the
/// empty-command error naming that slot.
pub fn get_config_from_env(env: &Environment) -> (r: Result<Config, ConfigError>)
    requires
        env.wf(),
    ensures
        match r {
            Ok(c) => {
                &&& all_slots_ok(*env)
                &&& c.wf()
                &&& c.css_path@ == css_path_spec(env.css_view(), env.xdg_view(), env.home_view())
                &&& forall|i: int|
                    0 <= i < SLOT_COUNT ==> (#[trigger] c.actions@[i].command_view())
                        == slot_command_spec(*env, i)->Ok_0
                &&& forall|i: int|
                    0 <= i < SLOT_COUNT ==> (#[trigger] c.actions@[i].label_view())
                        == resolved_label_spec(*env, i)
            },
            Err(e) => {
                &&& !all_slots_ok(*env)
                &&& e == first_error(*env)
            },
        },
        forall|i: int|
            (#[trigger] env.cmd_view(i)) matches Some(s) && 0 <= i < SLOT_COUNT
                && shell::whitespace_only(s) && (forall|j: int| 0 <= j < i ==> slot_ok(*env, j))
                ==> r == Err::<Config, ConfigError>(
                ConfigError::EmptyCommand { slot: (i + 1) as usize },
            ),
{
    let css_path = resolve_css_path(&env.css_path, &env.xdg_config_home, &env.home);
    let mut actions: Vec<Action> = Vec::new();
    let mut i: usize = 0;
    while i < SLOT_COUNT
        invariant
            env.wf(),
            i <= SLOT_COUNT,
            actions@.len() == i,
            forall|j: int| 0 <= j < i ==> slot_ok(*env, j),
            forall|j: int|
                0 <= j < i ==> (#[trigger] actions@[j].command_view()) == slot_command_spec(
                    *env,
                    j,
                )->Ok_0,
            forall|j: int|
                0 <= j < i ==> (#[trigger] actions@[j].label_view()) == resolved_label_spec(
                    *env,
                    j,
                ),
            forall|j: int|
                0 <= j < i ==> !((#[trigger] env.cmd_view(j)) matches Some(s)
                    && shell::whitespace_only(s)),
        decreases SLOT_COUNT - i,
    {
        let value = clone_opt_string(&env.action_cmds[i]);
        let ghost value_view = value.deep_view();
        proof {
            assert(value_view == env.cmd_view(i as int));
        }
        let default = default_command(i + 1, &env.user);
        let ghost default_view = default.deep_view();
        let command = match parse_command_or_error(value, default, i + 1) {
            Ok(c) => {
                proof {
                    assert(parse_command_spec(value_view, default_view, (i as int + 1) as usize)
                        == slot_command_spec(*env, i as int));
                    assert(slot_ok(*env, i as int));
                }
                c
            },
            Err(e) => {
                proof {
                    assert(parse_command_spec(value_view, default_view, (i as int + 1) as usize)
                        == slot_command_spec(*env, i as int));
                    assert(!slot_ok(*env, i as int));
                    lemma_first_bad_slot_from(*env, 0, i as int);
                    assert(e == first_error(*env));
                    assert forall|i2: int|
                        (#[trigger] env.cmd_view(i2)) matches Some(s) && 0 <= i2 < SLOT_COUNT
                            && shell::whitespace_only(s) && (forall|j: int|
                            0 <= j < i2 ==> slot_ok(*env, j)) implies e == (ConfigError::EmptyCommand {
                        slot: (i2 + 1) as usize,
                    }) by {
                        if i2 < i as int {
                            assert(!(env.cmd_view(i2) matches Some(s2)
                                && shell::whitespace_only(s2)));
                        } else if i2 > i as int {
                            assert(slot_ok(*env, i as int));
                        }
                    }
                }
                return Err(e);
            },
        };
        let label = match &env.action_labels[i] {
            Some(l) => Some(l.clone()),
            None => default_label(i + 1),
        };
        actions.push(Action { command, label });
        i += 1;
    }
    Ok(Config { css_path, actions })
}

/// Derives the stylesheet path from the override, the configuration home
/// and the home directory, in that order of preference.
pub fn resolve_css_path(css: &Option<String>, xdg: &Option<String>, home: &Option<String>) -> (r:
    String)
    ensures
        r@ == css_path_spec(css.deep_view(), xdg.deep_view(), home.deep_view()),
{
    match css {
        Some(p) => p.clone(),
        None => match xdg {
            Some(d) => d.clone().concat("/byebyemenu/style.css"),
            None => match home {
                Some(h) => h.clone().concat("/.config").concat("/byebyemenu/style.css"),
                None => "style.css".to_owned(),
            },
        },
    }
}

} // verus!
