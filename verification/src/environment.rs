//! Startup environment for the shell: the project configuration data model,
//! command-line argument parsing, and the decisions that fix the working,
//! temp and data directories for the process lifetime.
//!
//! Reading the command line, the filesystem and the platform directories
//! happens outside the library; the functions here decide, from those plain
//! values, what the environment is.

use vstd::prelude::*;
use vstd::string::StringExecFns;
use crate::paths::join_path;
use crate::paths::path_join;

verus! {

/// One native menu entry; submenus nest freely.
pub struct MenuItem {
    pub id: u32,
    pub label: String,
    pub accelerator: Option<(String, String)>,
    pub submenu: Option<Vec<MenuItem>>,
}

/// The window menu: a list of top-level menu items.
pub struct MenuConfig(pub Vec<MenuItem>);

/// Project configuration, as read from the project's configuration file.
/// Window geometry is resolved at the native boundary and is not part of
/// the bridge's model.
pub struct Config {
    pub name: String,
    pub uuid: Option<String>,
    pub version: Option<String>,
    pub icon: Option<String>,
    pub entry: Option<String>,
    pub title: Option<String>,
    pub description: Option<String>,
    pub devtools: Option<bool>,
    pub theme: Option<String>,
    pub resizable: Option<bool>,
    pub minimizable: Option<bool>,
    pub maximizable: Option<bool>,
    pub closable: Option<bool>,
    pub fullscreen: Option<bool>,
    pub maximized: Option<bool>,
    pub visible: Option<bool>,
    pub transparent: Option<bool>,
    pub background_color: Option<(u8, u8, u8, u8)>,
    pub decorations: Option<bool>,
    pub always_on_top: Option<bool>,
    pub always_on_bottom: Option<bool>,
    pub visible_on_all_workspaces: Option<bool>,
    pub focused: Option<bool>,
    pub content_protection: Option<bool>,
    pub menu: Option<MenuConfig>,
    pub workers: Option<usize>,
}

/// The command-line options the shell understands.
pub struct Args {
    pub work_dir: Option<String>,
    pub debug_entry: Option<String>,
    pub devtools: Option<String>,
}

/// The resolved startup environment, immutable for the process lifetime.
pub struct Environment {
    pub project_name: String,
    pub project_uuid: String,
    pub work_dir: String,
    pub temp_dir: String,
    pub data_dir: String,
    pub config: Config,
    pub debug_entry: Option<String>,
}

/// The key of the `j`th key/value pair of the command line: the argument
/// after the program name opens the first pair, and arguments are then taken
/// two at a time, a key followed by its value.
pub open spec fn arg_key_at(args: Seq<String>, j: int) -> Seq<char> {
    args[1 + 2 * j]@
}

/// The value of the `j`th pair; a key at the end with no value after it gets
/// the empty value.
pub open spec fn arg_value_at(args: Seq<String>, j: int) -> Seq<char> {
    if 2 + 2 * j < args.len() {
        args[2 + 2 * j]@
    } else {
        Seq::empty()
    }
}

/// How many key/value pairs the command line forms after the program name.
pub open spec fn num_arg_pairs(args: Seq<String>) -> int {
    args.len() as int / 2
}

/// The value of the last pair among the first `upto` pairs whose key is
/// `key`, if any: a later occurrence of a key overrides an earlier one.
pub open spec fn arg_value_upto(args: Seq<String>, key: Seq<char>, upto: int) -> Option<Seq<char>>
    decreases upto,
{
    if upto <= 0 {
        None
    } else if arg_key_at(args, upto - 1) == key {
        Some(arg_value_at(args, upto - 1))
    } else {
        arg_value_upto(args, key, upto - 1)
    }
}

/// The value the command line gives for `key`, if any.
pub open spec fn arg_value(args: Seq<String>, key: Seq<char>) -> Option<Seq<char>> {
    arg_value_upto(args, key, num_arg_pairs(args))
}

proof fn lemma_flag_keys_distinct()
    ensures
        "--work-dir"@ != "--debug-entry"@,
        "--work-dir"@ != "--devtools"@,
        "--debug-entry"@ != "--devtools"@,
{
    reveal_strlit("--work-dir");
    reveal_strlit("--debug-entry");
    reveal_strlit("--devtools");
    assert("--work-dir"@.len() == 10);
    assert("--debug-entry"@.len() == 13);
    assert("--work-dir"@[2] == 'w');
    assert("--devtools"@[2] == 'd');
}

/// The view of an optional owned string.
pub open spec fn opt_view(o: Option<String>) -> Option<Seq<char>> {
    match o {
        Some(s) => Some(s@),
        None => None,
    }
}

/// Parses the command line: the first argument is the program name; the rest
/// are key/value pairs, later pairs overriding earlier ones, and unknown
/// keys ignored.
pub fn parse_args(args: &Vec<String>) -> (r: Args)
    ensures
        opt_view(r.work_dir) == arg_value(args@, "--work-dir"@),
        opt_view(r.debug_entry) == arg_value(args@, "--debug-entry"@),
        opt_view(r.devtools) == arg_value(args@, "--devtools"@),
{
    let work_dir_key = String::from_str("--work-dir");
    let debug_entry_key = String::from_str("--debug-entry");
    let devtools_key = String::from_str("--devtools");
    let mut r = Args { work_dir: None, debug_entry: None, devtools: None };
    let mut p: usize = 0;
    while p < args.len() / 2
        invariant
            0 <= p <= args@.len() as int / 2,
            work_dir_key@ == "--work-dir"@,
            debug_entry_key@ == "--debug-entry"@,
            devtools_key@ == "--devtools"@,
            opt_view(r.work_dir) == arg_value_upto(args@, "--work-dir"@, p as int),
            opt_view(r.debug_entry) == arg_value_upto(args@, "--debug-entry"@, p as int),
            opt_view(r.devtools) == arg_value_upto(args@, "--devtools"@, p as int),
        decreases args@.len() / 2 - p as int,
    {
        let key = &args[1 + 2 * p];
        let value = if 2 + 2 * p < args.len() {
            args[2 + 2 * p].clone()
        } else {
            String::new()
        };
        proof {
            lemma_flag_keys_distinct();
            assert(arg_key_at(args@, p as int) == key@);
            assert(arg_value_at(args@, p as int) == value@);
        }
        if *key == work_dir_key {
            r.work_dir = Some(value);
        } else if *key == debug_entry_key {
            r.debug_entry = Some(value);
        } else if *key == devtools_key {
            r.devtools = Some(value);
        }
        p = p + 1;
    }
    r
}

/// The diagnostic for a working directory named on the command line that is
/// not an existing directory.
pub open spec fn bad_work_dir_message() -> Seq<char> {
    "Custom path is not a directory or not exists"@
}

/// Chooses the working directory. A directory named on the command line is
/// joined onto the current directory and must exist as a directory
/// (`custom_is_dir` reports that check on the joined path); with nothing
/// named, the executable's directory is the default.
pub fn get_work_dir(custom: &Option<String>, cwd: &str, custom_is_dir: bool, exe_dir: &str) -> (r:
    Result<String, String>)
    ensures
        custom matches Some(c) ==> (custom_is_dir ==> (r matches Ok(d) && d@ == path_join(
            cwd@,
            c@,
        ))),
        custom is Some && !custom_is_dir ==> (r matches Err(m) && m@ == bad_work_dir_message()),
        custom is None ==> (r matches Ok(d) && d@ == exe_dir@),
{
    match custom {
        Some(c) => {
            if custom_is_dir {
                Ok(join_path(cwd, c.as_str()))
            } else {
                Err(String::from_str("Custom path is not a directory or not exists"))
            }
        },
        None => Ok(exe_dir.to_owned()),
    }
}

/// The configuration text written for a project that has none yet: a fresh
/// identity under the fixed default project name. `uuid` is the hyphenated
/// textual form of a newly drawn identifier.
pub fn default_config_text(uuid: &str) -> (r: String)
    ensures
        r@ == "{\"name\":\"tauri_lite_project\",\"uuid\":\""@ + uuid@ + "\"}"@,
{
    let mut r = String::from_str("{\"name\":\"tauri_lite_project\",\"uuid\":\"");
    r.append(uuid);
    r.append("\"}");
    r
}

/// Whether the `--devtools` command-line value asks for developer tools.
pub open spec fn devtools_requested(arg: Option<Seq<char>>) -> bool {
    arg matches Some(v) && (v == "true"@ || v == "1"@)
}

/// Applies the launch options to the configuration: the window title
/// defaults to the project name, and `--devtools true` (or `1`) switches
/// developer tools on. Everything else is kept as read.
pub fn apply_launch_options(config: Config, devtools_arg: &Option<String>) -> (r: Config)
    ensures
        r.title matches Some(t) && t@ == (match config.title {
            Some(t0) => t0@,
            None => config.name@,
        }),
        devtools_requested(opt_view(*devtools_arg)) ==> r.devtools == Some(true),
        !devtools_requested(opt_view(*devtools_arg)) ==> r.devtools == config.devtools,
        r.name == config.name && r.uuid == config.uuid && r.entry == config.entry && r.menu
            == config.menu && r.theme == config.theme && r.workers == config.workers && r.version
            == config.version && r.icon == config.icon && r.description == config.description,
        r.resizable == config.resizable && r.minimizable == config.minimizable && r.maximizable
            == config.maximizable && r.closable == config.closable && r.fullscreen
            == config.fullscreen && r.maximized == config.maximized && r.visible == config.visible
            && r.transparent == config.transparent && r.background_color == config.background_color
            && r.decorations == config.decorations && r.always_on_top == config.always_on_top
            && r.always_on_bottom == config.always_on_bottom && r.visible_on_all_workspaces
            == config.visible_on_all_workspaces && r.focused == config.focused
            && r.content_protection == config.content_protection,
{
    let mut config = config;
    let title = match config.title {
        Some(t0) => Some(t0),
        None => Some(config.name.clone()),
    };
    config.title = title;
    match devtools_arg {
        Some(v) => {
            if *v == String::from_str("true") || *v == String::from_str("1") {
                config.devtools = Some(true);
            }
        },
        None => {},
    }
    config
}

/// The per-project directory component: the project name and its identifier
/// joined with a dot.
pub fn instance_dir_name(name: &str, uuid: &str) -> (r: String)
    ensures
        r@ == name@ + "."@ + uuid@,
{
    let mut r = name.to_owned();
    r.append(".");
    r.append(uuid);
    r
}

/// The diagnostic for a configuration that carries no project identifier.
pub open spec fn missing_uuid_message() -> Seq<char> {
    "Config uuid is not exists"@
}

/// Assembles the startup environment from the prepared configuration and the
/// externally resolved base directories. A configuration without a project
/// identifier is rejected; otherwise the temp and data directories are the
/// per-project instance directory under each base.
pub fn init_environment(
    config: Config,
    work_dir: String,
    temp_base: &str,
    data_base: &str,
    debug_entry: Option<String>,
) -> (r: Result<Environment, String>)
    ensures
        config.uuid matches Some(u) ==> (r matches Ok(env) && {
            &&& env.project_name@ == config.name@
            &&& env.project_uuid@ == u@
            &&& env.work_dir == work_dir
            &&& env.temp_dir@ == path_join(temp_base@, config.name@ + "."@ + u@)
            &&& env.data_dir@ == path_join(data_base@, config.name@ + "."@ + u@)
            &&& env.config == config
            &&& env.debug_entry == debug_entry
        }),
        config.uuid is None ==> (r matches Err(m) && m@ == missing_uuid_message()),
{
    let project_uuid = match &config.uuid {
        Some(u) => u.clone(),
        None => {
            return Err(String::from_str("Config uuid is not exists"));
        },
    };
    let project_name = config.name.clone();
    let instance = instance_dir_name(project_name.as_str(), project_uuid.as_str());
    let temp_dir = join_path(temp_base, instance.as_str());
    let data_dir = join_path(data_base, instance.as_str());
    Ok(
        Environment {
            project_name,
            project_uuid,
            work_dir,
            temp_dir,
            data_dir,
            config,
            debug_entry,
        },
    )
}

} // verus!
