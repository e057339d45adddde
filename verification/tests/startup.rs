use tauri_lite::environment::{
    apply_launch_options, default_config_text, get_work_dir, init_environment, instance_dir_name,
    parse_args, Config, MenuConfig, MenuItem,
};

fn strings(items: &[&str]) -> Vec<String> {
    items.iter().map(|s| s.to_string()).collect()
}

fn plain_config(name: &str, uuid: Option<&str>) -> Config {
    Config {
        name: name.to_string(),
        uuid: uuid.map(|u| u.to_string()),
        version: None,
        icon: None,
        entry: None,
        title: None,
        description: None,
        devtools: None,
        theme: None,
        resizable: None,
        minimizable: None,
        maximizable: None,
        closable: None,
        fullscreen: None,
        maximized: None,
        visible: None,
        transparent: None,
        background_color: None,
        decorations: None,
        always_on_top: None,
        always_on_bottom: None,
        visible_on_all_workspaces: None,
        focused: None,
        content_protection: None,
        menu: None,
        workers: None,
    }
}

#[test]
fn args_parse_known_key_value_pairs() {
    let args = strings(&["shell", "--work-dir", "/srv/app", "--devtools", "true"]);
    let parsed = parse_args(&args);
    assert_eq!(parsed.work_dir.as_deref(), Some("/srv/app"));
    assert_eq!(parsed.devtools.as_deref(), Some("true"));
    assert_eq!(parsed.debug_entry, None);
}

#[test]
fn later_argument_pairs_override_earlier_ones() {
    let args = strings(&["shell", "--work-dir", "/a", "--work-dir", "/b"]);
    let parsed = parse_args(&args);
    assert_eq!(parsed.work_dir.as_deref(), Some("/b"));
}

#[test]
fn trailing_key_without_value_gets_empty_value() {
    let args = strings(&["shell", "--debug-entry"]);
    let parsed = parse_args(&args);
    assert_eq!(parsed.debug_entry.as_deref(), Some(""));
}

#[test]
fn unknown_argument_keys_are_ignored() {
    let args = strings(&["shell", "--volume", "11", "--work-dir", "/w"]);
    let parsed = parse_args(&args);
    assert_eq!(parsed.work_dir.as_deref(), Some("/w"));
    assert_eq!(parsed.debug_entry, None);
    assert_eq!(parsed.devtools, None);
}

#[test]
fn custom_work_dir_joins_onto_cwd_when_it_exists() {
    let custom = Some("app".to_string());
    let r = get_work_dir(&custom, "/home/me", true, "/usr/bin");
    assert_eq!(r.unwrap(), "/home/me/app");
}

#[test]
fn absolute_custom_work_dir_stands_alone() {
    let custom = Some("/srv/app".to_string());
    let r = get_work_dir(&custom, "/home/me", true, "/usr/bin");
    assert_eq!(r.unwrap(), "/srv/app");
}

#[test]
fn missing_custom_work_dir_is_an_error() {
    let custom = Some("gone".to_string());
    let r = get_work_dir(&custom, "/home/me", false, "/usr/bin");
    assert_eq!(r.unwrap_err(), "Custom path is not a directory or not exists");
}

#[test]
fn default_work_dir_is_the_executable_directory() {
    let r = get_work_dir(&None, "/home/me", false, "/opt/shell");
    assert_eq!(r.unwrap(), "/opt/shell");
}

#[test]
fn default_config_text_names_project_and_uuid() {
    let text = default_config_text("1b4e28ba-2fa1-11d2-883f-0016d3cca427");
    assert_eq!(
        text,
        "{\"name\":\"tauri_lite_project\",\"uuid\":\"1b4e28ba-2fa1-11d2-883f-0016d3cca427\"}"
    );
}

#[test]
fn title_defaults_to_project_name() {
    let config = plain_config("demo", Some("u-1"));
    let config = apply_launch_options(config, &None);
    assert_eq!(config.title.as_deref(), Some("demo"));
}

#[test]
fn explicit_title_is_kept() {
    let mut config = plain_config("demo", Some("u-1"));
    config.title = Some("My Window".to_string());
    let config = apply_launch_options(config, &None);
    assert_eq!(config.title.as_deref(), Some("My Window"));
}

#[test]
fn devtools_argument_switches_devtools_on() {
    let config = apply_launch_options(plain_config("d", None), &Some("true".to_string()));
    assert_eq!(config.devtools, Some(true));
    let config = apply_launch_options(plain_config("d", None), &Some("1".to_string()));
    assert_eq!(config.devtools, Some(true));
    let config = apply_launch_options(plain_config("d", None), &Some("yes".to_string()));
    assert_eq!(config.devtools, None);
}

#[test]
fn instance_dir_joins_name_and_uuid() {
    assert_eq!(instance_dir_name("demo", "u-1"), "demo.u-1");
}

#[test]
fn environment_derives_per_project_directories() {
    let config = plain_config("demo", Some("u-1"));
    let env = init_environment(
        config,
        "/srv/app".to_string(),
        "/tmp",
        "/home/me/.local/share",
        Some("http://localhost:3000".to_string()),
    )
    .unwrap();
    assert_eq!(env.project_name, "demo");
    assert_eq!(env.project_uuid, "u-1");
    assert_eq!(env.work_dir, "/srv/app");
    assert_eq!(env.temp_dir, "/tmp/demo.u-1");
    assert_eq!(env.data_dir, "/home/me/.local/share/demo.u-1");
    assert_eq!(env.debug_entry.as_deref(), Some("http://localhost:3000"));
}

#[test]
fn environment_requires_a_project_uuid() {
    let config = plain_config("demo", None);
    let r = init_environment(config, "/srv".to_string(), "/tmp", "/data", None);
    let err = match r {
        Err(err) => err,
        Ok(_) => panic!("a config without a uuid must be rejected"),
    };
    assert_eq!(err, "Config uuid is not exists");
}

#[test]
fn menu_config_holds_nested_items() {
    let submenu = vec![MenuItem {
        id: 2,
        label: "Quit".to_string(),
        accelerator: Some(("Cmd".to_string(), "Q".to_string())),
        submenu: None,
    }];
    let menu = MenuConfig(vec![MenuItem {
        id: 1,
        label: "File".to_string(),
        accelerator: None,
        submenu: Some(submenu),
    }]);
    assert_eq!(menu.0.len(), 1);
    assert_eq!(menu.0[0].submenu.as_ref().unwrap()[0].id, 2);
}
