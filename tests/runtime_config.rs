use daemon_rpc::{
    choose_install_base_dir, install_base_dir_from_config, layer_list, read_deps_state_layers,
    resolve_install_base_dir, runtime_cache_dir, runtime_config_path, user_home_dir,
    with_install_base_dir, Json,
};

fn s(x: &str) -> Json {
    Json::Str(x.to_string())
}

fn obj(members: Vec<(&str, Json)>) -> Json {
    Json::Object(members.into_iter().map(|(k, v)| (k.to_string(), v)).collect())
}

#[test]
fn settings_locations() {
    assert_eq!(runtime_config_path("/home/u"), "/home/u/.latexsnipper/LaTeXSnipper_config.json");
    assert_eq!(runtime_cache_dir(Some(" C:/AppData "), "/home/u"), "C:/AppData/pix2text");
    assert_eq!(runtime_cache_dir(None, "/home/u"), "/home/u/.cache/pix2text");
    assert_eq!(user_home_dir(Some(" /p "), true, Some("/h"), true, "/cwd"), "/p");
    assert_eq!(user_home_dir(Some("/p"), false, Some(" /h"), true, "/cwd"), "/h");
    assert_eq!(user_home_dir(None, false, Some("/h"), false, "/cwd"), "/cwd");
}

#[test]
fn install_dir_from_settings() {
    let doc = obj(vec![("install_base_dir", s("  D:/deps "))]);
    assert_eq!(install_base_dir_from_config(&doc), Some("D:/deps".to_string()));
    assert_eq!(install_base_dir_from_config(&obj(vec![("install_base_dir", s("  "))])), None);
    assert_eq!(install_base_dir_from_config(&obj(vec![("install_base_dir", Json::Int(1))])), None);
    assert_eq!(resolve_install_base_dir(None, "/r"), "/r/src/deps");
    assert_eq!(resolve_install_base_dir(Some("/x".to_string()), "/r"), "/x");
    assert_eq!(choose_install_base_dir(Some(" /y "), "/f".to_string()), "/y");
    assert_eq!(choose_install_base_dir(Some(" "), "/f".to_string()), "/f");
    assert_eq!(choose_install_base_dir(None, "/f".to_string()), "/f");
}

#[test]
fn settings_update_keeps_other_members() {
    let doc = obj(vec![("theme", s("dark")), ("install_base_dir", s("/old")), ("n", Json::Int(2))]);
    assert_eq!(
        with_install_base_dir(doc, "/new"),
        obj(vec![("theme", s("dark")), ("install_base_dir", s("/new")), ("n", Json::Int(2))])
    );
    assert_eq!(
        with_install_base_dir(obj(vec![("theme", s("dark"))]), "/new"),
        obj(vec![("theme", s("dark")), ("install_base_dir", s("/new"))])
    );
    assert_eq!(
        with_install_base_dir(Json::Array(vec![]), "/new"),
        obj(vec![("install_base_dir", s("/new"))])
    );
}

#[test]
fn dependency_layers_sorted_once() {
    let doc = obj(vec![
        (
            "installed_layers",
            Json::Array(vec![s(" gpu "), s("basic"), Json::Int(3), s("BASIC"), s(" "), s("core")]),
        ),
        ("failed_layers", s("not a list")),
    ]);
    assert_eq!(layer_list(&doc, "installed_layers"), vec!["BASIC", "CORE", "GPU"]);
    let (installed, failed) = read_deps_state_layers(Some(&doc));
    assert_eq!(installed, vec!["BASIC", "CORE", "GPU"]);
    assert!(failed.is_empty());
    let (a, b) = read_deps_state_layers(None);
    assert!(a.is_empty() && b.is_empty());
    let german = obj(vec![("installed_layers", Json::Array(vec![s("straße")]))]);
    assert_eq!(layer_list(&german, "installed_layers"), vec!["STRASSE"]);
}
