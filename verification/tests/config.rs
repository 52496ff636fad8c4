use hooklings::config::{
    ChecksConfig, Config, ConfigFile, EmitConfig, HandoffConfig, OpAuthConfig, PipelineConfig,
    ProjectSearch, SshConfig,
};

const HOME: &str = "/home/dev-user";

fn config_with(op: bool, ssh: bool, host: &str) -> Config {
    Config {
        pipeline: PipelineConfig::with_home(HOME),
        checks: ChecksConfig {
            op_auth: OpAuthConfig { enabled: op },
            ssh_reachable: SshConfig { enabled: ssh, host: host.to_string() },
            handoff_pending: HandoffConfig::with_home(HOME),
        },
        emit: EmitConfig::default(),
    }
}

fn same(a: &Config, b: &Config) -> bool {
    a.pipeline.default == b.pipeline.default
        && a.checks.op_auth.enabled == b.checks.op_auth.enabled
        && a.checks.ssh_reachable.enabled == b.checks.ssh_reachable.enabled
        && a.checks.ssh_reachable.host == b.checks.ssh_reachable.host
        && a.checks.handoff_pending.db == b.checks.handoff_pending.db
        && a.emit.json_path == b.emit.json_path
}

#[test]
fn default_config_has_expected_values() {
    let cfg = Config::with_home(HOME);
    assert!(!cfg.checks.op_auth.enabled);
    assert!(!cfg.checks.ssh_reachable.enabled);
    assert_eq!(cfg.checks.ssh_reachable.host, "minibox");
    assert!(cfg.emit.json_path.contains(".ctx"));
}

#[test]
fn default_paths_follow_home() {
    let cfg = Config::with_home("/home/u");
    assert_eq!(cfg.pipeline.default, "/home/u/.config/hooklings/default.crux");
    assert_eq!(cfg.checks.handoff_pending.db, "/home/u/.local/share/atelier/handoff.db");
    assert_eq!(cfg.emit.json_path, ".ctx/last-preflight.json");
    assert_eq!(SshConfig::default_host(), "minibox");
}

#[test]
fn home_falls_back_to_tmp() {
    assert_eq!(hooklings::config::resolve_home(None), "/tmp");
    assert_eq!(hooklings::config::resolve_home(Some("/root".to_string())), "/root");
    assert_eq!(Config::with_home(&hooklings::config::resolve_home(None)).pipeline.default, "/tmp/.config/hooklings/default.crux");
}

#[test]
fn merge_project_over_global() {
    // global: op_auth disabled, ssh host "global-host"; project: op_auth enabled.
    let base = config_with(false, false, "global-host");
    let overlay = config_with(true, false, "minibox");
    let merged = base.merge(overlay, HOME);
    assert!(merged.checks.op_auth.enabled);
    // project didn't override ssh host — global value preserved
    assert_eq!(merged.checks.ssh_reachable.host, "global-host");
}

#[test]
fn merge_overlay_non_default_values_win() {
    let mut base = config_with(true, false, "global-host");
    base.pipeline.default = "/etc/base.crux".to_string();
    let mut overlay = config_with(false, true, "project-host");
    overlay.pipeline.default = "/tmp/my.crux".to_string();
    overlay.emit.json_path = "out/report.json".to_string();
    overlay.checks.handoff_pending.db = "/data/handoff.db".to_string();
    let merged = base.merge(overlay, HOME);
    assert_eq!(merged.pipeline.default, "/tmp/my.crux");
    assert_eq!(merged.checks.ssh_reachable.host, "project-host");
    assert_eq!(merged.emit.json_path, "out/report.json");
    assert_eq!(merged.checks.handoff_pending.db, "/data/handoff.db");
    // enabled flags combine with OR
    assert!(merged.checks.op_auth.enabled);
    assert!(merged.checks.ssh_reachable.enabled);
}

#[test]
fn merge_identical_is_identity() {
    for enabled in [false, true] {
        let a = config_with(enabled, !enabled, "somewhere");
        let merged = a.clone().merge(a.clone(), HOME);
        assert!(same(&merged, &a));
        assert_eq!(merged.checks.op_auth.enabled, a.checks.op_auth.enabled);
    }
}

#[test]
fn merge_with_defaults_is_identity() {
    let a = config_with(true, false, "vps");
    assert!(same(&a.clone().merge(Config::with_home(HOME), HOME), &a));
    assert!(same(&Config::with_home(HOME).merge(a.clone(), HOME), &a));
}

#[test]
fn merge_is_associative_on_a_sample() {
    let a = config_with(true, false, "a-host");
    let mut b = config_with(false, false, "minibox");
    b.emit.json_path = "b.json".to_string();
    let c = config_with(false, true, "c-host");
    let left = a.clone().merge(b.clone(), HOME).merge(c.clone(), HOME);
    let right = a.merge(b.merge(c, HOME), HOME);
    assert!(same(&left, &right));
    assert_eq!(left.checks.ssh_reachable.host, "c-host");
    assert_eq!(left.emit.json_path, "b.json");
}

#[test]
fn load_layers_project_over_global() {
    let global = config_with(false, false, "global-host");
    let project = config_with(true, false, "minibox");
    let cfg = Config::load(ConfigFile::Parsed(global), ConfigFile::Parsed(project), HOME);
    assert!(cfg.checks.op_auth.enabled);
    assert_eq!(cfg.checks.ssh_reachable.host, "global-host");
}

#[test]
fn load_without_files_gives_defaults() {
    let cfg = Config::load(ConfigFile::Missing, ConfigFile::Missing, HOME);
    assert!(same(&cfg, &Config::with_home(HOME)));
    let cfg = Config::load(ConfigFile::Unreadable, ConfigFile::Unreadable, HOME);
    assert!(same(&cfg, &Config::with_home(HOME)));
}

#[test]
fn load_keeps_global_when_project_unreadable() {
    let global = config_with(true, true, "global-host");
    let cfg = Config::load(ConfigFile::Parsed(global.clone()), ConfigFile::Unreadable, HOME);
    assert!(same(&cfg, &global));
    let cfg = Config::load(ConfigFile::Parsed(global.clone()), ConfigFile::Missing, HOME);
    assert!(same(&cfg, &global));
}

#[test]
fn pipeline_file_prefers_the_request() {
    let mut cfg = Config::with_home(HOME);
    cfg.pipeline.default = "/tmp/my.crux".to_string();
    assert_eq!(cfg.pipeline_file(None), "/tmp/my.crux");
    assert_eq!(cfg.pipeline_file(Some("other.crux".to_string())), "other.crux");
}

#[test]
fn global_path_is_under_home() {
    assert_eq!(Config::global_path("/home/u"), "/home/u/.config/hooklings/hooklings.toml");
    assert_eq!(Config::global_path("/home/u/"), "/home/u/.config/hooklings/hooklings.toml");
    assert_eq!(Config::global_path(""), ".config/hooklings/hooklings.toml");
}

#[test]
fn project_search_walks_up() {
    assert_eq!(Config::project_candidate("/a/b"), "/a/b/.hooklings.toml");
    match Config::project_search_step("/a/b", true) {
        ProjectSearch::Found(p) => assert_eq!(p, "/a/b/.hooklings.toml"),
        _ => panic!("expected the candidate"),
    }
    match Config::project_search_step("/a/b", false) {
        ProjectSearch::Ascend(p) => assert_eq!(p, "/a"),
        _ => panic!("expected the parent"),
    }
    match Config::project_search_step("/", false) {
        ProjectSearch::Exhausted => {}
        _ => panic!("expected the end of the search"),
    }
}
