//! Layered configuration: defaults, the overlay of a project file on the
//! global one, and the paths where the two files are looked for.

use vstd::prelude::*;

use crate::text::opt_view;

verus! {

/// Which pipeline file runs by default.
#[derive(Debug, Clone)]
pub struct PipelineConfig {
    pub default: String,
}

/// The configurable checks.
#[derive(Debug, Clone)]
pub struct ChecksConfig {
    pub op_auth: OpAuthConfig,
    pub ssh_reachable: SshConfig,
    pub handoff_pending: HandoffConfig,
}

/// The 1Password authentication check.
#[derive(Debug, Clone)]
pub struct OpAuthConfig {
    pub enabled: bool,
}

/// The SSH reachability check.
#[derive(Debug, Clone)]
pub struct SshConfig {
    pub enabled: bool,
    pub host: String,
}

/// The pending-handoff check.
#[derive(Debug, Clone)]
pub struct HandoffConfig {
    pub db: String,
}

/// Where the JSON report is written.
#[derive(Debug, Clone)]
pub struct EmitConfig {
    pub json_path: String,
}

/// The whole configuration.
#[derive(Debug, Clone)]
pub struct Config {
    pub pipeline: PipelineConfig,
    pub checks: ChecksConfig,
    pub emit: EmitConfig,
}

/// A configuration as plain values.
pub struct ConfigView {
    pub pipeline: Seq<char>,
    pub op_auth_enabled: bool,
    pub ssh_enabled: bool,
    pub ssh_host: Seq<char>,
    pub handoff_db: Seq<char>,
    pub json_path: Seq<char>,
}

impl View for Config {
    type V = ConfigView;

    open spec fn view(&self) -> ConfigView {
        ConfigView {
            pipeline: self.pipeline.default@,
            op_auth_enabled: self.checks.op_auth.enabled,
            ssh_enabled: self.checks.ssh_reachable.enabled,
            ssh_host: self.checks.ssh_reachable.host@,
            handoff_db: self.checks.handoff_pending.db@,
            json_path: self.emit.json_path@,
        }
    }
}

/// The home directory used when none is known.
pub open spec fn fallback_home() -> Seq<char> {
    "/tmp"@
}

/// The default pipeline file under a home directory.
pub open spec fn default_pipeline_path(home: Seq<char>) -> Seq<char> {
    home + "/.config/hooklings/default.crux"@
}

/// The default handoff database under a home directory.
pub open spec fn default_handoff_db(home: Seq<char>) -> Seq<char> {
    home + "/.local/share/atelier/handoff.db"@
}

/// The default SSH host.
pub open spec fn default_ssh_host() -> Seq<char> {
    "minibox"@
}

/// The default path of the JSON report.
pub open spec fn default_json_path() -> Seq<char> {
    ".ctx/last-preflight.json"@
}

/// The default configuration for a home directory.
pub open spec fn default_view(home: Seq<char>) -> ConfigView {
    ConfigView {
        pipeline: default_pipeline_path(home),
        op_auth_enabled: false,
        ssh_enabled: false,
        ssh_host: default_ssh_host(),
        handoff_db: default_handoff_db(home),
        json_path: default_json_path(),
    }
}

/// The overlay's value where it differs from the default, else the base's.
pub open spec fn overlay_value(base: Seq<char>, overlay: Seq<char>, default: Seq<char>) -> Seq<char> {
    if overlay != default {
        overlay
    } else {
        base
    }
}

/// `overlay` laid over `base`: every text setting of `overlay` that differs
/// from its default wins, and a check is enabled if either enables it.
pub open spec fn merge_view(base: ConfigView, overlay: ConfigView, home: Seq<char>) -> ConfigView {
    ConfigView {
        pipeline: overlay_value(base.pipeline, overlay.pipeline, default_pipeline_path(home)),
        op_auth_enabled: overlay.op_auth_enabled || base.op_auth_enabled,
        ssh_enabled: overlay.ssh_enabled || base.ssh_enabled,
        ssh_host: overlay_value(base.ssh_host, overlay.ssh_host, default_ssh_host()),
        handoff_db: overlay_value(base.handoff_db, overlay.handoff_db, default_handoff_db(home)),
        json_path: overlay_value(base.json_path, overlay.json_path, default_json_path()),
    }
}

/// Laying a configuration over itself gives it back.
pub proof fn lemma_merge_idempotent(c: ConfigView, home: Seq<char>)
    ensures
        merge_view(c, c, home) == c,
{
}

/// Laying the defaults over a configuration leaves it unchanged.
pub proof fn lemma_merge_defaults_over(c: ConfigView, home: Seq<char>)
    ensures
        merge_view(c, default_view(home), home) == c,
{
}

/// Laying a configuration over the defaults gives the configuration.
pub proof fn lemma_merge_over_defaults(c: ConfigView, home: Seq<char>)
    ensures
        merge_view(default_view(home), c, home) == c,
{
}

/// Layering is associative: laying `c` over (`b` over `a`) is laying
/// (`c` over `b`) over `a`.
pub proof fn lemma_merge_associative(a: ConfigView, b: ConfigView, c: ConfigView, home: Seq<char>)
    ensures
        merge_view(merge_view(a, b, home), c, home) == merge_view(a, merge_view(b, c, home), home),
{
}

/// A check that either layer enables stays enabled, and no overlay
/// disables a check of the base.
pub proof fn lemma_merge_keeps_enabled(a: ConfigView, b: ConfigView, home: Seq<char>)
    ensures
        merge_view(a, b, home).op_auth_enabled == (a.op_auth_enabled || b.op_auth_enabled),
        merge_view(a, b, home).ssh_enabled == (a.ssh_enabled || b.ssh_enabled),
        a.op_auth_enabled ==> merge_view(a, b, home).op_auth_enabled,
        a.ssh_enabled ==> merge_view(a, b, home).ssh_enabled,
{
}

/// The overlay decides every text setting it sets to something other than
/// its default; where it leaves a setting at its default, the base's value
/// stays. A check is enabled exactly when either side enables it.
pub proof fn lemma_merge_overlay_wins(base: ConfigView, overlay: ConfigView, home: Seq<char>)
    ensures
        overlay.pipeline != home + "/.config/hooklings/default.crux"@
            ==> merge_view(base, overlay, home).pipeline == overlay.pipeline,
        overlay.pipeline == home + "/.config/hooklings/default.crux"@
            ==> merge_view(base, overlay, home).pipeline == base.pipeline,
        overlay.ssh_host != "minibox"@ ==> merge_view(base, overlay, home).ssh_host == overlay.ssh_host,
        overlay.ssh_host == "minibox"@ ==> merge_view(base, overlay, home).ssh_host == base.ssh_host,
        overlay.handoff_db != home + "/.local/share/atelier/handoff.db"@
            ==> merge_view(base, overlay, home).handoff_db == overlay.handoff_db,
        overlay.handoff_db == home + "/.local/share/atelier/handoff.db"@
            ==> merge_view(base, overlay, home).handoff_db == base.handoff_db,
        overlay.json_path != ".ctx/last-preflight.json"@
            ==> merge_view(base, overlay, home).json_path == overlay.json_path,
        overlay.json_path == ".ctx/last-preflight.json"@
            ==> merge_view(base, overlay, home).json_path == base.json_path,
        merge_view(base, overlay, home).op_auth_enabled <==> (base.op_auth_enabled || overlay.op_auth_enabled),
        merge_view(base, overlay, home).ssh_enabled <==> (base.ssh_enabled || overlay.ssh_enabled),
{
}

/// What was found at the place of a configuration file.
pub enum ConfigFile {
    /// No file is there.
    Missing,
    /// A file is there but could not be read or parsed.
    Unreadable,
    /// The file parsed into this configuration.
    Parsed(Config),
}

/// A configuration file, by its view.
pub open spec fn file_view(f: ConfigFile) -> Option<Option<ConfigView>> {
    match f {
        ConfigFile::Missing => None,
        ConfigFile::Unreadable => Some(None),
        ConfigFile::Parsed(c) => Some(Some(c@)),
    }
}

/// The configuration a file contributes: its contents, or the defaults where
/// it is missing or unreadable.
pub open spec fn file_or_default(f: Option<Option<ConfigView>>, home: Seq<char>) -> ConfigView {
    match f {
        Some(Some(c)) => c,
        _ => default_view(home),
    }
}

/// The effective configuration: the global file (or the defaults), with the
/// project file laid over it where one exists.
pub open spec fn load_view(global: Option<Option<ConfigView>>, project: Option<Option<ConfigView>>, home: Seq<char>) -> ConfigView {
    let base = file_or_default(global, home);
    match project {
        None => base,
        Some(_) => merge_view(base, file_or_default(project, home), home),
    }
}

/// A missing or unreadable project file leaves the global configuration as
/// it is; with no global file, the project file alone decides.
pub proof fn lemma_load_layers(global: Option<Option<ConfigView>>, project: Option<Option<ConfigView>>, home: Seq<char>)
    ensures
        project is None ==> load_view(global, project, home) == file_or_default(global, home),
        project == Some(None::<ConfigView>) ==> load_view(global, project, home) == file_or_default(global, home),
        global is None ==> load_view(global, project, home) == file_or_default(project, home),
{
    lemma_merge_defaults_over(file_or_default(global, home), home);
    lemma_merge_over_defaults(file_or_default(project, home), home);
}

/// When both files parse, the project file is laid over the global one:
/// every setting the project file sets away from its default wins, every
/// other setting keeps the global file's value, and a check is enabled when
/// either file enables it.
pub proof fn lemma_load_project_over_global(g: ConfigView, p: ConfigView, home: Seq<char>)
    ensures
        load_view(Some(Some(g)), Some(Some(p)), home) == merge_view(g, p, home),
        p.pipeline != home + "/.config/hooklings/default.crux"@
            ==> load_view(Some(Some(g)), Some(Some(p)), home).pipeline == p.pipeline,
        p.pipeline == home + "/.config/hooklings/default.crux"@
            ==> load_view(Some(Some(g)), Some(Some(p)), home).pipeline == g.pipeline,
        p.ssh_host != "minibox"@ ==> load_view(Some(Some(g)), Some(Some(p)), home).ssh_host == p.ssh_host,
        p.ssh_host == "minibox"@ ==> load_view(Some(Some(g)), Some(Some(p)), home).ssh_host == g.ssh_host,
        p.handoff_db != home + "/.local/share/atelier/handoff.db"@
            ==> load_view(Some(Some(g)), Some(Some(p)), home).handoff_db == p.handoff_db,
        p.handoff_db == home + "/.local/share/atelier/handoff.db"@
            ==> load_view(Some(Some(g)), Some(Some(p)), home).handoff_db == g.handoff_db,
        p.json_path != ".ctx/last-preflight.json"@
            ==> load_view(Some(Some(g)), Some(Some(p)), home).json_path == p.json_path,
        p.json_path == ".ctx/last-preflight.json"@
            ==> load_view(Some(Some(g)), Some(Some(p)), home).json_path == g.json_path,
        load_view(Some(Some(g)), Some(Some(p)), home).op_auth_enabled <==> (g.op_auth_enabled || p.op_auth_enabled),
        load_view(Some(Some(g)), Some(Some(p)), home).ssh_enabled <==> (g.ssh_enabled || p.ssh_enabled),
{
    lemma_merge_overlay_wins(g, p, home);
}

/// The home directory: the value of `HOME` where it is set, else `/tmp`.
pub fn resolve_home(home_var: Option<String>) -> (home: String)
    ensures
        home@ == match home_var {
            Some(h) => h@,
            None => fallback_home(),
        },
{
    match home_var {
        Some(h) => h,
        None => "/tmp".to_owned(),
    }
}

/// Appends `suffix` to `home`.
fn home_path(home: &str, suffix: &str) -> (r: String)
    ensures
        r@ == home@ + suffix@,
{
    let mut r = home.to_owned();
    r.append(suffix);
    r
}

impl PipelineConfig {
    /// The default pipeline for a home directory.
    pub fn with_home(home: &str) -> (r: Self)
        ensures
            r.default@ == default_pipeline_path(home@),
    {
        PipelineConfig { default: home_path(home, "/.config/hooklings/default.crux") }
    }
}

impl HandoffConfig {
    /// The default handoff database for a home directory.
    pub fn with_home(home: &str) -> (r: Self)
        ensures
            r.db@ == default_handoff_db(home@),
    {
        HandoffConfig { db: home_path(home, "/.local/share/atelier/handoff.db") }
    }
}

impl SshConfig {
    /// The default SSH host.
    pub fn default_host() -> (r: String)
        ensures
            r@ == default_ssh_host(),
    {
        "minibox".to_owned()
    }
}

impl Default for SshConfig {
    fn default() -> (r: Self)
        ensures
            !r.enabled,
            r.host@ == default_ssh_host(),
    {
        SshConfig { enabled: false, host: SshConfig::default_host() }
    }
}

impl Default for OpAuthConfig {
    fn default() -> (r: Self)
        ensures
            !r.enabled,
    {
        OpAuthConfig { enabled: false }
    }
}

impl Default for EmitConfig {
    fn default() -> (r: Self)
        ensures
            r.json_path@ == default_json_path(),
    {
        EmitConfig { json_path: ".ctx/last-preflight.json".to_owned() }
    }
}

impl ChecksConfig {
    /// The default checks for a home directory: all disabled.
    pub fn with_home(home: &str) -> (r: Self)
        ensures
            !r.op_auth.enabled,
            !r.ssh_reachable.enabled,
            r.ssh_reachable.host@ == default_ssh_host(),
            r.handoff_pending.db@ == default_handoff_db(home@),
    {
        ChecksConfig {
            op_auth: OpAuthConfig::default(),
            ssh_reachable: SshConfig::default(),
            handoff_pending: HandoffConfig::with_home(home),
        }
    }
}

impl Config {
    /// The default configuration for a home directory.
    pub fn with_home(home: &str) -> (r: Self)
        ensures
            r@ == default_view(home@),
    {
        Config {
            pipeline: PipelineConfig::with_home(home),
            checks: ChecksConfig::with_home(home),
            emit: EmitConfig::default(),
        }
    }

    /// Overlays non-default values from `other`, combining enabled checks
    /// with logical OR. Defaults are those of the home directory `home`.
    pub fn merge(self, other: Self, home: &str) -> (r: Self)
        ensures
            r@ == merge_view(self@, other@, home@),
    {
        let defaults = Config::with_home(home);
        let other_pipeline_is_default = other.pipeline.default == defaults.pipeline.default;
        let other_host_is_default = other.checks.ssh_reachable.host == defaults.checks.ssh_reachable.host;
        let other_db_is_default = other.checks.handoff_pending.db == defaults.checks.handoff_pending.db;
        let other_json_is_default = other.emit.json_path == defaults.emit.json_path;
        Config {
            pipeline: if !other_pipeline_is_default {
                other.pipeline
            } else {
                self.pipeline
            },
            checks: ChecksConfig {
                op_auth: OpAuthConfig {
                    enabled: other.checks.op_auth.enabled || self.checks.op_auth.enabled,
                },
                ssh_reachable: SshConfig {
                    enabled: other.checks.ssh_reachable.enabled || self.checks.ssh_reachable.enabled,
                    host: if !other_host_is_default {
                        other.checks.ssh_reachable.host
                    } else {
                        self.checks.ssh_reachable.host
                    },
                },
                handoff_pending: HandoffConfig {
                    db: if !other_db_is_default {
                        other.checks.handoff_pending.db
                    } else {
                        self.checks.handoff_pending.db
                    },
                },
            },
            emit: if !other_json_is_default {
                other.emit
            } else {
                self.emit
            },
        }
    }

    /// The configuration a file contributes.
    fn from_file(file: ConfigFile, home: &str) -> (r: Self)
        ensures
            r@ == file_or_default(file_view(file), home@),
    {
        match file {
            ConfigFile::Parsed(c) => c,
            _ => Config::with_home(home),
        }
    }

    /// The global configuration, or the defaults where the global file is
    /// missing or unreadable.
    fn load_global(global: ConfigFile, home: &str) -> (r: Self)
        ensures
            r@ == file_or_default(file_view(global), home@),
    {
        Config::from_file(global, home)
    }

    /// `base` with the project file laid over it, where one exists.
    fn apply_project_overlay(base: Self, project: ConfigFile, home: &str) -> (r: Self)
        ensures
            r@ == match file_view(project) {
                None => base@,
                Some(_) => merge_view(base@, file_or_default(file_view(project), home@), home@),
            },
    {
        match project {
            ConfigFile::Missing => base,
            _ => {
                let overlay = Config::from_file(project, home);
                base.merge(overlay, home)
            },
        }
    }

    /// Loads the global configuration and overlays the project configuration.
    pub fn load(global: ConfigFile, project: ConfigFile, home: &str) -> (r: Self)
        ensures
            r@ == load_view(file_view(global), file_view(project), home@),
    {
        let base = Config::load_global(global, home);
        let r = Config::apply_project_overlay(base, project, home);
        proof {
            lemma_load_layers(file_view(global), file_view(project), home@);
        }
        r
    }
}

/// The file name of a project configuration.
pub open spec fn project_file_name() -> Seq<char> {
    ".hooklings.toml"@
}

/// The global configuration file, relative to the home directory.
pub open spec fn global_file_name() -> Seq<char> {
    ".config/hooklings/hooklings.toml"@
}

/// `Path::join` on Unix text paths: an absolute `rel` replaces `base`;
/// otherwise `rel` is appended, after a `/` unless `base` is empty or
/// already ends in `/`.
pub open spec fn joined_path(base: Seq<char>, rel: Seq<char>) -> Seq<char> {
    if rel.len() > 0 && rel[0] == '/' {
        rel
    } else if base.len() > 0 && base.last() != '/' {
        base + "/"@ + rel
    } else {
        base + rel
    }
}

/// `Path::parent`: the path without its last component, if it has one.
pub uninterp spec fn parent_path(p: Seq<char>) -> Option<Seq<char>>;

/// Calls `std::path::Path::join` (which pushes `rel` onto a copy of `base`);
/// both arguments are text, so the result is text too.
#[verifier::external_body]
fn join_path(base: &str, rel: &str) -> (r: String)
    ensures
        r@ == joined_path(base@, rel@),
{
    std::path::Path::new(base).join(rel).to_string_lossy().into_owned()
}

/// Calls `std::path::Path::parent`; the argument is text, so the parent is
/// text too.
#[verifier::external_body]
fn parent_dir(p: &str) -> (r: Option<String>)
    ensures
        opt_view(r) == parent_path(p@),
{
    std::path::Path::new(p).parent().map(|q| q.to_string_lossy().into_owned())
}

/// One step of the search for a project configuration, from a directory up
/// towards the root.
pub enum ProjectSearch {
    /// The configuration file is here.
    Found(String),
    /// Not here: look in this parent directory next.
    Ascend(String),
    /// Not here, and there is no parent directory: there is none.
    Exhausted,
}

impl Config {
    /// The pipeline file to run: the one requested, else the configured one.
    pub fn pipeline_file(&self, requested: Option<String>) -> (r: String)
        ensures
            r@ == match requested {
                Some(p) => p@,
                None => self.pipeline.default@,
            },
    {
        match requested {
            Some(p) => p,
            None => self.pipeline.default.clone(),
        }
    }

    /// The global configuration file under a home directory.
    pub fn global_path(home: &str) -> (r: String)
        ensures
            r@ == joined_path(home@, global_file_name()),
    {
        join_path(home, ".config/hooklings/hooklings.toml")
    }

    /// Where a project configuration file would be in `dir`.
    pub fn project_candidate(dir: &str) -> (r: String)
        ensures
            r@ == joined_path(dir@, project_file_name()),
    {
        join_path(dir, ".hooklings.toml")
    }

    /// Decides the search for the project configuration in `dir`, given
    /// whether the file that `project_candidate(dir)` names exists.
    pub fn project_search_step(dir: &str, candidate_exists: bool) -> (r: ProjectSearch)
        ensures
            candidate_exists ==> (r matches ProjectSearch::Found(c) && c@ == joined_path(dir@, project_file_name())),
            !candidate_exists ==> match parent_path(dir@) {
                Some(p) => r matches ProjectSearch::Ascend(q) && q@ == p,
                None => r is Exhausted,
            },
    {
        if candidate_exists {
            ProjectSearch::Found(Config::project_candidate(dir))
        } else {
            match parent_dir(dir) {
                Some(p) => ProjectSearch::Ascend(p),
                None => ProjectSearch::Exhausted,
            }
        }
    }
}

} // verus!
