//! The project store and lifecycle logic: the in-memory registry of
//! materialized projects, the exact contents of the files a new project is
//! materialized with, the toolchain and runner command lines, artifact path
//! candidates, process-id parsing and timestamp formatting. Reading and
//! writing the disk, spawning the commands and watching children is left to
//! the thin shell around this library.

use vstd::prelude::*;
use vstd::pervasive::VecAdditionalExecFns;

use crate::ext::hb_render;
use crate::ext::pairs_map;
use crate::flow_model::init_body_text;
use crate::flow_model::FlowModel;
use crate::flow_model::FlowModelV;
use crate::flow_model::StandardCodeEmitter;
use crate::package::assoc_get;
use crate::package::assoc_has;
use crate::package::named_strings_view;
use crate::package::EmitError;
use crate::package::EmitErrorV;
use crate::package::EMIT_RECURSION_LIMIT;
use crate::package_manager::PackageManager;
use crate::text::dec_str;
use crate::text::join_with;
use crate::text::string_eq_str;
use crate::text::text_contains;
use crate::text::views_of;

verus! {

// ---------------------------------------------------------------------------
// Data model.
// ---------------------------------------------------------------------------
pub ghost struct FlowPackageV {
    pub name: Seq<char>,
    pub version: Seq<char>,
    pub path: Option<Seq<char>>,
    pub git: Option<Seq<char>>,
    pub branch: Option<Seq<char>>,
}

#[derive(Debug, PartialEq)]
pub struct FlowPackage {
    pub name: String,
    pub version: String,
    pub path: Option<String>,
    pub git: Option<String>,
    pub branch: Option<String>,
}

impl View for FlowPackage {
    type V = FlowPackageV;

    open spec fn view(&self) -> FlowPackageV {
        FlowPackageV {
            name: self.name@,
            version: self.version@,
            path: crate::package::option_string_view(self.path),
            git: crate::package::option_string_view(self.git),
            branch: crate::package::option_string_view(self.branch),
        }
    }
}

fn clone_opt_string(o: &Option<String>) -> (r: Option<String>)
    ensures
        crate::package::option_string_view(r) == crate::package::option_string_view(*o),
{
    match o {
        Option::Some(s) => Option::Some(s.clone()),
        Option::None => Option::None,
    }
}

impl Clone for FlowPackage {
    fn clone(&self) -> (r: Self)
        ensures
            r@ == self@,
    {
        FlowPackage {
            name: self.name.clone(),
            version: self.version.clone(),
            path: clone_opt_string(&self.path),
            git: clone_opt_string(&self.git),
            branch: clone_opt_string(&self.branch),
        }
    }
}

pub ghost struct FlowProjectV {
    pub name: Seq<char>,
    pub version: Seq<char>,
    pub packages: Seq<FlowPackageV>,
    pub flow: FlowModelV,
}

#[derive(Debug, PartialEq)]
pub struct FlowProject {
    pub name: String,
    pub version: String,
    pub packages: Vec<FlowPackage>,
    pub flow: FlowModel,
}

pub open spec fn flow_packages_view(ps: Seq<FlowPackage>) -> Seq<FlowPackageV> {
    ps.map_values(|p: FlowPackage| p@)
}

impl View for FlowProject {
    type V = FlowProjectV;

    open spec fn view(&self) -> FlowProjectV {
        FlowProjectV {
            name: self.name@,
            version: self.version@,
            packages: flow_packages_view(self.packages@),
            flow: self.flow@,
        }
    }
}

impl Clone for FlowProject {
    fn clone(&self) -> (r: Self)
        ensures
            r@ == self@,
    {
        let mut packages: Vec<FlowPackage> = Vec::new();
        let mut i: usize = 0;
        while i < self.packages.len()
            invariant
                i <= self.packages@.len(),
                packages@.len() == i,
                forall|j: int| 0 <= j < i ==> packages@[j]@ == self.packages@[j]@,
            decreases self.packages@.len() - i,
        {
            packages.push(self.packages[i].clone());
            i = i + 1;
        }
        let r = FlowProject {
            name: self.name.clone(),
            version: self.version.clone(),
            packages,
            flow: self.flow.clone(),
        };
        proof {
            assert(flow_packages_view(r.packages@) =~= flow_packages_view(self.packages@));
        }
        r
    }
}

/// A running child's identity, as handed back to clients.
#[derive(Debug, PartialEq, Clone, Copy)]
pub struct Process {
    pub process_id: u32,
}

/// The build kind chosen in a request's query.
#[derive(Debug, PartialEq)]
pub struct BuildType {
    pub build_type: String,
}

/// A local calendar timestamp split into its fields.
#[derive(Debug, PartialEq, Clone, Copy)]
pub struct TimeParts {
    pub year: i32,
    pub month: u8,
    pub day: u8,
    pub hour: u8,
    pub minute: u8,
    pub second: u8,
}

/// A command line for the shell to run: program, arguments, and the working
/// directory it must run in, if any.
#[derive(Debug, PartialEq)]
pub struct CommandSpec {
    pub program: String,
    pub args: Vec<String>,
    pub current_dir: Option<String>,
}

/// The file contents a freshly created project is materialized with; the
/// emitted source is the initialization body, to be wrapped into the entry
/// source file.
#[derive(Debug, PartialEq)]
pub struct ProjectFiles {
    pub cargo_toml: String,
    pub index_html: String,
    pub lib_rs_body: String,
}

// ---------------------------------------------------------------------------
// Configuration.
// ---------------------------------------------------------------------------
#[derive(Debug, PartialEq)]
pub struct FlowProjectManagerConfig {
    pub project_folder: String,
    pub project_json_file_name: String,
    pub builtin_dependencies: Vec<String>,
    pub rust_fmt_path: String,
    pub do_formatting: bool,
}

pub fn project_folder_default() -> (r: String)
    ensures
        r@ == "flow-projects"@,
{
    "flow-projects".to_owned()
}

pub fn project_json_file_name_default() -> (r: String)
    ensures
        r@ == "flow-project.json"@,
{
    "flow-project.json".to_owned()
}

pub fn builtin_dependencies_default() -> (r: Vec<String>)
    ensures
        views_of(r@) == seq!["wasm-bindgen = \"0.2.87\""@, "serde_json = \"1.0.105\""@],
{
    let mut r: Vec<String> = Vec::new();
    r.push("wasm-bindgen = \"0.2.87\"".to_owned());
    r.push("serde_json = \"1.0.105\"".to_owned());
    proof {
        assert(views_of(r@) =~= seq!["wasm-bindgen = \"0.2.87\""@, "serde_json = \"1.0.105\""@]);
    }
    r
}

pub fn rust_fmt_path_default() -> (r: String)
    ensures
        r@ == "rustfmt"@,
{
    "rustfmt".to_owned()
}

pub fn do_formatting_default() -> (r: bool)
    ensures
        r,
{
    true
}

impl Clone for FlowProjectManagerConfig {
    fn clone(&self) -> (r: Self)
        ensures
            r.project_folder@ == self.project_folder@,
            r.project_json_file_name@ == self.project_json_file_name@,
            views_of(r.builtin_dependencies@) == views_of(self.builtin_dependencies@),
            r.rust_fmt_path@ == self.rust_fmt_path@,
            r.do_formatting == self.do_formatting,
    {
        let mut builtin_dependencies: Vec<String> = Vec::new();
        let mut i: usize = 0;
        while i < self.builtin_dependencies.len()
            invariant
                i <= self.builtin_dependencies@.len(),
                builtin_dependencies@.len() == i,
                forall|j: int|
                    0 <= j < i ==> builtin_dependencies@[j]@ == self.builtin_dependencies@[j]@,
            decreases self.builtin_dependencies@.len() - i,
        {
            builtin_dependencies.push(self.builtin_dependencies[i].clone());
            i = i + 1;
        }
        let r = FlowProjectManagerConfig {
            project_folder: self.project_folder.clone(),
            project_json_file_name: self.project_json_file_name.clone(),
            builtin_dependencies,
            rust_fmt_path: self.rust_fmt_path.clone(),
            do_formatting: self.do_formatting,
        };
        proof {
            assert(views_of(r.builtin_dependencies@) =~= views_of(self.builtin_dependencies@));
        }
        r
    }
}

impl Default for FlowProjectManagerConfig {
    fn default() -> (r: Self)
        ensures
            r.project_folder@ == "flow-projects"@,
            r.project_json_file_name@ == "flow-project.json"@,
            views_of(r.builtin_dependencies@) == seq![
                "wasm-bindgen = \"0.2.87\""@,
                "serde_json = \"1.0.105\""@,
            ],
            r.rust_fmt_path@ == "rustfmt"@,
            r.do_formatting,
    {
        FlowProjectManagerConfig {
            project_folder: project_folder_default(),
            project_json_file_name: project_json_file_name_default(),
            builtin_dependencies: builtin_dependencies_default(),
            rust_fmt_path: rust_fmt_path_default(),
            do_formatting: do_formatting_default(),
        }
    }
}

// ---------------------------------------------------------------------------
// File contents.
// ---------------------------------------------------------------------------
/// One dependency line of the generated manifest: a local path wins over a
/// git source, a git source over a plain version; a branch is named only
/// beside its git source.
pub open spec fn dependency_line_text(p: FlowPackageV) -> Seq<char> {
    match p.path {
        Option::Some(path) => p.name + " = {path = \""@ + path + "\"}"@,
        Option::None => match p.git {
            Option::Some(git) => match p.branch {
                Option::Some(branch) => p.name + " = {git = \""@ + git + "\", branch = \""@
                    + branch + "\"}"@,
                Option::None => p.name + " = {git = \""@ + git + "\"}"@,
            },
            Option::None => p.name + " = \""@ + p.version + "\""@,
        },
    }
}

pub open spec fn dependency_lines_text(ps: Seq<FlowPackageV>) -> Seq<char> {
    join_with(ps.map_values(|p: FlowPackageV| dependency_line_text(p)), "\n"@)
}

/// The generated project manifest: package header, the project's declared
/// dependencies, the configured built-in dependency lines, and the shared
/// library target.
pub open spec fn cargo_toml_text(p: FlowProjectV, builtin: Seq<Seq<char>>) -> Seq<char> {
    "[package]\nname = \""@ + p.name + "\" \nversion = \""@ + p.version
        + "\"\nedition = \"2021\"\n\n[dependencies]\n"@ + dependency_lines_text(p.packages) + "\n"@
        + join_with(builtin, "\n"@) + "\n\n[lib]\ncrate-type = [\"cdylib\"]"@
}

/// The browser shell template, rendered with the project's name and version.
pub open spec fn index_template_text() -> Seq<char> {
    "\n        <!DOCTYPE html>\n        <html>\n          <head>\n            <meta charset=\"UTF-8\" />\n            <title>{{project_name}} {{project_version}} </title>\n          </head>\n          <body>\n            <script type=\"module\">\n              import init, {wasm_run} from '/pkg/{{project_name}}.js'\n\n              // Always required for wasm.\n              await init();\n\n              // Running flow.\n              wasm_run();\n\n            </script>\n          </body>\n        </html>\n        "@
}

pub open spec fn index_data_map(name: Seq<char>, version: Seq<char>) -> Map<Seq<char>, Seq<char>> {
    Map::empty().insert("project_name"@, name).insert("project_version"@, version)
}

// ---------------------------------------------------------------------------
// Process ids.
// ---------------------------------------------------------------------------
pub open spec fn is_dec_digit(c: char) -> bool {
    '0' as int <= c as int <= '9' as int
}

pub open spec fn dec_value(s: Seq<char>) -> int
    decreases s.len(),
{
    if s.len() == 0 {
        0
    } else {
        dec_value(s.drop_last()) * 10 + (s.last() as int - '0' as int)
    }
}

/// A canonical decimal numeral: digits only, at least one, and no leading
/// zero unless the numeral is `0` itself.
pub open spec fn is_canonical_dec(s: Seq<char>) -> bool {
    &&& s.len() >= 1
    &&& forall|i: int| 0 <= i < s.len() ==> is_dec_digit(s[i])
    &&& (s.len() > 1 ==> s[0] != '0')
}

/// The texts a process id accepts: canonical decimals whose value fits u32.
pub open spec fn parse_u32_ok(s: Seq<char>) -> bool {
    is_canonical_dec(s) && dec_value(s) <= u32::MAX
}

// ---------------------------------------------------------------------------
// Timestamps.
// ---------------------------------------------------------------------------
/// Bounds on the timestamps the calendar conversion is relied on to accept,
/// in seconds: about 253,000 years either side of the epoch, well within the
/// converter's own range.
pub const TIMESTAMP_SECS_MIN: i64 = -8_000_000_000_000;

pub const TIMESTAMP_SECS_MAX: i64 = 8_000_000_000_000;
pub open spec fn pad2_text(n: nat) -> Seq<char> {
    if n < 10 {
        seq!['0'] + dec_str(n)
    } else {
        dec_str(n)
    }
}

pub open spec fn year_digits(n: nat) -> Seq<char> {
    if n < 10 {
        seq!['0', '0', '0'] + dec_str(n)
    } else if n < 100 {
        seq!['0', '0'] + dec_str(n)
    } else if n < 1000 {
        seq!['0'] + dec_str(n)
    } else {
        dec_str(n)
    }
}

pub open spec fn year_text(y: int) -> Seq<char> {
    if y < 0 {
        seq!['-'] + year_digits((-y) as nat)
    } else {
        year_digits(y as nat)
    }
}

/// A timestamp in `DD.MM.YYYY HH:MM:SS` form.
pub open spec fn timestamp_text(p: TimeParts) -> Seq<char> {
    pad2_text(p.day as nat) + "."@ + pad2_text(p.month as nat) + "."@ + year_text(p.year as int)
        + " "@ + pad2_text(p.hour as nat) + ":"@ + pad2_text(p.minute as nat) + ":"@ + pad2_text(
        p.second as nat,
    )
}

pub open spec fn valid_time_parts(p: TimeParts) -> bool {
    1 <= p.month <= 12 && 1 <= p.day <= 31 && p.hour < 24 && p.minute < 60 && p.second < 60
}

fn pad2(n: u64) -> (r: String)
    ensures
        r@ == pad2_text(n as nat),
{
    if n < 10 {
        let mut r = String::new();
        r.push('0');
        let d = crate::text::u64_to_dec(n);
        r.append(d.as_str());
        proof {
            assert(r@ =~= pad2_text(n as nat));
        }
        r
    } else {
        crate::text::u64_to_dec(n)
    }
}

fn year4(y: i32) -> (r: String)
    ensures
        r@ == year_text(y as int),
{
    let mut r = String::new();
    let n: u64 = if y < 0 {
        r.push('-');
        if y == i32::MIN {
            2147483648u64
        } else {
            (-y) as u64
        }
    } else {
        y as u64
    };
    if n < 10 {
        r.push('0');
        r.push('0');
        r.push('0');
    } else if n < 100 {
        r.push('0');
        r.push('0');
    } else if n < 1000 {
        r.push('0');
    }
    let d = crate::text::u64_to_dec(n);
    r.append(d.as_str());
    proof {
        assert(r@ =~= year_text(y as int));
    }
    r
}

/// Renders a split timestamp as `DD.MM.YYYY HH:MM:SS`.
pub fn timestamp_text_of(parts: &TimeParts) -> (r: String)
    ensures
        r@ == timestamp_text(*parts),
{
    let mut r = pad2(parts.day as u64);
    r.append(".");
    let m = pad2(parts.month as u64);
    r.append(m.as_str());
    r.append(".");
    let y = year4(parts.year);
    r.append(y.as_str());
    r.append(" ");
    let h = pad2(parts.hour as u64);
    r.append(h.as_str());
    r.append(":");
    let mi = pad2(parts.minute as u64);
    r.append(mi.as_str());
    r.append(":");
    let sec = pad2(parts.second as u64);
    r.append(sec.as_str());
    r
}

// ---------------------------------------------------------------------------
// Store specs.
// ---------------------------------------------------------------------------
pub open spec fn named_projects_view(xs: Seq<(String, FlowProject)>) -> Seq<
    (Seq<char>, FlowProjectV),
> {
    xs.map_values(|p: (String, FlowProject)| (p.0@, p.1@))
}

/// The registry with the first entry of the given name removed.
pub open spec fn assoc_remove_first<V>(entries: Seq<(Seq<char>, V)>, key: Seq<char>) -> Seq<
    (Seq<char>, V),
>
    decreases entries.len(),
{
    if entries.len() == 0 {
        entries
    } else if entries[0].0 == key {
        entries.drop_first()
    } else {
        seq![entries[0]] + assoc_remove_first(entries.drop_first(), key)
    }
}

/// The registry with the first entry of the given name carrying a new flow.
pub open spec fn projects_update_flow(
    entries: Seq<(Seq<char>, FlowProjectV)>,
    key: Seq<char>,
    flow: FlowModelV,
) -> Seq<(Seq<char>, FlowProjectV)>
    decreases entries.len(),
{
    if entries.len() == 0 {
        entries
    } else if entries[0].0 == key {
        seq![
            (
                entries[0].0,
                FlowProjectV {
                    name: entries[0].1.name,
                    version: entries[0].1.version,
                    packages: entries[0].1.packages,
                    flow: flow,
                },
            ),
        ] + entries.drop_first()
    } else {
        seq![entries[0]] + projects_update_flow(entries.drop_first(), key, flow)
    }
}

pub open spec fn not_exists_message(project_name: Seq<char>) -> Seq<char> {
    project_name + " does not exist!"@
}

pub open spec fn bad_build_type_message(build_type: Seq<char>) -> Seq<char> {
    build_type + " is not an allowed build_type"@
}

/// The folder a project lives in.
pub open spec fn project_dir_text(folder: Seq<char>, name: Seq<char>) -> Seq<char> {
    folder + "/"@ + name
}

/// Where a native build's shared library may land: both naming conventions
/// with every platform extension, under the debug or release profile.
pub open spec fn executable_candidates(
    folder: Seq<char>,
    name: Seq<char>,
    release: bool,
) -> Seq<Seq<char>> {
    let base = folder + "/"@ + name + "/target/"@ + (if release {
        "release"@
    } else {
        "debug"@
    });
    seq![
        base + "/"@ + name + ".so"@,
        base + "/"@ + name + ".dylib"@,
        base + "/"@ + name + ".dll"@,
        base + "/lib"@ + name + ".so"@,
        base + "/lib"@ + name + ".dylib"@,
        base + "/lib"@ + name + ".dll"@,
    ]
}

// ---------------------------------------------------------------------------
// The project store.
// ---------------------------------------------------------------------------
pub struct FlowProjectManager {
    pub config: FlowProjectManagerConfig,
    pub projects: Vec<(String, FlowProject)>,
}

impl FlowProjectManager {
    pub fn new(config: FlowProjectManagerConfig) -> (r: Self)
        ensures
            r.config == config,
            named_projects_view(r.projects@) == Seq::<(Seq<char>, FlowProjectV)>::empty(),
    {
        let r = Self { config, projects: Vec::new() };
        proof {
            assert(named_projects_view(r.projects@) =~= Seq::<(Seq<char>, FlowProjectV)>::empty());
        }
        r
    }

    /// Replaces the registry with the projects read back from disk, keyed by
    /// their folder names.
    pub fn load_projects(&mut self, entries: Vec<(String, FlowProject)>)
        ensures
            final(self).config == old(self).config,
            final(self).projects == entries,
    {
        self.projects = entries;
    }

    pub fn get_project<'a>(&'a self, name: &str) -> (r: Option<&'a FlowProject>)
        ensures
            match r {
                Option::Some(p) => assoc_get(named_projects_view(self.projects@), name@)
                    == Option::Some(p@),
                Option::None => assoc_get(named_projects_view(self.projects@), name@) is None,
            },
    {
        let ghost all = named_projects_view(self.projects@);
        proof {
            assert(all.skip(0) =~= all);
        }
        let mut i: usize = 0;
        while i < self.projects.len()
            invariant
                i <= self.projects@.len(),
                all == named_projects_view(self.projects@),
                all.len() == self.projects@.len(),
                assoc_get(all, name@) == assoc_get(all.skip(i as int), name@),
            decreases self.projects@.len() - i,
        {
            proof {
                assert(all.skip(i as int)[0] == all[i as int]);
                assert(all.skip(i as int).drop_first() =~= all.skip(i + 1));
            }
            if string_eq_str(&self.projects[i].0, name) {
                return Option::Some(&self.projects[i].1);
            }
            i = i + 1;
        }
        proof {
            assert(all.skip(self.projects@.len() as int) =~= Seq::<
                (Seq<char>, FlowProjectV),
            >::empty());
        }
        Option::None
    }

    /// A copy of every registered project, in registration order.
    pub fn list_projects(&self) -> (r: Vec<FlowProject>)
        ensures
            r@.len() == self.projects@.len(),
            forall|j: int|
                0 <= j < r@.len() ==> r@[j]@ == named_projects_view(self.projects@)[j].1,
    {
        let mut r: Vec<FlowProject> = Vec::new();
        let mut i: usize = 0;
        while i < self.projects.len()
            invariant
                i <= self.projects@.len(),
                r@.len() == i,
                forall|j: int| 0 <= j < i ==> r@[j]@ == self.projects@[j].1@,
            decreases self.projects@.len() - i,
        {
            r.push(self.projects[i].1.clone());
            i = i + 1;
        }
        r
    }

    /// Creating is idempotent on the project name: an existing project is
    /// returned unchanged and nothing is materialized again; a new one is
    /// registered and its four files' contents are handed back for writing.
    /// On an emission failure nothing is registered.
    pub fn create_flow_project(
        &mut self,
        flow_project: FlowProject,
        package_manager: &PackageManager,
    ) -> (r: Result<(FlowProject, Option<ProjectFiles>), EmitError>)
        ensures
            final(self).config == old(self).config,
            ({
                let pv = named_projects_view(old(self).projects@);
                let new_pv = named_projects_view(final(self).projects@);
                let idx = crate::ext::guarded_render(
                    index_template_text(),
                    index_data_map(flow_project@.name, flow_project@.version),
                );
                let body = init_body_text(
                    flow_project@.flow,
                    package_manager@,
                    EMIT_RECURSION_LIMIT as nat,
                );
                match r {
                    Result::Ok((p, files)) => if assoc_has(pv, flow_project@.name) {
                        &&& new_pv == pv
                        &&& assoc_get(pv, flow_project@.name) == Option::Some(p@)
                        &&& files is None
                    } else {
                        &&& new_pv == pv.push((flow_project@.name, flow_project@))
                        &&& p@ == flow_project@
                        &&& files matches Option::Some(f) && f.cargo_toml@ == cargo_toml_text(
                            flow_project@,
                            views_of(old(self).config.builtin_dependencies@),
                        ) && idx == Option::Some(f.index_html@) && (body matches Result::Ok(b)
                            && b == f.lib_rs_body@)
                    },
                    Result::Err(e) => {
                        &&& new_pv == pv
                        &&& !assoc_has(pv, flow_project@.name)
                        &&& ((idx is None && e@ == EmitErrorV::Template) || (idx is Some
                            && body == Result::<Seq<char>, EmitErrorV>::Err(e@)))
                    },
                }
            }),
    {
        match self.get_project(flow_project.name.as_str()) {
            Option::Some(existing) => {
                return Result::Ok((existing.clone(), Option::None));
            },
            Option::None => {},
        }
        let cargo_toml = self.create_cargo_toml_content(&flow_project);
        let index_html = match self.create_index_html_content(&flow_project) {
            Result::Ok(content) => content,
            Result::Err(e) => {
                return Result::Err(e);
            },
        };
        let emitter = StandardCodeEmitter {  };
        let lib_rs_body = match emitter.emit_init_function_body(
            &flow_project.flow,
            package_manager,
        ) {
            Result::Ok(content) => content,
            Result::Err(e) => {
                return Result::Err(e);
            },
        };
        let ghost pv = named_projects_view(self.projects@);
        self.projects.push((flow_project.name.clone(), flow_project.clone()));
        proof {
            assert(named_projects_view(self.projects@) =~= pv.push(
                (flow_project@.name, flow_project@),
            ));
        }
        Result::Ok(
            (flow_project, Option::Some(ProjectFiles { cargo_toml, index_html, lib_rs_body })),
        )
    }

    /// One dependency line of the generated manifest.
    pub fn create_project_dependencies(&self, p: &FlowPackage) -> (r: String)
        ensures
            r@ == dependency_line_text(p@),
    {
        match &p.path {
            Option::Some(path) => {
                let mut r = p.name.clone();
                r.append(" = {path = \"");
                r.append(path.as_str());
                r.append("\"}");
                r
            },
            Option::None => match &p.git {
                Option::Some(git) => match &p.branch {
                    Option::Some(branch) => {
                        let mut r = p.name.clone();
                        r.append(" = {git = \"");
                        r.append(git.as_str());
                        r.append("\", branch = \"");
                        r.append(branch.as_str());
                        r.append("\"}");
                        r
                    },
                    Option::None => {
                        let mut r = p.name.clone();
                        r.append(" = {git = \"");
                        r.append(git.as_str());
                        r.append("\"}");
                        r
                    },
                },
                Option::None => {
                    let mut r = p.name.clone();
                    r.append(" = \"");
                    r.append(p.version.as_str());
                    r.append("\"");
                    r
                },
            },
        }
    }

    /// The configured built-in dependency lines, one per line.
    pub fn create_builtin_dependencies(&self) -> (r: String)
        ensures
            r@ == join_with(views_of(self.config.builtin_dependencies@), "\n"@),
    {
        crate::text::join_strings(&self.config.builtin_dependencies, "\n")
    }

    /// The generated project manifest's content.
    pub fn create_cargo_toml_content(&self, flow_project: &FlowProject) -> (r: String)
        ensures
            r@ == cargo_toml_text(flow_project@, views_of(self.config.builtin_dependencies@)),
    {
        let ghost goal = flow_project@.packages.map_values(
            |p: FlowPackageV| dependency_line_text(p),
        );
        let mut dep_lines: Vec<String> = Vec::new();
        let mut i: usize = 0;
        while i < flow_project.packages.len()
            invariant
                i <= flow_project.packages@.len(),
                goal == flow_project@.packages.map_values(
                    |p: FlowPackageV| dependency_line_text(p),
                ),
                goal.len() == flow_project.packages@.len(),
                dep_lines@.len() == i,
                forall|j: int| 0 <= j < i ==> dep_lines@[j]@ == goal[j],
            decreases flow_project.packages@.len() - i,
        {
            let line = self.create_project_dependencies(&flow_project.packages[i]);
            proof {
                assert(flow_project@.packages[i as int] == flow_project.packages@[i as int]@);
            }
            dep_lines.push(line);
            i = i + 1;
        }
        proof {
            assert(views_of(dep_lines@) =~= goal);
        }
        let mut r = "[package]\nname = \"".to_owned();
        r.append(flow_project.name.as_str());
        r.append("\" \nversion = \"");
        r.append(flow_project.version.as_str());
        r.append("\"\nedition = \"2021\"\n\n[dependencies]\n");
        let deps = crate::text::join_strings(&dep_lines, "\n");
        r.append(deps.as_str());
        r.append("\n");
        let builtin = self.create_builtin_dependencies();
        r.append(builtin.as_str());
        r.append("\n\n[lib]\ncrate-type = [\"cdylib\"]");
        r
    }

    /// The browser shell, rendered from the fixed template with the
    /// project's name and version.
    pub fn create_index_html_content(&self, flow_project: &FlowProject) -> (r: Result<
        String,
        EmitError,
    >)
        ensures
            ({
                let rendered = crate::ext::guarded_render(
                    index_template_text(),
                    index_data_map(flow_project@.name, flow_project@.version),
                );
                match r {
                    Result::Ok(content) => rendered == Option::Some(content@),
                    Result::Err(e) => e@ == EmitErrorV::Template && rendered is None,
                }
            }),
    {
        let source =
            "\n        <!DOCTYPE html>\n        <html>\n          <head>\n            <meta charset=\"UTF-8\" />\n            <title>{{project_name}} {{project_version}} </title>\n          </head>\n          <body>\n            <script type=\"module\">\n              import init, {wasm_run} from '/pkg/{{project_name}}.js'\n\n              // Always required for wasm.\n              await init();\n\n              // Running flow.\n              wasm_run();\n\n            </script>\n          </body>\n        </html>\n        ";
        let mut data: Vec<(String, String)> = Vec::new();
        proof {
            assert(named_strings_view(data@) =~= Seq::<(Seq<char>, Seq<char>)>::empty());
        }
        crate::package::push_placeholder(
            &mut data,
            "project_name".to_owned(),
            flow_project.name.clone(),
        );
        crate::package::push_placeholder(
            &mut data,
            "project_version".to_owned(),
            flow_project.version.clone(),
        );
        proof {
            assert(pairs_map(named_strings_view(data@)) =~= index_data_map(
                flow_project@.name,
                flow_project@.version,
            ));
        }
        match crate::ext::render_template_guarded(source, &data) {
            Result::Ok(content) => Result::Ok(content),
            Result::Err(message) => Result::Err(EmitError::Template { message }),
        }
    }

    /// Removes a project from the registry; the caller removes its folder
    /// first and only calls this once that removal went through.
    pub fn delete_flow_project(&mut self, project_name: &str) -> (r: Result<String, String>)
        ensures
            final(self).config == old(self).config,
            ({
                let pv = named_projects_view(old(self).projects@);
                let new_pv = named_projects_view(final(self).projects@);
                match r {
                    Result::Ok(msg) => {
                        &&& assoc_has(pv, project_name@)
                        &&& new_pv == assoc_remove_first(pv, project_name@)
                        &&& msg@ == project_name@ + " deleted."@
                    },
                    Result::Err(msg) => {
                        &&& !assoc_has(pv, project_name@)
                        &&& new_pv == pv
                        &&& msg@ == not_exists_message(project_name@)
                    },
                }
            }),
    {
        let ghost all = named_projects_view(self.projects@);
        proof {
            assert(all.skip(0) =~= all);
        }
        let mut i: usize = 0;
        while i < self.projects.len()
            invariant
                i <= self.projects@.len(),
                self.config == old(self).config,
                self.projects == old(self).projects,
                all == named_projects_view(self.projects@),
                all.len() == self.projects@.len(),
                assoc_get(all, project_name@) == assoc_get(all.skip(i as int), project_name@),
                forall|j: int| 0 <= j < i ==> all[j].0 != project_name@,
            decreases self.projects@.len() - i,
        {
            proof {
                assert(all.skip(i as int)[0] == all[i as int]);
                assert(all.skip(i as int).drop_first() =~= all.skip(i + 1));
            }
            if string_eq_str(&self.projects[i].0, project_name) {
                self.projects.remove(i);
                proof {
                    lemma_assoc_remove_at(all, project_name@, i as int);
                    assert(named_projects_view(self.projects@) =~= all.remove(i as int));
                }
                let mut msg = project_name.to_owned();
                msg.append(" deleted.");
                return Result::Ok(msg);
            }
            i = i + 1;
        }
        proof {
            assert(all.skip(self.projects@.len() as int) =~= Seq::<
                (Seq<char>, FlowProjectV),
            >::empty());
        }
        let mut msg = project_name.to_owned();
        msg.append(" does not exist!");
        Result::Err(msg)
    }

    /// Replaces a registered project's flow model; a name that is not
    /// registered is silently left alone. Persisting the updated project is
    /// the caller's business; neither the entry source nor the manifest is
    /// re-emitted here.
    pub fn update_flow_project_flow_model(&mut self, name: &str, flow: FlowModel) -> (r: Result<
        (),
        String,
    >)
        ensures
            final(self).config == old(self).config,
            r is Ok,
            named_projects_view(final(self).projects@) == projects_update_flow(
                named_projects_view(old(self).projects@),
                name@,
                flow@,
            ),
    {
        let ghost all = named_projects_view(self.projects@);
        proof {
            assert(all.skip(0) =~= all);
        }
        let mut i: usize = 0;
        while i < self.projects.len()
            invariant
                i <= self.projects@.len(),
                self.config == old(self).config,
                self.projects == old(self).projects,
                all == named_projects_view(self.projects@),
                all.len() == self.projects@.len(),
                forall|j: int| 0 <= j < i ==> all[j].0 != name@,
            decreases self.projects@.len() - i,
        {
            if string_eq_str(&self.projects[i].0, name) {
                let entry_name = self.projects[i].0.clone();
                let fp = &self.projects[i].1;
                let updated = FlowProject {
                    name: fp.name.clone(),
                    version: fp.version.clone(),
                    packages: clone_flow_packages(&fp.packages),
                    flow,
                };
                let ghost uv = updated@;
                proof {
                    assert(uv == (FlowProjectV {
                        name: all[i as int].1.name,
                        version: all[i as int].1.version,
                        packages: all[i as int].1.packages,
                        flow: flow@,
                    }));
                }
                self.projects.set(i, (entry_name, updated));
                proof {
                    lemma_projects_update_at(all, name@, flow@, i as int);
                    assert(named_projects_view(self.projects@) =~= all.update(
                        i as int,
                        (all[i as int].0, uv),
                    ));
                }
                return Result::Ok(());
            }
            i = i + 1;
        }
        proof {
            lemma_projects_update_absent(all, name@, flow@);
        }
        Result::Ok(())
    }

    // -----------------------------------------------------------------------
    // Build and run decisions.
    // -----------------------------------------------------------------------
    /// The toolchain invocation for a compile request, or the validation
    /// error: the project must exist and the build kind must be `native` or
    /// `web`.
    pub fn compile_command(&self, project_name: &str, build_type: &str, release: bool) -> (r:
        Result<CommandSpec, String>)
        ensures
            ({
                let pv = named_projects_view(self.projects@);
                match r {
                    Result::Ok(c) => {
                        &&& assoc_has(pv, project_name@)
                        &&& c.current_dir matches Option::Some(d) && d@ == project_dir_text(
                            self.config.project_folder@,
                            project_name@,
                        )
                        &&& ((build_type@ == "native"@ && c.program@ == "cargo"@ && views_of(
                            c.args@,
                        ) == (if release {
                            seq!["build"@, "--release"@]
                        } else {
                            seq!["build"@]
                        })) || (build_type@ == "web"@ && c.program@ == "wasm-pack"@ && views_of(
                            c.args@,
                        ) == (if release {
                            seq!["build"@, "--release"@, "--target"@, "web"@]
                        } else {
                            seq!["build"@, "--debug"@, "--target"@, "web"@]
                        })))
                    },
                    Result::Err(msg) => (!assoc_has(pv, project_name@) && msg@
                        == not_exists_message(project_name@)) || (assoc_has(pv, project_name@)
                        && build_type@ != "native"@ && build_type@ != "web"@ && msg@
                        == bad_build_type_message(build_type@)),
                }
            }),
    {

        match self.get_project(project_name) {
            Option::Some(_) => {},
            Option::None => {
                let mut msg = project_name.to_owned();
                msg.append(" does not exist!");
                return Result::Err(msg);
            },
        }
        let mut dir = self.config.project_folder.clone();
        dir.append("/");
        dir.append(project_name);
        if crate::text::str_eq(build_type, "native") {
            let mut args: Vec<String> = Vec::new();
            args.push("build".to_owned());
            if release {
                args.push("--release".to_owned());
            }
            proof {
                if release {
                    assert(views_of(args@) =~= seq!["build"@, "--release"@]);
                } else {
                    assert(views_of(args@) =~= seq!["build"@]);
                }
            }
            Result::Ok(
                CommandSpec {
                    program: "cargo".to_owned(),
                    args,
                    current_dir: Option::Some(dir),
                },
            )
        } else if crate::text::str_eq(build_type, "web") {
            let mut args: Vec<String> = Vec::new();
            args.push("build".to_owned());
            if release {
                args.push("--release".to_owned());
            } else {
                args.push("--debug".to_owned());
            }
            args.push("--target".to_owned());
            args.push("web".to_owned());
            proof {
                if release {
                    assert(views_of(args@) =~= seq!["build"@, "--release"@, "--target"@, "web"@]);
                } else {
                    assert(views_of(args@) =~= seq!["build"@, "--debug"@, "--target"@, "web"@]);
                }
            }
            Result::Ok(
                CommandSpec {
                    program: "wasm-pack".to_owned(),
                    args,
                    current_dir: Option::Some(dir),
                },
            )
        } else {
            let mut msg = build_type.to_owned();
            msg.append(" is not an allowed build_type");
            Result::Err(msg)
        }
    }

    /// What a native compile's captured output means: a known diagnostic
    /// marker fails the build even under a clean exit.
    pub fn compile_result_message(&self, output_text: &str) -> (r: Result<String, String>)
        ensures
            match r {
                Result::Ok(msg) => !text_contains(output_text@, "error: could not compile"@)
                    && msg@ == "Das Rust-Projekt wurde erfolgreich kompiliert."@,
                Result::Err(msg) => text_contains(output_text@, "error: could not compile"@)
                    && msg@ == output_text@,
            },
    {
        if crate::text::str_contains(output_text, "error: could not compile") {
            Result::Err(output_text.to_owned())
        } else {
            Result::Ok("Das Rust-Projekt wurde erfolgreich kompiliert.".to_owned())
        }
    }

    /// The launch command for a built artifact: the runner binary for a
    /// native build, a local static server rooted in the artifact directory
    /// for a web build.
    pub fn run_command(
        &self,
        build_type: &str,
        release: bool,
        artifact_path: &String,
    ) -> (r: Result<CommandSpec, String>)
        ensures
            match r {
                Result::Ok(c) => (build_type@ == "native"@ && c.program@ == (if release {
                    "target/release/runner_main"@
                } else {
                    "target/debug/runner_main"@
                }) && views_of(c.args@) == seq!["--flow"@, artifact_path@] && c.current_dir
                    is None) || (build_type@ == "web"@ && c.program@ == "python"@ && views_of(
                    c.args@,
                ) == seq!["-m"@, "http.server"@] && (c.current_dir matches Option::Some(d) && d@
                    == artifact_path@)),
                Result::Err(msg) => build_type@ != "native"@ && build_type@ != "web"@ && msg@
                    == bad_build_type_message(build_type@),
            },
    {

        if crate::text::str_eq(build_type, "native") {
            let program = if release {
                "target/release/runner_main".to_owned()
            } else {
                "target/debug/runner_main".to_owned()
            };
            let mut args: Vec<String> = Vec::new();
            args.push("--flow".to_owned());
            args.push(artifact_path.clone());
            proof {
                assert(views_of(args@) =~= seq!["--flow"@, artifact_path@]);
            }
            Result::Ok(CommandSpec { program, args, current_dir: Option::None })
        } else if crate::text::str_eq(build_type, "web") {
            let mut args: Vec<String> = Vec::new();
            args.push("-m".to_owned());
            args.push("http.server".to_owned());
            proof {
                assert(views_of(args@) =~= seq!["-m"@, "http.server"@]);
            }
            Result::Ok(
                CommandSpec {
                    program: "python".to_owned(),
                    args,
                    current_dir: Option::Some(artifact_path.clone()),
                },
            )
        } else {
            let mut msg = build_type.to_owned();
            msg.append(" is not an allowed build_type");
            Result::Err(msg)
        }
    }

    /// The paths a native build's artifact may stand under, in probing
    /// order.
    pub fn executable_candidate_paths(&self, project_name: &str, release: bool) -> (r: Vec<String>)
        ensures
            views_of(r@) == executable_candidates(
                self.config.project_folder@,
                project_name@,
                release,
            ),
    {
        let mut base = self.config.project_folder.clone();
        base.append("/");
        base.append(project_name);
        base.append("/target/");
        if release {
            base.append("release");
        } else {
            base.append("debug");
        }
        let mut r: Vec<String> = Vec::new();
        let mut p0 = base.clone();
        p0.append("/");
        p0.append(project_name);
        p0.append(".so");
        r.push(p0);
        let mut p1 = base.clone();
        p1.append("/");
        p1.append(project_name);
        p1.append(".dylib");
        r.push(p1);
        let mut p2 = base.clone();
        p2.append("/");
        p2.append(project_name);
        p2.append(".dll");
        r.push(p2);
        let mut p3 = base.clone();
        p3.append("/lib");
        p3.append(project_name);
        p3.append(".so");
        r.push(p3);
        let mut p4 = base.clone();
        p4.append("/lib");
        p4.append(project_name);
        p4.append(".dylib");
        r.push(p4);
        let mut p5 = base.clone();
        p5.append("/lib");
        p5.append(project_name);
        p5.append(".dll");
        r.push(p5);
        proof {
            assert(views_of(r@) =~= executable_candidates(
                self.config.project_folder@,
                project_name@,
                release,
            ));
        }
        r
    }

    /// The directory a web build is served from.
    pub fn project_dir_path(&self, project_name: &str) -> (r: String)
        ensures
            r@ == project_dir_text(self.config.project_folder@, project_name@),
    {
        let mut r = self.config.project_folder.clone();
        r.append("/");
        r.append(project_name);
        r
    }

    /// Checks a last-compile request: the project must exist and the build
    /// kind must be known; on success says whether the web artifact is
    /// wanted.
    pub fn last_compile_validate(&self, project_name: &str, build_type: &str) -> (r: Result<
        bool,
        String,
    >)
        ensures
            ({
                let pv = named_projects_view(self.projects@);
                match r {
                    Result::Ok(is_wasm) => {
                        &&& assoc_has(pv, project_name@)
                        &&& ((build_type@ == "native"@ && !is_wasm) || (build_type@ == "web"@
                            && is_wasm))
                    },
                    Result::Err(msg) => (!assoc_has(pv, project_name@) && msg@
                        == not_exists_message(project_name@)) || (assoc_has(pv, project_name@)
                        && build_type@ != "native"@ && build_type@ != "web"@ && msg@
                        == bad_build_type_message(build_type@)),
                }
            }),
    {

        match self.get_project(project_name) {
            Option::Some(_) => {},
            Option::None => {
                let mut msg = project_name.to_owned();
                msg.append(" does not exist!");
                return Result::Err(msg);
            },
        }
        if crate::text::str_eq(build_type, "native") {
            Result::Ok(false)
        } else if crate::text::str_eq(build_type, "web") {
            Result::Ok(true)
        } else {
            let mut msg = build_type.to_owned();
            msg.append(" is not an allowed build_type");
            Result::Err(msg)
        }
    }

    /// The error reported when no built artifact could be found.
    pub fn missing_executable_message(&self, project_name: &str, wasm: bool) -> (r: String)
        ensures
            r@ == "Couldn't find path to executable for project "@ + project_name@
                + " with build type "@ + (if wasm {
                "WASM"@
            } else {
                "CARGO"@
            }),
    {
        let mut r = "Couldn't find path to executable for project ".to_owned();
        r.append(project_name);
        r.append(" with build type ");
        if wasm {
            r.append("WASM");
        } else {
            r.append("CARGO");
        }
        r
    }

    /// The body answering a last-compile request.
    pub fn last_compile_response(&self, formatted_time: &str) -> (r: String)
        ensures
            r@ == "{\"modified_time\": \""@ + formatted_time@ + "\"}"@,
    {
        let mut r = "{\"modified_time\": \"".to_owned();
        r.append(formatted_time);
        r.append("\"}");
        r
    }

    /// Formats a file's modification time in local calendar time; a
    /// timestamp out of range reads `Invalid Timestamp`. Whatever the
    /// machine's time zone yields, the result is either that fixed text or a
    /// well-formed `DD.MM.YYYY HH:MM:SS` rendering, and for any timestamp
    /// within the conversion range it is the latter.
    pub fn format_timestamp(timestamp_secs: i64) -> (r: String)
        ensures
            r@ == "Invalid Timestamp"@ || (exists|p: TimeParts|
                valid_time_parts(p) && r@ == timestamp_text(p)),
            TIMESTAMP_SECS_MIN <= timestamp_secs <= TIMESTAMP_SECS_MAX ==> (exists|p: TimeParts|
                valid_time_parts(p) && r@ == timestamp_text(p)),
    {
        match crate::ext::local_time_parts(timestamp_secs) {
            Option::Some(parts) => {
                let r = timestamp_text_of(&parts);
                proof {
                    assert(valid_time_parts(parts) && r@ == timestamp_text(parts));
                }
                r
            },
            Option::None => "Invalid Timestamp".to_owned(),
        }
    }

    /// Parses a client-supplied process id: a canonical decimal that fits in
    /// an unsigned 32-bit integer, and nothing else.
    pub fn convert_to_process_id(process_id: String) -> (r: Result<u32, String>)
        ensures
            match r {
                Result::Ok(v) => parse_u32_ok(process_id@) && v as int == dec_value(process_id@),
                Result::Err(msg) => !parse_u32_ok(process_id@) && msg@
                    == "supplied process_id wasn't of type u32"@,
            },
    {
        let s = process_id.as_str();
        let len = s.unicode_len();
        let ghost sv = process_id@;
        if len == 0 {
            return Result::Err("supplied process_id wasn't of type u32".to_owned());
        }
        if len > 1 && s.get_char(0) == '0' {
            return Result::Err("supplied process_id wasn't of type u32".to_owned());
        }
        let mut acc: u64 = 0;
        let mut i: usize = 0;
        proof {
            assert(sv.take(0) =~= Seq::<char>::empty());
        }
        while i < len
            invariant
                s@ == sv,
                sv == process_id@,
                len == sv.len(),
                len >= 1,
                len > 1 ==> sv[0] != '0',
                i <= len,
                forall|j: int| 0 <= j < i ==> is_dec_digit(sv[j]),
                acc <= u32::MAX ==> acc as int == dec_value(sv.take(i as int)),
                acc > u32::MAX ==> dec_value(sv.take(i as int)) > u32::MAX,
                acc <= 0xa_0000_0000u64,
                dec_value(sv.take(i as int)) >= 0,
            decreases len - i,
        {
            let c = s.get_char(i);
            let code = c as u32;
            if code < 48 || code > 57 {
                proof {
                    assert(!is_dec_digit(sv[i as int]));
                }
                return Result::Err("supplied process_id wasn't of type u32".to_owned());
            }
            let d = (code - 48) as u64;
            proof {
                assert(sv.take(i + 1).drop_last() =~= sv.take(i as int));
                assert(sv.take(i + 1).last() == sv[i as int]);
                assert(d as int == sv[i as int] as int - '0' as int);
            }
            if acc <= 0xffff_ffffu64 {
                acc = acc * 10 + d;
            }
            i = i + 1;
        }
        proof {
            assert(sv.take(len as int) =~= sv);
        }
        if acc <= 0xffff_ffffu64 {
            Result::Ok(acc as u32)
        } else {
            Result::Err("supplied process_id wasn't of type u32".to_owned())
        }
    }
}

fn clone_flow_packages(ps: &Vec<FlowPackage>) -> (r: Vec<FlowPackage>)
    ensures
        flow_packages_view(r@) == flow_packages_view(ps@),
{
    let mut r: Vec<FlowPackage> = Vec::new();
    let mut i: usize = 0;
    while i < ps.len()
        invariant
            i <= ps@.len(),
            r@.len() == i,
            forall|j: int| 0 <= j < i ==> r@[j]@ == ps@[j]@,
        decreases ps@.len() - i,
    {
        r.push(ps[i].clone());
        i = i + 1;
    }
    proof {
        assert(flow_packages_view(r@) =~= flow_packages_view(ps@));
    }
    r
}

/// Creating a project is idempotent: once a fresh project is registered, a
/// second creation of the same name finds it and — by `create_flow_project`'s
/// contract — returns it unchanged without touching the store again.
pub proof fn lemma_create_idempotent(projects: Seq<(Seq<char>, FlowProjectV)>, p: FlowProjectV)
    requires
        !assoc_has(projects, p.name),
    ensures
        assoc_has(projects.push((p.name, p)), p.name),
        assoc_get(projects.push((p.name, p)), p.name) == Option::Some(p),
{
    crate::package::lemma_assoc_get_push_fresh(projects, p.name, p);
}

/// The store-level round trip: a project created under a fresh name and
/// loaded back into a fresh store under its folder name is found unchanged.
pub proof fn lemma_store_round_trip(entries: Seq<(Seq<char>, FlowProjectV)>, p: FlowProjectV)
    requires
        !assoc_has(entries, p.name),
    ensures
        assoc_get(entries.push((p.name, p)), p.name) == Option::Some(p),
{
    crate::package::lemma_assoc_get_push_fresh(entries, p.name, p);
}

/// Removing the first entry with a key that first occurs at `i` drops
/// exactly the element at `i`.
proof fn lemma_assoc_remove_at<V>(entries: Seq<(Seq<char>, V)>, key: Seq<char>, i: int)
    requires
        0 <= i < entries.len(),
        entries[i].0 == key,
        forall|j: int| 0 <= j < i ==> entries[j].0 != key,
    ensures
        assoc_remove_first(entries, key) == entries.remove(i),
    decreases i,
{
    if i == 0 {
        assert(assoc_remove_first(entries, key) =~= entries.remove(0));
    } else {
        assert(forall|j: int|
            0 <= j < i - 1 ==> entries.drop_first()[j].0 == entries[j + 1].0 && entries[j
                + 1].0 != key);
        lemma_assoc_remove_at(entries.drop_first(), key, i - 1);
        assert(assoc_remove_first(entries, key) =~= entries.remove(i));
    }
}

/// Updating the flow of a key that first occurs at `i` rewrites exactly the
/// element at `i`.
proof fn lemma_projects_update_at(
    entries: Seq<(Seq<char>, FlowProjectV)>,
    key: Seq<char>,
    flow: FlowModelV,
    i: int,
)
    requires
        0 <= i < entries.len(),
        entries[i].0 == key,
        forall|j: int| 0 <= j < i ==> entries[j].0 != key,
    ensures
        projects_update_flow(entries, key, flow) == entries.update(
            i,
            (
                entries[i].0,
                FlowProjectV {
                    name: entries[i].1.name,
                    version: entries[i].1.version,
                    packages: entries[i].1.packages,
                    flow: flow,
                },
            ),
        ),
    decreases i,
{
    if i == 0 {
        assert(projects_update_flow(entries, key, flow) =~= entries.update(
            0,
            (
                entries[0].0,
                FlowProjectV {
                    name: entries[0].1.name,
                    version: entries[0].1.version,
                    packages: entries[0].1.packages,
                    flow: flow,
                },
            ),
        ));
    } else {
        assert(forall|j: int|
            0 <= j < i - 1 ==> entries.drop_first()[j].0 == entries[j + 1].0 && entries[j
                + 1].0 != key);
        lemma_projects_update_at(entries.drop_first(), key, flow, i - 1);
        assert(projects_update_flow(entries, key, flow) =~= entries.update(
            i,
            (
                entries[i].0,
                FlowProjectV {
                    name: entries[i].1.name,
                    version: entries[i].1.version,
                    packages: entries[i].1.packages,
                    flow: flow,
                },
            ),
        ));
    }
}

/// Updating a key that no entry carries changes nothing.
proof fn lemma_projects_update_absent(
    entries: Seq<(Seq<char>, FlowProjectV)>,
    key: Seq<char>,
    flow: FlowModelV,
)
    requires
        forall|j: int| 0 <= j < entries.len() ==> entries[j].0 != key,
    ensures
        projects_update_flow(entries, key, flow) == entries,
    decreases entries.len(),
{
    if entries.len() > 0 {
        assert(forall|j: int|
            0 <= j < entries.len() - 1 ==> entries.drop_first()[j].0 == entries[j + 1].0
                && entries[j + 1].0 != key);
        lemma_projects_update_absent(entries.drop_first(), key, flow);
        assert(projects_update_flow(entries, key, flow) =~= entries);
    } else {
        assert(projects_update_flow(entries, key, flow) =~= entries);
    }
}

} // verus!
