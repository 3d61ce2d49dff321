use flowrs_build::flow_model::FlowModel;
use flowrs_build::flow_project::{
    builtin_dependencies_default, do_formatting_default, project_json_file_name_default,
    rust_fmt_path_default, FlowPackage, FlowProject, FlowProjectManager,
    FlowProjectManagerConfig, TimeParts,
};
use flowrs_build::package_manager::PackageManager;

fn s(x: &str) -> String {
    x.to_owned()
}

fn create_test_config(path: String) -> FlowProjectManagerConfig {
    FlowProjectManagerConfig {
        project_folder: path,
        project_json_file_name: project_json_file_name_default(),
        builtin_dependencies: builtin_dependencies_default(),
        rust_fmt_path: rust_fmt_path_default(),
        do_formatting: do_formatting_default(),
    }
}

fn flow_packages() -> Vec<FlowPackage> {
    vec![
        FlowPackage {
            name: s("flowrs"),
            version: s("1.0.0"),
            path: None,
            git: Some(s("https://github.com/flow-rs/flowrs")),
            branch: Some(s("feature-project7")),
        },
        FlowPackage {
            name: s("flowrs-std"),
            version: s("1.0.0"),
            path: None,
            git: Some(s("https://github.com/flow-rs/flowrs-std")),
            branch: None,
        },
    ]
}

fn empty_flow() -> FlowModel {
    FlowModel { nodes: vec![], connections: vec![], data: s("{}") }
}

fn project(name: &str) -> FlowProject {
    FlowProject {
        name: s(name),
        version: s("1.0.0"),
        packages: flow_packages(),
        flow: empty_flow(),
    }
}

#[test]
fn load_projects_test() {
    let mut fpm = FlowProjectManager::new(create_test_config(s("tmp_test_dir_01")));
    let proj_count = fpm.projects.len();
    fpm.load_projects(vec![(s("flow_project_01"), project("flow_project_01"))]);
    assert_eq!(proj_count + 1, fpm.projects.len());
    let flow_project_opt = fpm.get_project("flow_project_01");
    assert!(!flow_project_opt.is_none());
    let flow_project = flow_project_opt.unwrap();
    assert_eq!("flow_project_01", flow_project.name);
}

#[test]
fn delete_flow_project_test() {
    let mut fpm = FlowProjectManager::new(create_test_config(s("tmp_test_dir_03")));
    let pm = PackageManager::new();
    let flow_project = project("flow_project_03");
    let create_res = fpm.create_flow_project(flow_project.clone(), &pm);
    assert!(!create_res.is_err());

    let delete_res = fpm.delete_flow_project(&flow_project.name);
    assert!(!delete_res.is_err());
    assert_eq!("flow_project_03 deleted.", delete_res.unwrap());
    assert!(fpm.get_project("flow_project_03").is_none());

    let second_delete = fpm.delete_flow_project("flow_project_03");
    assert!(second_delete.is_err());
    assert_eq!("flow_project_03 does not exist!", second_delete.unwrap_err());
}

#[test]
fn update_flow_project_test() {
    let mut fpm = FlowProjectManager::new(create_test_config(s("tmp_test_dir_04")));
    let pm = PackageManager::new();
    let flow_project = project("flow_project_03");
    let flow_project_2 = project("flow_project_02");
    let create_res = fpm.create_flow_project(flow_project.clone(), &pm);
    assert!(!create_res.is_err());
    let create_res_2 = fpm.create_flow_project(flow_project_2.clone(), &pm);
    assert!(!create_res_2.is_err());

    let update_res =
        fpm.update_flow_project_flow_model(&flow_project.name, flow_project_2.flow.clone());
    assert!(!update_res.is_err());
    let flow_project_3_opt = fpm.get_project(&flow_project.name);
    assert!(!flow_project_3_opt.is_none());
    let flow_project_3 = flow_project_3_opt.unwrap();
    assert_eq!(flow_project.name, flow_project_3.name);
    assert_eq!(flow_project.packages, flow_project_3.packages);
    assert_eq!(flow_project_2.flow, flow_project_3.flow);
}

#[test]
fn create_is_idempotent() {
    let mut fpm = FlowProjectManager::new(create_test_config(s("projects")));
    let pm = PackageManager::new();
    let p = project("p1");
    let (created, files) = fpm.create_flow_project(p.clone(), &pm).expect("first create");
    assert_eq!(p, created);
    assert!(files.is_some());
    let count_after_first = fpm.projects.len();

    let (again, files_again) = fpm.create_flow_project(p.clone(), &pm).expect("second create");
    assert_eq!(p, again);
    assert!(files_again.is_none());
    assert_eq!(count_after_first, fpm.projects.len());
}

#[test]
fn created_project_survives_a_reload() {
    let mut fpm = FlowProjectManager::new(create_test_config(s("projects")));
    let pm = PackageManager::new();
    let p = project("roundtrip");
    fpm.create_flow_project(p.clone(), &pm).expect("create");
    let stored = fpm.get_project("roundtrip").expect("stored").clone();

    let mut fresh = FlowProjectManager::new(create_test_config(s("projects")));
    fresh.load_projects(vec![(stored.name.clone(), stored.clone())]);
    assert_eq!(&p, fresh.get_project("roundtrip").expect("reloaded"));
}

#[test]
fn generated_manifest_lists_all_dependencies() {
    let fpm = FlowProjectManager::new(create_test_config(s("projects")));
    let mut p = project("manifest");
    p.packages.push(FlowPackage {
        name: s("local"),
        version: s("0.0.1"),
        path: Some(s("../local")),
        git: None,
        branch: None,
    });
    p.packages.push(FlowPackage {
        name: s("plain"),
        version: s("2.3.4"),
        path: None,
        git: None,
        branch: None,
    });
    let content = fpm.create_cargo_toml_content(&p);
    assert_eq!(
        "[package]\nname = \"manifest\" \nversion = \"1.0.0\"\nedition = \"2021\"\n\n[dependencies]\nflowrs = {git = \"https://github.com/flow-rs/flowrs\", branch = \"feature-project7\"}\nflowrs-std = {git = \"https://github.com/flow-rs/flowrs-std\"}\nlocal = {path = \"../local\"}\nplain = \"2.3.4\"\nwasm-bindgen = \"0.2.87\"\nserde_json = \"1.0.105\"\n\n[lib]\ncrate-type = [\"cdylib\"]",
        content
    );
}

#[test]
fn browser_shell_carries_name_and_version() {
    let fpm = FlowProjectManager::new(create_test_config(s("projects")));
    let p = project("shell");
    let html = fpm.create_index_html_content(&p).expect("render failed");
    assert!(html.contains("<title>shell 1.0.0 </title>"));
    assert!(html.contains("import init, {wasm_run} from '/pkg/shell.js'"));
}

#[test]
fn compile_commands_follow_the_build_kind() {
    let mut fpm = FlowProjectManager::new(create_test_config(s("projects")));
    let pm = PackageManager::new();
    fpm.create_flow_project(project("p1"), &pm).expect("create");

    let cargo = fpm.compile_command("p1", "native", false).expect("cargo command");
    assert_eq!("cargo", cargo.program);
    assert_eq!(vec![s("build")], cargo.args);
    assert_eq!(Some(s("projects/p1")), cargo.current_dir);

    let cargo_release = fpm.compile_command("p1", "native", true).expect("cargo release");
    assert_eq!(vec![s("build"), s("--release")], cargo_release.args);

    let wasm = fpm.compile_command("p1", "web", false).expect("wasm command");
    assert_eq!("wasm-pack", wasm.program);
    assert_eq!(vec![s("build"), s("--debug"), s("--target"), s("web")], wasm.args);

    let missing = fpm.compile_command("p2", "native", false).expect_err("unknown project");
    assert_eq!("p2 does not exist!", missing);
    let bad = fpm.compile_command("p1", "jvm", false).expect_err("bad kind");
    assert_eq!("jvm is not an allowed build_type", bad);
}

#[test]
fn compile_output_marker_fails_the_build() {
    let fpm = FlowProjectManager::new(create_test_config(s("projects")));
    let ok = fpm.compile_result_message("Compiling p1 v1.0.0\nFinished dev").expect("ok");
    assert_eq!("Das Rust-Projekt wurde erfolgreich kompiliert.", ok);
    let bad = fpm
        .compile_result_message("error: could not compile `p1` due to 2 previous errors")
        .expect_err("marker");
    assert!(bad.contains("could not compile"));
}

#[test]
fn run_commands_follow_the_build_kind() {
    let fpm = FlowProjectManager::new(create_test_config(s("projects")));
    let native = fpm
        .run_command("native", false, &s("projects/p1/target/debug/libp1.so"))
        .expect("native");
    assert_eq!("target/debug/runner_main", native.program);
    assert_eq!(vec![s("--flow"), s("projects/p1/target/debug/libp1.so")], native.args);
    assert!(native.current_dir.is_none());

    let web = fpm.run_command("web", false, &s("projects/p1")).expect("web");
    assert_eq!("python", web.program);
    assert_eq!(vec![s("-m"), s("http.server")], web.args);
    assert_eq!(Some(s("projects/p1")), web.current_dir);

    let bad = fpm.run_command("jvm", false, &s("x")).expect_err("bad kind");
    assert_eq!("jvm is not an allowed build_type", bad);
}

#[test]
fn artifact_candidates_cover_both_namings() {
    let fpm = FlowProjectManager::new(create_test_config(s("projects")));
    let paths = fpm.executable_candidate_paths("p1", false);
    assert_eq!(
        vec![
            s("projects/p1/target/debug/p1.so"),
            s("projects/p1/target/debug/p1.dylib"),
            s("projects/p1/target/debug/p1.dll"),
            s("projects/p1/target/debug/libp1.so"),
            s("projects/p1/target/debug/libp1.dylib"),
            s("projects/p1/target/debug/libp1.dll"),
        ],
        paths
    );
    let release = fpm.executable_candidate_paths("p1", true);
    assert_eq!("projects/p1/target/release/p1.so", release[0]);
    assert_eq!("projects/p1", fpm.project_dir_path("p1"));
}

#[test]
fn last_compile_pieces() {
    let mut fpm = FlowProjectManager::new(create_test_config(s("projects")));
    let pm = PackageManager::new();
    fpm.create_flow_project(project("p1"), &pm).expect("create");
    assert_eq!(false, fpm.last_compile_validate("p1", "native").expect("native"));
    assert_eq!(true, fpm.last_compile_validate("p1", "web").expect("web"));
    assert_eq!(
        "p9 does not exist!",
        fpm.last_compile_validate("p9", "native").expect_err("missing")
    );
    assert_eq!(
        "Couldn't find path to executable for project p1 with build type CARGO",
        fpm.missing_executable_message("p1", false)
    );
    assert_eq!(
        "Couldn't find path to executable for project p1 with build type WASM",
        fpm.missing_executable_message("p1", true)
    );
    assert_eq!(
        "{\"modified_time\": \"01.02.2003 04:05:06\"}",
        fpm.last_compile_response("01.02.2003 04:05:06")
    );
}

#[test]
fn timestamps_are_zero_padded() {
    let parts = TimeParts { year: 2021, month: 3, day: 5, hour: 7, minute: 4, second: 9 };
    assert_eq!(
        "05.03.2021 07:04:09",
        flowrs_build::flow_project::timestamp_text_of(&parts)
    );
    let early = TimeParts { year: 33, month: 12, day: 31, hour: 23, minute: 59, second: 59 };
    assert_eq!(
        "31.12.0033 23:59:59",
        flowrs_build::flow_project::timestamp_text_of(&early)
    );
}

#[test]
fn local_time_formatting_of_the_epoch() {
    let formatted = FlowProjectManager::format_timestamp(0);
    assert_ne!("Invalid Timestamp", formatted);
    assert_eq!(19, formatted.len());
    assert!(formatted.contains("1970") || formatted.contains("1969"));
}

#[test]
fn process_ids_parse_canonical_decimals_only() {
    assert_eq!(42, FlowProjectManager::convert_to_process_id(s("42")).expect("42"));
    assert_eq!(0, FlowProjectManager::convert_to_process_id(s("0")).expect("0"));
    assert_eq!(
        4294967295,
        FlowProjectManager::convert_to_process_id(s("4294967295")).expect("max")
    );
    for bad in ["", "no", "042", "-1", "4294967296", "4 2", "42x"] {
        let err = FlowProjectManager::convert_to_process_id(s(bad)).expect_err(bad);
        assert_eq!("supplied process_id wasn't of type u32", err);
    }
}

#[test]
fn emission_failure_keeps_the_store_unchanged() {
    let mut fpm = FlowProjectManager::new(create_test_config(s("projects")));
    let pm = PackageManager::new();
    let mut p = project("broken");
    p.flow.nodes.push((
        s("n"),
        flowrs_build::flow_model::NodeModel {
            node_type: s("nowhere::Missing"),
            type_parameters: vec![],
            constructor: s("New"),
        },
    ));
    let err = fpm.create_flow_project(p, &pm).expect_err("emission must fail");
    assert_eq!("Type description for 'nowhere::Missing' not found.", err.message());
    assert_eq!(0, fpm.projects.len());
}
