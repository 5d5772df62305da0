use cargo_workspace::extern_resources::{
    load_extern_resources, BuildEvent, CfgsEntry, ExternResources, PathEntry,
};

fn script_event(id: &str, out_dir: &str, cfgs: &[&str]) -> BuildEvent {
    BuildEvent::BuildScriptExecuted {
        package_id: id.to_string(),
        out_dir: out_dir.to_string(),
        cfgs: cfgs.iter().map(|s| s.to_string()).collect(),
    }
}

fn artifact_event(id: &str, kinds: &[&str], files: &[&str]) -> BuildEvent {
    BuildEvent::CompilerArtifact {
        package_id: id.to_string(),
        target_kind: kinds.iter().map(|s| s.to_string()).collect(),
        filenames: files.iter().map(|s| s.to_string()).collect(),
    }
}

#[test]
fn build_script_event_records_out_dir_and_cfgs() {
    let events = vec![script_event("id-a", "/out/a", &["feature=\"x\""])];
    let r = ExternResources::from_events(&events);
    assert_eq!(r.out_dirs.len(), 1);
    assert_eq!(r.out_dirs[0].id, "id-a");
    assert_eq!(r.out_dirs[0].path, "/out/a");
    assert_eq!(r.cfgs[0].cfgs, vec!["feature=\"x\"".to_string()]);
    assert_eq!(r.out_dir_for(&"id-a".to_string()), Some("/out/a".to_string()));
    assert_eq!(r.out_dir_for(&"id-b".to_string()), None);
}

#[test]
fn later_build_script_event_overwrites_earlier() {
    let events = vec![
        script_event("id-a", "/out/first", &["one"]),
        script_event("id-a", "/out/second", &["two"]),
    ];
    let r = ExternResources::from_events(&events);
    assert_eq!(r.out_dir_for(&"id-a".to_string()), Some("/out/second".to_string()));
    assert_eq!(r.cfgs_for(&"id-a".to_string()), Some(vec!["two".to_string()]));
}

#[test]
fn proc_macro_artifact_takes_first_dylib_and_skips_rmeta() {
    let events = vec![artifact_event(
        "id-m",
        &["proc-macro"],
        &["/t/libm.rmeta", "/t/libm.so", "/t/libm2.so"],
    )];
    let r = ExternResources::from_events(&events);
    assert_eq!(r.dylib_path_for(&"id-m".to_string()), Some("/t/libm.so".to_string()));
}

#[test]
fn non_proc_macro_artifact_ignored() {
    let events = vec![
        artifact_event("id-a", &["lib"], &["/t/liba.so"]),
        BuildEvent::Other,
    ];
    let r = ExternResources::from_events(&events);
    assert!(r.proc_dylib_paths.is_empty());
    assert!(r.out_dirs.is_empty());
    assert_eq!(r.dylib_path_for(&"id-a".to_string()), None);
}

#[test]
fn lookup_answers_last_entry() {
    let r = ExternResources {
        out_dirs: vec![
            PathEntry { id: "a".to_string(), path: "/1".to_string() },
            PathEntry { id: "b".to_string(), path: "/2".to_string() },
            PathEntry { id: "a".to_string(), path: "/3".to_string() },
        ],
        cfgs: vec![CfgsEntry { id: "a".to_string(), cfgs: vec![] }],
        proc_dylib_paths: vec![],
    };
    assert_eq!(r.out_dir_for(&"a".to_string()), Some("/3".to_string()));
    assert_eq!(r.out_dir_for(&"b".to_string()), Some("/2".to_string()));
    assert_eq!(r.cfgs_for(&"a".to_string()), Some(Vec::new()));
    assert_eq!(r.dylib_path_for(&"a".to_string()), None);
}

#[test]
fn parses_real_build_stream() {
    let script = r#"{"reason":"build-script-executed","package_id":"id-a","linked_libs":[],"linked_paths":[],"cfgs":["feature=\"x\""],"env":[],"out_dir":"/out/a"}"#;
    let artifact = r#"{"reason":"compiler-artifact","package_id":"id-m","target":{"name":"m","kind":["proc-macro"],"src_path":"/m/lib.rs"},"profile":{"opt_level":"0","debug_assertions":true,"overflow_checks":true,"test":false},"features":[],"filenames":["/t/libm.rmeta","/t/libm.so"],"executable":null,"fresh":false}"#;
    let stream = format!("{}\nnot json at all\n{}\n", script, artifact);
    let r = load_extern_resources(stream.as_bytes());
    assert_eq!(r.out_dir_for(&"id-a".to_string()), Some("/out/a".to_string()));
    assert_eq!(
        r.cfgs_for(&"id-a".to_string()),
        Some(vec!["feature=\"x\"".to_string()])
    );
    assert_eq!(r.dylib_path_for(&"id-m".to_string()), Some("/t/libm.so".to_string()));
}

#[test]
fn empty_stream_yields_empty_tables() {
    let r = load_extern_resources(b"");
    assert!(r.out_dirs.is_empty());
    assert!(r.cfgs.is_empty());
    assert!(r.proc_dylib_paths.is_empty());
}
