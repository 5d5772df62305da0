use cargo_workspace::builder::{BuildWarning, WorkspaceError};
use cargo_workspace::edition::Edition;
use cargo_workspace::extern_resources::ExternResources;
use cargo_workspace::meta::{CargoMetadata, MetaPackage, MetaTarget, ResolveDep, ResolveNode};
use cargo_workspace::workspace::{CargoWorkspace, TargetKind};

fn pkg(id: &str, name: &str, version: &str, targets: Vec<MetaTarget>) -> MetaPackage {
    MetaPackage {
        id: id.to_string(),
        name: name.to_string(),
        version: version.to_string(),
        edition: "2018".to_string(),
        manifest_path: format!("/ws/{}/Cargo.toml", name),
        targets,
    }
}

fn tgt(name: &str, labels: &[&str]) -> MetaTarget {
    MetaTarget {
        name: name.to_string(),
        kind: labels.iter().map(|s| s.to_string()).collect(),
        src_path: format!("/ws/src/{}.rs", name),
    }
}

fn node(id: &str, deps: &[(&str, &str)], features: &[&str]) -> ResolveNode {
    ResolveNode {
        id: id.to_string(),
        features: features.iter().map(|s| s.to_string()).collect(),
        deps: deps
            .iter()
            .map(|(pkg, alias)| ResolveDep { pkg: pkg.to_string(), name: alias.to_string() })
            .collect(),
    }
}

fn no_resources() -> ExternResources {
    ExternResources::new()
}

/// Package `A@1.0` (target `bin`) depending on `B@2.0` (target `lib`) under
/// the alias `b`.
fn two_package_fixture() -> CargoMetadata {
    CargoMetadata {
        packages: vec![
            pkg("id-a", "A", "1.0", vec![tgt("A", &["bin"])]),
            pkg("id-b", "B", "2.0", vec![tgt("B", &["lib"])]),
        ],
        workspace_members: vec!["id-a".to_string()],
        nodes: vec![node("id-a", &[("id-b", "b")], &[]), node("id-b", &[], &[])],
        workspace_root: "/ws".to_string(),
    }
}

#[test]
fn example_scenario_two_packages() {
    let meta = two_package_fixture();
    let (w, warns) = CargoWorkspace::from_cargo_metadata(&meta, &no_resources()).unwrap();
    assert!(warns.is_empty());
    assert_eq!(w.package_count(), 2);
    let ids = w.packages();
    let a = w.package(ids[0]);
    let b = w.package(ids[1]);
    assert_eq!(a.name, "A");
    assert_eq!(b.name, "B");
    assert_eq!(a.dependencies.len(), 1);
    assert_eq!(a.dependencies[0].pkg, ids[1]);
    assert_eq!(a.dependencies[0].name, "b");
    assert!(b.dependencies.is_empty());
    assert_eq!(a.targets.len(), 1);
    let a_target = w.target(a.targets[0]);
    assert_eq!(a_target.kind, TargetKind::Bin);
    assert_eq!(a_target.package, ids[0]);
    assert!(!a_target.is_proc_macro);
    assert!(a.is_member);
    assert!(!b.is_member);
    assert_eq!(a.edition, Edition::Edition2018);
    assert_eq!(w.workspace_root(), "/ws");
}

#[test]
fn every_resolved_edge_present_once() {
    let meta = CargoMetadata {
        packages: vec![
            pkg("id-a", "a", "1.0", vec![]),
            pkg("id-b", "b", "1.0", vec![]),
            pkg("id-c", "c", "1.0", vec![]),
        ],
        workspace_members: vec![],
        nodes: vec![
            node("id-a", &[("id-b", "b"), ("id-c", "c")], &[]),
            node("id-b", &[("id-c", "c")], &[]),
            node("id-c", &[], &[]),
        ],
        workspace_root: "/ws".to_string(),
    };
    let (w, warns) = CargoWorkspace::from_cargo_metadata(&meta, &no_resources()).unwrap();
    assert!(warns.is_empty());
    assert_eq!(w.package_count(), 3);
    let ids = w.packages();
    let a = w.package(ids[0]);
    assert_eq!(a.dependencies.len(), 2);
    assert_eq!(a.dependencies[0].pkg, ids[1]);
    assert_eq!(a.dependencies[0].name, "b");
    assert_eq!(a.dependencies[1].pkg, ids[2]);
    assert_eq!(a.dependencies[1].name, "c");
    assert_eq!(w.package(ids[1]).dependencies.len(), 1);
    assert!(w.package(ids[2]).dependencies.is_empty());
}

#[test]
fn unresolved_node_skipped_with_warning() {
    let mut meta = two_package_fixture();
    meta.nodes.push(node("id-ghost", &[("id-a", "a")], &[]));
    let (w, warns) = CargoWorkspace::from_cargo_metadata(&meta, &no_resources()).unwrap();
    assert_eq!(w.package_count(), 2);
    assert_eq!(warns, vec![BuildWarning::UnresolvedNode("id-ghost".to_string())]);
    // the ghost node's edge is nowhere in the graph
    let ids = w.packages();
    assert_eq!(w.package(ids[0]).dependencies.len(), 1);
    assert!(w.package(ids[1]).dependencies.is_empty());
}

#[test]
fn unresolvable_edge_dropped_siblings_kept() {
    let mut meta = two_package_fixture();
    meta.nodes[0].deps.insert(
        0,
        ResolveDep { pkg: "id-missing".to_string(), name: "m".to_string() },
    );
    let (w, warns) = CargoWorkspace::from_cargo_metadata(&meta, &no_resources()).unwrap();
    assert_eq!(warns, vec![BuildWarning::UnresolvedDep("id-missing".to_string())]);
    let ids = w.packages();
    let a = w.package(ids[0]);
    assert_eq!(a.dependencies.len(), 1);
    assert_eq!(a.dependencies[0].pkg, ids[1]);
    assert_eq!(a.dependencies[0].name, "b");
}

#[test]
fn node_features_accumulate_on_source_package() {
    let mut meta = two_package_fixture();
    meta.nodes[0].features = vec!["default".to_string(), "extra".to_string()];
    let (w, _) = CargoWorkspace::from_cargo_metadata(&meta, &no_resources()).unwrap();
    let ids = w.packages();
    assert_eq!(w.package(ids[0]).features, vec!["default".to_string(), "extra".to_string()]);
    assert!(w.package(ids[1]).features.is_empty());
}

#[test]
fn unparsable_edition_is_fatal_with_first_offender() {
    let mut meta = two_package_fixture();
    meta.packages[0].edition = "20XX".to_string();
    meta.packages[1].edition = "20YY".to_string();
    let err = CargoWorkspace::from_cargo_metadata(&meta, &no_resources()).unwrap_err();
    assert_eq!(err, WorkspaceError::EditionParse("20XX".to_string()));
}

#[test]
fn proc_macro_target_marked() {
    let meta = CargoMetadata {
        packages: vec![pkg("id-m", "m", "0.1", vec![tgt("m", &["proc-macro"])])],
        workspace_members: vec![],
        nodes: vec![],
        workspace_root: "/ws".to_string(),
    };
    let (w, _) = CargoWorkspace::from_cargo_metadata(&meta, &no_resources()).unwrap();
    let ids = w.packages();
    let t = w.target(w.package(ids[0]).targets[0]);
    assert!(t.is_proc_macro);
    assert_eq!(t.kind, TargetKind::Lib);
}

#[test]
fn building_twice_yields_identical_graphs() {
    let meta = two_package_fixture();
    let (w1, warns1) = CargoWorkspace::from_cargo_metadata(&meta, &no_resources()).unwrap();
    let (w2, warns2) = CargoWorkspace::from_cargo_metadata(&meta, &no_resources()).unwrap();
    assert_eq!(warns1, warns2);
    assert_eq!(w1.package_count(), w2.package_count());
    let ids1 = w1.packages();
    let ids2 = w2.packages();
    for (i1, i2) in ids1.iter().zip(ids2.iter()) {
        let p1 = w1.package(*i1);
        let p2 = w2.package(*i2);
        assert_eq!(p1.name, p2.name);
        assert_eq!(p1.version, p2.version);
        assert_eq!(p1.features, p2.features);
        assert_eq!(p1.dependencies.len(), p2.dependencies.len());
        for (d1, d2) in p1.dependencies.iter().zip(p2.dependencies.iter()) {
            assert_eq!(d1.pkg, d2.pkg);
            assert_eq!(d1.name, d2.name);
        }
    }
}

#[test]
fn package_flag_disambiguates_shared_names() {
    let meta = CargoMetadata {
        packages: vec![
            pkg("id-x1", "x", "1.0", vec![]),
            pkg("id-x2", "x", "2.0", vec![]),
            pkg("id-y", "y", "1.0", vec![]),
        ],
        workspace_members: vec![],
        nodes: vec![],
        workspace_root: "/ws".to_string(),
    };
    let (w, _) = CargoWorkspace::from_cargo_metadata(&meta, &no_resources()).unwrap();
    let ids = w.packages();
    assert_eq!(w.package_flag(w.package(ids[0])), "x:1.0");
    assert_eq!(w.package_flag(w.package(ids[1])), "x:2.0");
    assert_eq!(w.package_flag(w.package(ids[2])), "y");
}

#[test]
fn target_by_root_finds_first_match() {
    let meta = two_package_fixture();
    let (w, _) = CargoWorkspace::from_cargo_metadata(&meta, &no_resources()).unwrap();
    let ids = w.packages();
    let t = w.target_by_root(&"/ws/src/B.rs".to_string()).unwrap();
    assert_eq!(w.target(t).package, ids[1]);
    assert!(w.target_by_root(&"/ws/src/zzz.rs".to_string()).is_none());
}

#[test]
fn package_root_is_manifest_directory() {
    let meta = two_package_fixture();
    let (w, _) = CargoWorkspace::from_cargo_metadata(&meta, &no_resources()).unwrap();
    let ids = w.packages();
    assert_eq!(w.package(ids[0]).root(), "/ws/A");
    let solo = cargo_workspace::workspace::PackageData {
        manifest: "/Cargo.toml".to_string(),
        ..w.package(ids[0]).clone()
    };
    assert_eq!(solo.root(), "/");
}
