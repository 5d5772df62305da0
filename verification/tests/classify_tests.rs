use cargo_workspace::edition::Edition;
use cargo_workspace::paths::is_dylib;
use cargo_workspace::workspace::{CargoConfig, FeatureSelection, TargetKind};

fn kinds(labels: &[&str]) -> Vec<String> {
    labels.iter().map(|s| s.to_string()).collect()
}

#[test]
fn kind_bin() {
    assert_eq!(TargetKind::new(&kinds(&["bin"])), TargetKind::Bin);
}

#[test]
fn kind_lib() {
    assert_eq!(TargetKind::new(&kinds(&["lib"])), TargetKind::Lib);
}

#[test]
fn kind_proc_macro_is_lib() {
    assert_eq!(TargetKind::new(&kinds(&["proc-macro"])), TargetKind::Lib);
}

#[test]
fn kind_lib_variants() {
    assert_eq!(TargetKind::new(&kinds(&["rlib"])), TargetKind::Lib);
    assert_eq!(TargetKind::new(&kinds(&["dylib"])), TargetKind::Lib);
    assert_eq!(TargetKind::new(&kinds(&["staticlib"])), TargetKind::Lib);
    assert_eq!(TargetKind::new(&kinds(&["cdylib"])), TargetKind::Lib);
}

#[test]
fn kind_simple_kinds() {
    assert_eq!(TargetKind::new(&kinds(&["test"])), TargetKind::Test);
    assert_eq!(TargetKind::new(&kinds(&["bench"])), TargetKind::Bench);
    assert_eq!(TargetKind::new(&kinds(&["example"])), TargetKind::Example);
}

#[test]
fn kind_unrecognized_is_other() {
    assert_eq!(TargetKind::new(&kinds(&["custom-build"])), TargetKind::Other);
    assert_eq!(TargetKind::new(&kinds(&[])), TargetKind::Other);
}

#[test]
fn kind_first_recognized_label_wins() {
    assert_eq!(TargetKind::new(&kinds(&["example", "bin"])), TargetKind::Example);
    assert_eq!(TargetKind::new(&kinds(&["custom-build", "test"])), TargetKind::Test);
    assert_eq!(TargetKind::new(&kinds(&["bin", "lib"])), TargetKind::Bin);
}

#[test]
fn edition_parses() {
    assert_eq!(Edition::parse(&"2015".to_string()), Some(Edition::Edition2015));
    assert_eq!(Edition::parse(&"2018".to_string()), Some(Edition::Edition2018));
    assert_eq!(Edition::parse(&"2021".to_string()), None);
    assert_eq!(Edition::parse(&"".to_string()), None);
}

#[test]
fn dylib_extensions_recognized() {
    assert!(is_dylib(&"/out/libfoo.so".to_string()));
    assert!(is_dylib(&"/out/libfoo.dylib".to_string()));
    assert!(is_dylib(&"C:/out/foo.dll".to_string()));
    assert!(is_dylib(&"/out/foo.DLL".to_string()));
    assert!(is_dylib(&"bare.So".to_string()));
}

#[test]
fn dylib_non_library_files_rejected() {
    assert!(!is_dylib(&"/out/libfoo.rmeta".to_string()));
    assert!(!is_dylib(&"/out/libfoo".to_string()));
    assert!(!is_dylib(&"/out/.so".to_string()));
    assert!(!is_dylib(&"".to_string()));
    assert!(!is_dylib(&"/out.so/meta".to_string()));
}

#[test]
fn default_config_loads_all_features() {
    let c = CargoConfig::default();
    assert!(c.all_features);
    assert!(!c.no_default_features);
    assert!(c.features.is_empty());
    assert!(!c.load_out_dirs_from_check);
    assert!(c.target.is_none());
}

#[test]
fn feature_selection_precedence() {
    let mut c = CargoConfig::default();
    c.features = vec!["a".to_string()];
    c.no_default_features = true;
    assert_eq!(c.feature_selection(), FeatureSelection::AllFeatures);
    c.all_features = false;
    assert_eq!(c.feature_selection(), FeatureSelection::NoDefaultFeatures);
    c.no_default_features = false;
    assert_eq!(
        c.feature_selection(),
        FeatureSelection::OnlyFeatures(vec!["a".to_string()])
    );
    c.features = Vec::new();
    assert_eq!(c.feature_selection(), FeatureSelection::DefaultFeatures);
}
