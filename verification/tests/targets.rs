use tea_compiler::aot::normalize_target_triple;
use tea_compiler::aot::object::{
    object_settings, opt_flag, relocation_mode, ObjectCompileOptions, OptimizationLevel,
    RelocationMode,
};

#[test]
fn normalizes_arm64_darwin() {
    assert_eq!(
        normalize_target_triple("arm64-apple-darwin25.0.0"),
        "aarch64-apple-darwin"
    );
}

#[test]
fn linux_triple_is_kept() {
    assert_eq!(
        normalize_target_triple("x86_64-unknown-linux-gnu"),
        "x86_64-unknown-linux-gnu"
    );
}

#[test]
fn macos_and_ios_become_darwin() {
    assert_eq!(normalize_target_triple("arm64-apple-macos14"), "aarch64-apple-darwin");
    assert_eq!(normalize_target_triple("arm64-apple-ios17.0"), "aarch64-apple-darwin");
}

#[test]
fn missing_fields_become_unknown() {
    assert_eq!(normalize_target_triple("x86_64"), "x86_64-unknown-unknown");
    assert_eq!(normalize_target_triple("riscv64-vendor"), "riscv64-vendor-unknown");
}

#[test]
fn normalizing_twice_changes_nothing() {
    for t in [
        "arm64-apple-darwin25.0.0",
        "x86_64",
        "aarch64-pc-windows-msvc",
        "arm64-apple-ios17",
    ] {
        let once = normalize_target_triple(t);
        let twice = normalize_target_triple(&once);
        assert_eq!(once, twice);
    }
}

#[test]
fn opt_flags_follow_the_level() {
    assert_eq!(opt_flag(OptimizationLevel::Disabled), None);
    assert_eq!(opt_flag(OptimizationLevel::Less).as_deref(), Some("-O1"));
    assert_eq!(opt_flag(OptimizationLevel::Default).as_deref(), Some("-O2"));
    assert_eq!(opt_flag(OptimizationLevel::Aggressive).as_deref(), Some("-O3"));
}

#[test]
fn windows_is_not_position_independent() {
    assert_eq!(relocation_mode("x86_64-pc-windows-msvc"), RelocationMode::Default);
    assert_eq!(relocation_mode("x86_64-unknown-linux-gnu"), RelocationMode::Pic);
}

#[test]
fn default_options_build_for_the_host() {
    let options = ObjectCompileOptions::default();
    assert!(options.triple.is_none());
    assert!(!options.lto);
    assert_eq!(options.opt_level, OptimizationLevel::Aggressive);
    let settings = object_settings(&options, "arm64-apple-darwin23.1.0");
    assert_eq!(settings.triple, "aarch64-apple-darwin");
    assert_eq!(settings.cpu, "generic");
    assert_eq!(settings.features, "");
    assert_eq!(settings.reloc_mode, RelocationMode::Pic);
    assert_eq!(settings.opt_level, OptimizationLevel::Aggressive);
}

#[test]
fn explicit_options_win() {
    let options = ObjectCompileOptions {
        triple: Some("x86_64-pc-windows-msvc"),
        cpu: Some("skylake"),
        features: Some("+avx2"),
        opt_level: OptimizationLevel::Less,
        entry_symbol: None,
        lto: false,
    };
    let settings = object_settings(&options, "aarch64-unknown-linux-gnu");
    assert_eq!(settings.triple, "x86_64-pc-windows-msvc");
    assert_eq!(settings.cpu, "skylake");
    assert_eq!(settings.features, "+avx2");
    assert_eq!(settings.reloc_mode, RelocationMode::Default);
}
