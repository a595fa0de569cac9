use lmrs::config::Config;
use lmrs::paths::resolve_manifest_path;

#[test]
fn new_config_defaults() {
    let config = Config::new("kernels", "out");
    assert_eq!(config.kernels_dir_path(), "kernels");
    assert_eq!(config.out_dir_path(), "out");
    assert_eq!(config.generated_file_name_ref(), "gen_kernels.rs");
    assert_eq!(config.cudarc_crate_path_ref(), "cudarc");
    assert_eq!(config.compute_capability_ref(), None);
    assert!(config.include_paths().is_empty());
    assert!(config.nvrtc_options().is_empty());
    assert_eq!(config.use_fast_math_ref(), None);
    assert_eq!(config.max_register_count_ref(), None);
    assert!(config.emits_cargo_directives());
}

#[test]
fn builders_set_what_getters_read() {
    let config = Config::new("kernels", "out")
        .kernels_dir("cuda/kernels")
        .out_dir("target/generated-cuda")
        .generated_file_name("cuda_api.rs")
        .compute_capability("90")
        .include_path("kernels/include")
        .include_path("more")
        .nvrtc_option("--std=c++17")
        .use_fast_math(true)
        .max_register_count(64)
        .cudarc_crate_path("cuda_driver")
        .emit_cargo_directives(false);
    assert_eq!(config.kernels_dir_path(), "cuda/kernels");
    assert_eq!(config.out_dir_path(), "target/generated-cuda");
    assert_eq!(config.generated_file_name_ref(), "cuda_api.rs");
    assert_eq!(config.compute_capability_ref(), Some("90"));
    assert_eq!(config.include_paths(), &["kernels/include", "more"]);
    assert_eq!(config.nvrtc_options(), &["--std=c++17"]);
    assert_eq!(config.use_fast_math_ref(), Some(true));
    assert_eq!(config.max_register_count_ref(), Some(64));
    assert_eq!(config.cudarc_crate_path_ref(), "cuda_driver");
    assert!(!config.emits_cargo_directives());
}

#[test]
fn compute_capability_can_be_cleared() {
    let config = Config::new("kernels", "out").compute_capability("90").without_compute_capability();
    assert_eq!(config.compute_capability_ref(), None);
}

#[test]
fn last_setting_wins() {
    let config = Config::new("a", "b").out_dir("c").out_dir("d");
    assert_eq!(config.out_dir_path(), "d");
    assert_eq!(config.kernels_dir_path(), "a");
}

#[test]
fn manifest_paths_resolve() {
    assert_eq!(resolve_manifest_path("/crate", "kernels"), "/crate/kernels");
    assert_eq!(resolve_manifest_path("/crate", "/abs/kernels"), "/abs/kernels");
}
