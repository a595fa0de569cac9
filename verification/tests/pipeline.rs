use cudarc::driver::{sys::CUresult, DriverError};
use lmrs::compile::{native_compile_step, native_dir, native_link_args, needs_nvcc, nvcc_ptx_args, nvrtc_options, shared_library_path};
use lmrs::config::Config;
use lmrs::device::capture_outcome;
use lmrs::error::Error;
use lmrs::compile::{compile_source, nvrtc_request};
use lmrs::generator::{cargo_directives, config_from_env_values, plan_source, source_directives, GenError, GenState};
use lmrs::pipeline::{collect_kernel_names, generated_file_path, kernel_file, ptx_file_name, source_cargo_directive, static_cargo_directives, GeneratedApi};

#[test]
fn kernel_files_and_names() {
    let a = kernel_file("fp16-ops", "__global__ void add(float* out, int n) {} __global__ void mul(int n) {}").unwrap();
    assert_eq!(a.stem, "fp16_ops");
    assert_eq!(a.ptx_name, "fp16-ops.ptx");
    let b = kernel_file("b", "__global__ void relu(float* x) {}").unwrap();
    let names = collect_kernel_names(&vec![a, b]);
    assert_eq!(names, vec!["add", "mul", "relu"]);
    assert!(kernel_file("c", "__global__ void k(Foo f) {}").is_err());
}

#[test]
fn generated_api_summary() {
    let api = GeneratedApi::new("out/gen_kernels.rs".to_string(), vec!["out/a.ptx".to_string()], vec!["add".to_string(), "mul".to_string()]);
    assert!(api.generated_file().ends_with("gen_kernels.rs"));
    assert_eq!(api.ptx_files(), &["out/a.ptx"]);
    assert_eq!(api.kernel_count(), api.kernel_names().len());
    assert_eq!(api.kernel_count(), 2);
}

#[test]
fn file_names_and_directives() {
    let config = Config::new("kernels", "out");
    assert_eq!(ptx_file_name("ops"), "ops.ptx");
    assert_eq!(generated_file_path(&config), "out/gen_kernels.rs");
    assert_eq!(static_cargo_directives(&config), vec!["cargo:rerun-if-changed=kernels", "cargo:rerun-if-env-changed=CUDA_COMPUTE_CAP"]);
    assert_eq!(source_cargo_directive("kernels/a.cu"), "cargo:rerun-if-changed=kernels/a.cu");
}

#[test]
fn compiler_arguments() {
    let config = Config::new("kernels", "out").compute_capability("86").nvrtc_option("--std=c++17").include_path("inc");
    assert!(needs_nvcc("#include <cuda_fp16.h>\n__global__ void k() {}"));
    assert!(!needs_nvcc("__global__ void k() {}"));
    assert_eq!(nvrtc_options(&config), vec!["--std=c++17", "--gpu-architecture=compute_86"]);
    assert_eq!(
        nvcc_ptx_args(&config, "kernels/a.cu", "out/a.ptx"),
        vec!["--ptx", "kernels/a.cu", "-o", "out/a.ptx", "-arch=sm_86", "--std=c++17", "-Iinc"]
    );
    let dir = native_dir(&config);
    assert_eq!(dir, "out/native_cuda");
    let step = native_compile_step(&config, &dir, "native/blas.cu").unwrap();
    assert_eq!(step.object, "out/native_cuda/blas.o");
    assert_eq!(step.args, vec!["-c", "native/blas.cu", "-o", "out/native_cuda/blas.o", "-Xcompiler", "-fPIC", "-arch=sm_86", "-Iinc"]);
    let shared = shared_library_path(&dir, "lmrs_native");
    assert_eq!(shared, "out/native_cuda/liblmrs_native.so");
    assert_eq!(
        native_link_args(&shared, &[step.object.clone()]),
        vec!["-shared", "-o", "out/native_cuda/liblmrs_native.so", "out/native_cuda/blas.o", "-lcublas", "-lcudart"]
    );
    assert!(native_compile_step(&config, &dir, "/").is_none());
}

#[test]
fn capture_errors_take_precedence() {
    let ok: Result<u8, DriverError> = Ok(7);
    assert_eq!(capture_outcome(ok, None).unwrap(), 7);
    let failed: Result<u8, DriverError> = Err(DriverError(CUresult::CUDA_ERROR_INVALID_VALUE));
    assert!(matches!(capture_outcome(failed, None), Err(Error::Cuda(_))));
    let failed: Result<u8, DriverError> = Err(DriverError(CUresult::CUDA_ERROR_INVALID_VALUE));
    assert!(matches!(capture_outcome(failed, Some(Error::NonContiguous)), Err(Error::NonContiguous)));
}


#[test]
fn a_run_records_sources_in_order() {
    let config = Config::new("kernels", "out");
    let plan = plan_source(&config, "kernels/fp16-ops.cu").unwrap();
    assert_eq!(plan.stem, "fp16-ops");
    assert_eq!(plan.ptx_path, "out/fp16-ops.ptx");
    assert!(matches!(plan_source(&config, "/"), Err(GenError::InvalidKernelFileName(p)) if p == "/"));

    let mut state = GenState::new();
    let p1 = state.record_source(&config, "kernels/fp16-ops.cu", "__global__ void add(float* o, int n) {}").unwrap();
    assert_eq!(p1, "out/fp16-ops.ptx");
    let p2 = state.record_source(&config, "kernels/b.cu", "__global__ void relu(float* x) {} __global__ void exp_(float* x) {}").unwrap();
    assert_eq!(p2, "out/b.ptx");
    match state.record_source(&config, "kernels/c.cu", "__global__ void k(Foo f) {}") {
        Err(GenError::ParseKernel { source_file, kernel, message }) => {
            assert_eq!(source_file, "kernels/c.cu");
            assert_eq!(kernel, "k");
            assert_eq!(message, "unsupported C type `Foo`");
        }
        other => panic!("unexpected {other:?}"),
    }
    assert_eq!(state.files().len(), 2);
    assert_eq!(state.files()[0].stem, "fp16_ops");
    assert_eq!(state.files()[1].ptx_name, "b.ptx");
    let api = state.finish(&config);
    assert_eq!(api.generated_file(), "out/gen_kernels.rs");
    assert_eq!(api.ptx_files(), &["out/fp16-ops.ptx", "out/b.ptx"]);
    assert_eq!(api.kernel_names(), &["add", "relu", "exp_"]);
    assert_eq!(api.kernel_count(), 3);
}

#[test]
fn directives_follow_the_switch() {
    let on = Config::new("kernels", "out");
    assert_eq!(cargo_directives(&on).len(), 2);
    assert_eq!(source_directives(&on, "kernels/a.cu"), vec!["cargo:rerun-if-changed=kernels/a.cu"]);
    let off = Config::new("kernels", "out").emit_cargo_directives(false);
    assert!(cargo_directives(&off).is_empty());
    assert!(source_directives(&off, "kernels/a.cu").is_empty());
}

#[test]
fn configuration_from_environment_values() {
    assert!(matches!(config_from_env_values(None, None, "kernels", None), Err(GenError::MissingEnvVar("CARGO_MANIFEST_DIR"))));
    assert!(matches!(config_from_env_values(Some("/crate"), None, "kernels", None), Err(GenError::MissingEnvVar("OUT_DIR"))));
    let c = config_from_env_values(Some("/crate"), Some("/out"), "kernels", Some("90")).unwrap();
    assert_eq!(c.kernels_dir_path(), "/crate/kernels");
    assert_eq!(c.out_dir_path(), "/out");
    assert_eq!(c.compute_capability_ref(), Some("90"));
    let c = config_from_env_values(Some("/crate"), Some("/out"), "/abs/kernels", None).unwrap();
    assert_eq!(c.kernels_dir_path(), "/abs/kernels");
    assert_eq!(c.compute_capability_ref(), None);
}

#[test]
fn what_nvrtc_is_handed() {
    let config = Config::new("kernels", "out").compute_capability("86").nvrtc_option("--std=c++17").include_path("inc").use_fast_math(true).max_register_count(64);
    let r = nvrtc_request(&config, "kernels/a.cu");
    assert_eq!(r.include_paths, vec!["inc"]);
    assert_eq!(r.options, vec!["--std=c++17", "--gpu-architecture=compute_86"]);
    assert_eq!(r.use_fast_math, Some(true));
    assert_eq!(r.max_register_count, Some(64));
    assert_eq!(r.name, Some("a.cu".to_string()));
    assert!(compile_source(&config, "kernels/a.cu", "#include \"x.h\"\n__global__ void k() {}").is_none());
}
