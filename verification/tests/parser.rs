use lmrs::parser::{find_kernels, find_native_functions, matching_paren, parse_kernels, strip_comments};

#[test]
fn parses_global_kernel() {
    let kernels =
        parse_kernels(r#"extern "C" __global__ void add(const float* a, float* out, int n) {}"#)
            .unwrap();
    assert_eq!(kernels.len(), 1);
    assert_eq!(kernels[0].name, "add");
    assert_eq!(kernels[0].params.len(), 3);
}

#[test]
fn strips_line_and_block_comments() {
    assert_eq!(strip_comments("a // x\nb /* y */ c"), "a \nb  c");
    assert_eq!(strip_comments("a /* never closed"), "a ");
}

#[test]
fn matches_nested_parens() {
    assert_eq!(matching_paren("f(a(b)c)d", 1), Some(7));
    assert_eq!(matching_paren("f(a(b c", 1), None);
}

#[test]
fn finds_native_functions_only() {
    let src = r#"extern "C" __global__ void k(int n) {} extern "C" int host(float* x) { return 0; }"#;
    let found = find_native_functions(src);
    assert_eq!(found, vec![("host".to_string(), "float* x".to_string())]);
    let kernels = find_kernels(src);
    assert_eq!(kernels, vec![("k".to_string(), "int n".to_string())]);
}

use lmrs::params::{is_type_keyword, map_base_type, parse_params, split_params};
use lmrs::parser::parse_native_functions;
use lmrs::pipeline::sanitize;

#[test]
fn parses_kernel_parameters_with_types_and_flags() {
    let params = parse_params("const float* __restrict__ a, float* out, int n").unwrap();
    assert_eq!(params.len(), 3);
    assert_eq!(params[0].name, "a");
    assert_eq!(params[0].rust_ty, "f32");
    assert_eq!(params[0].base_ty, "f32");
    assert!(params[0].is_ptr);
    assert!(params[0].is_const);
    assert_eq!(params[1].name, "out");
    assert!(params[1].is_ptr);
    assert!(!params[1].is_const);
    assert_eq!(params[2].name, "n");
    assert_eq!(params[2].rust_ty, "i32");
    assert!(!params[2].is_ptr);
}

#[test]
fn empty_and_void_parameter_lists_have_no_parameters() {
    assert_eq!(parse_params("").unwrap().len(), 0);
    assert_eq!(parse_params("  void ").unwrap().len(), 0);
}

#[test]
fn unnamed_parameters_are_numbered() {
    let params = parse_params("int, unsigned long long").unwrap();
    assert_eq!(params[0].name, "arg0");
    assert_eq!(params[0].rust_ty, "i32");
    assert_eq!(params[1].name, "arg1");
    assert_eq!(params[1].rust_ty, "u64");
}

#[test]
fn arrays_are_pointers() {
    let params = parse_params("volatile half x[16]").unwrap();
    assert_eq!(params[0].name, "x");
    assert_eq!(params[0].rust_ty, "half::f16");
    assert!(params[0].is_ptr);
}

#[test]
fn unsupported_and_unreadable_parameters_are_reported() {
    match parse_params("int n, MyType x") {
        Err(m) => assert_eq!(m, "unsupported C type `MyType`"),
        Ok(_) => panic!("expected an error"),
    }
    match parse_params("int n, *") {
        Err(m) => assert_eq!(m, "could not parse parameter `*`"),
        Ok(_) => panic!("expected an error"),
    }
}

#[test]
fn kernel_parse_errors_name_the_kernel() {
    match parse_kernels("__global__ void good(int n) {} __global__ void bad(Foo f) {}") {
        Err((name, message)) => {
            assert_eq!(name, "bad");
            assert_eq!(message, "unsupported C type `Foo`");
        }
        Ok(_) => panic!("expected an error"),
    }
}

#[test]
fn commented_out_kernels_are_ignored() {
    let src = "// __global__ void hidden(int n) {}\n/* __global__ void gone(int n) {} */\n__global__ void seen(float *x) {}";
    let kernels = parse_kernels(src).unwrap();
    assert_eq!(kernels.len(), 1);
    assert_eq!(kernels[0].name, "seen");
    assert_eq!(kernels[0].params[0].name, "x");
}

#[test]
fn native_functions_are_parsed() {
    let src = r#"extern "C" void launch(const float* a, size_t n); extern "C" float nope(int x);"#;
    let fns = parse_native_functions(src).unwrap();
    assert_eq!(fns.len(), 1);
    assert_eq!(fns[0].name, "launch");
    assert_eq!(fns[0].params[1].rust_ty, "usize");
}

#[test]
fn splits_only_top_level_commas() {
    assert_eq!(split_params("a<b, c>, d( e, f ) ,g"), vec!["a<b, c>", "d( e, f )", "g"]);
    assert_eq!(split_params("x, "), vec!["x"]);
}

#[test]
fn base_types_ignore_spacing() {
    assert_eq!(map_base_type("unsigned   int"), Some("u32"));
    assert_eq!(map_base_type(" long long int "), Some("i64"));
    assert_eq!(map_base_type("cudaStream_t"), Some("std::ffi::c_void"));
    assert_eq!(map_base_type("float4"), None);
}

#[test]
fn type_keywords() {
    assert!(is_type_keyword("const"));
    assert!(is_type_keyword("size_t"));
    assert!(!is_type_keyword("n"));
}

#[test]
fn sanitize_makes_identifiers() {
    assert_eq!(sanitize("fp16-ops.v2"), "fp16_ops_v2");
    assert_eq!(sanitize(&sanitize("a b")), "a_b");
}

#[test]
fn unicode_whitespace_separates_words() {
    let ps = parse_params("const\u{3000}float*\u{a0}x").unwrap();
    assert_eq!(ps.len(), 1);
    assert_eq!(ps[0].name, "x");
    assert_eq!(ps[0].rust_ty, "f32");
    assert!(ps[0].is_const);
}

#[test]
fn stripping_comments_twice_changes_nothing() {
    let once = strip_comments("a // x\nb /* y */c /* open");
    assert_eq!(once, "a \nb c ");
    assert_eq!(strip_comments(&once), once);
    let tricky = strip_comments("/*x*//y");
    assert_eq!(tricky, "/y");
    assert!(!tricky.contains("//") && !tricky.contains("/*"));
}

#[test]
fn matching_paren_counts_bytes() {
    assert_eq!(matching_paren("\u{e9}(a)", 2), Some(4));
    assert_eq!(matching_paren("\u{e9}(a)", 3), None);
}

#[test]
fn whitespace_agrees_with_std() {
    for c in (0u32..=0x10ffff).filter_map(char::from_u32) {
        assert_eq!(lmrs::text::is_whitespace(c), c.is_whitespace(), "{c:?}");
    }
}
