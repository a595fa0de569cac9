use vstd::prelude::*;

use crate::compile::{
    include_flags, nvcc_arch_flags, spec_native_object_args, spec_nvcc_ptx_args,
};
use crate::config::ConfigView;
use crate::error::ErrorView;
use crate::layout::{causal_mask_check, kernel_max, output_check, LayoutView};
use crate::params::{normalize_spaces, rust_type_of, spec_map_base_type};
use crate::parser::{
    close_from, closes_at, extern_c_kw, global_kw, int_kw, kernel_sigs_from, matching_close,
    native_sigs_from, paren_balance, signature_name, void_kw,
};
use crate::text::{
    char_is_whitespace, find_from, ident_suffix, is_ident_char, occurs_at, starts_with, trim_end,
    trim_start,
};

verus! {

// ---------------------------------------------------------------------------------------------
// Causal masks.
// ---------------------------------------------------------------------------------------------

/// A causal mask takes every tensor of rank at least two that passes the output checks and
/// whose last two extents fit an `i32` (a `[query, key]` matrix included); it refuses a tensor
/// for its rank only below rank two, and then with `RankMismatch` expecting rank two.
pub proof fn law_causal_mask_rank(a: LayoutView, out: LayoutView)
    ensures
        output_check(a, out) is None && a.shape.len() >= 2 && a.shape[a.shape.len() - 2]
            <= kernel_max() && a.shape[a.shape.len() - 1] <= kernel_max() ==> causal_mask_check(
            a,
            out,
        ) is None,
        output_check(a, out) is None && a.shape.len() < 2 ==> causal_mask_check(a, out) == Some(
            ErrorView::RankMismatch {
                expected: 2,
                actual: a.shape.len() as usize,
                shape: a.shape,
            },
        ),
        (causal_mask_check(a, out) matches Some(ErrorView::RankMismatch { .. })) ==> a.shape.len()
            < 2,
{
}

// ---------------------------------------------------------------------------------------------
// Compiler command lines.
// ---------------------------------------------------------------------------------------------

/// The include flags are one `-I<path>` per include path, in order; they end both the `nvcc`
/// PTX command line and the native object command line, after everything else.
pub proof fn law_include_flags(
    config: ConfigView,
    source_file: Seq<char>,
    output: Seq<char>,
)
    ensures
        include_flags(config.include_paths).len() == config.include_paths.len(),
        forall|i: int|
            0 <= i < config.include_paths.len() ==> #[trigger] include_flags(
                config.include_paths,
            )[i] == "-I"@ + config.include_paths[i],
        ({
            let a = spec_nvcc_ptx_args(config, source_file, output);
            let k = 4 + nvcc_arch_flags(config.compute_capability).len()
                + config.nvrtc_options.len();
            &&& a.len() == k + config.include_paths.len()
            &&& forall|i: int|
                0 <= i < config.include_paths.len() ==> #[trigger] a[k + i] == "-I"@
                    + config.include_paths[i]
        }),
        ({
            let a = spec_native_object_args(config, source_file, output);
            let k = 6 + nvcc_arch_flags(config.compute_capability).len();
            &&& a.len() == k + config.include_paths.len()
            &&& forall|i: int|
                0 <= i < config.include_paths.len() ==> #[trigger] a[k + i] == "-I"@
                    + config.include_paths[i]
        }),
{
    let p = config.include_paths;
    let f = include_flags(p);
    assert(f.len() == p.len());
    assert forall|i: int| 0 <= i < p.len() implies #[trigger] f[i] == "-I"@ + p[i] by {}
    let a = spec_nvcc_ptx_args(config, source_file, output);
    let k = 4 + nvcc_arch_flags(config.compute_capability).len() + config.nvrtc_options.len();
    assert forall|i: int| 0 <= i < p.len() implies #[trigger] a[k + i] == "-I"@ + p[i] by {
        assert(a[k + i] == f[i]);
    }
    let b = spec_native_object_args(config, source_file, output);
    let kb = 6 + nvcc_arch_flags(config.compute_capability).len();
    assert forall|i: int| 0 <= i < p.len() implies #[trigger] b[kb + i] == "-I"@ + p[i] by {
        assert(b[kb + i] == f[i]);
    }
}

// ---------------------------------------------------------------------------------------------
// C types and their Rust counterparts.
// ---------------------------------------------------------------------------------------------

/// What a scalar type is, as far as passing it to a kernel goes: a floating-point or integer
/// number of a width in bits, a pointer-sized unsigned integer, a boolean, or an opaque type
/// that only stands behind pointers.
pub enum TypeClass {
    Float(u32),
    Signed(u32),
    Unsigned(u32),
    PointerSized,
    Boolean,
    Opaque,
}

/// The class of a C base type (its words separated by single spaces) on the 64-bit targets
/// CUDA runs on: `long` is 64 bits wide there and `half` is IEEE binary16.
pub open spec fn c_type_class(c: Seq<char>) -> Option<TypeClass> {
    if c == "float"@ {
        Some(TypeClass::Float(32))
    } else if c == "double"@ {
        Some(TypeClass::Float(64))
    } else if c == "half"@ {
        Some(TypeClass::Float(16))
    } else if c == "char"@ || c == "signed char"@ {
        Some(TypeClass::Signed(8))
    } else if c == "unsigned char"@ {
        Some(TypeClass::Unsigned(8))
    } else if c == "short"@ || c == "short int"@ {
        Some(TypeClass::Signed(16))
    } else if c == "unsigned short"@ || c == "unsigned short int"@ {
        Some(TypeClass::Unsigned(16))
    } else if c == "int"@ || c == "signed int"@ || c == "signed"@ {
        Some(TypeClass::Signed(32))
    } else if c == "unsigned int"@ || c == "unsigned"@ {
        Some(TypeClass::Unsigned(32))
    } else if c == "long"@ || c == "long int"@ || c == "signed long"@ || c == "long long"@ || c
        == "long long int"@ {
        Some(TypeClass::Signed(64))
    } else if c == "unsigned long"@ || c == "unsigned long int"@ || c == "unsigned long long"@
        || c == "unsigned long long int"@ {
        Some(TypeClass::Unsigned(64))
    } else if c == "size_t"@ {
        Some(TypeClass::PointerSized)
    } else if c == "bool"@ {
        Some(TypeClass::Boolean)
    } else if c == "void"@ || c == "cudaStream_t"@ {
        Some(TypeClass::Opaque)
    } else {
        None
    }
}

/// The class of a Rust type named by its path.
pub open spec fn rust_type_class(t: Seq<char>) -> Option<TypeClass> {
    if t == "f32"@ {
        Some(TypeClass::Float(32))
    } else if t == "f64"@ {
        Some(TypeClass::Float(64))
    } else if t == "half::f16"@ {
        Some(TypeClass::Float(16))
    } else if t == "i8"@ {
        Some(TypeClass::Signed(8))
    } else if t == "u8"@ {
        Some(TypeClass::Unsigned(8))
    } else if t == "i16"@ {
        Some(TypeClass::Signed(16))
    } else if t == "u16"@ {
        Some(TypeClass::Unsigned(16))
    } else if t == "i32"@ {
        Some(TypeClass::Signed(32))
    } else if t == "u32"@ {
        Some(TypeClass::Unsigned(32))
    } else if t == "i64"@ {
        Some(TypeClass::Signed(64))
    } else if t == "u64"@ {
        Some(TypeClass::Unsigned(64))
    } else if t == "usize"@ {
        Some(TypeClass::PointerSized)
    } else if t == "bool"@ {
        Some(TypeClass::Boolean)
    } else if t == "std::ffi::c_void"@ {
        Some(TypeClass::Opaque)
    } else {
        None
    }
}

/// A C base type has a Rust counterpart exactly when it is one of the known C scalar types,
/// and the counterpart is of the same class: floats of the same width, integers of the same
/// signedness and width, `size_t` as `usize`, `bool` as `bool`, and `void` or a stream handle
/// as an opaque type.
#[verifier::rlimit(80)]
pub proof fn law_base_types_keep_size_and_kind(base: Seq<char>)
    ensures
        spec_map_base_type(base) is Some <==> c_type_class(normalize_spaces(base)) is Some,
        spec_map_base_type(base) matches Some(t) ==> rust_type_class(t) == c_type_class(
            normalize_spaces(base),
        ),
{
    reveal_strlit("f32");
    reveal_strlit("f64");
    reveal_strlit("half::f16");
    reveal_strlit("i8");
    reveal_strlit("u8");
    reveal_strlit("i16");
    reveal_strlit("u16");
    reveal_strlit("i32");
    reveal_strlit("u32");
    reveal_strlit("i64");
    reveal_strlit("u64");
    reveal_strlit("usize");
    reveal_strlit("bool");
    reveal_strlit("std::ffi::c_void");
    reveal_strlit("float");
    reveal_strlit("double");
    reveal_strlit("half");
    reveal_strlit("char");
    reveal_strlit("signed char");
    reveal_strlit("unsigned char");
    reveal_strlit("short");
    reveal_strlit("short int");
    reveal_strlit("unsigned short");
    reveal_strlit("unsigned short int");
    reveal_strlit("int");
    reveal_strlit("signed int");
    reveal_strlit("signed");
    reveal_strlit("unsigned int");
    reveal_strlit("unsigned");
    reveal_strlit("long");
    reveal_strlit("long int");
    reveal_strlit("signed long");
    reveal_strlit("long long");
    reveal_strlit("long long int");
    reveal_strlit("unsigned long");
    reveal_strlit("unsigned long int");
    reveal_strlit("unsigned long long");
    reveal_strlit("unsigned long long int");
    reveal_strlit("size_t");
    reveal_strlit("void");
    reveal_strlit("cudaStream_t");
    assert("f32"@[0] == 'f' && "f32"@[1] == '3' && "f32"@[2] == '2');
    assert("f64"@[0] == 'f' && "f64"@[1] == '6' && "f64"@[2] == '4');
    assert("i16"@[0] == 'i' && "i16"@[1] == '1' && "i16"@[2] == '6');
    assert("u16"@[0] == 'u' && "u16"@[1] == '1' && "u16"@[2] == '6');
    assert("i32"@[0] == 'i' && "i32"@[1] == '3' && "i32"@[2] == '2');
    assert("u32"@[0] == 'u' && "u32"@[1] == '3' && "u32"@[2] == '2');
    assert("i64"@[0] == 'i' && "i64"@[1] == '6' && "i64"@[2] == '4');
    assert("u64"@[0] == 'u' && "u64"@[1] == '6' && "u64"@[2] == '4');
    assert("i8"@[0] == 'i' && "i8"@[1] == '8');
    assert("u8"@[0] == 'u' && "u8"@[1] == '8');
    assert("float"@.len() == 5 && "float"@[0] == 'f' && "float"@[4] == 't');
    assert("double"@.len() == 6 && "double"@[0] == 'd' && "double"@[5] == 'e');
    assert("half"@.len() == 4 && "half"@[0] == 'h' && "half"@[3] == 'f');
    assert("char"@.len() == 4 && "char"@[0] == 'c' && "char"@[3] == 'r');
    assert("signed char"@.len() == 11 && "signed char"@[0] == 's' && "signed char"@[10] == 'r');
    assert("unsigned char"@.len() == 13 && "unsigned char"@[0] == 'u' && "unsigned char"@[12] == 'r');
    assert("short"@.len() == 5 && "short"@[0] == 's' && "short"@[4] == 't');
    assert("short int"@.len() == 9 && "short int"@[0] == 's' && "short int"@[8] == 't');
    assert("unsigned short"@.len() == 14 && "unsigned short"@[0] == 'u' && "unsigned short"@[13] == 't');
    assert("unsigned short int"@.len() == 18 && "unsigned short int"@[0] == 'u' && "unsigned short int"@[17] == 't');
    assert("int"@.len() == 3 && "int"@[0] == 'i' && "int"@[2] == 't');
    assert("signed int"@.len() == 10 && "signed int"@[0] == 's' && "signed int"@[9] == 't');
    assert("signed"@.len() == 6 && "signed"@[0] == 's' && "signed"@[5] == 'd');
    assert("unsigned int"@.len() == 12 && "unsigned int"@[0] == 'u' && "unsigned int"@[11] == 't');
    assert("unsigned"@.len() == 8 && "unsigned"@[0] == 'u' && "unsigned"@[7] == 'd');
    assert("long"@.len() == 4 && "long"@[0] == 'l' && "long"@[3] == 'g');
    assert("long int"@.len() == 8 && "long int"@[0] == 'l' && "long int"@[7] == 't');
    assert("signed long"@.len() == 11 && "signed long"@[0] == 's' && "signed long"@[10] == 'g');
    assert("long long"@.len() == 9 && "long long"@[0] == 'l' && "long long"@[8] == 'g');
    assert("long long int"@.len() == 13 && "long long int"@[0] == 'l' && "long long int"@[12] == 't');
    assert("unsigned long"@.len() == 13 && "unsigned long"@[0] == 'u' && "unsigned long"@[12] == 'g');
    assert("unsigned long int"@.len() == 17 && "unsigned long int"@[0] == 'u' && "unsigned long int"@[16] == 't');
    assert("unsigned long long"@.len() == 18 && "unsigned long long"@[0] == 'u' && "unsigned long long"@[17] == 'g');
    assert("unsigned long long int"@.len() == 22 && "unsigned long long int"@[0] == 'u' && "unsigned long long int"@[21] == 't');
    assert("size_t"@.len() == 6 && "size_t"@[0] == 's' && "size_t"@[5] == 't');
    assert("bool"@.len() == 4 && "bool"@[0] == 'b' && "bool"@[3] == 'l');
    assert("void"@.len() == 4 && "void"@[0] == 'v' && "void"@[3] == 'd');
    assert("cudaStream_t"@.len() == 12 && "cudaStream_t"@[0] == 'c' && "cudaStream_t"@[11] == 't');
    assert("half::f16"@.len() == 9 && "half::f16"@[0] == 'h' && "half::f16"@[8] == '6');
    assert("usize"@.len() == 5 && "usize"@[0] == 'u' && "usize"@[4] == 'e');
    assert("std::ffi::c_void"@.len() == 16 && "std::ffi::c_void"@[0] == 's' && "std::ffi::c_void"@[15] == 'd');
    let c = normalize_spaces(base);
    assert(spec_map_base_type(base) == rust_type_of(c));
}

// ---------------------------------------------------------------------------------------------
// Names and signatures.
// ---------------------------------------------------------------------------------------------

/// The name read before a parenthesis is the longest run of identifier characters (letters,
/// digits and `_`) that ends the text: it is a suffix of the text, made of identifier
/// characters, and either it is the whole text or the character before it is not one.
pub proof fn law_ident_suffix_is_longest(s: Seq<char>)
    ensures
        ident_suffix(s).len() <= s.len(),
        ident_suffix(s) == s.skip(s.len() - ident_suffix(s).len()),
        forall|i: int|
            0 <= i < ident_suffix(s).len() ==> is_ident_char(#[trigger] ident_suffix(s)[i]),
        ident_suffix(s).len() < s.len() ==> !is_ident_char(
            s[s.len() - ident_suffix(s).len() - 1],
        ),
    decreases s.len(),
{
    if s.len() > 0 && is_ident_char(s.last()) {
        let p = s.drop_last();
        law_ident_suffix_is_longest(p);
        let r = ident_suffix(p);
        assert(ident_suffix(s) == r.push(s.last()));
        assert(p.skip(p.len() - r.len()).push(s.last()) =~= s.skip(s.len() - (r.len() + 1)));
        assert forall|i: int| 0 <= i < r.len() + 1 implies is_ident_char(
            #[trigger] r.push(s.last())[i],
        ) by {
            if i < r.len() {
                assert(r.push(s.last())[i] == r[i]);
            }
        }
        if r.len() + 1 < s.len() {
            assert(s[s.len() - (r.len() + 1) - 1] == p[p.len() - r.len() - 1]);
        }
    } else {
        assert(s.skip(s.len() as int) =~= Seq::<char>::empty());
    }
}

proof fn lemma_ident_suffix_append(x: Seq<char>, y: Seq<char>)
    requires
        forall|i: int| 0 <= i < y.len() ==> is_ident_char(#[trigger] y[i]),
    ensures
        ident_suffix(x + y) == ident_suffix(x) + y,
    decreases y.len(),
{
    if y.len() == 0 {
        assert(x + y =~= x);
        assert(ident_suffix(x) + y =~= ident_suffix(x));
    } else {
        let yp = y.drop_last();
        lemma_ident_suffix_append(x, yp);
        assert((x + y).drop_last() =~= x + yp);
        assert((x + y).last() == y.last());
        assert(is_ident_char(y[y.len() - 1]));
        assert((ident_suffix(x) + yp).push(y.last()) =~= ident_suffix(x) + y);
    }
}

proof fn lemma_find_char(t: Seq<char>, c: char, from: int, p: int)
    requires
        0 <= from <= p < t.len(),
        t[p] == c,
        forall|i: int| from <= i < p ==> t[i] != c,
    ensures
        find_from(t, seq![c], from) == Some(p),
    decreases p - from,
{
    assert(t.subrange(from, from + 1) =~= seq![t[from]]);
    if from < p {
        assert(!occurs_at(t, seq![c], from)) by {
            if occurs_at(t, seq![c], from) {
                assert(t.subrange(from, from + 1)[0] == c);
            }
        }
        lemma_find_char(t, c, from + 1, p);
    }
}

proof fn lemma_single_group_balance(t: Seq<char>, open: int, close: int, k: int)
    requires
        0 <= open < k <= close < t.len(),
        t[open] == '(',
        forall|j: int| open < j < close ==> t[j] != '(' && t[j] != ')',
    ensures
        paren_balance(t, open, k) == 1,
    decreases k - open,
{
    assert(paren_balance(t, open, open) == 0);
    if k > open + 1 {
        lemma_single_group_balance(t, open, close, k - 1);
        assert(t[k - 1] != '(' && t[k - 1] != ')');
    }
}

proof fn lemma_single_group_close(t: Seq<char>, open: int, close: int, k: int)
    requires
        0 <= open <= k <= close < t.len(),
        t[open] == '(',
        t[close] == ')',
        forall|j: int| open < j < close ==> t[j] != '(' && t[j] != ')',
    ensures
        close_from(t, open, k) == Some(close),
    decreases close - k,
{
    lemma_single_group_balance(t, open, close, close);
    if k < close {
        assert(!closes_at(t, open, k));
        lemma_single_group_close(t, open, close, k + 1);
    } else {
        assert(paren_balance(t, open, close + 1) == 0);
    }
}

/// The text ` void `, which stands between `__global__` and a kernel's name.
pub open spec fn void_between() -> Seq<char> {
    seq![' ', 'v', 'o', 'i', 'd', ' ']
}

/// A name of identifier characters that ends in a non-whitespace character.
pub open spec fn plain_name(name: Seq<char>) -> bool {
    &&& name.len() > 0
    &&& forall|i: int| 0 <= i < name.len() ==> is_ident_char(#[trigger] name[i])
    &&& !char_is_whitespace(name.last())
}

/// Parameter text without parentheses.
pub open spec fn flat_params(params: Seq<char>) -> bool {
    forall|i: int| 0 <= i < params.len() ==> #[trigger] params[i] != '(' && params[i] != ')'
}

/// Text that may stand between a declaration's keyword and its name: no `(`, and a space last.
pub open spec fn plain_prefix(x: Seq<char>) -> bool {
    &&& x.len() > 0
    &&& x.last() == ' '
    &&& forall|i: int| 0 <= i < x.len() ==> #[trigger] x[i] != '('
}

proof fn lemma_declaration_group(
    t: Seq<char>,
    x: Seq<char>,
    name: Seq<char>,
    params: Seq<char>,
)
    requires
        plain_prefix(x),
        plain_name(name),
        flat_params(params),
        t.len() >= 10int + x.len() + name.len() + params.len() + 2,
        t.subrange(10, 10int + x.len() + name.len() + params.len() + 2) == x + name + seq!['(']
            + params + seq![')'],
    ensures
        find_from(t, seq!['('], 10) == Some(10int + x.len() + name.len()),
        signature_name(t, 10, 10int + x.len() + name.len()) == name,
        matching_close(t, 10int + x.len() + name.len()) == Some(
            10int + x.len() + name.len() + params.len() + 1,
        ),
        t.subrange(10int + x.len() + name.len() + 1, 10int + x.len() + name.len() + params.len() + 1)
            == params,
{
    let open: int = 10int + x.len() + name.len();
    let close: int = open + params.len() + 1;
    let g = x + name + seq!['('] + params + seq![')'];
    assert forall|j: int| 10 <= j < t.len() && j < 10int + g.len() implies t[j] == g[j - 10] by {
        assert(t.subrange(10, 10int + g.len())[j - 10] == t[j]);
    }
    assert(t[open] == '(');
    assert(t[close] == ')');
    assert forall|i: int| 10 <= i < open implies t[i] != '(' by {
        if i >= 10 + x.len() {
            assert(t[i] == name[i - 10 - x.len()]);
            assert(is_ident_char(name[i - 10 - x.len()]));
        } else {
            assert(t[i] == x[i - 10]);
        }
    }
    lemma_find_char(t, '(', 10, open);
    assert forall|j: int| open < j < close implies t[j] != '(' && t[j] != ')' by {
        assert(t[j] == params[j - open - 1]);
    }
    lemma_single_group_close(t, open, close, open);
    assert(t.subrange(10, open) =~= x + name);
    assert((x + name).last() == name.last());
    assert(trim_end(x + name) == x + name);
    lemma_ident_suffix_append(x, name);
    assert(!is_ident_char(x.last()));
    assert(ident_suffix(x) =~= Seq::<char>::empty());
    assert(Seq::<char>::empty() + name =~= name);
    assert(t.subrange(open + 1, close) =~= params);
}

/// A `__global__ void` kernel declared at the start of comment-free text, with a name of
/// identifier characters (digits included) and a parameter list without parentheses, is found
/// under its whole name with its parameter text, and the search then goes on after its closing
/// parenthesis: what follows is found as well.
pub proof fn law_declared_kernel_is_found(
    name: Seq<char>,
    params: Seq<char>,
    rest: Seq<char>,
)
    requires
        plain_name(name),
        flat_params(params),
    ensures
        ({
            let d = global_kw() + void_between() + name + seq!['('] + params + seq![')'];
            kernel_sigs_from(d + rest, 0) == seq![(name, params)] + kernel_sigs_from(
                d + rest,
                d.len() as int,
            )
        }),
{
    let x = void_between();
    let d = global_kw() + x + name + seq!['('] + params + seq![')'];
    let t = d + rest;
    let close: int = 10int + x.len() + name.len() + params.len() + 1;
    assert(t.subrange(0, 10) =~= global_kw());
    assert(find_from(t, global_kw(), 0) == Some(0int));
    assert(t.subrange(10, close + 1) =~= x + name + seq!['('] + params + seq![')']);
    lemma_declaration_group(t, x, name, params);
    assert(d.len() == close + 1);
}

/// An `extern "C"` host function returning `void` or `int`, declared at the start of
/// comment-free text with a name of identifier characters and a parameter list without
/// parentheses, is found under its name with its parameter text, and the search then goes on
/// after its closing parenthesis: what follows is found as well.
pub proof fn law_declared_native_function_is_found(
    ret: Seq<char>,
    name: Seq<char>,
    params: Seq<char>,
    rest: Seq<char>,
)
    requires
        ret == void_kw() || ret == int_kw(),
        plain_name(name),
        flat_params(params),
    ensures
        ({
            let d = extern_c_kw() + seq![' '] + ret + name + seq!['('] + params + seq![')'];
            native_sigs_from(d + rest, 0) == seq![(name, params)] + native_sigs_from(
                d + rest,
                d.len() as int,
            )
        }),
{
    let x = seq![' '] + ret;
    let d = extern_c_kw() + seq![' '] + ret + name + seq!['('] + params + seq![')'];
    let t = d + rest;
    let close: int = 10int + x.len() + name.len() + params.len() + 1;
    assert(t.subrange(0, 10) =~= extern_c_kw());
    assert(find_from(t, extern_c_kw(), 0) == Some(0int));
    assert(t.subrange(10, close + 1) =~= x + name + seq!['('] + params + seq![')']);
    lemma_declaration_group(t, x, name, params);
    let after = t.skip(10);
    assert(after[0] == ' ');
    assert(after.drop_first() =~= t.skip(11));
    assert(t.skip(11)[0] == ret[0]);
    assert(!char_is_whitespace(ret[0]));
    assert(char_is_whitespace(' '));
    assert(trim_start(t.skip(11)) == t.skip(11));
    assert(trim_start(after) == t.skip(11));
    assert(t.skip(11).take(ret.len() as int) =~= ret);
    assert(!starts_with(t.skip(11), global_kw())) by {
        if starts_with(t.skip(11), global_kw()) {
            assert(t.skip(11).take(10)[0] == global_kw()[0]);
        }
    }
    assert(d.len() == close + 1);
}
} // verus!
