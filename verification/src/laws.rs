use vstd::prelude::*;

use crate::config::{default_config, ConfigView};
use crate::layout::{
    contiguity_check, contiguous_strides_of, kernel_len_check, layout_wf, output_check, reshaped,
    LayoutView,
};
use crate::model::KernelView;
use crate::params::{param_from, params_from, spec_parse_params};
use crate::parser::{
    closes_at, kernel_sigs_from, kernels_from, matching_close, spec_find_kernels,
    spec_parse_kernels, spec_strip_comments, strip_from, Signature, line_end, block_end,
    lemma_line_end, lemma_block_end,
};
use crate::pipeline::spec_sanitize;
use crate::shape::{contiguous_stride, prefix_products_fit, product};
use crate::text::{ident_suffix, is_ident_char};

verus! {

// ---------------------------------------------------------------------------------------------
// Identifiers.
// ---------------------------------------------------------------------------------------------

/// Sanitizing keeps the length, yields only identifier characters, keeps every identifier
/// character in place, and changes nothing the second time.
pub proof fn law_sanitize(s: Seq<char>)
    ensures
        spec_sanitize(s).len() == s.len(),
        forall|i: int| 0 <= i < s.len() ==> is_ident_char(#[trigger] spec_sanitize(s)[i]),
        forall|i: int| 0 <= i < s.len() && is_ident_char(s[i]) ==> #[trigger] spec_sanitize(s)[i]
            == s[i],
        spec_sanitize(spec_sanitize(s)) == spec_sanitize(s),
{
    assert forall|i: int| 0 <= i < s.len() implies is_ident_char(#[trigger] spec_sanitize(s)[i]) by {
        if !is_ident_char(s[i]) {
            assert(spec_sanitize(s)[i] == '_');
        }
    }
    assert(spec_sanitize(spec_sanitize(s)) =~= spec_sanitize(s));
}

// ---------------------------------------------------------------------------------------------
// Comments and parentheses.
// ---------------------------------------------------------------------------------------------

proof fn lemma_strip_without_slash(s: Seq<char>, i: int)
    requires
        0 <= i <= s.len(),
        !s.contains('/'),
    ensures
        strip_from(s, i) == s.skip(i),
    decreases s.len() - i,
{
    if i < s.len() {
        assert(s[i] != '/') by {
            if s[i] == '/' {
                assert(s.contains('/'));
            }
        }
        lemma_strip_without_slash(s, i + 1);
        assert(s.skip(i) =~= seq![s[i]] + s.skip(i + 1));
    } else {
        assert(s.skip(i) =~= Seq::<char>::empty());
    }
}

/// Text without a `/` holds no comment, and stripping comments leaves it unchanged.
pub proof fn law_strip_comments_identity(s: Seq<char>)
    requires
        !s.contains('/'),
    ensures
        spec_strip_comments(s) == s,
{
    lemma_strip_without_slash(s, 0);
    assert(s.skip(0) =~= s);
}

/// Whether `t` holds a comment opener, `//` or `/*`, starting at `k`.
pub open spec fn opens_comment_at(t: Seq<char>, k: int) -> bool {
    0 <= k && k + 1 < t.len() && t[k] == '/' && (t[k + 1] == '/' || t[k + 1] == '*')
}

/// Whether the characters of `a` occur in `b` in the same order.
pub open spec fn is_subsequence(a: Seq<char>, b: Seq<char>) -> bool
    decreases b.len(),
{
    if a.len() == 0 {
        true
    } else if b.len() == 0 {
        false
    } else {
        (a[0] == b[0] && is_subsequence(a.drop_first(), b.drop_first())) || is_subsequence(
            a,
            b.drop_first(),
        )
    }
}

proof fn lemma_subsequence_of_later_suffix(x: Seq<char>, s: Seq<char>, i: int, j: int)
    requires
        0 <= i <= j <= s.len(),
        is_subsequence(x, s.skip(j)),
    ensures
        is_subsequence(x, s.skip(i)),
    decreases j - i,
{
    if i < j {
        lemma_subsequence_of_later_suffix(x, s, i + 1, j);
        assert(s.skip(i).drop_first() =~= s.skip(i + 1));
    }
}

proof fn lemma_strip_facts(s: Seq<char>, i: int)
    requires
        0 <= i,
    ensures
        forall|k: int| !opens_comment_at(strip_from(s, i), k),
        i <= s.len() ==> is_subsequence(strip_from(s, i), s.skip(i)),
    decreases s.len() + 4 - i,
{
    if i >= s.len() {
    } else if s[i] == '/' && i + 1 < s.len() && s[i + 1] == '/' {
        lemma_line_end(s, i);
        let j = line_end(s, i);
        lemma_strip_facts(s, j);
        lemma_subsequence_of_later_suffix(strip_from(s, i), s, i, j);
    } else if s[i] == '/' && i + 1 < s.len() && s[i + 1] == '*' {
        lemma_block_end(s, i + 2);
        let j = block_end(s, i + 2) + 2;
        lemma_strip_facts(s, j);
        if j <= s.len() {
            lemma_subsequence_of_later_suffix(strip_from(s, i), s, i, j);
        }
    } else {
        let rest = strip_from(s, i + 1);
        let t = strip_from(s, i);
        lemma_strip_facts(s, i + 1);
        assert(t =~= seq![s[i]] + rest);
        if i + 1 < s.len() && s[i + 1] != '/' {
            assert(rest =~= seq![s[i + 1]] + strip_from(s, i + 2));
        }
        assert forall|k: int| !opens_comment_at(t, k) by {
            if k >= 1 {
                assert(opens_comment_at(t, k) ==> opens_comment_at(rest, k - 1));
            }
        }
        assert(t.drop_first() =~= rest);
        assert(s.skip(i).drop_first() =~= s.skip(i + 1));
    }
}

proof fn lemma_strip_without_opener(t: Seq<char>, i: int)
    requires
        0 <= i <= t.len(),
        forall|k: int| !opens_comment_at(t, k),
    ensures
        strip_from(t, i) == t.skip(i),
    decreases t.len() - i,
{
    if i < t.len() {
        assert(!opens_comment_at(t, i));
        lemma_strip_without_opener(t, i + 1);
        assert(t.skip(i) =~= seq![t[i]] + t.skip(i + 1));
    } else {
        assert(t.skip(i) =~= Seq::<char>::empty());
    }
}

/// Stripping comments leaves no comment opener (`//` or `/*`), keeps the remaining characters
/// in their order, and changes nothing when applied a second time.
pub proof fn law_strip_comments(s: Seq<char>)
    ensures
        forall|k: int| !opens_comment_at(spec_strip_comments(s), k),
        is_subsequence(spec_strip_comments(s), s),
        spec_strip_comments(spec_strip_comments(s)) == spec_strip_comments(s),
{
    lemma_strip_facts(s, 0);
    assert(s.skip(0) =~= s);
    let r = spec_strip_comments(s);
    lemma_strip_without_opener(r, 0);
    assert(r.skip(0) =~= r);
}

/// The matching parenthesis is a `)` at or after the opening one, the parentheses between
/// them balance, and no earlier `)` balances them.
pub proof fn law_matching_paren(s: Seq<char>, open: int)
    requires
        0 <= open,
    ensures
        matching_close(s, open) matches Some(c) ==> {
            &&& open <= c < s.len()
            &&& s[c] == ')'
            &&& crate::parser::paren_balance(s, open, c + 1) == 0
            &&& forall|j: int| open <= j < c ==> !closes_at(s, open, j)
        },
{
    crate::parser::lemma_close_from(s, open, open);
    if let Some(c) = matching_close(s, open) {
        lemma_first_close(s, open, open);
    }
}

proof fn lemma_first_close(s: Seq<char>, open: int, k: int)
    requires
        open <= k,
    ensures
        crate::parser::close_from(s, open, k) matches Some(c) ==> forall|j: int|
            k <= j < c ==> !closes_at(s, open, j),
    decreases s.len() - k,
{
    if k >= s.len() {
    } else if closes_at(s, open, k) {
    } else {
        lemma_first_close(s, open, k + 1);
    }
}

// ---------------------------------------------------------------------------------------------
// Kernel signatures.
// ---------------------------------------------------------------------------------------------

proof fn lemma_ident_suffix_chars(s: Seq<char>)
    ensures
        forall|i: int| 0 <= i < ident_suffix(s).len() ==> is_ident_char(#[trigger] ident_suffix(s)[i]),
    decreases s.len(),
{
    if s.len() > 0 && is_ident_char(s.last()) {
        lemma_ident_suffix_chars(s.drop_last());
        let prev = ident_suffix(s.drop_last());
        assert forall|i: int| 0 <= i < ident_suffix(s).len() implies is_ident_char(
            #[trigger] ident_suffix(s)[i],
        ) by {
            if i < prev.len() {
                assert(ident_suffix(s)[i] == prev[i]);
            } else {
                assert(ident_suffix(s)[i] == s.last());
            }
        }
    }
}

/// A found kernel name is a non-empty identifier.
pub open spec fn is_identifier(name: Seq<char>) -> bool {
    name.len() > 0 && forall|i: int| 0 <= i < name.len() ==> is_ident_char(#[trigger] name[i])
}

proof fn lemma_kernel_sig_names(t: Seq<char>, from: int)
    ensures
        forall|i: int|
            0 <= i < kernel_sigs_from(t, from).len() ==> is_identifier(
                #[trigger] kernel_sigs_from(t, from)[i].0,
            ),
    decreases t.len() - from,
{
    if from < 0 || from > t.len() {
    } else {
        match crate::text::find_from(t, crate::parser::global_kw(), from) {
            None => {},
            Some(pos) => {
                crate::text::lemma_find_from_bounds(t, crate::parser::global_kw(), from);
                let after = pos + 10;
                match crate::text::find_from(t, seq!['('], after) {
                    None => {
                        lemma_kernel_sig_names(t, after);
                        assert(kernel_sigs_from(t, from) == kernel_sigs_from(t, after));
                    },
                    Some(open) => {
                        crate::text::lemma_find_from_bounds(t, seq!['('], after);
                        crate::parser::lemma_close_from(t, open, open);
                        let name = crate::parser::signature_name(t, after, open);
                        lemma_ident_suffix_chars(crate::text::trim_end(t.subrange(after, open)));
                        match matching_close(t, open) {
                            Some(close) => {
                                lemma_kernel_sig_names(t, close + 1);
                                let head: Seq<Signature> = if name.len() > 0 {
                                    seq![(name, t.subrange(open + 1, close))]
                                } else {
                                    Seq::empty()
                                };
                                let all = kernel_sigs_from(t, from);
                                assert(all == head + kernel_sigs_from(t, close + 1));
                                if name.len() > 0 {
                                    assert(is_identifier(name));
                                }
                                assert forall|i: int| 0 <= i < all.len() implies is_identifier(
                                    #[trigger] all[i].0,
                                ) by {
                                    if i < head.len() {
                                        assert(all[i] == head[i]);
                                    } else {
                                        assert(all[i] == kernel_sigs_from(t, close + 1)[i
                                            - head.len()]);
                                    }
                                }
                            },
                            None => {
                                lemma_kernel_sig_names(t, after);
                                assert(kernel_sigs_from(t, from) == kernel_sigs_from(t, after));
                            },
                        }
                    },
                }
            },
        }
    }
}

/// Every kernel found in C source has a non-empty name made of identifier characters.
pub proof fn law_found_kernel_names_are_identifiers(src: Seq<char>)
    ensures
        forall|i: int|
            0 <= i < spec_find_kernels(src).len() ==> is_identifier(
                #[trigger] spec_find_kernels(src)[i].0,
            ),
{
    lemma_kernel_sig_names(spec_strip_comments(src), 0);
}

proof fn lemma_kernels_from_names(sigs: Seq<Signature>, i: int)
    requires
        0 <= i <= sigs.len(),
    ensures
        kernels_from(sigs, i) matches Ok(ks) ==> {
            &&& ks.len() == sigs.len() - i
            &&& forall|j: int|
                0 <= j < ks.len() ==> (#[trigger] ks[j]).name == sigs[i + j].0 && spec_parse_params(
                    sigs[i + j].1,
                ) == Ok::<Seq<crate::model::ParamView>, Seq<char>>(ks[j].params)
        },
    decreases sigs.len() - i,
{
    if i < sigs.len() {
        lemma_kernels_from_names(sigs, i + 1);
        match spec_parse_params(sigs[i].1) {
            Err(_) => {},
            Ok(ps) => match kernels_from(sigs, i + 1) {
                Err(_) => {},
                Ok(rest) => {
                    let head = KernelView { name: sigs[i].0, params: ps };
                    let ks = seq![head] + rest;
                    assert(kernels_from(sigs, i) == Ok::<
                        Seq<KernelView>,
                        (Seq<char>, Seq<char>),
                    >(ks));
                    assert forall|j: int| 0 <= j < ks.len() implies (#[trigger] ks[j]).name
                        == sigs[i + j].0 && spec_parse_params(sigs[i + j].1) == Ok::<
                        Seq<crate::model::ParamView>,
                        Seq<char>,
                    >(ks[j].params) by {
                        if j > 0 {
                            assert(ks[j] == rest[j - 1]);
                            assert(i + j == (i + 1) + (j - 1));
                        }
                    }
                },
            },
        }
    }
}

/// When kernel parsing succeeds, it yields one kernel per found signature, in order, named as
/// found and with the parameters that parsing the signature's parameter text yields.
pub proof fn law_parsed_kernels_follow_signatures(src: Seq<char>)
    ensures
        spec_parse_kernels(src) matches Ok(ks) ==> {
            &&& ks.len() == spec_find_kernels(src).len()
            &&& forall|j: int|
                0 <= j < ks.len() ==> (#[trigger] ks[j]).name == spec_find_kernels(src)[j].0
                    && spec_parse_params(spec_find_kernels(src)[j].1) == Ok::<
                    Seq<crate::model::ParamView>,
                    Seq<char>,
                >(ks[j].params)
        },
{
    lemma_kernels_from_names(spec_find_kernels(src), 0);
}

// ---------------------------------------------------------------------------------------------
// Parameters.
// ---------------------------------------------------------------------------------------------

proof fn lemma_param_types(raw: Seq<char>, idx: nat)
    ensures
        param_from(raw, idx) matches Ok(p) ==> p.rust_ty == p.base_ty,
{
}

proof fn lemma_params_from(parts: Seq<Seq<char>>, i: int)
    requires
        0 <= i <= parts.len(),
    ensures
        params_from(parts, i) matches Ok(ps) ==> {
            &&& ps.len() == parts.len() - i
            &&& forall|j: int|
                0 <= j < ps.len() ==> (#[trigger] ps[j]).rust_ty == ps[j].base_ty
                    && param_from(parts[i + j], (i + j) as nat) == Ok::<
                    crate::model::ParamView,
                    Seq<char>,
                >(ps[j])
        },
    decreases parts.len() - i,
{
    if i < parts.len() {
        lemma_params_from(parts, i + 1);
        match param_from(parts[i], i as nat) {
            Err(_) => {},
            Ok(p) => match params_from(parts, i + 1) {
                Err(_) => {},
                Ok(rest) => {
                    lemma_param_types(parts[i], i as nat);
                    let ps = seq![p] + rest;
                    assert(params_from(parts, i) == Ok::<
                        Seq<crate::model::ParamView>,
                        Seq<char>,
                    >(ps));
                    assert forall|j: int| 0 <= j < ps.len() implies (#[trigger] ps[j]).rust_ty
                        == ps[j].base_ty && param_from(parts[i + j], (i + j) as nat) == Ok::<
                        crate::model::ParamView,
                        Seq<char>,
                    >(ps[j]) by {
                        if j > 0 {
                            assert(ps[j] == rest[j - 1]);
                            assert(i + j == (i + 1) + (j - 1));
                        }
                    }
                },
            },
        }
    }
}

/// A parameter list that parses yields one parameter per top-level part, each the reading of
/// that part at its position, and each parameter's Rust type is its base type.
pub proof fn law_parsed_params_follow_parts(s: Seq<char>)
    ensures
        spec_parse_params(s) matches Ok(ps) ==> forall|j: int|
            0 <= j < ps.len() ==> (#[trigger] ps[j]).rust_ty == ps[j].base_ty,
        spec_parse_params(s) matches Ok(ps) ==> (ps.len() > 0 ==> ps.len()
            == crate::params::spec_split_params(crate::text::trim(s)).len()),
{
    let t = crate::text::trim(s);
    if !(t.len() == 0 || t == "void"@) {
        lemma_params_from(crate::params::spec_split_params(t), 0);
    }
}

// ---------------------------------------------------------------------------------------------
// Shapes and layouts.
// ---------------------------------------------------------------------------------------------

proof fn lemma_product_split(dims: Seq<usize>, k: int)
    requires
        0 <= k <= dims.len(),
    ensures
        product(dims) == product(dims.take(k)) * product(dims.skip(k)),
    decreases dims.len() - k,
{
    if k == dims.len() {
        assert(dims.take(k) =~= dims);
        assert(dims.skip(k) =~= Seq::<usize>::empty());
        assert(product(dims.skip(k)) == 1);
        assert(product(dims) * 1 == product(dims));
    } else {
        lemma_product_split(dims, k + 1);
        assert(dims.take(k + 1).drop_last() =~= dims.take(k));
        assert(dims.take(k + 1).last() == dims[k]);
        let a = product(dims.take(k));
        let b = dims[k] as nat;
        let c = product(dims.skip(k + 1));
        assert(product(dims.take(k + 1)) == a * b);
        lemma_product_prepend(dims.skip(k));
        assert(dims.skip(k).drop_first() =~= dims.skip(k + 1));
        assert(product(dims.skip(k)) == b * c);
        assert(product(dims) == (a * b) * c);
        assert((a * b) * c == a * (b * c)) by (nonlinear_arith);
    }
}

proof fn lemma_product_prepend(dims: Seq<usize>)
    requires
        dims.len() > 0,
    ensures
        product(dims) == (dims[0] as nat) * product(dims.drop_first()),
    decreases dims.len(),
{
    if dims.len() == 1 {
        assert(dims.drop_last() =~= Seq::<usize>::empty());
        assert(dims.drop_first() =~= Seq::<usize>::empty());
        assert(product(dims.drop_last()) == 1);
        assert(product(dims.drop_first()) == 1);
        assert(dims.last() == dims[0]);
        assert(product(dims) == (dims[0] as nat));
    } else {
        lemma_product_prepend(dims.drop_last());
        assert(dims.drop_last().drop_first() =~= dims.drop_first().drop_last());
        let a = dims[0] as nat;
        let m = product(dims.drop_first().drop_last());
        let l = dims.last() as nat;
        assert(dims.drop_last()[0] == dims[0]);
        assert(dims.drop_first().last() == dims.last());
        assert(product(dims.drop_last()) == a * m);
        assert(product(dims) == (a * m) * l);
        assert(product(dims.drop_first()) == m * l);
        assert((a * m) * l == a * (m * l)) by (nonlinear_arith);
    }
}

proof fn lemma_suffix_product_bounded(dims: Seq<usize>, i: int)
    requires
        prefix_products_fit(dims),
        0 <= i < dims.len(),
        product(dims) > 0,
    ensures
        product(dims.skip(i + 1)) <= usize::MAX,
{
    lemma_product_split(dims, i + 1);
    assert(product(dims.take(i + 1)) >= 1) by {
        lemma_product_split(dims, i + 1);
        if product(dims.take(i + 1)) == 0 {
            assert(product(dims) == 0) by (nonlinear_arith)
                requires
                    product(dims) == product(dims.take(i + 1)) * product(dims.skip(i + 1)),
                    product(dims.take(i + 1)) == 0,
            ;
        }
    }
    assert(product(dims.take(dims.len() as int)) <= usize::MAX);
    assert(dims.take(dims.len() as int) =~= dims);
    let p = product(dims.take(i + 1));
    let q = product(dims.skip(i + 1));
    assert(q <= p * q) by (nonlinear_arith)
        requires
            p >= 1,
    ;
}

/// Row-major strides are suffix products: when the element count of a non-empty shape fits,
/// no stride saturates, and the stride of each dimension is the product of the extents inside
/// it.
pub proof fn law_strides_are_suffix_products(dims: Seq<usize>, i: int)
    requires
        prefix_products_fit(dims),
        product(dims) > 0,
        0 <= i < dims.len(),
    ensures
        contiguous_stride(dims, i) == product(dims.skip(i + 1)),
    decreases dims.len() - i,
{
    if i + 1 >= dims.len() {
        assert(dims.skip(i + 1) =~= Seq::<usize>::empty());
    } else {
        law_strides_are_suffix_products(dims, i + 1);
        lemma_product_prepend(dims.skip(i + 1));
        assert(dims.skip(i + 1).drop_first() =~= dims.skip(i + 2));
        assert(dims.skip(i + 1)[0] == dims[i + 1]);
        lemma_suffix_product_bounded(dims, i);
        let s = product(dims.skip(i + 2));
        let d = dims[i + 1] as nat;
        assert(s * d == d * s) by (nonlinear_arith);
    }
}

/// Reshaping to another shape of the same element count and back gives the tensor it started
/// from, and a reshaped tensor is still well formed.
pub proof fn law_reshape_round_trip(t: LayoutView, dims: Seq<usize>)
    requires
        layout_wf(t),
        prefix_products_fit(dims),
        product(dims) == t.len,
    ensures
        layout_wf(reshaped(t, dims)),
        reshaped(reshaped(t, dims), t.shape) == t,
{
}

/// Every tensor layout is row-major.
pub proof fn law_layouts_are_contiguous(t: LayoutView)
    requires
        layout_wf(t),
    ensures
        contiguity_check(t) is None,
{
}

/// A tensor is an acceptable output of itself (and so of a zero-filled tensor made like it)
/// exactly when the kernels take its element count.
pub proof fn law_output_like_input(a: LayoutView, out: LayoutView)
    requires
        layout_wf(a),
        out == a,
    ensures
        output_check(a, out) == kernel_len_check(a.len),
{
}

// ---------------------------------------------------------------------------------------------
// Configuration.
// ---------------------------------------------------------------------------------------------

/// Each setter changes only its own setting, and the last value set is the one kept.
pub proof fn law_config_last_write_wins(c: ConfigView, a: Seq<char>, b: Seq<char>)
    ensures
        c.with_kernels_dir(a).with_kernels_dir(b) == c.with_kernels_dir(b),
        c.with_out_dir(a).with_out_dir(b) == c.with_out_dir(b),
        c.with_generated_file_name(a).with_generated_file_name(b) == c.with_generated_file_name(b),
        c.with_cudarc_crate_path(a).with_cudarc_crate_path(b) == c.with_cudarc_crate_path(b),
        c.with_compute_capability(Some(a)).with_compute_capability(Some(b))
            == c.with_compute_capability(Some(b)),
        c.with_kernels_dir(a).out_dir == c.out_dir,
        c.with_out_dir(a).kernels_dir == c.kernels_dir,
        c.with_include_path(a).nvrtc_options == c.nvrtc_options,
        c.with_nvrtc_option(a).include_paths == c.include_paths,
{
}

/// Clearing the compute capability undoes setting one.
pub proof fn law_compute_capability_cleared(c: ConfigView, cap: Seq<char>)
    ensures
        c.with_compute_capability(Some(cap)).with_compute_capability(None)
            == c.with_compute_capability(None),
{
}

/// Include paths and raw options accumulate in the order they are added.
pub proof fn law_config_lists_accumulate(c: ConfigView, a: Seq<char>, b: Seq<char>)
    ensures
        c.with_include_path(a).with_include_path(b).include_paths == c.include_paths + seq![a, b],
        c.with_nvrtc_option(a).with_nvrtc_option(b).nvrtc_options == c.nvrtc_options + seq![a, b],
{
    assert(c.include_paths.push(a).push(b) =~= c.include_paths + seq![a, b]);
    assert(c.nvrtc_options.push(a).push(b) =~= c.nvrtc_options + seq![a, b]);
}

/// A new configuration keeps the directories it was given, writes `gen_kernels.rs`, refers to
/// `cudarc` by its own name, emits Cargo directives and leaves every compiler setting unset.
pub proof fn law_config_defaults(kernels_dir: Seq<char>, out_dir: Seq<char>)
    ensures
        default_config(kernels_dir, out_dir).kernels_dir == kernels_dir,
        default_config(kernels_dir, out_dir).out_dir == out_dir,
        default_config(kernels_dir, out_dir).compute_capability is None,
        default_config(kernels_dir, out_dir).include_paths.len() == 0,
        default_config(kernels_dir, out_dir).nvrtc_options.len() == 0,
        default_config(kernels_dir, out_dir).use_fast_math is None,
        default_config(kernels_dir, out_dir).max_register_count is None,
        default_config(kernels_dir, out_dir).emit_cargo_directives,
{
}

} // verus!
