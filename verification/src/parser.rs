use vstd::prelude::*;
use vstd::string::StringSliceAdditionalSpecFns;

use crate::model::{kernels_view, Kernel, KernelView};
use crate::params::{parse_param_chars, spec_parse_params};
use crate::text::{
    chars_of, find_chars, find_from, ident_suffix, ident_suffix_start, lemma_find_from_bounds,
    starts_with, starts_with_at, string_from_chars, sub_chars, trim_end, trim_end_index, trim_start,
    trim_start_index,
};

verus! {

// ---------------------------------------------------------------------------------------------
// Comments.
// ---------------------------------------------------------------------------------------------

/// The position of the first newline at or after `i` (or the end of `s`).
pub open spec fn line_end(s: Seq<char>, i: int) -> int
    decreases s.len() - i,
{
    if i >= s.len() || s[i] == '\n' {
        i
    } else {
        line_end(s, i + 1)
    }
}

/// The position, at or after `i`, of the `*` that opens the first `*/`; when none follows, the
/// last position of `s` (or `i` itself past it).
pub open spec fn block_end(s: Seq<char>, i: int) -> int
    decreases s.len() - i,
{
    if i + 1 >= s.len() || (s[i] == '*' && s[i + 1] == '/') {
        i
    } else {
        block_end(s, i + 1)
    }
}

pub proof fn lemma_line_end(s: Seq<char>, i: int)
    ensures
        i <= line_end(s, i),
        i <= s.len() ==> line_end(s, i) <= s.len(),
        0 <= i < s.len() && s[i] != '\n' ==> i < line_end(s, i),
    decreases s.len() - i,
{
    if i >= s.len() || s[i] == '\n' {
    } else {
        lemma_line_end(s, i + 1);
    }
}

pub proof fn lemma_block_end(s: Seq<char>, i: int)
    ensures
        i <= block_end(s, i),
        block_end(s, i) < s.len() || block_end(s, i) == i,
    decreases s.len() - i,
{
    if i + 1 >= s.len() || (s[i] == '*' && s[i + 1] == '/') {
    } else {
        lemma_block_end(s, i + 1);
    }
}

/// What is left of `s[i..]` once `//` line comments (up to, not including, the newline) and
/// `/* ... */` block comments (an unterminated one runs to the end) are removed; text inside
/// string literals is not treated specially.
pub open spec fn strip_from(s: Seq<char>, i: int) -> Seq<char>
    decreases s.len() + 4 - i,
{
    if i < 0 || i >= s.len() {
        Seq::empty()
    } else if s[i] == '/' && i + 1 < s.len() && s[i + 1] == '/' {
        proof {
            lemma_line_end(s, i);
        }
        strip_from(s, line_end(s, i))
    } else if s[i] == '/' && i + 1 < s.len() && s[i + 1] == '*' {
        proof {
            lemma_block_end(s, i + 2);
        }
        strip_from(s, block_end(s, i + 2) + 2)
    } else {
        seq![s[i]] + strip_from(s, i + 1)
    }
}

/// `s` with its C comments removed.
pub open spec fn spec_strip_comments(s: Seq<char>) -> Seq<char> {
    strip_from(s, 0)
}

/// Removes `//` and `/* */` comments.
pub fn strip_comment_chars(s: &[char]) -> (r: Vec<char>)
    ensures
        r@ == spec_strip_comments(s@),
{
    let n = s.len();
    let mut out: Vec<char> = Vec::new();
    let mut i: usize = 0;
    while i < n
        invariant
            n == s@.len(),
            i <= n,
            out@ + strip_from(s@, i as int) == spec_strip_comments(s@),
        decreases n - i,
    {
        if s[i] == '/' && i + 1 < n && s[i + 1] == '/' {
            let ghost start = i as int;
            while i < n && s[i] != '\n'
                invariant
                    n == s@.len(),
                    start <= i <= n,
                    line_end(s@, start) == line_end(s@, i as int),
                decreases n - i,
            {
                i = i + 1;
            }
        } else if s[i] == '/' && i + 1 < n && s[i + 1] == '*' {
            let ghost start = i as int;
            i = i + 2;
            while i < n && i + 1 < n && !(s[i] == '*' && s[i + 1] == '/')
                invariant
                    n == s@.len(),
                    start + 2 <= i,
                    i <= n,
                    block_end(s@, start + 2) == block_end(s@, i as int),
                decreases n - i,
            {
                i = i + 1;
            }
            proof {
                lemma_block_end(s@, start + 2);
            }
            if n - i >= 2 {
                i = i + 2;
            } else {
                assert(strip_from(s@, i + 2) =~= Seq::<char>::empty());
                i = n;
            }
        } else {
            assert(out@ + strip_from(s@, i as int) =~= out@.push(s@[i as int]) + strip_from(
                s@,
                i + 1,
            ));
            out.push(s[i]);
            i = i + 1;
        }
    }
    assert(out@ + strip_from(s@, i as int) =~= out@);
    out
}

/// Removes `//` and `/* */` comments from C source text.
pub fn strip_comments(src: &str) -> (r: String)
    ensures
        r@ == spec_strip_comments(src@),
{
    let s = chars_of(src);
    let out = strip_comment_chars(s.as_slice());
    string_from_chars(out.as_slice())
}

// ---------------------------------------------------------------------------------------------
// Parentheses.
// ---------------------------------------------------------------------------------------------

/// Opening minus closing parentheses among `s[open..k]`.
pub open spec fn paren_balance(s: Seq<char>, open: int, k: int) -> int
    decreases k - open,
{
    if k <= open {
        0
    } else {
        paren_balance(s, open, k - 1) + (if s[k - 1] == '(' {
            1int
        } else if s[k - 1] == ')' {
            -1int
        } else {
            0int
        })
    }
}

/// Whether the `)` at `k` brings the parentheses counted from `open` back to balance.
pub open spec fn closes_at(s: Seq<char>, open: int, k: int) -> bool {
    open <= k < s.len() && s[k] == ')' && paren_balance(s, open, k + 1) == 0
}

/// The first position at or after `k` that closes the group counted from `open`.
pub open spec fn close_from(s: Seq<char>, open: int, k: int) -> Option<int>
    decreases s.len() - k,
{
    if k < open || k >= s.len() {
        None
    } else if closes_at(s, open, k) {
        Some(k)
    } else {
        close_from(s, open, k + 1)
    }
}

/// The position of the parenthesis that closes the one at `open`: the first `)` at which the
/// count of `(` minus `)` from `open` on returns to zero.
pub open spec fn matching_close(s: Seq<char>, open: int) -> Option<int> {
    close_from(s, open, open)
}

pub proof fn lemma_close_from(s: Seq<char>, open: int, k: int)
    requires
        open <= k,
    ensures
        close_from(s, open, k) matches Some(c) ==> k <= c < s.len() && closes_at(s, open, c),
        close_from(s, open, k) is None ==> forall|j: int| k <= j ==> !#[trigger] closes_at(s, open, j),
    decreases s.len() - k,
{
    if k >= s.len() {
    } else if closes_at(s, open, k) {
    } else {
        lemma_close_from(s, open, k + 1);
        assert forall|j: int| k <= j && close_from(s, open, k) is None implies !#[trigger] closes_at(s, open, j) by {
            if j > k {
            }
        }
    }
}

/// The position of the parenthesis matching the one at `open`, if any.
pub fn matching_paren_chars(s: &[char], open: usize) -> (r: Option<usize>)
    ensures
        r matches Some(c) ==> matching_close(s@, open as int) == Some(c as int),
        r is None ==> matching_close(s@, open as int) is None,
{
    let n = s.len();
    let mut opens: usize = 0;
    let mut closes: usize = 0;
    let mut i = open;
    while i < n
        invariant
            n == s@.len(),
            open <= i,
            opens + closes <= i - open,
            opens - closes == paren_balance(s@, open as int, i as int),
            close_from(s@, open as int, open as int) == close_from(s@, open as int, i as int),
        decreases n - i,
    {
        if s[i] == '(' {
            opens = opens + 1;
        } else if s[i] == ')' {
            closes = closes + 1;
            if opens == closes {
                return Some(i);
            }
        }
        i = i + 1;
    }
    None
}

/// Opening minus closing parentheses among the bytes `b[open..k]`.
pub open spec fn byte_paren_balance(b: Seq<u8>, open: int, k: int) -> int
    decreases k - open,
{
    if k <= open {
        0
    } else {
        byte_paren_balance(b, open, k - 1) + (if b[k - 1] == 0x28u8 {
            1int
        } else if b[k - 1] == 0x29u8 {
            -1int
        } else {
            0int
        })
    }
}

/// Whether the `)` byte at `k` brings the parentheses counted from byte `open` back to balance.
pub open spec fn byte_closes_at(b: Seq<u8>, open: int, k: int) -> bool {
    open <= k < b.len() && b[k] == 0x29u8 && byte_paren_balance(b, open, k + 1) == 0
}

/// The first byte position at or after `k` that closes the group counted from `open`.
pub open spec fn byte_close_from(b: Seq<u8>, open: int, k: int) -> Option<int>
    decreases b.len() - k,
{
    if k < open || k >= b.len() {
        None
    } else if byte_closes_at(b, open, k) {
        Some(k)
    } else {
        byte_close_from(b, open, k + 1)
    }
}

/// The byte position of the parenthesis that closes the one at byte `open`: the first `)` at
/// which the count of `(` minus `)` from `open` on returns to zero.
pub open spec fn byte_matching_close(b: Seq<u8>, open: int) -> Option<int> {
    byte_close_from(b, open, open)
}

/// The byte position of the parenthesis matching the one at byte position `open` of the UTF-8
/// text `s`, if any.
pub fn matching_paren(s: &str, open: usize) -> (r: Option<usize>)
    ensures
        r matches Some(c) ==> byte_matching_close(s.spec_bytes(), open as int) == Some(c as int),
        r is None ==> byte_matching_close(s.spec_bytes(), open as int) is None,
{
    let b = s.as_bytes();
    let n = b.len();
    let mut opens: usize = 0;
    let mut closes: usize = 0;
    let mut i = open;
    while i < n
        invariant
            n == b@.len(),
            b@ == s.spec_bytes(),
            open <= i,
            opens + closes <= i - open,
            opens - closes == byte_paren_balance(b@, open as int, i as int),
            byte_close_from(b@, open as int, open as int) == byte_close_from(
                b@,
                open as int,
                i as int,
            ),
        decreases n - i,
    {
        if b[i] == 0x28u8 {
            opens = opens + 1;
        } else if b[i] == 0x29u8 {
            closes = closes + 1;
            if opens == closes {
                return Some(i);
            }
        }
        i = i + 1;
    }
    None
}

// ---------------------------------------------------------------------------------------------
// Signatures.
// ---------------------------------------------------------------------------------------------

/// The CUDA kernel qualifier `__global__`.
pub open spec fn global_kw() -> Seq<char> {
    seq!['_', '_', 'g', 'l', 'o', 'b', 'a', 'l', '_', '_']
}

/// The linkage specifier `extern "C"`.
pub open spec fn extern_c_kw() -> Seq<char> {
    seq!['e', 'x', 't', 'e', 'r', 'n', ' ', '"', 'C', '"']
}

/// The return type prefix `int ` of a native function.
pub open spec fn int_kw() -> Seq<char> {
    seq!['i', 'n', 't', ' ']
}

/// The return type prefix `void ` of a native function.
pub open spec fn void_kw() -> Seq<char> {
    seq!['v', 'o', 'i', 'd', ' ']
}

/// A name with the text between its parentheses.
pub type Signature = (Seq<char>, Seq<char>);

/// The name written just before the parenthesis at `open`, searched back from `open` to
/// `after`: the identifier characters that end the text once trailing whitespace is dropped.
pub open spec fn signature_name(t: Seq<char>, after: int, open: int) -> Seq<char> {
    ident_suffix(trim_end(t.subrange(after, open)))
}

/// The `__global__` kernel signatures of the comment-free text `t` at or after `from`: after
/// each `__global__`, the name before the next `(` and the text up to its matching `)`; a
/// search resumes after the `)` (or after the keyword when no group closes). Nameless groups
/// are skipped.
pub open spec fn kernel_sigs_from(t: Seq<char>, from: int) -> Seq<Signature>
    decreases t.len() - from,
{
    if from < 0 || from > t.len() {
        Seq::empty()
    } else {
        match find_from(t, global_kw(), from) {
            None => Seq::empty(),
            Some(pos) => {
                proof {
                    lemma_find_from_bounds(t, global_kw(), from);
                }
                let after = pos + 10;
                match find_from(t, seq!['('], after) {
                    None => kernel_sigs_from(t, after),
                    Some(open) => {
                        proof {
                            lemma_find_from_bounds(t, seq!['('], after);
                            lemma_close_from(t, open, open);
                        }
                        let name = signature_name(t, after, open);
                        match matching_close(t, open) {
                            Some(close) => (if name.len() > 0 {
                                seq![(name, t.subrange(open + 1, close))]
                            } else {
                                Seq::empty()
                            }) + kernel_sigs_from(t, close + 1),
                            None => kernel_sigs_from(t, after),
                        }
                    },
                }
            },
        }
    }
}

/// The native function signatures of the comment-free text `t` at or after `from`: after each
/// `extern "C"` that is followed (past whitespace) by `int ` or `void ` rather than
/// `__global__`, the name before the next `(` and the text up to its matching `)`.
pub open spec fn native_sigs_from(t: Seq<char>, from: int) -> Seq<Signature>
    decreases t.len() - from,
{
    if from < 0 || from > t.len() {
        Seq::empty()
    } else {
        match find_from(t, extern_c_kw(), from) {
            None => Seq::empty(),
            Some(pos) => {
                proof {
                    lemma_find_from_bounds(t, extern_c_kw(), from);
                }
                let after = pos + 10;
                let rest = trim_start(t.skip(after));
                if starts_with(rest, global_kw()) {
                    native_sigs_from(t, after)
                } else if !(starts_with(rest, int_kw()) || starts_with(rest, void_kw())) {
                    native_sigs_from(t, after)
                } else {
                    match find_from(t, seq!['('], after) {
                        None => native_sigs_from(t, after),
                        Some(open) => {
                            proof {
                                lemma_find_from_bounds(t, seq!['('], after);
                                lemma_close_from(t, open, open);
                            }
                            let name = signature_name(t, after, open);
                            match matching_close(t, open) {
                                Some(close) => (if name.len() > 0 {
                                    seq![(name, t.subrange(open + 1, close))]
                                } else {
                                    Seq::empty()
                                }) + native_sigs_from(t, close + 1),
                                None => native_sigs_from(t, after),
                            }
                        },
                    }
                }
            },
        }
    }
}

/// The kernel signatures of C source text, comments removed first.
pub open spec fn spec_find_kernels(src: Seq<char>) -> Seq<Signature> {
    kernel_sigs_from(spec_strip_comments(src), 0)
}

/// The native function signatures of C source text, comments removed first.
pub open spec fn spec_find_native_functions(src: Seq<char>) -> Seq<Signature> {
    native_sigs_from(spec_strip_comments(src), 0)
}

/// The views of found signatures.
pub open spec fn sigs_view(v: Seq<(Vec<char>, Vec<char>)>) -> Seq<Signature> {
    v.map_values(|p: (Vec<char>, Vec<char>)| (p.0@, p.1@))
}

/// Reads the group that follows `after`: the position of `(`, the name before it and the
/// position of the matching `)`.
fn read_group(t: &[char], after: usize) -> (r: Option<(usize, Vec<char>, Option<usize>)>)
    requires
        after <= t@.len(),
    ensures
        r is None ==> find_from(t@, seq!['('], after as int) is None,
        r matches Some((open, name, close)) ==> {
            &&& find_from(t@, seq!['('], after as int) == Some(open as int)
            &&& after <= open < t@.len()
            &&& name@ == signature_name(t@, after as int, open as int)
            &&& close matches Some(c) ==> matching_close(t@, open as int) == Some(c as int) && open
                < c < t@.len()
            &&& close is None ==> matching_close(t@, open as int) is None
        },
{
    let paren: Vec<char> = vec!['('];
    assert(paren@ =~= seq!['(']);
    match find_chars(t, paren.as_slice(), after) {
        None => None,
        Some(open) => {
            proof {
                lemma_find_from_bounds(t@, seq!['('], after as int);
                lemma_close_from(t@, open as int, open as int);
            }
            let e = trim_end_index(t, after, open);
            let b = ident_suffix_start(t, after, e);
            let name = sub_chars(t, b, e);
            let close = matching_paren_chars(t, open);
            assert(t@[open as int] == '(') by {
                assert(t@.subrange(open as int, open + 1)[0] == t@[open as int]);
            }
            Some((open, name, close))
        },
    }
}

/// Finds the `__global__` kernel signatures of comment-free text.
pub fn find_kernel_sigs(t: &[char]) -> (r: Vec<(Vec<char>, Vec<char>)>)
    ensures
        sigs_view(r@) == kernel_sigs_from(t@, 0),
{
    let n = t.len();
    let kw = chars_of("__global__");
    proof {
        reveal_strlit("__global__");
    }
    assert(kw@ =~= global_kw());
    let mut res: Vec<(Vec<char>, Vec<char>)> = Vec::new();
    let mut from: usize = 0;
    while from <= n
        invariant
            n == t@.len(),
            from <= n,
            kw@ == global_kw(),
            sigs_view(res@) + kernel_sigs_from(t@, from as int) == kernel_sigs_from(t@, 0),
        decreases n - from,
    {
        let pos = match find_chars(t, kw.as_slice(), from) {
            None => {
                assert(sigs_view(res@) + kernel_sigs_from(t@, from as int) =~= sigs_view(res@));
                return res;
            },
            Some(p) => p,
        };
        proof {
            lemma_find_from_bounds(t@, global_kw(), from as int);
        }
        let after = pos + 10;
        match read_group(t, after) {
            None => {
                from = after;
            },
            Some((open, name, close)) => {
                match close {
                    None => {
                        from = after;
                    },
                    Some(c) => {
                        let ghost old_res = res@;
                        if name.len() > 0 {
                            let body = sub_chars(t, open + 1, c);
                            res.push((name, body));
                            assert(sigs_view(res@) =~= sigs_view(old_res) + seq![
                                (signature_name(t@, after as int, open as int), t@.subrange(
                                    open + 1,
                                    c as int,
                                )),
                            ]);
                        } else {
                            assert(sigs_view(res@) =~= sigs_view(old_res) + Seq::empty());
                        }
                        assert(kernel_sigs_from(t@, from as int) == (if name@.len() > 0 {
                            seq![(name@, t@.subrange(open + 1, c as int))]
                        } else {
                            Seq::empty()
                        }) + kernel_sigs_from(t@, c + 1));
                        from = c + 1;
                    },
                }
            },
        }
    }
    res
}

/// Finds the native function signatures of comment-free text.
pub fn find_native_sigs(t: &[char]) -> (r: Vec<(Vec<char>, Vec<char>)>)
    ensures
        sigs_view(r@) == native_sigs_from(t@, 0),
{
    let n = t.len();
    let kw = chars_of("extern \"C\"");
    proof {
        reveal_strlit("extern \"C\"");
        reveal_strlit("__global__");
        reveal_strlit("int ");
        reveal_strlit("void ");
    }
    assert(kw@ =~= extern_c_kw());
    assert("__global__"@ =~= global_kw());
    assert("int "@ =~= int_kw());
    assert("void "@ =~= void_kw());
    let mut res: Vec<(Vec<char>, Vec<char>)> = Vec::new();
    let mut from: usize = 0;
    while from <= n
        invariant
            n == t@.len(),
            from <= n,
            kw@ == extern_c_kw(),
            "__global__"@ == global_kw(),
            "int "@ == int_kw(),
            "void "@ == void_kw(),
            sigs_view(res@) + native_sigs_from(t@, from as int) == native_sigs_from(t@, 0),
        decreases n - from,
    {
        let pos = match find_chars(t, kw.as_slice(), from) {
            None => {
                assert(sigs_view(res@) + native_sigs_from(t@, from as int) =~= sigs_view(res@));
                return res;
            },
            Some(p) => p,
        };
        proof {
            lemma_find_from_bounds(t@, extern_c_kw(), from as int);
        }
        let after = pos + 10;
        let b = trim_start_index(t, after, n);
        assert(t@.skip(after as int) =~= t@.subrange(after as int, n as int));
        assert(t@.skip(b as int) =~= t@.subrange(b as int, n as int));
        if starts_with_at(t, b, "__global__") {
            from = after;
        } else if !(starts_with_at(t, b, "int ") || starts_with_at(t, b, "void ")) {
            from = after;
        } else {
            match read_group(t, after) {
                None => {
                    from = after;
                },
                Some((open, name, close)) => {
                    match close {
                        None => {
                            from = after;
                        },
                        Some(c) => {
                            let ghost old_res = res@;
                            if name.len() > 0 {
                                let body = sub_chars(t, open + 1, c);
                                res.push((name, body));
                                assert(sigs_view(res@) =~= sigs_view(old_res) + seq![
                                    (signature_name(t@, after as int, open as int), t@.subrange(
                                        open + 1,
                                        c as int,
                                    )),
                                ]);
                            } else {
                                assert(sigs_view(res@) =~= sigs_view(old_res) + Seq::empty());
                            }
                            assert(native_sigs_from(t@, from as int) == (if name@.len() > 0 {
                                seq![(name@, t@.subrange(open + 1, c as int))]
                            } else {
                                Seq::empty()
                            }) + native_sigs_from(t@, c + 1));
                            from = c + 1;
                        },
                    }
                },
            }
        }
    }
    res
}

/// Turns found signatures into owned strings.
fn sigs_to_strings(v: &Vec<(Vec<char>, Vec<char>)>) -> (r: Vec<(String, String)>)
    ensures
        r@.len() == v@.len(),
        forall|i: int|
            0 <= i < r@.len() ==> (#[trigger] r@[i]).0@ == v@[i].0@ && r@[i].1@ == v@[i].1@,
{
    let mut out: Vec<(String, String)> = Vec::new();
    let mut i: usize = 0;
    while i < v.len()
        invariant
            i <= v@.len(),
            out@.len() == i,
            forall|j: int|
                0 <= j < i ==> (#[trigger] out@[j]).0@ == v@[j].0@ && out@[j].1@ == v@[j].1@,
        decreases v.len() - i,
    {
        let name = string_from_chars(v[i].0.as_slice());
        let body = string_from_chars(v[i].1.as_slice());
        out.push((name, body));
        i = i + 1;
    }
    out
}

/// The names and parameter texts of the `__global__` kernels declared in C source text.
pub fn find_kernels(src: &str) -> (r: Vec<(String, String)>)
    ensures
        r@.len() == spec_find_kernels(src@).len(),
        forall|i: int|
            0 <= i < r@.len() ==> (#[trigger] r@[i]).0@ == spec_find_kernels(src@)[i].0 && r@[i].1@
                == spec_find_kernels(src@)[i].1,
{
    let cs = chars_of(src);
    let t = strip_comment_chars(cs.as_slice());
    let sigs = find_kernel_sigs(t.as_slice());
    sigs_to_strings(&sigs)
}

/// The names and parameter texts of the `extern "C"` native functions declared in C source
/// text.
pub fn find_native_functions(src: &str) -> (r: Vec<(String, String)>)
    ensures
        r@.len() == spec_find_native_functions(src@).len(),
        forall|i: int|
            0 <= i < r@.len() ==> (#[trigger] r@[i]).0@ == spec_find_native_functions(src@)[i].0
                && r@[i].1@ == spec_find_native_functions(src@)[i].1,
{
    let cs = chars_of(src);
    let t = strip_comment_chars(cs.as_slice());
    let sigs = find_native_sigs(t.as_slice());
    sigs_to_strings(&sigs)
}

// ---------------------------------------------------------------------------------------------
// Kernels.
// ---------------------------------------------------------------------------------------------

/// The kernels of the signatures `sigs[i..]`, or the name and error text of the first one whose
/// parameters cannot be read.
pub open spec fn kernels_from(sigs: Seq<Signature>, i: int) -> Result<
    Seq<KernelView>,
    (Seq<char>, Seq<char>),
>
    decreases sigs.len() - i,
{
    if i < 0 || i >= sigs.len() {
        Ok(Seq::empty())
    } else {
        match spec_parse_params(sigs[i].1) {
            Err(m) => Err((sigs[i].0, m)),
            Ok(ps) => match kernels_from(sigs, i + 1) {
                Ok(rest) => Ok(seq![KernelView { name: sigs[i].0, params: ps }] + rest),
                Err(e) => Err(e),
            },
        }
    }
}

/// The `__global__` kernels of C source text with their parameters.
pub open spec fn spec_parse_kernels(src: Seq<char>) -> Result<
    Seq<KernelView>,
    (Seq<char>, Seq<char>),
> {
    kernels_from(spec_find_kernels(src), 0)
}

/// The `extern "C"` native functions of C source text with their parameters.
pub open spec fn spec_parse_native_functions(src: Seq<char>) -> Result<
    Seq<KernelView>,
    (Seq<char>, Seq<char>),
> {
    kernels_from(spec_find_native_functions(src), 0)
}

/// Whether an outcome of parsing matches the expected kernels or error.
pub open spec fn kernels_match(
    r: Result<Vec<Kernel>, (String, String)>,
    spec: Result<Seq<KernelView>, (Seq<char>, Seq<char>)>,
) -> bool {
    match (r, spec) {
        (Ok(ks), Ok(vs)) => kernels_view(ks@) == vs,
        (Err((n, m)), Err((vn, vm))) => n@ == vn && m@ == vm,
        _ => false,
    }
}

/// Parses the parameters of each found signature.
#[verifier::spinoff_prover]
#[verifier::rlimit(30)]
fn kernels_of(sigs: &Vec<(Vec<char>, Vec<char>)>) -> (r: Result<Vec<Kernel>, (String, String)>)
    ensures
        kernels_match(r, kernels_from(sigs_view(sigs@), 0)),
{
    let ghost ss = sigs_view(sigs@);
    let mut out: Vec<Kernel> = Vec::new();
    let mut i: usize = 0;
    while i < sigs.len()
        invariant
            i <= sigs@.len(),
            ss == sigs_view(sigs@),
            kernels_from(ss, 0) == match kernels_from(ss, i as int) {
                Ok(rest) => Ok(kernels_view(out@) + rest),
                Err(e) => Err::<Seq<KernelView>, (Seq<char>, Seq<char>)>(e),
            },
        decreases sigs.len() - i,
    {
        assert(ss[i as int] == (sigs@[i as int].0@, sigs@[i as int].1@));
        match parse_param_chars(sigs[i].1.as_slice()) {
            Err(m) => {
                let name = string_from_chars(sigs[i].0.as_slice());
                let message = string_from_chars(m.as_slice());
                return Err((name, message));
            },
            Ok(params) => {
                let ghost prev = out@;
                let k = Kernel { name: string_from_chars(sigs[i].0.as_slice()), params };
                out.push(k);
                assert(kernels_view(out@) =~= kernels_view(prev).push(k@));
                proof {
                    match kernels_from(ss, i + 1) {
                        Ok(rest) => {
                            assert(kernels_view(prev) + (seq![k@] + rest) =~= kernels_view(out@)
                                + rest);
                        },
                        Err(_) => {},
                    }
                }
            },
        }
        i = i + 1;
    }
    assert(kernels_view(out@) + Seq::<KernelView>::empty() =~= kernels_view(out@));
    Ok(out)
}

/// Parses the `__global__` kernels declared in CUDA source text; on failure, the name of the
/// first kernel whose parameters cannot be read and the reason.
pub fn parse_kernels(src: &str) -> (r: Result<Vec<Kernel>, (String, String)>)
    ensures
        kernels_match(r, spec_parse_kernels(src@)),
{
    let cs = chars_of(src);
    let t = strip_comment_chars(cs.as_slice());
    let sigs = find_kernel_sigs(t.as_slice());
    kernels_of(&sigs)
}

/// Parses the `extern "C"` host functions (returning `int` or `void`) declared in CUDA source
/// text; on failure, the name of the first function whose parameters cannot be read and the
/// reason.
pub fn parse_native_functions(src: &str) -> (r: Result<Vec<Kernel>, (String, String)>)
    ensures
        kernels_match(r, spec_parse_native_functions(src@)),
{
    let cs = chars_of(src);
    let t = strip_comment_chars(cs.as_slice());
    let sigs = find_native_sigs(t.as_slice());
    kernels_of(&sigs)
}

} // verus!
