use vstd::prelude::*;

use crate::model::{params_view, Param, ParamView};
use crate::text::{
    chars_of, decimal, eq_str, find_chars, find_from, join_space, join_words, push_chars,
    push_decimal, push_str, replace_all, replace_with_space, split_words, string_from_chars,
    sub_chars, trim, trim_chars, word_views, words,
};

verus! {

// ---------------------------------------------------------------------------------------------
// Splitting a parameter list.
// ---------------------------------------------------------------------------------------------

/// A bracket that opens a nesting level: `<`, `(`, `[` or `{`.
pub open spec fn is_opener(c: char) -> bool {
    c == '<' || c == '(' || c == '[' || c == '{'
}

/// A bracket that closes a nesting level: `>`, `)`, `]` or `}`.
pub open spec fn is_closer(c: char) -> bool {
    c == '>' || c == ')' || c == ']' || c == '}'
}

/// After the first `k` characters of `s`: the finished (trimmed) parts, the part being read,
/// and the bracket nesting depth. A comma splits only at depth zero.
pub open spec fn split_state(s: Seq<char>, k: int) -> (Seq<Seq<char>>, Seq<char>, int)
    decreases k,
{
    if k <= 0 {
        (Seq::empty(), Seq::empty(), 0)
    } else {
        let (parts, cur, d) = split_state(s, k - 1);
        let c = s[k - 1];
        if is_opener(c) {
            (parts, cur.push(c), d + 1)
        } else if is_closer(c) {
            (parts, cur.push(c), d - 1)
        } else if c == ',' && d == 0 {
            (parts.push(trim(cur)), Seq::empty(), d)
        } else {
            (parts, cur.push(c), d)
        }
    }
}

/// The top-level comma-separated parts of `s`, each trimmed; a blank last part is dropped.
pub open spec fn spec_split_params(s: Seq<char>) -> Seq<Seq<char>> {
    let (parts, cur, _) = split_state(s, s.len() as int);
    if trim(cur).len() > 0 {
        parts.push(trim(cur))
    } else {
        parts
    }
}

/// Splits a parameter list at the commas that are not nested inside brackets.
pub fn split_param_chars(s: &[char]) -> (r: Vec<Vec<char>>)
    ensures
        word_views(r@) == spec_split_params(s@),
{
    let n = s.len();
    let mut parts: Vec<Vec<char>> = Vec::new();
    let mut cur: Vec<char> = Vec::new();
    let mut opens: usize = 0;
    let mut closes: usize = 0;
    let mut k: usize = 0;
    while k < n
        invariant
            n == s@.len(),
            k <= n,
            opens + closes <= k,
            word_views(parts@) == split_state(s@, k as int).0,
            cur@ == split_state(s@, k as int).1,
            opens - closes == split_state(s@, k as int).2,
        decreases n - k,
    {
        let c = s[k];
        let ghost before = parts@;
        if c == '<' || c == '(' || c == '[' || c == '{' {
            cur.push(c);
            opens = opens + 1;
        } else if c == '>' || c == ')' || c == ']' || c == '}' {
            cur.push(c);
            closes = closes + 1;
        } else if c == ',' && opens == closes {
            let part = trim_chars(cur.as_slice());
            parts.push(part);
            assert(word_views(parts@) =~= word_views(before).push(trim(cur@)));
            cur = Vec::new();
        } else {
            cur.push(c);
        }
        k = k + 1;
    }
    let last = trim_chars(cur.as_slice());
    let ghost before = parts@;
    if last.len() > 0 {
        parts.push(last);
        assert(word_views(parts@) =~= word_views(before).push(trim(cur@)));
    }
    parts
}

/// Splits a C parameter list at its top-level commas, trimming each part.
pub fn split_params(s: &str) -> (r: Vec<String>)
    ensures
        r@.len() == spec_split_params(s@).len(),
        forall|i: int| 0 <= i < r@.len() ==> #[trigger] r@[i]@ == spec_split_params(s@)[i],
{
    let cs = chars_of(s);
    let parts = split_param_chars(cs.as_slice());
    let mut out: Vec<String> = Vec::new();
    let mut i: usize = 0;
    while i < parts.len()
        invariant
            i <= parts@.len(),
            word_views(parts@) == spec_split_params(s@),
            out@.len() == i,
            forall|j: int| 0 <= j < i ==> #[trigger] out@[j]@ == spec_split_params(s@)[j],
        decreases parts.len() - i,
    {
        assert(word_views(parts@)[i as int] == parts@[i as int]@);
        out.push(string_from_chars(parts[i].as_slice()));
        i = i + 1;
    }
    out
}

// ---------------------------------------------------------------------------------------------
// Types.
// ---------------------------------------------------------------------------------------------

/// Words that can only be part of a C type: base types and qualifiers.
pub open spec fn spec_is_type_keyword(t: Seq<char>) -> bool {
    ||| t == "void"@
    ||| t == "float"@
    ||| t == "double"@
    ||| t == "int"@
    ||| t == "unsigned"@
    ||| t == "signed"@
    ||| t == "long"@
    ||| t == "short"@
    ||| t == "char"@
    ||| t == "size_t"@
    ||| t == "bool"@
    ||| t == "half"@
    ||| t == "cudaStream_t"@
    ||| t == "const"@
    ||| t == "volatile"@
}

/// Whether the word `t` is a C type keyword or qualifier.
pub fn is_type_keyword_chars(t: &[char]) -> (r: bool)
    ensures
        r == spec_is_type_keyword(t@),
{
    eq_str(t, "void") || eq_str(t, "float") || eq_str(t, "double") || eq_str(t, "int")
        || eq_str(t, "unsigned") || eq_str(t, "signed") || eq_str(t, "long") || eq_str(t, "short")
        || eq_str(t, "char") || eq_str(t, "size_t") || eq_str(t, "bool") || eq_str(t, "half")
        || eq_str(t, "cudaStream_t") || eq_str(t, "const") || eq_str(t, "volatile")
}

/// Whether the word `t` is a C type keyword or qualifier.
pub fn is_type_keyword(t: &str) -> (r: bool)
    ensures
        r == spec_is_type_keyword(t@),
{
    let cs = chars_of(t);
    is_type_keyword_chars(cs.as_slice())
}

/// The Rust type for a C base type whose words are separated by single spaces.
pub open spec fn rust_type_of(norm: Seq<char>) -> Option<Seq<char>> {
    if norm == "float"@ {
        Some("f32"@)
    } else if norm == "double"@ {
        Some("f64"@)
    } else if norm == "int"@ || norm == "signed int"@ || norm == "signed"@ {
        Some("i32"@)
    } else if norm == "unsigned int"@ || norm == "unsigned"@ {
        Some("u32"@)
    } else if norm == "long"@ || norm == "long int"@ || norm == "signed long"@ {
        Some("i64"@)
    } else if norm == "unsigned long"@ || norm == "unsigned long int"@ {
        Some("u64"@)
    } else if norm == "long long"@ || norm == "long long int"@ {
        Some("i64"@)
    } else if norm == "unsigned long long"@ || norm == "unsigned long long int"@ {
        Some("u64"@)
    } else if norm == "short"@ || norm == "short int"@ {
        Some("i16"@)
    } else if norm == "unsigned short"@ || norm == "unsigned short int"@ {
        Some("u16"@)
    } else if norm == "char"@ || norm == "signed char"@ {
        Some("i8"@)
    } else if norm == "unsigned char"@ {
        Some("u8"@)
    } else if norm == "size_t"@ {
        Some("usize"@)
    } else if norm == "bool"@ {
        Some("bool"@)
    } else if norm == "half"@ {
        Some("half::f16"@)
    } else if norm == "void"@ {
        Some("std::ffi::c_void"@)
    } else if norm == "cudaStream_t"@ {
        Some("std::ffi::c_void"@)
    } else {
        None
    }
}

/// The words of `s` joined by single spaces.
pub open spec fn normalize_spaces(s: Seq<char>) -> Seq<char> {
    join_space(words(s))
}

/// The Rust type for a C base type, whatever whitespace separates its words.
pub open spec fn spec_map_base_type(base: Seq<char>) -> Option<Seq<char>> {
    rust_type_of(normalize_spaces(base))
}

/// `s` with its words separated by single spaces.
pub fn normalize_space_chars(s: &[char]) -> (r: Vec<char>)
    ensures
        r@ == normalize_spaces(s@),
{
    let ws = split_words(s);
    let r = join_words(&ws, ws.len());
    assert(ws@.take(ws@.len() as int) =~= ws@);
    assert(ws@.map_values(|w: Vec<char>| w@) =~= words(s@));
    r
}

/// The Rust type for a C base type.
pub fn map_base_type_chars(base: &[char]) -> (r: Option<&'static str>)
    ensures
        r is None ==> spec_map_base_type(base@) is None,
        r matches Some(t) ==> spec_map_base_type(base@) == Some(t@),
{
    let norm = normalize_space_chars(base);
    let n = norm.as_slice();
    if eq_str(n, "float") {
        Some("f32")
    } else if eq_str(n, "double") {
        Some("f64")
    } else if eq_str(n, "int") || eq_str(n, "signed int") || eq_str(n, "signed") {
        Some("i32")
    } else if eq_str(n, "unsigned int") || eq_str(n, "unsigned") {
        Some("u32")
    } else if eq_str(n, "long") || eq_str(n, "long int") || eq_str(n, "signed long") {
        Some("i64")
    } else if eq_str(n, "unsigned long") || eq_str(n, "unsigned long int") {
        Some("u64")
    } else if eq_str(n, "long long") || eq_str(n, "long long int") {
        Some("i64")
    } else if eq_str(n, "unsigned long long") || eq_str(n, "unsigned long long int") {
        Some("u64")
    } else if eq_str(n, "short") || eq_str(n, "short int") {
        Some("i16")
    } else if eq_str(n, "unsigned short") || eq_str(n, "unsigned short int") {
        Some("u16")
    } else if eq_str(n, "char") || eq_str(n, "signed char") {
        Some("i8")
    } else if eq_str(n, "unsigned char") {
        Some("u8")
    } else if eq_str(n, "size_t") {
        Some("usize")
    } else if eq_str(n, "bool") {
        Some("bool")
    } else if eq_str(n, "half") {
        Some("half::f16")
    } else if eq_str(n, "void") {
        Some("std::ffi::c_void")
    } else if eq_str(n, "cudaStream_t") {
        Some("std::ffi::c_void")
    } else {
        None
    }
}

/// The Rust type for a C base type such as `unsigned  int`.
pub fn map_base_type(base: &str) -> (r: Option<&'static str>)
    ensures
        r is None ==> spec_map_base_type(base@) is None,
        r matches Some(t) ==> spec_map_base_type(base@) == Some(t@),
{
    let cs = chars_of(base);
    map_base_type_chars(cs.as_slice())
}

// ---------------------------------------------------------------------------------------------
// Parameters.
// ---------------------------------------------------------------------------------------------

/// A parameter's text with the qualifiers `__restrict__`, `__restrict`, `restrict` and
/// `volatile` each replaced by a space, in that order.
pub open spec fn without_qualifiers(raw: Seq<char>) -> Seq<char> {
    let s1 = replace_all(raw, "__restrict__"@, seq![' ']);
    let s2 = replace_all(s1, "__restrict"@, seq![' ']);
    let s3 = replace_all(s2, "restrict"@, seq![' ']);
    replace_all(s3, "volatile"@, seq![' '])
}

/// Whether a parameter's text declares an array (holds `[`).
pub open spec fn declares_array(s: Seq<char>) -> bool {
    find_from(s, seq!['['], 0) is Some
}

/// A parameter's text cut before its first `[`.
pub open spec fn before_brackets(s: Seq<char>) -> Seq<char> {
    match find_from(s, seq!['['], 0) {
        Some(b) => s.take(b),
        None => s,
    }
}

/// `s` with each `*` turned into a space.
pub open spec fn stars_to_spaces(s: Seq<char>) -> Seq<char> {
    s.map_values(|c: char| if c == '*' { ' ' } else { c })
}

/// The words, in order, that are not `const`.
pub open spec fn drop_const(ws: Seq<Seq<char>>) -> Seq<Seq<char>>
    decreases ws.len(),
{
    if ws.len() == 0 {
        Seq::empty()
    } else if ws.last() == "const"@ {
        drop_const(ws.drop_last())
    } else {
        drop_const(ws.drop_last()).push(ws.last())
    }
}

/// The error text for a parameter with no words.
pub open spec fn unparsable_message(raw: Seq<char>) -> Seq<char> {
    "could not parse parameter `"@ + raw + "`"@
}

/// The error text for a base type with no Rust counterpart.
pub open spec fn unsupported_message(base: Seq<char>) -> Seq<char> {
    "unsupported C type `"@ + base + "`"@
}

/// The parameter that the trimmed text `raw`, the `idx`-th of its list, declares.
///
/// Qualifiers are dropped and an array suffix cut off; the parameter is a pointer when it has a
/// `*` or was an array, and `const` when `const` is one of its words. Of the remaining words
/// (stars as spaces, `const` dropped), the last is the name when there are at least two and it
/// is not a type keyword; otherwise the name is `arg<idx>`. The other words form the base type,
/// which must have a Rust counterpart.
pub open spec fn param_from(raw: Seq<char>, idx: nat) -> Result<ParamView, Seq<char>> {
    let s = without_qualifiers(raw);
    let is_array = declares_array(s);
    let d = before_brackets(s);
    let is_ptr = d.contains('*') || is_array;
    let is_const = words(d).contains("const"@);
    let tokens = drop_const(words(stars_to_spaces(d)));
    if tokens.len() == 0 {
        Err(unparsable_message(raw))
    } else {
        let last_is_name = tokens.len() >= 2 && !spec_is_type_keyword(tokens.last());
        let name = if last_is_name {
            tokens.last()
        } else {
            "arg"@ + decimal(idx)
        };
        let base = join_space(
            if last_is_name {
                tokens.drop_last()
            } else {
                tokens
            },
        );
        match spec_map_base_type(base) {
            None => Err(unsupported_message(base)),
            Some(t) => Ok(
                ParamView { name, rust_ty: t, is_ptr, is_const, base_ty: t },
            ),
        }
    }
}

/// The parameters of the parts `parts[i..]`, or the first error among them.
pub open spec fn params_from(parts: Seq<Seq<char>>, i: int) -> Result<Seq<ParamView>, Seq<char>>
    decreases parts.len() - i,
{
    if i < 0 || i >= parts.len() {
        Ok(Seq::empty())
    } else {
        match param_from(parts[i], i as nat) {
            Err(m) => Err(m),
            Ok(p) => match params_from(parts, i + 1) {
                Ok(rest) => Ok(seq![p] + rest),
                Err(m) => Err(m),
            },
        }
    }
}

/// The parameters of a C parameter list; an empty list or `void` has none.
pub open spec fn spec_parse_params(s: Seq<char>) -> Result<Seq<ParamView>, Seq<char>> {
    let t = trim(s);
    if t.len() == 0 || t == "void"@ {
        Ok(Seq::empty())
    } else {
        params_from(spec_split_params(t), 0)
    }
}

/// `s` with each `*` turned into a space.
fn stars_to_space_chars(s: &[char]) -> (r: Vec<char>)
    ensures
        r@ == stars_to_spaces(s@),
{
    let mut out: Vec<char> = Vec::new();
    let mut i: usize = 0;
    while i < s.len()
        invariant
            i <= s@.len(),
            out@ == stars_to_spaces(s@.take(i as int)),
        decreases s.len() - i,
    {
        assert(stars_to_spaces(s@.take(i + 1)) =~= stars_to_spaces(s@.take(i as int)).push(
            if s@[i as int] == '*' {
                ' '
            } else {
                s@[i as int]
            },
        ));
        if s[i] == '*' {
            out.push(' ');
        } else {
            out.push(s[i]);
        }
        i = i + 1;
    }
    assert(s@.take(s@.len() as int) =~= s@);
    out
}

/// Whether `c` occurs in `s`.
fn contains_char(s: &[char], c: char) -> (r: bool)
    ensures
        r == s@.contains(c),
{
    let mut i: usize = 0;
    while i < s.len()
        invariant
            i <= s@.len(),
            forall|j: int| 0 <= j < i ==> s@[j] != c,
        decreases s.len() - i,
    {
        if s[i] == c {
            assert(s@[i as int] == c);
            return true;
        }
        i = i + 1;
    }
    false
}

/// Whether `const` is one of the words.
fn has_const_word(ws: &Vec<Vec<char>>) -> (r: bool)
    ensures
        r == word_views(ws@).contains("const"@),
{
    let mut i: usize = 0;
    while i < ws.len()
        invariant
            i <= ws@.len(),
            forall|j: int| 0 <= j < i ==> word_views(ws@)[j] != "const"@,
        decreases ws.len() - i,
    {
        if eq_str(ws[i].as_slice(), "const") {
            assert(word_views(ws@)[i as int] == "const"@);
            return true;
        }
        i = i + 1;
    }
    false
}

/// The words that are not `const`.
fn drop_const_words(ws: Vec<Vec<char>>) -> (r: Vec<Vec<char>>)
    ensures
        word_views(r@) == drop_const(word_views(ws@)),
{
    let mut out: Vec<Vec<char>> = Vec::new();
    let mut i: usize = 0;
    while i < ws.len()
        invariant
            i <= ws@.len(),
            word_views(out@) == drop_const(word_views(ws@).take(i as int)),
        decreases ws.len() - i,
    {
        let ghost prev = out@;
        assert(word_views(ws@).take(i + 1).drop_last() =~= word_views(ws@).take(i as int));
        if !eq_str(ws[i].as_slice(), "const") {
            let w = sub_chars(ws[i].as_slice(), 0, ws[i].len());
            assert(w@ =~= ws@[i as int]@);
            out.push(w);
            assert(word_views(out@) =~= word_views(prev).push(ws@[i as int]@));
        }
        i = i + 1;
    }
    assert(word_views(ws@).take(ws@.len() as int) =~= word_views(ws@));
    out
}

/// Parses the `idx`-th trimmed part of a parameter list.
pub fn parse_param(raw: &[char], idx: usize) -> (r: Result<Param, Vec<char>>)
    ensures
        r matches Ok(p) ==> param_from(raw@, idx as nat) == Ok::<ParamView, Seq<char>>(p@),
        r matches Err(m) ==> param_from(raw@, idx as nat) == Err::<ParamView, Seq<char>>(m@),
{
    proof {
        reveal_strlit("__restrict__");
        reveal_strlit("__restrict");
        reveal_strlit("restrict");
        reveal_strlit("volatile");
    }
    let s1 = replace_with_space(raw, "__restrict__");
    let s2 = replace_with_space(s1.as_slice(), "__restrict");
    let s3 = replace_with_space(s2.as_slice(), "restrict");
    let s = replace_with_space(s3.as_slice(), "volatile");
    let bracket: Vec<char> = vec!['['];
    assert(bracket@ =~= seq!['[']);
    let found = find_chars(s.as_slice(), bracket.as_slice(), 0);
    let is_array = found.is_some();
    let d = match found {
        Some(b) => {
            proof {
                crate::text::lemma_find_from_bounds(s@, seq!['['], 0);
            }
            sub_chars(s.as_slice(), 0, b)
        },
        None => sub_chars(s.as_slice(), 0, s.len()),
    };
    assert(d@ =~= before_brackets(s@));
    let is_ptr = contains_char(d.as_slice(), '*') || is_array;
    let dwords = split_words(d.as_slice());
    assert(word_views(dwords@) =~= words(d@));
    let is_const = has_const_word(&dwords);
    let cleaned = stars_to_space_chars(d.as_slice());
    let all = split_words(cleaned.as_slice());
    assert(word_views(all@) =~= words(stars_to_spaces(d@)));
    let mut tokens = drop_const_words(all);
    let ghost toks = word_views(tokens@);
    if tokens.len() == 0 {
        let mut m: Vec<char> = Vec::new();
        push_str(&mut m, "could not parse parameter `");
        push_chars(&mut m, raw);
        push_str(&mut m, "`");
        return Err(m);
    }
    let k = tokens.len();
    let last_is_name = k >= 2 && !is_type_keyword_chars(tokens[k - 1].as_slice());
    assert(toks.last() == tokens@[k - 1]@);
    let name = if last_is_name {
        let w = tokens.pop().unwrap();
        assert(word_views(tokens@) =~= toks.drop_last());
        w
    } else {
        let mut w: Vec<char> = Vec::new();
        push_str(&mut w, "arg");
        push_decimal(&mut w, idx);
        w
    };
    let base = join_words(&tokens, tokens.len());
    assert(tokens@.take(tokens@.len() as int) =~= tokens@);
    match map_base_type_chars(base.as_slice()) {
        None => {
            let mut m: Vec<char> = Vec::new();
            push_str(&mut m, "unsupported C type `");
            push_chars(&mut m, base.as_slice());
            push_str(&mut m, "`");
            Err(m)
        },
        Some(t) => {
            let rust_ty = String::from_str(t);
            let base_ty = String::from_str(t);
            Ok(
                Param {
                    name: string_from_chars(name.as_slice()),
                    rust_ty,
                    is_ptr,
                    is_const,
                    base_ty,
                },
            )
        },
    }
}

/// Parses a trimmed, non-empty, non-`void` parameter list part by part.
fn parse_param_parts(parts: &Vec<Vec<char>>) -> (r: Result<Vec<Param>, Vec<char>>)
    ensures
        r matches Ok(ps) ==> params_from(word_views(parts@), 0) == Ok::<
            Seq<ParamView>,
            Seq<char>,
        >(params_view(ps@)),
        r matches Err(m) ==> params_from(word_views(parts@), 0) == Err::<
            Seq<ParamView>,
            Seq<char>,
        >(m@),
{
    let ghost ps = word_views(parts@);
    let mut out: Vec<Param> = Vec::new();
    let mut i: usize = 0;
    while i < parts.len()
        invariant
            i <= parts@.len(),
            ps == word_views(parts@),
            params_from(ps, 0) == match params_from(ps, i as int) {
                Ok(rest) => Ok(params_view(out@) + rest),
                Err(m) => Err::<Seq<ParamView>, Seq<char>>(m),
            },
        decreases parts.len() - i,
    {
        assert(ps[i as int] == parts@[i as int]@);
        match parse_param(parts[i].as_slice(), i) {
            Err(m) => {
                return Err(m);
            },
            Ok(p) => {
                let ghost prev = out@;
                out.push(p);
                assert(params_view(out@) =~= params_view(prev).push(p@));
                proof {
                    match params_from(ps, i + 1) {
                        Ok(rest) => {
                            assert(params_view(prev) + (seq![p@] + rest) =~= params_view(out@)
                                + rest);
                        },
                        Err(_) => {},
                    }
                }
            },
        }
        i = i + 1;
    }
    assert(params_view(out@) + Seq::<ParamView>::empty() =~= params_view(out@));
    Ok(out)
}

/// Parses a C parameter list into typed parameters.
pub fn parse_param_chars(params: &[char]) -> (r: Result<Vec<Param>, Vec<char>>)
    ensures
        r matches Ok(ps) ==> spec_parse_params(params@) == Ok::<Seq<ParamView>, Seq<char>>(
            params_view(ps@),
        ),
        r matches Err(m) ==> spec_parse_params(params@) == Err::<Seq<ParamView>, Seq<char>>(m@),
{
    let t = trim_chars(params);
    if t.len() == 0 || eq_str(t.as_slice(), "void") {
        let empty: Vec<Param> = Vec::new();
        assert(params_view(empty@) =~= Seq::<ParamView>::empty());
        return Ok(empty);
    }
    let parts = split_param_chars(t.as_slice());
    parse_param_parts(&parts)
}

/// The result of parsing a parameter list, with the error text as characters.
pub open spec fn parse_params_matches(
    r: Result<Vec<Param>, String>,
    spec: Result<Seq<ParamView>, Seq<char>>,
) -> bool {
    match (r, spec) {
        (Ok(ps), Ok(vs)) => params_view(ps@) == vs,
        (Err(m), Err(vm)) => m@ == vm,
        _ => false,
    }
}

/// Parses a C parameter list such as `const float* a, float* out, int n` into parameters with
/// Rust types, or the reason the first unreadable parameter could not be read.
pub fn parse_params(params_str: &str) -> (r: Result<Vec<Param>, String>)
    ensures
        parse_params_matches(r, spec_parse_params(params_str@)),
{
    let cs = chars_of(params_str);
    match parse_param_chars(cs.as_slice()) {
        Ok(ps) => Ok(ps),
        Err(m) => Err(string_from_chars(m.as_slice())),
    }
}

} // verus!
