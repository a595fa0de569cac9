use vstd::prelude::*;

verus! {

// ---------------------------------------------------------------------------------------------
// Character classes.
// ---------------------------------------------------------------------------------------------

/// What `char::is_alphanumeric` returns for a character beyond ASCII (Unicode Alphabetic or
/// Numeric).
pub uninterp spec fn non_ascii_is_alphanumeric(c: char) -> bool;

/// Whether `c` is alphanumeric (Unicode Alphabetic or Numeric): among ASCII characters exactly
/// the letters and digits, beyond ASCII as the Unicode tables say.
pub open spec fn char_is_alphanumeric(c: char) -> bool {
    if (c as u32) < 0x80 {
        ('a' <= c && c <= 'z') || ('A' <= c && c <= 'Z') || ('0' <= c && c <= '9')
    } else {
        non_ascii_is_alphanumeric(c)
    }
}

/// Whether `c` has the Unicode White_Space property: tab, line feed, vertical tab, form feed,
/// carriage return, space, next line, no-break space, ogham space mark, the spaces from en quad
/// to hair space, line and paragraph separators, narrow no-break space, medium mathematical
/// space and ideographic space.
pub open spec fn char_is_whitespace(c: char) -> bool {
    let u = c as u32;
    ||| 0x09 <= u <= 0x0d
    ||| u == 0x20
    ||| u == 0x85
    ||| u == 0xa0
    ||| u == 0x1680
    ||| 0x2000 <= u <= 0x200a
    ||| u == 0x2028
    ||| u == 0x2029
    ||| u == 0x202f
    ||| u == 0x205f
    ||| u == 0x3000
}

/// Calls `char::is_alphanumeric`, true of characters that are Alphabetic or Numeric in
/// Unicode: among ASCII characters these are exactly the letters and digits; beyond ASCII the
/// result is named, not stated.
#[verifier::external_body]
pub(crate) fn is_alphanumeric(c: char) -> (r: bool)
    ensures
        r == char_is_alphanumeric(c),
        (c as u32) >= 0x80 ==> r == non_ascii_is_alphanumeric(c),
{
    c.is_alphanumeric()
}

/// Whether `c` has the Unicode White_Space property (what `char::is_whitespace` tests).
pub fn is_whitespace(c: char) -> (r: bool)
    ensures
        r == char_is_whitespace(c),
{
    let u = c as u32;
    (0x09 <= u && u <= 0x0d) || u == 0x20 || u == 0x85 || u == 0xa0 || u == 0x1680 || (0x2000
        <= u && u <= 0x200a) || u == 0x2028 || u == 0x2029 || u == 0x202f || u == 0x205f || u
        == 0x3000
}

/// Collects characters into a `String` (`FromIterator<&char> for String`), which holds exactly
/// those characters in order.
#[verifier::external_body]
pub(crate) fn string_from_chars(v: &[char]) -> (r: String)
    ensures
        r@ == v@,
{
    v.iter().collect()
}

/// A character that may stand in a C identifier: alphanumeric or `_`.
pub open spec fn is_ident_char(c: char) -> bool {
    char_is_alphanumeric(c) || c == '_'
}

pub fn ident_char(c: char) -> (r: bool)
    ensures
        r == is_ident_char(c),
{
    c == '_' || is_alphanumeric(c)
}

// ---------------------------------------------------------------------------------------------
// Conversions between `str` and character vectors.
// ---------------------------------------------------------------------------------------------

/// The characters of `s`, in order.
pub fn chars_of(s: &str) -> (r: Vec<char>)
    ensures
        r@ == s@,
{
    let mut out: Vec<char> = Vec::new();
    for c in it: s.chars()
        invariant
            out@ == it.seq().take(it.index() as int),
            it.seq() == s@,
    {
        assert(it.seq().take(it.index() + 1) =~= it.seq().take(it.index() as int).push(c));
        out.push(c);
    }
    assert(out@ =~= s@);
    out
}

/// Appends the characters of `s` to `out`.
pub fn push_str(out: &mut Vec<char>, s: &str)
    ensures
        final(out)@ == old(out)@ + s@,
{
    let cs = chars_of(s);
    let ghost start = out@;
    let mut i: usize = 0;
    while i < cs.len()
        invariant
            i <= cs@.len(),
            out@ == start + cs@.take(i as int),
        decreases cs.len() - i,
    {
        assert(cs@.take(i + 1) =~= cs@.take(i as int).push(cs@[i as int]));
        out.push(cs[i]);
        i = i + 1;
    }
    assert(cs@.take(cs@.len() as int) =~= cs@);
}

/// Appends the characters of `s` to `out`.
pub fn push_chars(out: &mut Vec<char>, s: &[char])
    ensures
        final(out)@ == old(out)@ + s@,
{
    let ghost start = out@;
    let mut i: usize = 0;
    while i < s.len()
        invariant
            i <= s@.len(),
            out@ == start + s@.take(i as int),
        decreases s.len() - i,
    {
        assert(s@.take(i + 1) =~= s@.take(i as int).push(s@[i as int]));
        out.push(s[i]);
        i = i + 1;
    }
    assert(s@.take(s@.len() as int) =~= s@);
}

/// A copy of `s[from..to]`.
pub fn sub_chars(s: &[char], from: usize, to: usize) -> (r: Vec<char>)
    requires
        from <= to <= s@.len(),
    ensures
        r@ == s@.subrange(from as int, to as int),
{
    let mut out: Vec<char> = Vec::new();
    let mut i: usize = from;
    while i < to
        invariant
            from <= i <= to,
            to <= s@.len(),
            out@ == s@.subrange(from as int, i as int),
        decreases to - i,
    {
        assert(s@.subrange(from as int, i + 1) =~= s@.subrange(from as int, i as int).push(
            s@[i as int],
        ));
        out.push(s[i]);
        i = i + 1;
    }
    out
}

/// Whether the characters `v` are exactly those of `lit`.
pub fn eq_str(v: &[char], lit: &str) -> (r: bool)
    ensures
        r == (v@ == lit@),
{
    let l = chars_of(lit);
    chars_equal(v, l.as_slice())
}

/// Element-wise equality of two character slices.
pub fn chars_equal(a: &[char], b: &[char]) -> (r: bool)
    ensures
        r == (a@ == b@),
{
    if a.len() != b.len() {
        return false;
    }
    let n = a.len();
    let mut i: usize = 0;
    while i < n
        invariant
            n == a@.len(),
            n == b@.len(),
            i <= n,
            forall|j: int| 0 <= j < i ==> a@[j] == b@[j],
        decreases n - i,
    {
        if a[i] != b[i] {
            return false;
        }
        i = i + 1;
    }
    assert(a@ =~= b@);
    true
}

// ---------------------------------------------------------------------------------------------
// Whitespace trimming and words.
// ---------------------------------------------------------------------------------------------

/// `s` without trailing whitespace (`str::trim_end`).
pub open spec fn trim_end(s: Seq<char>) -> Seq<char>
    decreases s.len(),
{
    if s.len() > 0 && char_is_whitespace(s.last()) {
        trim_end(s.drop_last())
    } else {
        s
    }
}

/// `s` without leading whitespace (`str::trim_start`).
pub open spec fn trim_start(s: Seq<char>) -> Seq<char>
    decreases s.len(),
{
    if s.len() > 0 && char_is_whitespace(s[0]) {
        trim_start(s.drop_first())
    } else {
        s
    }
}

/// `s` without leading or trailing whitespace (`str::trim`).
pub open spec fn trim(s: Seq<char>) -> Seq<char> {
    trim_start(trim_end(s))
}

/// The words of `s` and the word still open after its first `k` characters, where a word is
/// a maximal run of non-whitespace characters.
pub open spec fn words_state(s: Seq<char>, k: int) -> (Seq<Seq<char>>, Seq<char>)
    decreases k,
{
    if k <= 0 {
        (Seq::empty(), Seq::empty())
    } else {
        let (done, cur) = words_state(s, k - 1);
        let c = s[k - 1];
        if char_is_whitespace(c) {
            if cur.len() > 0 {
                (done.push(cur), Seq::empty())
            } else {
                (done, Seq::empty())
            }
        } else {
            (done, cur.push(c))
        }
    }
}

/// The whitespace-separated words of `s`, in order (`str::split_whitespace`).
pub open spec fn words(s: Seq<char>) -> Seq<Seq<char>> {
    let (done, cur) = words_state(s, s.len() as int);
    if cur.len() > 0 {
        done.push(cur)
    } else {
        done
    }
}

/// The words joined with single spaces between them.
pub open spec fn join_space(ws: Seq<Seq<char>>) -> Seq<char>
    decreases ws.len(),
{
    if ws.len() == 0 {
        Seq::empty()
    } else if ws.len() == 1 {
        ws[0]
    } else {
        join_space(ws.drop_last()) + seq![' '] + ws.last()
    }
}

/// The longest suffix of `s` made of identifier characters.
pub open spec fn ident_suffix(s: Seq<char>) -> Seq<char>
    decreases s.len(),
{
    if s.len() > 0 && is_ident_char(s.last()) {
        ident_suffix(s.drop_last()).push(s.last())
    } else {
        Seq::empty()
    }
}

/// The end of `s[from..to]` once trailing whitespace is dropped.
pub fn trim_end_index(s: &[char], from: usize, to: usize) -> (r: usize)
    requires
        from <= to <= s@.len(),
    ensures
        from <= r <= to,
        trim_end(s@.subrange(from as int, to as int)) == s@.subrange(from as int, r as int),
{
    let mut e = to;
    while e > from && is_whitespace(s[e - 1])
        invariant
            from <= e <= to,
            to <= s@.len(),
            trim_end(s@.subrange(from as int, to as int)) == trim_end(
                s@.subrange(from as int, e as int),
            ),
        decreases e,
    {
        assert(s@.subrange(from as int, e as int).drop_last() =~= s@.subrange(
            from as int,
            e - 1,
        ));
        e = e - 1;
    }
    e
}

/// The start of `s[from..to]` once leading whitespace is dropped.
pub fn trim_start_index(s: &[char], from: usize, to: usize) -> (r: usize)
    requires
        from <= to <= s@.len(),
    ensures
        from <= r <= to,
        trim_start(s@.subrange(from as int, to as int)) == s@.subrange(r as int, to as int),
{
    let mut b = from;
    while b < to && is_whitespace(s[b])
        invariant
            from <= b <= to,
            to <= s@.len(),
            trim_start(s@.subrange(from as int, to as int)) == trim_start(
                s@.subrange(b as int, to as int),
            ),
        decreases to - b,
    {
        assert(s@.subrange(b as int, to as int).drop_first() =~= s@.subrange(b + 1, to as int));
        b = b + 1;
    }
    b
}

/// `s` with surrounding whitespace dropped (`str::trim`).
pub fn trim_chars(s: &[char]) -> (r: Vec<char>)
    ensures
        r@ == trim(s@),
{
    let e = trim_end_index(s, 0, s.len());
    let b = trim_start_index(s, 0, e);
    assert(s@.subrange(0, s@.len() as int) =~= s@);
    sub_chars(s, b, e)
}

/// The start of the longest run of identifier characters ending at `to`, within `s[from..to]`.
pub fn ident_suffix_start(s: &[char], from: usize, to: usize) -> (r: usize)
    requires
        from <= to <= s@.len(),
    ensures
        from <= r <= to,
        ident_suffix(s@.subrange(from as int, to as int)) == s@.subrange(r as int, to as int),
{
    let mut j = to;
    while j > from && ident_char(s[j - 1])
        invariant
            from <= j <= to,
            to <= s@.len(),
            ident_suffix(s@.subrange(from as int, to as int)) == ident_suffix(
                s@.subrange(from as int, j as int),
            ) + s@.subrange(j as int, to as int),
        decreases j,
    {
        assert(s@.subrange(from as int, j as int).drop_last() =~= s@.subrange(
            from as int,
            j - 1,
        ));
        assert(s@.subrange(j - 1, to as int) =~= seq![s@[j - 1]] + s@.subrange(
            j as int,
            to as int,
        ));
        assert(ident_suffix(s@.subrange(from as int, j - 1)).push(s@[j - 1]) + s@.subrange(
            j as int,
            to as int,
        ) =~= ident_suffix(s@.subrange(from as int, j - 1)) + s@.subrange(j - 1, to as int));
        j = j - 1;
    }
    if j > from {
        assert(!is_ident_char(s@.subrange(from as int, j as int).last()));
    }
    assert(ident_suffix(s@.subrange(from as int, j as int)) =~= Seq::<char>::empty());
    assert(Seq::<char>::empty() + s@.subrange(j as int, to as int) =~= s@.subrange(
        j as int,
        to as int,
    ));
    j
}

/// The whitespace-separated words of `s` (`str::split_whitespace`).
pub fn split_words(s: &[char]) -> (r: Vec<Vec<char>>)
    ensures
        r@.len() == words(s@).len(),
        forall|i: int| 0 <= i < r@.len() ==> #[trigger] r@[i]@ == words(s@)[i],
{
    let mut done: Vec<Vec<char>> = Vec::new();
    let mut cur: Vec<char> = Vec::new();
    let mut k: usize = 0;
    while k < s.len()
        invariant
            k <= s@.len(),
            done@.len() == words_state(s@, k as int).0.len(),
            forall|i: int| 0 <= i < done@.len() ==> #[trigger] done@[i]@ == words_state(
                s@,
                k as int,
            ).0[i],
            cur@ == words_state(s@, k as int).1,
        decreases s.len() - k,
    {
        let c = s[k];
        if is_whitespace(c) {
            if cur.len() > 0 {
                let w = cur;
                done.push(w);
                cur = Vec::new();
            }
        } else {
            cur.push(c);
        }
        k = k + 1;
    }
    if cur.len() > 0 {
        done.push(cur);
    }
    done
}

/// The words joined with single spaces.
pub fn join_words(ws: &Vec<Vec<char>>, n: usize) -> (r: Vec<char>)
    requires
        n <= ws@.len(),
    ensures
        r@ == join_space(ws@.take(n as int).map_values(|w: Vec<char>| w@)),
{
    let mut out: Vec<char> = Vec::new();
    let mut i: usize = 0;
    while i < n
        invariant
            i <= n <= ws@.len(),
            out@ == join_space(ws@.take(i as int).map_values(|w: Vec<char>| w@)),
        decreases n - i,
    {
        let ghost prev = ws@.take(i as int).map_values(|w: Vec<char>| w@);
        let ghost next = ws@.take(i + 1).map_values(|w: Vec<char>| w@);
        assert(next.drop_last() =~= prev);
        assert(next.last() == ws@[i as int]@);
        if i > 0 {
            out.push(' ');
        }
        push_chars(&mut out, ws[i].as_slice());
        if i == 0 {
            assert(next.len() == 1);
            assert(out@ =~= next[0]);
        } else {
            assert(out@ =~= join_space(prev) + seq![' '] + next.last());
        }
        i = i + 1;
    }
    out
}

/// The view of each word.
pub open spec fn word_views(ws: Seq<Vec<char>>) -> Seq<Seq<char>> {
    ws.map_values(|w: Vec<char>| w@)
}

// ---------------------------------------------------------------------------------------------
// Searching.
// ---------------------------------------------------------------------------------------------

/// Whether `pat` occurs in `s` at position `i`.
pub open spec fn occurs_at(s: Seq<char>, pat: Seq<char>, i: int) -> bool {
    0 <= i && i + pat.len() <= s.len() && s.subrange(i, i + pat.len()) == pat
}

/// The first position at or after `from` where `pat` occurs in `s` (`str::find` on `s[from..]`,
/// counted from the start of `s`).
pub open spec fn find_from(s: Seq<char>, pat: Seq<char>, from: int) -> Option<int>
    decreases s.len() + 1 - from,
{
    if from < 0 || from + pat.len() > s.len() {
        None
    } else if occurs_at(s, pat, from) {
        Some(from)
    } else {
        find_from(s, pat, from + 1)
    }
}

pub proof fn lemma_find_from_bounds(s: Seq<char>, pat: Seq<char>, from: int)
    requires
        0 <= from,
    ensures
        find_from(s, pat, from) matches Some(p) ==> from <= p && p + pat.len() <= s.len()
            && occurs_at(s, pat, p),
        find_from(s, pat, from) is None ==> forall|i: int|
            from <= i ==> !#[trigger] occurs_at(s, pat, i),
    decreases s.len() + 1 - from,
{
    if from + pat.len() > s.len() {
    } else if occurs_at(s, pat, from) {
    } else {
        lemma_find_from_bounds(s, pat, from + 1);
        assert forall|i: int| from <= i && find_from(s, pat, from) is None implies !#[trigger] occurs_at(s, pat, i) by {
            if i > from {
            }
        }
    }
}

/// The first position at or after `from` where `pat` occurs in `s`.
pub fn find_chars(s: &[char], pat: &[char], from: usize) -> (r: Option<usize>)
    ensures
        r matches Some(p) ==> find_from(s@, pat@, from as int) == Some(p as int),
        r is None ==> find_from(s@, pat@, from as int) is None,
{
    let n = s.len();
    let m = pat.len();
    if m > n {
        assert(find_from(s@, pat@, from as int) is None);
        return None;
    }
    let mut i = from;
    while i <= n - m
        invariant
            n == s@.len(),
            m == pat@.len(),
            m <= n,
            from <= i,
            find_from(s@, pat@, from as int) == find_from(s@, pat@, i as int),
        decreases n - i,
    {
        let mut j: usize = 0;
        let mut same = true;
        while j < m
            invariant
                j <= m,
                i + m <= n,
                n == s@.len(),
                m == pat@.len(),
                same == (forall|k: int| 0 <= k < j ==> s@[i + k] == pat@[k]),
            decreases m - j,
        {
            if s[i + j] != pat[j] {
                same = false;
            }
            j = j + 1;
        }
        if same {
            assert(s@.subrange(i as int, i + m) =~= pat@);
            return Some(i);
        }
        assert(!occurs_at(s@, pat@, i as int)) by {
            if s@.subrange(i as int, i + m) == pat@ {
                assert forall|k: int| 0 <= k < m implies s@[i + k] == pat@[k] by {
                    assert(s@.subrange(i as int, i + m)[k] == s@[i + k]);
                }
            }
        }
        i = i + 1;
    }
    None
}

/// Whether `s` begins with `pat`.
pub open spec fn starts_with(s: Seq<char>, pat: Seq<char>) -> bool {
    pat.len() <= s.len() && s.take(pat.len() as int) == pat
}

/// Whether `s[from..]` begins with the characters of `lit`.
pub fn starts_with_at(s: &[char], from: usize, lit: &str) -> (r: bool)
    requires
        from <= s@.len(),
    ensures
        r == starts_with(s@.skip(from as int), lit@),
{
    let pat = chars_of(lit);
    let m = pat.len();
    let n = s.len();
    if m > n - from {
        return false;
    }
    let mut j: usize = 0;
    while j < m
        invariant
            j <= m,
            n == s@.len(),
            from + m <= n,
            m == pat@.len(),
            pat@ == lit@,
            forall|k: int| 0 <= k < j ==> s@[from + k] == pat@[k],
        decreases m - j,
    {
        if s[from + j] != pat[j] {
            assert(s@.skip(from as int).take(m as int)[j as int] != pat@[j as int]);
            assert(s@.skip(from as int).take(m as int) != pat@);
            return false;
        }
        j = j + 1;
    }
    assert(s@.skip(from as int).take(m as int) =~= pat@);
    true
}

/// The number of occurrences of `c` in `s`.
pub open spec fn count_char(s: Seq<char>, c: char) -> nat
    decreases s.len(),
{
    if s.len() == 0 {
        0
    } else {
        count_char(s.drop_last(), c) + (if s.last() == c {
            1nat
        } else {
            0nat
        })
    }
}

// ---------------------------------------------------------------------------------------------
// Replacing.
// ---------------------------------------------------------------------------------------------

/// `s[i..]` with every non-overlapping occurrence of `pat`, taken left to right, replaced by
/// `rep` (`str::replace`).
pub open spec fn replace_from(s: Seq<char>, pat: Seq<char>, rep: Seq<char>, i: int) -> Seq<char>
    decreases s.len() - i,
{
    if i < 0 || i >= s.len() || pat.len() == 0 {
        if 0 <= i < s.len() {
            s.skip(i)
        } else {
            Seq::empty()
        }
    } else if occurs_at(s, pat, i) {
        rep + replace_from(s, pat, rep, i + pat.len())
    } else {
        seq![s[i]] + replace_from(s, pat, rep, i + 1)
    }
}

/// `s` with every non-overlapping occurrence of `pat`, left to right, replaced by `rep`.
pub open spec fn replace_all(s: Seq<char>, pat: Seq<char>, rep: Seq<char>) -> Seq<char> {
    replace_from(s, pat, rep, 0)
}

/// `s` with each occurrence of `lit` replaced by a single space.
pub fn replace_with_space(s: &[char], lit: &str) -> (r: Vec<char>)
    requires
        lit@.len() > 0,
    ensures
        r@ == replace_all(s@, lit@, seq![' ']),
{
    let pat = chars_of(lit);
    let n = s.len();
    let m = pat.len();
    let mut out: Vec<char> = Vec::new();
    let mut i: usize = 0;
    while i < n
        invariant
            n == s@.len(),
            m == pat@.len(),
            m > 0,
            i <= n,
            out@ + replace_from(s@, pat@, seq![' '], i as int) == replace_all(
                s@,
                pat@,
                seq![' '],
            ),
        decreases n - i,
    {
        let mut hit = false;
        if m <= n - i {
            let mut j: usize = 0;
            hit = true;
            while j < m
                invariant
                    j <= m,
                    i + m <= n,
                    n == s@.len(),
                    m == pat@.len(),
                    hit == (forall|k: int| 0 <= k < j ==> s@[i + k] == pat@[k]),
                decreases m - j,
            {
                if s[i + j] != pat[j] {
                    hit = false;
                }
                j = j + 1;
            }
            if hit {
                assert(s@.subrange(i as int, i + m) =~= pat@);
            } else {
                assert(!occurs_at(s@, pat@, i as int)) by {
                    if s@.subrange(i as int, i + m) == pat@ {
                        assert forall|k: int| 0 <= k < m implies s@[i + k] == pat@[k] by {
                            assert(s@.subrange(i as int, i + m)[k] == s@[i + k]);
                        }
                    }
                }
            }
        }
        if hit {
            assert(out@ + replace_from(s@, pat@, seq![' '], i as int) =~= out@.push(' ')
                + replace_from(s@, pat@, seq![' '], i + m));
            out.push(' ');
            i = i + m;
        } else {
            assert(out@ + replace_from(s@, pat@, seq![' '], i as int) =~= out@.push(s@[i as int])
                + replace_from(s@, pat@, seq![' '], i + 1));
            out.push(s[i]);
            i = i + 1;
        }
    }
    assert(replace_from(s@, pat@, seq![' '], n as int) =~= Seq::<char>::empty());
    assert(out@ =~= out@ + Seq::<char>::empty());
    out
}

// ---------------------------------------------------------------------------------------------
// Numbers.
// ---------------------------------------------------------------------------------------------

/// The decimal digit character for `d < 10`.
pub open spec fn digit_char(d: nat) -> char {
    if d == 0 { '0' }
    else if d == 1 { '1' }
    else if d == 2 { '2' }
    else if d == 3 { '3' }
    else if d == 4 { '4' }
    else if d == 5 { '5' }
    else if d == 6 { '6' }
    else if d == 7 { '7' }
    else if d == 8 { '8' }
    else { '9' }
}

/// The decimal representation of `n`, without leading zeros.
pub open spec fn decimal(n: nat) -> Seq<char>
    decreases n,
{
    if n < 10 {
        seq![digit_char(n)]
    } else {
        decimal(n / 10).push(digit_char(n % 10))
    }
}

fn digit(d: usize) -> (r: char)
    requires
        d < 10,
    ensures
        r == digit_char(d as nat),
{
    if d == 0 { '0' }
    else if d == 1 { '1' }
    else if d == 2 { '2' }
    else if d == 3 { '3' }
    else if d == 4 { '4' }
    else if d == 5 { '5' }
    else if d == 6 { '6' }
    else if d == 7 { '7' }
    else if d == 8 { '8' }
    else { '9' }
}

/// Appends the decimal representation of `n` to `out`.
pub fn push_decimal(out: &mut Vec<char>, n: usize)
    ensures
        final(out)@ == old(out)@ + decimal(n as nat),
    decreases n,
{
    if n < 10 {
        out.push(digit(n));
        assert(decimal(n as nat) =~= seq![digit_char(n as nat)]);
    } else {
        push_decimal(out, n / 10);
        out.push(digit(n % 10));
        assert(decimal(n as nat) == decimal((n / 10) as nat).push(digit_char((n % 10) as nat)));
    }
}

} // verus!
