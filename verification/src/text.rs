//! Character-level text operations used throughout the library, each with a
//! specification over `Seq<char>`.

use vstd::prelude::*;

verus! {

/// The Unicode `White_Space` property.
pub open spec fn is_white_space(c: char) -> bool {
    let u = c as u32;
    ||| (0x09 <= u && u <= 0x0D)
    ||| u == 0x20
    ||| u == 0x85
    ||| u == 0xA0
    ||| u == 0x1680
    ||| (0x2000 <= u && u <= 0x200A)
    ||| u == 0x2028
    ||| u == 0x2029
    ||| u == 0x202F
    ||| u == 0x205F
    ||| u == 0x3000
}

/// ASCII lower-casing of one character: `A..=Z` map to `a..=z`, all else is kept.
pub open spec fn ascii_lower(c: char) -> char {
    if 'A' <= c && c <= 'Z' {
        ((c as u32) + 32) as char
    } else {
        c
    }
}

/// `char::is_whitespace`: true exactly for characters with the Unicode `White_Space` property.
#[verifier::external_body]
pub fn char_is_whitespace(c: char) -> (b: bool)
    ensures
        b == is_white_space(c),
{
    c.is_whitespace()
}

/// `char::to_ascii_lowercase`: maps `A..=Z` to `a..=z` and leaves every other character unchanged.
#[verifier::external_body]
pub fn char_to_ascii_lowercase(c: char) -> (r: char)
    ensures
        r == ascii_lower(c),
{
    c.to_ascii_lowercase()
}

/// `str::chars`, collected: the characters of `s` in order.
#[verifier::external_body]
pub fn chars_of(s: &str) -> (r: Vec<char>)
    ensures
        r@ == s@,
{
    s.chars().collect()
}

/// Collecting characters into a `String` (`FromIterator<&char>`): the string of exactly these characters.
#[verifier::external_body]
pub fn string_from_chars(cs: &[char]) -> (r: String)
    ensures
        r@ == cs@,
{
    cs.iter().collect()
}

/// `s` with leading white space removed.
pub open spec fn trim_start_seq(s: Seq<char>) -> Seq<char>
    decreases s.len(),
{
    if s.len() > 0 && is_white_space(s[0]) {
        trim_start_seq(s.drop_first())
    } else {
        s
    }
}

/// `s` with trailing white space removed.
pub open spec fn trim_end_seq(s: Seq<char>) -> Seq<char>
    decreases s.len(),
{
    if s.len() > 0 && is_white_space(s.last()) {
        trim_end_seq(s.drop_last())
    } else {
        s
    }
}

/// `s` with leading and trailing white space removed (`str::trim`).
pub open spec fn trim_seq(s: Seq<char>) -> Seq<char> {
    trim_end_seq(trim_start_seq(s))
}

proof fn lemma_trim_start_skip(s: Seq<char>, k: int)
    requires
        0 <= k <= s.len(),
        forall|i: int| 0 <= i < k ==> is_white_space(#[trigger] s[i]),
    ensures
        trim_start_seq(s) == trim_start_seq(s.skip(k)),
    decreases k,
{
    if k > 0 {
        assert(s.skip(1) =~= s.drop_first());
        assert(s.drop_first().skip(k - 1) =~= s.skip(k));
        lemma_trim_start_skip(s.drop_first(), k - 1);
    } else {
        assert(s.skip(0) =~= s);
    }
}

proof fn lemma_trim_end_take(s: Seq<char>, k: int)
    requires
        0 <= k <= s.len(),
        forall|i: int| k <= i < s.len() ==> is_white_space(#[trigger] s[i]),
    ensures
        trim_end_seq(s) == trim_end_seq(s.take(k)),
    decreases s.len() - k,
{
    if k < s.len() {
        assert(s.drop_last().take(k) =~= s.take(k));
        lemma_trim_end_take(s.drop_last(), k);
    } else {
        assert(s.take(k) =~= s);
    }
}

/// The characters of `s` without leading and trailing white space.
pub fn trim_chars(s: &[char]) -> (r: Vec<char>)
    ensures
        r@ == trim_seq(s@),
{
    let n = s.len();
    let mut start: usize = 0;
    while start < n && char_is_whitespace(s[start])
        invariant
            start <= n == s@.len(),
            forall|i: int| 0 <= i < start ==> is_white_space(#[trigger] s@[i]),
        decreases n - start,
    {
        start = start + 1;
    }
    proof {
        lemma_trim_start_skip(s@, start as int);
    }
    let ghost rest = s@.skip(start as int);
    assert(trim_start_seq(rest) == rest);
    let mut end: usize = n;
    while end > start && char_is_whitespace(s[end - 1])
        invariant
            start <= end <= n == s@.len(),
            forall|i: int| end <= i < n ==> is_white_space(#[trigger] s@[i]),
        decreases end,
    {
        end = end - 1;
    }
    proof {
        assert forall|i: int| end - start <= i < rest.len() implies is_white_space(#[trigger] rest[i]) by {
            assert(rest[i] == s@[i + start]);
        }
        lemma_trim_end_take(rest, end - start);
    }
    let mut out: Vec<char> = Vec::new();
    let mut i = start;
    while i < end
        invariant
            start <= i <= end <= n == s@.len(),
            out@ =~= s@.subrange(start as int, i as int),
        decreases end - i,
    {
        out.push(s[i]);
        i = i + 1;
    }
    assert(rest.take(end - start) =~= s@.subrange(start as int, end as int));
    out
}


/// ASCII lower-casing of every character (`str::to_ascii_lowercase`).
pub open spec fn lower_seq(s: Seq<char>) -> Seq<char> {
    s.map_values(|c: char| ascii_lower(c))
}

/// The characters of `s`, ASCII lower-cased.
pub fn lower_chars(s: &[char]) -> (r: Vec<char>)
    ensures
        r@ == lower_seq(s@),
{
    let mut out: Vec<char> = Vec::new();
    let mut i: usize = 0;
    while i < s.len()
        invariant
            i <= s@.len(),
            out@ =~= lower_seq(s@.take(i as int)),
        decreases s.len() - i,
    {
        out.push(char_to_ascii_lowercase(s[i]));
        i = i + 1;
        assert(lower_seq(s@.take(i as int)) =~= lower_seq(s@.take(i - 1)).push(ascii_lower(s@[i - 1])));
    }
    assert(s@.take(s@.len() as int) =~= s@);
    out
}

/// The index of the first occurrence of `p` in `s`, or `-1` when there is none.
pub open spec fn find_seq(s: Seq<char>, p: Seq<char>) -> int
    decreases s.len(),
{
    if p.is_prefix_of(s) {
        0
    } else if s.len() == 0 {
        -1
    } else {
        let r = find_seq(s.drop_first(), p);
        if r < 0 {
            -1
        } else {
            r + 1
        }
    }
}

/// `p` occurs somewhere in `s` (`str::contains`).
pub open spec fn contains_seq(s: Seq<char>, p: Seq<char>) -> bool {
    find_seq(s, p) >= 0
}

/// Where `find_seq` lands: inside `s`, at an occurrence, and before it no occurrence.
pub proof fn lemma_find_seq_bounds(s: Seq<char>, p: Seq<char>)
    ensures
        -1 <= find_seq(s, p) <= s.len() - p.len() || find_seq(s, p) == -1,
        find_seq(s, p) >= 0 ==> p.is_prefix_of(s.skip(find_seq(s, p))),
        forall|j: int|
            0 <= j < s.len() && (find_seq(s, p) < 0 || j < find_seq(s, p))
                ==> !p.is_prefix_of(#[trigger] s.skip(j)),
        find_seq(s, p) < 0 ==> !p.is_prefix_of(s.skip(s.len() as int)),
    decreases s.len(),
{
    assert(s.skip(0) =~= s);
    if p.is_prefix_of(s) {
    } else if s.len() == 0 {
    } else {
        let t = s.drop_first();
        lemma_find_seq_bounds(t, p);
        assert forall|j: int|
            0 <= j < s.len() && (find_seq(s, p) < 0 || j < find_seq(s, p))
                implies !p.is_prefix_of(#[trigger] s.skip(j)) by {
            if j > 0 {
                assert(t.skip(j - 1) =~= s.skip(j));
            }
        }
        if find_seq(t, p) >= 0 {
            assert(t.skip(find_seq(t, p)) =~= s.skip(find_seq(s, p)));
        } else {
            assert(t.skip(t.len() as int) =~= s.skip(s.len() as int));
        }
    }
}

/// When `p` does not start `s` at `i`, the search from `i` equals the search from `i + 1`, shifted.
proof fn lemma_find_seq_step(s: Seq<char>, p: Seq<char>, i: int)
    requires
        0 <= i < s.len(),
        !p.is_prefix_of(s.skip(i)),
    ensures
        find_seq(s.skip(i), p) == (if find_seq(s.skip(i + 1), p) < 0 {
            -1
        } else {
            find_seq(s.skip(i + 1), p) + 1
        }),
{
    assert(s.skip(i).drop_first() =~= s.skip(i + 1));
}

proof fn lemma_find_seq_short(s: Seq<char>, p: Seq<char>)
    requires
        s.len() < p.len(),
    ensures
        find_seq(s, p) == -1,
    decreases s.len(),
{
    if s.len() > 0 {
        lemma_find_seq_short(s.drop_first(), p);
    }
}

/// `p` occurs in `s` at position `i`.
pub fn matches_at(s: &[char], p: &[char], i: usize) -> (b: bool)
    requires
        i <= s@.len(),
    ensures
        b == p@.is_prefix_of(s@.skip(i as int)),
{
    let n = s.len();
    if p.len() > n - i {
        return false;
    }
    let mut k: usize = 0;
    while k < p.len()
        invariant
            n == s@.len(),
            i <= s@.len(),
            p@.len() <= s@.len() - i,
            k <= p@.len(),
            forall|j: int| 0 <= j < k ==> p@[j] == s@[i + j],
        decreases p.len() - k,
    {
        assert(i + k < s@.len());
        if p[k] != s[i + k] {
            assert(s@.skip(i as int)[k as int] == s@[i + k]);
            return false;
        }
        k = k + 1;
    }
    assert(p@ =~= s@.skip(i as int).subrange(0, p@.len() as int));
    true
}

/// The first position at or after `start` where `p` occurs in `s`.
pub fn find_from(s: &[char], p: &[char], start: usize) -> (r: Option<usize>)
    requires
        start <= s@.len(),
    ensures
        match r {
            Some(k) => start <= k && k - start == find_seq(s@.skip(start as int), p@) && k
                + p@.len() <= s@.len(),
            None => find_seq(s@.skip(start as int), p@) < 0,
        },
{
    let mut i = start;
    while i < s.len()
        invariant
            start <= i <= s@.len(),
            find_seq(s@.skip(start as int), p@) == (if find_seq(s@.skip(i as int), p@) < 0 {
                -1
            } else {
                find_seq(s@.skip(i as int), p@) + (i - start)
            }),
        decreases s.len() - i,
    {
        if matches_at(s, p, i) {
            assert(find_seq(s@.skip(i as int), p@) == 0);
            return Some(i);
        }
        proof {
            lemma_find_seq_step(s@, p@, i as int);
        }
        i = i + 1;
    }
    if matches_at(s, p, i) {
        assert(find_seq(s@.skip(i as int), p@) == 0);
        return Some(i);
    }
    assert(s@.skip(i as int).len() == 0);
    None
}

/// Whether `p` occurs in `s`.
pub fn contains_chars(s: &[char], p: &[char]) -> (b: bool)
    ensures
        b == contains_seq(s@, p@),
{
    assert(s@.skip(0) =~= s@);
    find_from(s, p, 0).is_some()
}


/// The characters `s[a..b]`.
pub fn slice_chars(s: &[char], a: usize, b: usize) -> (r: Vec<char>)
    requires
        a <= b <= s@.len(),
    ensures
        r@ == s@.subrange(a as int, b as int),
{
    let mut out: Vec<char> = Vec::new();
    let mut i = a;
    while i < b
        invariant
            a <= i <= b <= s@.len(),
            out@ =~= s@.subrange(a as int, i as int),
        decreases b - i,
    {
        out.push(s[i]);
        i = i + 1;
    }
    out
}

/// One line without the `'\r'` of a `"\r\n"` ending.
pub open spec fn strip_cr(s: Seq<char>) -> Seq<char> {
    if s.len() > 0 && s.last() == '\r' {
        s.drop_last()
    } else {
        s
    }
}

/// The lines of `s` as `str::lines` yields them: split after each `'\n'`, a `"\r\n"` or `"\n"`
/// ending removed, the final line ending optional.
pub open spec fn lines_seq(s: Seq<char>) -> Seq<Seq<char>>
    decreases s.len(),
{
    if s.len() == 0 {
        seq![]
    } else {
        let i = find_seq(s, seq!['\n']);
        if i < 0 {
            seq![s]
        } else {
            proof {
                lemma_find_seq_bounds(s, seq!['\n']);
            }
            seq![strip_cr(s.take(i))] + lines_seq(s.skip(i + 1))
        }
    }
}

/// The views of a vector of character vectors.
pub open spec fn views(v: Seq<Vec<char>>) -> Seq<Seq<char>> {
    v.map_values(|x: Vec<char>| x@)
}

/// The lines of `s` (`str::lines`).
pub fn lines_chars(s: &[char]) -> (r: Vec<Vec<char>>)
    ensures
        views(r@) == lines_seq(s@),
{
    let nl: Vec<char> = vec!['\n'];
    assert(nl@ =~= seq!['\n']);
    let n = s.len();
    let mut out: Vec<Vec<char>> = Vec::new();
    let mut start: usize = 0;
    assert(s@.skip(0) =~= s@);
    while start < n
        invariant
            n == s@.len(),
            start <= n,
            nl@ == seq!['\n'],
            lines_seq(s@) =~= views(out@) + lines_seq(s@.skip(start as int)),
        decreases n - start,
    {
        let ghost t = s@.skip(start as int);
        match find_from(s, &nl, start) {
            Some(k) => {
                let seg = slice_chars(s, start, k);
                let line = if k > start && s[k - 1] == '\r' {
                    slice_chars(s, start, k - 1)
                } else {
                    seg
                };
                proof {
                    assert(t.take(k - start) =~= s@.subrange(start as int, k as int));
                    assert(t.skip(k - start + 1) =~= s@.skip(k + 1));
                    if k > start && s@[k - 1] == '\r' {
                        assert(s@.subrange(start as int, k - 1) =~= s@.subrange(
                            start as int,
                            k as int,
                        ).drop_last());
                    }
                    assert(line@ == strip_cr(t.take(k - start)));
                    assert(views(out@.push(line)) =~= views(out@).push(line@));
                }
                out.push(line);
                start = k + 1;
            },
            None => {
                let line = slice_chars(s, start, n);
                proof {
                    assert(line@ =~= t);
                    assert(views(out@.push(line)) =~= views(out@).push(line@));
                    assert(s@.skip(n as int).len() == 0);
                }
                out.push(line);
                start = n;
            },
        }
    }
    assert(s@.skip(n as int).len() == 0);
    out
}

/// `s` with every non-overlapping occurrence of `p`, scanned left to right, removed
/// (`str::replace(p, "")`).
pub open spec fn remove_all_seq(s: Seq<char>, p: Seq<char>) -> Seq<char>
    decreases s.len(),
{
    if p.len() == 0 {
        s
    } else {
        let i = find_seq(s, p);
        if i < 0 {
            s
        } else {
            proof {
                lemma_find_seq_bounds(s, p);
            }
            s.take(i) + remove_all_seq(s.skip(i + p.len()), p)
        }
    }
}

/// The characters of `s` with every occurrence of `p` removed.
pub fn remove_all_chars(s: &[char], p: &[char]) -> (r: Vec<char>)
    requires
        p@.len() > 0,
    ensures
        r@ == remove_all_seq(s@, p@),
{
    let n = s.len();
    let mut out: Vec<char> = Vec::new();
    let mut start: usize = 0;
    assert(s@.skip(0) =~= s@);
    while start < n
        invariant
            n == s@.len(),
            start <= n,
            p@.len() > 0,
            remove_all_seq(s@, p@) =~= out@ + remove_all_seq(s@.skip(start as int), p@),
        decreases n - start,
    {
        let ghost t = s@.skip(start as int);
        match find_from(s, p, start) {
            Some(k) => {
                let mut seg = slice_chars(s, start, k);
                out.append(&mut seg);
                proof {
                    assert(t.take(k - start) =~= s@.subrange(start as int, k as int));
                    assert(t.skip(k - start + p@.len()) =~= s@.skip(k + p@.len()));
                }
                start = k + p.len();
            },
            None => {
                let mut seg = slice_chars(s, start, n);
                out.append(&mut seg);
                assert(s@.skip(n as int).len() == 0);
                assert(t =~= s@.subrange(start as int, n as int));
                start = n;
            },
        }
    }
    assert(s@.skip(n as int).len() == 0);
    out
}

/// The parts of `parts` joined with `sep` between neighbours (`[T]::join`).
pub open spec fn join_seq(parts: Seq<Seq<char>>, sep: Seq<char>) -> Seq<char>
    decreases parts.len(),
{
    if parts.len() == 0 {
        seq![]
    } else if parts.len() == 1 {
        parts[0]
    } else {
        join_seq(parts.drop_last(), sep) + sep + parts.last()
    }
}


/// The views of a sequence of string slices.
pub open spec fn str_views(v: Seq<&str>) -> Seq<Seq<char>> {
    v.map_values(|x: &str| x@)
}

/// Appending a part extends the joined text by the separator (unless it is the first part)
/// and the part.
pub proof fn lemma_join_push(parts: Seq<Seq<char>>, x: Seq<char>, sep: Seq<char>)
    ensures
        join_seq(parts.push(x), sep) == (if parts.len() == 0 {
            x
        } else {
            join_seq(parts, sep) + sep + x
        }),
{
    assert(parts.push(x).drop_last() =~= parts);
}

/// `[&str]::join`: the parts with `sep` between neighbours.
pub fn join_strs(parts: &[&str], sep: &str) -> (r: String)
    ensures
        r@ == join_seq(str_views(parts@), sep@),
{
    let mut out: Vec<char> = Vec::new();
    let mut i: usize = 0;
    assert(str_views(parts@.take(0)) =~= Seq::<Seq<char>>::empty());
    while i < parts.len()
        invariant
            i <= parts@.len(),
            out@ == join_seq(str_views(parts@.take(i as int)), sep@),
        decreases parts.len() - i,
    {
        proof {
            assert(str_views(parts@.take(i + 1)) =~= str_views(parts@.take(i as int)).push(
                parts@[i as int]@,
            ));
            lemma_join_push(str_views(parts@.take(i as int)), parts@[i as int]@, sep@);
        }
        if i > 0 {
            let mut sep_part = chars_of(sep);
            out.append(&mut sep_part);
        }
        let mut part = chars_of(parts[i]);
        out.append(&mut part);
        i = i + 1;
    }
    assert(parts@.take(parts@.len() as int) =~= parts@);
    string_from_chars(out.as_slice())
}

/// The views of a sequence of strings.
pub open spec fn string_views(v: Seq<String>) -> Seq<Seq<char>> {
    v.map_values(|x: String| x@)
}

/// Borrowed slices of each string, in order.
pub fn strings_as_strs(v: &Vec<String>) -> (r: Vec<&str>)
    ensures
        str_views(r@) == string_views(v@),
{
    let mut out: Vec<&str> = Vec::new();
    let mut i: usize = 0;
    while i < v.len()
        invariant
            i <= v@.len(),
            str_views(out@) == string_views(v@.take(i as int)),
        decreases v.len() - i,
    {
        proof {
            assert(string_views(v@.take(i + 1)) =~= string_views(v@.take(i as int)).push(
                v@[i as int]@,
            ));
        }
        let ghost before = out@;
        out.push(v[i].as_str());
        assert(str_views(out@) =~= str_views(before).push(v@[i as int]@));
        i = i + 1;
    }
    assert(v@.take(v@.len() as int) =~= v@);
    out
}

/// Owned copies of each slice, in order.
pub fn strs_to_strings(v: &[&str]) -> (r: Vec<String>)
    ensures
        string_views(r@) == str_views(v@),
{
    let mut out: Vec<String> = Vec::new();
    let mut i: usize = 0;
    while i < v.len()
        invariant
            i <= v@.len(),
            string_views(out@) == str_views(v@.take(i as int)),
        decreases v.len() - i,
    {
        proof {
            assert(str_views(v@.take(i + 1)) =~= str_views(v@.take(i as int)).push(v@[i as int]@));
        }
        let ghost before = out@;
        out.push(v[i].to_owned());
        assert(string_views(out@) =~= string_views(before).push(v@[i as int]@));
        i = i + 1;
    }
    assert(v@.take(v@.len() as int) =~= v@);
    out
}

/// The decimal digit character for `d < 10`.
pub open spec fn digit_char(d: nat) -> char {
    ((d + 48) as u32) as char
}

/// The decimal representation of `n`, without sign or leading zeros.
pub open spec fn decimal_seq(n: nat) -> Seq<char>
    decreases n,
{
    if n < 10 {
        seq![digit_char(n)]
    } else {
        decimal_seq(n / 10).push(digit_char(n % 10))
    }
}

/// `u64::to_string`: the decimal representation of `n`.
#[verifier::external_body]
pub fn u64_to_text(n: u64) -> (r: String)
    ensures
        r@ == decimal_seq(n as nat),
{
    n.to_string()
}

/// The text of `a` followed by the text of `b`.
pub fn concat2(a: &str, b: &str) -> (r: String)
    ensures
        r@ == a@ + b@,
{
    let mut cs = chars_of(a);
    let mut tail = chars_of(b);
    cs.append(&mut tail);
    string_from_chars(cs.as_slice())
}

/// The texts of `a`, `b` and `c` one after another.
pub fn concat3(a: &str, b: &str, c: &str) -> (r: String)
    ensures
        r@ == a@ + b@ + c@,
{
    let ab = concat2(a, b);
    concat2(ab.as_str(), c)
}

/// The decimal representation of `i`, with a leading `-` when negative.
pub open spec fn signed_decimal_seq(i: int) -> Seq<char> {
    if i < 0 {
        seq!['-'] + decimal_seq((-i) as nat)
    } else {
        decimal_seq(i as nat)
    }
}

/// `i32::to_string`: the decimal representation of `i`, with a leading `-` when negative.
#[verifier::external_body]
pub fn i32_to_text(i: i32) -> (r: String)
    ensures
        r@ == signed_decimal_seq(i as int),
{
    i.to_string()
}

/// `s` without leading and trailing white space.
pub fn trim_str(s: &str) -> (r: String)
    ensures
        r@ == trim_seq(s@),
{
    let cs = chars_of(s);
    let t = trim_chars(cs.as_slice());
    string_from_chars(t.as_slice())
}

/// `s` with ASCII letters lower-cased.
pub fn lower_str(s: &str) -> (r: String)
    ensures
        r@ == lower_seq(s@),
{
    let cs = chars_of(s);
    let t = lower_chars(cs.as_slice());
    string_from_chars(t.as_slice())
}

/// Whether `p` occurs in `s`.
pub fn str_contains(s: &str, p: &str) -> (b: bool)
    ensures
        b == contains_seq(s@, p@),
{
    let cs = chars_of(s);
    let ps = chars_of(p);
    contains_chars(cs.as_slice(), ps.as_slice())
}

/// Whether `s` is empty.
pub fn str_is_empty(s: &str) -> (b: bool)
    ensures
        b == (s@.len() == 0),
{
    s.unicode_len() == 0
}

/// The view of an optional string, absent as the empty text.
pub open spec fn opt_text(o: Option<String>) -> Seq<char> {
    match o {
        Some(s) => s@,
        None => seq![],
    }
}


/// Lower-casing neither creates nor removes white space.
pub proof fn lemma_lower_keeps_white_space(c: char)
    ensures
        is_white_space(ascii_lower(c)) == is_white_space(c),
{
    if 'A' <= c && c <= 'Z' {
        assert(0x41 <= (c as u32) <= 0x5A);
        assert((((c as u32) + 32) as char) as u32 == (c as u32) + 32);
    }
}

/// Lower-casing is idempotent.
pub proof fn lemma_lower_idempotent(s: Seq<char>)
    ensures
        lower_seq(lower_seq(s)) == lower_seq(s),
{
    assert forall|i: int| 0 <= i < s.len() implies #[trigger] lower_seq(lower_seq(s))[i] == lower_seq(s)[i] by {
        let c = s[i];
        if 'A' <= c && c <= 'Z' {
            assert((((c as u32) + 32) as char) as u32 == (c as u32) + 32);
        }
    }
    assert(lower_seq(lower_seq(s)) =~= lower_seq(s));
}

/// `c` ASCII upper-cased (`char::to_ascii_uppercase`).
pub open spec fn ascii_upper(c: char) -> char {
    if 'a' <= c && c <= 'z' {
        ((c as u32) - 32) as char
    } else {
        c
    }
}

/// The characters of `s`, ASCII upper-cased.
pub open spec fn upper_seq(s: Seq<char>) -> Seq<char> {
    s.map_values(|c: char| ascii_upper(c))
}

/// Lower-casing an upper-cased text gives the lower-cased text.
pub proof fn lemma_lower_upper(s: Seq<char>)
    ensures
        lower_seq(upper_seq(s)) == lower_seq(s),
{
    assert forall|i: int| 0 <= i < s.len() implies #[trigger] lower_seq(upper_seq(s))[i]
        == lower_seq(s)[i] by {
        let c = s[i];
        if 'a' <= c && c <= 'z' {
            assert((((c as u32) - 32) as char) as u32 == (c as u32) - 32);
            assert((((((c as u32) - 32) as char) as u32 + 32) as char) == c);
        }
    }
    assert(lower_seq(upper_seq(s)) =~= lower_seq(s));
}

/// A space before a text, or after it, does not change its trimmed form.
pub proof fn lemma_trim_padded(s: Seq<char>)
    ensures
        trim_seq(seq![' '] + s + seq![' ']) == trim_seq(s),
{
    let padded = seq![' '] + s + seq![' '];
    assert(is_white_space(' '));
    assert(padded.drop_first() =~= s + seq![' ']);
    lemma_trim_end_space(s);
}

/// A space after a text does not change its trimmed form.
proof fn lemma_trim_end_space(s: Seq<char>)
    ensures
        trim_end_seq(trim_start_seq(s + seq![' '])) == trim_end_seq(trim_start_seq(s)),
    decreases s.len(),
{
    let t = s + seq![' '];
    assert(is_white_space(' '));
    if s.len() == 0 {
        assert(t.drop_first() =~= Seq::<char>::empty());
        assert(t[0] == ' ');
        assert(trim_start_seq(t) == trim_start_seq(Seq::<char>::empty()));
        assert(trim_start_seq(s) == s);
    } else if is_white_space(s[0]) {
        assert(t[0] == s[0]);
        assert(t.drop_first() =~= s.drop_first() + seq![' ']);
        lemma_trim_end_space(s.drop_first());
    } else {
        assert(t[0] == s[0]);
        assert(trim_start_seq(t) == t);
        assert(trim_start_seq(s) == s);
        assert(t.last() == ' ');
        assert(t.drop_last() =~= s);
    }
}

proof fn lemma_trim_start_lower(s: Seq<char>)
    ensures
        trim_start_seq(lower_seq(s)) == lower_seq(trim_start_seq(s)),
    decreases s.len(),
{
    if s.len() > 0 {
        lemma_lower_keeps_white_space(s[0]);
        assert(lower_seq(s).drop_first() =~= lower_seq(s.drop_first()));
        lemma_trim_start_lower(s.drop_first());
    }
}

proof fn lemma_trim_end_lower(s: Seq<char>)
    ensures
        trim_end_seq(lower_seq(s)) == lower_seq(trim_end_seq(s)),
    decreases s.len(),
{
    if s.len() > 0 {
        lemma_lower_keeps_white_space(s.last());
        assert(lower_seq(s).drop_last() =~= lower_seq(s.drop_last()));
        lemma_trim_end_lower(s.drop_last());
    }
}

/// Trimming and lower-casing commute.
pub proof fn lemma_trim_lower(s: Seq<char>)
    ensures
        trim_seq(lower_seq(s)) == lower_seq(trim_seq(s)),
{
    lemma_trim_start_lower(s);
    lemma_trim_end_lower(trim_start_seq(s));
}

/// A character that a text lacks is lacked by each of its lines.
pub proof fn lemma_lines_keep_absent_char(s: Seq<char>, c: char)
    requires
        !s.contains(c),
    ensures
        forall|i: int| 0 <= i < lines_seq(s).len() ==> !(#[trigger] lines_seq(s)[i]).contains(c),
    decreases s.len(),
{
    if s.len() > 0 {
        let i = find_seq(s, seq!['\n']);
        if i >= 0 {
            lemma_find_seq_bounds(s, seq!['\n']);
            let head = strip_cr(s.take(i));
            let tail = s.skip(i + 1);
            assert(!tail.contains(c)) by {
                if tail.contains(c) {
                    let k = choose|k: int| 0 <= k < tail.len() && tail[k] == c;
                    assert(s[i + 1 + k] == c);
                }
            }
            assert(!head.contains(c)) by {
                if head.contains(c) {
                    let k = choose|k: int| 0 <= k < head.len() && head[k] == c;
                    assert(s[k] == c);
                }
            }
            lemma_lines_keep_absent_char(tail, c);
            assert forall|j: int| 0 <= j < lines_seq(s).len() implies !(
            #[trigger] lines_seq(s)[j]).contains(c) by {
                if j > 0 {
                    assert(lines_seq(s)[j] == lines_seq(tail)[j - 1]);
                }
            }
        }
    }
}

} // verus!
