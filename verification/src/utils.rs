//! Utility functions: path parts, string truncation and human-readable sizes.
//!
//! Paths are read with `/` as the separator.

use vstd::prelude::*;
use vstd::string::StringSliceAdditionalSpecFns;
use crate::text::{chars_of, string_from_chars};

verus! {

/// The lowercase form of a string, as `str::to_lowercase` computes it
/// (Unicode lowercase mapping).
pub uninterp spec fn lowercase(s: Seq<char>) -> Seq<char>;

/// Whether every character of `s` is ASCII.
pub open spec fn all_ascii(s: Seq<char>) -> bool {
    forall|i: int| 0 <= i < s.len() ==> (s[i] as u32) < 128
}

/// An ASCII character lowercased: `A` to `Z` become `a` to `z`.
pub open spec fn ascii_lower(c: char) -> char {
    if 'A' <= c && c <= 'Z' {
        ((c as u32) + 32) as char
    } else {
        c
    }
}

/// A string with each ASCII upper-case letter lowercased.
pub open spec fn ascii_lowered(s: Seq<char>) -> Seq<char> {
    s.map_values(|c: char| ascii_lower(c))
}

/// An ASCII character uppercased: `a` to `z` become `A` to `Z`.
pub open spec fn ascii_upper(c: char) -> char {
    if 'a' <= c && c <= 'z' {
        ((c as u32) - 32) as char
    } else {
        c
    }
}

/// A string with each ASCII lower-case letter uppercased.
pub open spec fn ascii_uppered(s: Seq<char>) -> Seq<char> {
    s.map_values(|c: char| ascii_upper(c))
}

/// Whether `s` holds no ASCII upper-case letter.
pub open spec fn no_ascii_upper(s: Seq<char>) -> bool {
    forall|i: int| 0 <= i < s.len() ==> !('A' <= #[trigger] s[i] && s[i] <= 'Z')
}

/// Case does not matter to an ASCII extension: what `get_extension` gives for
/// an ASCII extension holds no upper-case letter, and it gives the same for
/// the extension written in upper case.
pub proof fn lemma_extension_ignores_case(e: Seq<char>)
    requires
        all_ascii(e),
    ensures
        no_ascii_upper(ascii_lowered(e)),
        all_ascii(ascii_uppered(e)),
        ascii_lowered(ascii_uppered(e)) == ascii_lowered(e),
{
    assert forall|i: int| 0 <= i < ascii_lowered(e).len() implies !('A' <= #[trigger] ascii_lowered(e)[i] && ascii_lowered(e)[i] <= 'Z') by {
        let c = e[i];
        if 'A' <= c && c <= 'Z' {
            assert(65 <= (c as u32) <= 90);
            assert((((c as u32) + 32) as char) as u32 == (c as u32) + 32);
        }
    }
    assert forall|i: int| 0 <= i < ascii_uppered(e).len() implies (#[trigger] ascii_uppered(e)[i] as u32) < 128 by {
        let c = e[i];
        assert((c as u32) < 128);
        if 'a' <= c && c <= 'z' {
            assert((((c as u32) - 32) as char) as u32 == (c as u32) - 32);
        }
    }
    assert forall|i: int| 0 <= i < e.len() implies #[trigger] ascii_lowered(ascii_uppered(e))[i] == ascii_lowered(e)[i] by {
        let c = e[i];
        if 'a' <= c && c <= 'z' {
            let u = ((c as u32) - 32) as char;
            assert(u as u32 == (c as u32) - 32);
            assert('A' <= u && u <= 'Z');
            assert((((u as u32) + 32) as char) == c);
        }
    }
    assert(ascii_lowered(ascii_uppered(e)) =~= ascii_lowered(e));
}

/// `str::to_lowercase`: the result is `lowercase` of the input; on ASCII
/// text, where the Unicode lowercase mapping is the ASCII one, each upper-case
/// letter becomes its lower-case letter and the rest stays.
#[verifier::external_body]
pub(crate) fn to_lowercase(s: &str) -> (r: String)
    ensures
        r@ == lowercase(s@),
        all_ascii(s@) ==> r@ == ascii_lowered(s@),
{
    s.to_lowercase()
}

/// The characters after the last `/` of `s` (all of `s` when it has none).
pub open spec fn trailing_segment(s: Seq<char>) -> Seq<char>
    decreases s.len(),
{
    if s.len() == 0 || s.last() == '/' {
        Seq::empty()
    } else {
        trailing_segment(s.drop_last()).push(s.last())
    }
}

/// The final component of a path, as `Path::file_name` reads it: trailing
/// separators and `.` components are skipped; a final `..`, a root or an
/// empty path has none.
pub open spec fn file_name_of(s: Seq<char>) -> Option<Seq<char>>
    decreases s.len(),
{
    if s.len() == 0 {
        None
    } else if s.last() == '/' {
        file_name_of(s.drop_last())
    } else if trailing_segment(s) == seq!['.'] {
        file_name_of(s.drop_last())
    } else if trailing_segment(s) == seq!['.', '.'] {
        None
    } else {
        Some(trailing_segment(s))
    }
}

/// The position of the last `c` in `s`, or -1.
pub open spec fn last_index_of(s: Seq<char>, c: char) -> int
    decreases s.len(),
{
    if s.len() == 0 {
        -1
    } else if s.last() == c {
        s.len() - 1
    } else {
        last_index_of(s.drop_last(), c)
    }
}

/// The extension of a file name, as `Path::extension` reads it: what follows
/// the last `.`, unless the name has no `.` or its only `.` opens it.
pub open spec fn extension_of(name: Seq<char>) -> Option<Seq<char>> {
    let k = last_index_of(name, '.');
    if k <= 0 {
        None
    } else {
        Some(name.subrange(k + 1, name.len() as int))
    }
}

/// The extension of the path's file name, if any.
pub open spec fn path_extension(s: Seq<char>) -> Option<Seq<char>> {
    match file_name_of(s) {
        Some(n) => extension_of(n),
        None => None,
    }
}

proof fn lemma_trailing_segment(s: Seq<char>)
    ensures
        trailing_segment(s).len() <= s.len(),
        trailing_segment(s) == s.subrange(s.len() - trailing_segment(s).len(), s.len() as int),
        forall|i: int| 0 <= i < trailing_segment(s).len() ==> #[trigger] trailing_segment(s)[i] != '/',
        trailing_segment(s).len() < s.len() ==> s[s.len() - trailing_segment(s).len() - 1] == '/',
    decreases s.len(),
{
    if s.len() > 0 && s.last() != '/' {
        lemma_trailing_segment(s.drop_last());
        let t = trailing_segment(s.drop_last());
        assert(t.push(s.last()) =~= s.subrange(s.len() - t.len() - 1, s.len() as int));
    }
}

proof fn lemma_trailing_segment_of(s: Seq<char>, k: int)
    requires
        0 <= k <= s.len(),
        k == 0 || s[k - 1] == '/',
        forall|i: int| k <= i < s.len() ==> s[i] != '/',
    ensures
        trailing_segment(s) == s.subrange(k, s.len() as int),
    decreases s.len(),
{
    if s.len() > k {
        lemma_trailing_segment_of(s.drop_last(), k);
        assert(s.drop_last().subrange(k, s.len() - 1).push(s.last()) =~= s.subrange(k, s.len() as int));
    } else {
        if s.len() > 0 {
            assert(s.last() == '/');
        }
        assert(s.subrange(k, s.len() as int) =~= Seq::<char>::empty());
    }
}

proof fn lemma_last_index_of(s: Seq<char>, c: char)
    ensures
        -1 <= last_index_of(s, c) < s.len(),
        last_index_of(s, c) >= 0 ==> s[last_index_of(s, c)] == c,
        forall|i: int| last_index_of(s, c) < i < s.len() ==> s[i] != c,
    decreases s.len(),
{
    if s.len() > 0 && s.last() != c {
        lemma_last_index_of(s.drop_last(), c);
        assert forall|i: int| last_index_of(s, c) < i < s.len() implies s[i] != c by {
            if i < s.len() - 1 {
                assert(s[i] == s.drop_last()[i]);
            }
        }
    }
}

proof fn lemma_last_index_of_is(s: Seq<char>, c: char, k: int)
    requires
        -1 <= k < s.len(),
        k >= 0 ==> s[k] == c,
        forall|i: int| k < i < s.len() ==> s[i] != c,
    ensures
        last_index_of(s, c) == k,
    decreases s.len(),
{
    if s.len() > 0 && s.last() != c {
        lemma_last_index_of_is(s.drop_last(), c, k);
    }
}

/// The bounds `(start, end)` of the file name of `v` within `v`, if it has one.
fn file_name_bounds(v: &Vec<char>) -> (r: Option<(usize, usize)>)
    ensures
        file_name_of(v@) is None ==> r is None,
        file_name_of(v@) matches Some(n) ==> (r matches Some((a, b)) && a <= b <= v@.len()
            && v@.subrange(a as int, b as int) == n),
{
    let mut end: usize = v.len();
    proof {
        assert(v@.subrange(0, end as int) =~= v@);
    }
    loop
        invariant
            end <= v@.len(),
            file_name_of(v@.subrange(0, end as int)) == file_name_of(v@),
        decreases end,
    {
        let ghost s = v@.subrange(0, end as int);
        if end == 0 {
            return None;
        }
        proof {
            assert(s.drop_last() =~= v@.subrange(0, end - 1));
        }
        if v[end - 1] == '/' {
            end = end - 1;
        } else {
            let mut start: usize = end - 1;
            while start > 0 && v[start - 1] != '/'
                invariant
                    start < end <= v@.len(),
                    forall|i: int| start <= i < end ==> v@[i] != '/',
                decreases start,
            {
                start = start - 1;
            }
            proof {
                lemma_trailing_segment_of(s, start as int);
                assert(s.subrange(start as int, end as int) =~= v@.subrange(start as int, end as int));
            }
            let len = end - start;
            if len == 1 && v[start] == '.' {
                proof {
                    assert(trailing_segment(s) =~= seq!['.']);
                }
                end = end - 1;
            } else if len == 2 && v[start] == '.' && v[start + 1] == '.' {
                proof {
                    assert(trailing_segment(s) =~= seq!['.', '.']);
                }
                return None;
            } else {
                proof {
                    if trailing_segment(s) == seq!['.'] {
                        assert(trailing_segment(s).len() == 1);
                        assert(trailing_segment(s)[0] == v@[start as int]);
                    }
                    if trailing_segment(s) == seq!['.', '.'] {
                        assert(trailing_segment(s).len() == 2);
                        assert(trailing_segment(s)[0] == v@[start as int]);
                        assert(trailing_segment(s)[1] == v@[start + 1]);
                    }
                }
                return Some((start, end));
            }
        }
    }
}

/// The bounds of the extension within `v[start..end]`, a file name.
fn extension_bounds(v: &Vec<char>, start: usize, end: usize) -> (r: Option<(usize, usize)>)
    requires
        start <= end <= v@.len(),
    ensures
        extension_of(v@.subrange(start as int, end as int)) is None ==> r is None,
        extension_of(v@.subrange(start as int, end as int)) matches Some(e) ==> (r matches Some((a, b))
            && a <= b <= v@.len() && v@.subrange(a as int, b as int) == e
            && a == start + last_index_of(v@.subrange(start as int, end as int), '.') + 1 && b == end),
{
    let ghost n = v@.subrange(start as int, end as int);
    let mut k: usize = end;
    while k > start && v[k - 1] != '.'
        invariant
            start <= k <= end,
            end <= v@.len(),
            forall|i: int| k <= i < end ==> v@[i] != '.',
        decreases k,
    {
        k = k - 1;
    }
    // k is one past the last dot, or start when there is none
    proof {
        if k > start {
            lemma_last_index_of_is(n, '.', k - 1 - start);
        } else {
            lemma_last_index_of_is(n, '.', -1);
        }
    }
    if k - start <= 1 {
        None
    } else {
        proof {
            assert(n.subrange(k - start, n.len() as int) =~= v@.subrange(k as int, end as int));
        }
        Some((k, end))
    }
}

/// The stem of the path's file name, as `Path::file_stem` reads it: the name
/// without its extension and the `.` before it (the whole name when it has
/// no extension).
pub open spec fn path_file_stem(s: Seq<char>) -> Option<Seq<char>> {
    match file_name_of(s) {
        Some(n) => Some(if extension_of(n) is Some { n.take(last_index_of(n, '.')) } else { n }),
        None => None,
    }
}

/// The stem of the path's file name, if it has a file name.
pub fn file_stem(path: &str) -> (r: Option<String>)
    ensures
        match r {
            Some(t) => path_file_stem(path@) == Some(t@),
            None => path_file_stem(path@) is None,
        },
{
    let v = chars_of(path);
    match file_name_bounds(&v) {
        Some((a, b)) => {
            let ghost n = v@.subrange(a as int, b as int);
            match extension_bounds(&v, a, b) {
                Some((c, _d)) => {
                    proof {
                        assert(v@.subrange(a as int, c - 1) =~= n.take(last_index_of(n, '.')));
                    }
                    Some(string_from_chars(vstd::slice::slice_subrange(v.as_slice(), a, c - 1)))
                },
                None => Some(string_from_chars(vstd::slice::slice_subrange(v.as_slice(), a, b))),
            }
        },
        None => None,
    }
}

/// The extension of the path's file name, if any, as written.
pub fn file_extension(path: &str) -> (r: Option<String>)
    ensures
        match r {
            Some(t) => path_extension(path@) == Some(t@),
            None => path_extension(path@) is None,
        },
{
    let v = chars_of(path);
    match file_name_bounds(&v) {
        Some((a, b)) => match extension_bounds(&v, a, b) {
            Some((c, d)) => Some(string_from_chars(vstd::slice::slice_subrange(v.as_slice(), c, d))),
            None => None,
        },
        None => None,
    }
}

/// The file extension of `path`, lowercased; empty when it has none.
pub fn get_extension(path: &str) -> (r: String)
    ensures
        path_extension(path@) matches Some(e) ==> r@ == lowercase(e),
        path_extension(path@) matches Some(e) ==> (all_ascii(e) ==> r@ == ascii_lowered(e)),
        path_extension(path@) is None ==> r@ == Seq::<char>::empty(),
{
    let v = chars_of(path);
    match file_name_bounds(&v) {
        Some((a, b)) => match extension_bounds(&v, a, b) {
            Some((c, d)) => {
                let ext = string_from_chars(vstd::slice::slice_subrange(v.as_slice(), c, d));
                to_lowercase(ext.as_str())
            },
            None => String::new(),
        },
        None => String::new(),
    }
}

/// The file name of `path`; empty when it has none.
pub fn get_filename(path: &str) -> (r: String)
    ensures
        file_name_of(path@) matches Some(n) ==> r@ == n,
        file_name_of(path@) is None ==> r@ == Seq::<char>::empty(),
{
    let v = chars_of(path);
    match file_name_bounds(&v) {
        Some((a, b)) => string_from_chars(vstd::slice::slice_subrange(v.as_slice(), a, b)),
        None => String::new(),
    }
}

/// Where a string longer than `max_len` bytes is cut: `max_len - 3`, or 0.
pub open spec fn cut_point(max_len: usize) -> int {
    if max_len >= 3 {
        max_len - 3
    } else {
        0
    }
}

/// The text of `s` cut to at most `max_len` bytes: `s` itself when it fits,
/// otherwise its first `max_len - 3` bytes followed by `...`; below three
/// bytes only the dots that fit are left. The cut must fall on a character
/// boundary.
pub fn truncate_string(s: &str, max_len: usize) -> (r: String)
    requires
        s.spec_bytes().len() <= usize::MAX,
        s.spec_bytes().len() > max_len ==> vstd::utf8::is_char_boundary(
            s.spec_bytes(),
            cut_point(max_len),
        ),
    ensures
        s.spec_bytes().len() <= max_len ==> r@ == s@,
        s.spec_bytes().len() > max_len && max_len >= 3 ==> r@ == vstd::utf8::decode_utf8(
            s.spec_bytes().subrange(0, cut_point(max_len)),
        ) + seq!['.', '.', '.'],
        s.spec_bytes().len() > max_len && max_len < 3 ==> r@ == seq!['.', '.', '.'].take(max_len as int),
{
    if s.len() <= max_len {
        s.to_owned()
    } else if max_len < 3 {
        let mut r = String::new();
        let mut i: usize = 0;
        while i < max_len
            invariant
                i <= max_len < 3,
                r@ == seq!['.', '.', '.'].take(i as int),
            decreases max_len - i,
        {
            crate::text::push_char(&mut r, '.');
            proof {
                assert(seq!['.', '.', '.'].take(i + 1) =~= seq!['.', '.', '.'].take(i as int).push('.'));
            }
            i = i + 1;
        }
        r
    } else {
        let n: usize = if max_len >= 3 { max_len - 3 } else { 0 };
        let (head, _tail) = s.split_at(n);
        proof {
            vstd::utf8::encode_utf8_decode_utf8(head@);
            assert(head.spec_bytes() =~= s.spec_bytes().subrange(0, n as int));
            assert(vstd::utf8::decode_utf8(s.spec_bytes().subrange(0, n as int)) == head@);
        }
        let mut r = head.to_owned();
        crate::text::push_char(&mut r, '.');
        crate::text::push_char(&mut r, '.');
        crate::text::push_char(&mut r, '.');
        proof {
            assert(r@ =~= head@ + seq!['.', '.', '.']);
        }
        r
    }
}

/// The number of binary digits of `n`.
pub open spec fn bit_length(n: nat) -> nat
    decreases n,
{
    if n == 0 {
        0
    } else {
        1 + bit_length(n / 2)
    }
}

/// `num / den` rounded to the nearest integer, ties to the even one.
pub open spec fn div_round_half_even(num: nat, den: nat) -> nat {
    let q = num / den;
    let r = num % den;
    if 2 * r > den || (2 * r == den && q % 2 == 1) {
        q + 1
    } else {
        q
    }
}

/// The integer value of `n as f64`: `n` itself below 2^53, otherwise `n`
/// rounded to its 53 leading binary digits, ties to even.
pub open spec fn f64_round(n: nat) -> nat {
    if n < vstd::arithmetic::power2::pow2(53) {
        n
    } else {
        let unit = vstd::arithmetic::power2::pow2((bit_length(n) - 53) as nat);
        div_round_half_even(n, unit) * unit
    }
}

/// The decimal digit for `d < 10`.
pub open spec fn digit_char(d: nat) -> char {
    (('0' as u32) + d) as char
}

/// The decimal digits of `n`, without leading zeros.
pub open spec fn dec_str(n: nat) -> Seq<char>
    decreases n,
{
    if n < 10 {
        seq![digit_char(n)]
    } else {
        dec_str(n / 10).push(digit_char(n % 10))
    }
}

/// `bytes / unit` with two decimals, as `format!("{:.2}")` writes the `f64`
/// quotient, followed by a space and the unit's name.
pub open spec fn scaled_size_text(bytes: u64, unit: nat, name: Seq<char>) -> Seq<char> {
    let h = div_round_half_even(f64_round(bytes as nat) * 100, unit);
    dec_str(h / 100) + seq!['.', digit_char((h % 100) / 10), digit_char(h % 10), ' '] + name
}

/// The display text of a file size: bytes below 1 KB, otherwise KB, MB or GB
/// (powers of 1024) with two decimals.
pub open spec fn file_size_text(bytes: u64) -> Seq<char> {
    if bytes >= 1073741824 {
        scaled_size_text(bytes, 1073741824, seq!['G', 'B'])
    } else if bytes >= 1048576 {
        scaled_size_text(bytes, 1048576, seq!['M', 'B'])
    } else if bytes >= 1024 {
        scaled_size_text(bytes, 1024, seq!['K', 'B'])
    } else {
        dec_str(bytes as nat) + seq![' ', 'B']
    }
}

/// Appends the decimal digits of `n`.
pub(crate) fn push_decimal(out: &mut Vec<char>, n: u128)
    ensures
        final(out)@ == old(out)@ + dec_str(n as nat),
    decreases n,
{
    if n >= 10 {
        push_decimal(out, n / 10);
    }
    let c = digit(n % 10);
    out.push(c);
    proof {
        if n >= 10 {
            assert(old(out)@ + dec_str((n / 10) as nat) + seq![digit_char((n % 10) as nat)] =~= old(out)@ + dec_str(n as nat));
        } else {
            assert(old(out)@ + seq![digit_char(n as nat)] =~= old(out)@ + dec_str(n as nat));
        }
    }
}

/// The decimal digit character for `d < 10`.
fn digit(d: u128) -> (c: char)
    requires
        d < 10,
    ensures
        c == digit_char(d as nat),
{
    (48u8 + (d as u8)) as char
}

/// `num / den` rounded half to even.
fn div_round(num: u128, den: u128) -> (r: u128)
    requires
        den > 0,
        num / den < u128::MAX,
    ensures
        r == div_round_half_even(num as nat, den as nat),
{
    let q = num / den;
    let rem = num % den;
    if rem > den - rem || (rem == den - rem && q % 2 == 1) {
        q + 1
    } else {
        q
    }
}

/// The integer value of `n as f64`.
fn f64_round_exec(n: u64) -> (r: u128)
    ensures
        r == f64_round(n as nat),
        r <= 0x1_0000_0000_0000_0000,
{
    proof {
        vstd::arithmetic::power2::lemma2_to64();
        vstd::arithmetic::power2::lemma2_to64_rest();
    }
    if n < 0x20_0000_0000_0000 {
        return n as u128;
    }
    let mut m: u64 = n;
    let mut bits: u64 = 0;
    proof {
        lemma_bit_length_le(n as nat, 64);
    }
    while m > 0
        invariant
            bit_length(n as nat) == bits + bit_length(m as nat),
            bits <= 64,
            m <= n,
            bits + bit_length(m as nat) <= 64,
        decreases m,
    {
        proof {
            lemma_bit_length_bound(m as nat);
        }
        m = m / 2;
        bits = bits + 1;
    }
    proof {
        lemma_bit_length_ge(n as nat);
        lemma_bit_length_bound(n as nat);
    }
    let e = bits - 53;
    let mut unit: u128 = 1;
    let mut i: u64 = 0;
    while i < e
        invariant
            i <= e <= 11,
            unit == vstd::arithmetic::power2::pow2(i as nat),
        decreases e - i,
    {
        proof {
            vstd::arithmetic::power2::lemma2_to64();
            vstd::arithmetic::power2::lemma_pow2_adds(i as nat, 1);
            vstd::arithmetic::power2::lemma_pow2_strictly_increases(i as nat, 11);
        }
        unit = unit * 2;
        i = i + 1;
    }
    let nn = n as u128;
    proof {
        assert(nn / unit <= nn) by (nonlinear_arith)
            requires unit >= 1;
    }
    proof {
        lemma_bit_length_bound(n as nat);
        vstd::arithmetic::power2::lemma_pow2_adds(53, e as nat);
        assert(nn / unit < 0x20_0000_0000_0000) by (nonlinear_arith)
            requires nn < 0x20_0000_0000_0000 * unit, unit >= 1;
    }
    let q = div_round(nn, unit);
    proof {
        assert(q <= nn / unit + 1);
        assert(q * unit <= 0x20_0000_0000_0000 * unit) by (nonlinear_arith)
            requires q <= 0x20_0000_0000_0000, unit >= 1;
        vstd::arithmetic::power2::lemma_pow2_adds(53, e as nat);
        if bits < 64 {
            vstd::arithmetic::power2::lemma_pow2_strictly_increases(bits as nat, 64);
        }
        assert((nn / unit) * unit <= nn) by (nonlinear_arith)
            requires unit >= 1;
    }
    let r = q * unit;
    r
}

proof fn lemma_bit_length_bound(n: nat)
    ensures
        n < vstd::arithmetic::power2::pow2(bit_length(n)),
        n > 0 ==> vstd::arithmetic::power2::pow2((bit_length(n) - 1) as nat) <= n,
    decreases n,
{
    vstd::arithmetic::power2::lemma2_to64();
    if n > 0 {
        lemma_bit_length_bound(n / 2);
        vstd::arithmetic::power2::lemma_pow2_unfold(bit_length(n));
        if n / 2 > 0 {
            vstd::arithmetic::power2::lemma_pow2_unfold(bit_length(n / 2));
        }
    }
}

proof fn lemma_bit_length_le(n: nat, k: nat)
    requires
        n < vstd::arithmetic::power2::pow2(k),
    ensures
        bit_length(n) <= k,
{
    lemma_bit_length_bound(n);
    if bit_length(n) > k {
        if bit_length(n) - 1 > k {
            vstd::arithmetic::power2::lemma_pow2_strictly_increases(k, (bit_length(n) - 1) as nat);
        }
    }
}

proof fn lemma_bit_length_ge(n: nat)
    requires
        n >= vstd::arithmetic::power2::pow2(53),
        n < vstd::arithmetic::power2::pow2(64),
    ensures
        54 <= bit_length(n) <= 64,
{
    lemma_bit_length_bound(n);
    if bit_length(n) < 54 {
        if bit_length(n) < 53 {
            vstd::arithmetic::power2::lemma_pow2_strictly_increases(bit_length(n), 53);
        }
    }
    if bit_length(n) > 64 {
        if bit_length(n) - 1 > 64 {
            vstd::arithmetic::power2::lemma_pow2_strictly_increases(64, (bit_length(n) - 1) as nat);
        }
    }
}


/// Appends `bytes / unit` with two decimals and a trailing space.
fn push_scaled(out: &mut Vec<char>, bytes: u64, unit: u128)
    requires
        unit > 0,
    ensures
        final(out)@ == old(out)@ + ({
            let h = div_round_half_even(f64_round(bytes as nat) * 100, unit as nat);
            dec_str(h / 100) + seq!['.', digit_char((h % 100) / 10), digit_char(h % 10), ' ']
        }),
{
    let v = f64_round_exec(bytes);
    proof {
        assert(v * 100 <= 0x1_0000_0000_0000_0000 * 100) by (nonlinear_arith)
            requires v <= 0x1_0000_0000_0000_0000;
        assert(((v * 100) as u128) / unit <= (v * 100) as u128) by (nonlinear_arith)
            requires unit >= 1;
    }
    let h = div_round(v * 100, unit);
    push_decimal(out, h / 100);
    out.push('.');
    let d1 = digit((h % 100) / 10);
    out.push(d1);
    let d2 = digit(h % 10);
    out.push(d2);
    out.push(' ');
}

/// The size in human-readable form: `"500 B"` below 1 KB, otherwise the size
/// in KB, MB or GB (powers of 1024) with two decimals, such as `"1.00 KB"`.
pub fn format_file_size(bytes: u64) -> (r: String)
    ensures
        r@ == file_size_text(bytes),
{
    let mut out: Vec<char> = Vec::new();
    if bytes >= 1073741824 {
        push_scaled(&mut out, bytes, 1073741824);
        out.push('G');
        out.push('B');
    } else if bytes >= 1048576 {
        push_scaled(&mut out, bytes, 1048576);
        out.push('M');
        out.push('B');
    } else if bytes >= 1024 {
        push_scaled(&mut out, bytes, 1024);
        out.push('K');
        out.push('B');
    } else {
        push_decimal(&mut out, bytes as u128);
        out.push(' ');
        out.push('B');
    }
    proof {
        assert(out@ =~= file_size_text(bytes));
    }
    string_from_chars(out.as_slice())
}


/// The lowercase hexadecimal BLAKE3 digest of `content`, as
/// `blake3::hash(content).to_hex()` writes it.
pub uninterp spec fn blake3_hex(content: Seq<u8>) -> Seq<char>;

/// Whether `c` is one of `0-9a-f`.
pub open spec fn is_lower_hex_digit(c: char) -> bool {
    ('0' <= c && c <= '9') || ('a' <= c && c <= 'f')
}

/// `blake3::hash(content).to_hex()`: the digest's 32 bytes written as 64
/// lowercase hexadecimal digits, two per byte (as the crate's `to_hex` shows).
#[verifier::external_body]
fn blake3_hash_hex(content: &[u8]) -> (r: String)
    ensures
        r@ == blake3_hex(content@),
        r@.len() == 64,
        forall|i: int| 0 <= i < r@.len() ==> is_lower_hex_digit(#[trigger] r@[i]),
{
    blake3::hash(content).to_hex().to_string()
}

/// The BLAKE3 hash of `content` in lowercase hexadecimal (64 digits).
pub fn hash_content(content: &[u8]) -> (r: String)
    ensures
        r@ == blake3_hex(content@),
        r@.len() == 64,
        forall|i: int| 0 <= i < r@.len() ==> is_lower_hex_digit(#[trigger] r@[i]),
{
    blake3_hash_hex(content)
}

/// A fresh time-ordered (version 7) UUID, as its 128 bits.
pub fn generate_uuid() -> (id: u128) {
    crate::clock::new_uuid_v7()
}

/// `rel` appended to the directory `dir` as `Path::join` does it for a
/// relative `rel`: with one `/` between them, none when `dir` is empty or
/// already ends with `/`; an absolute `rel` (one that starts with `/`)
/// replaces `dir`.
pub open spec fn path_join(dir: Seq<char>, rel: Seq<char>) -> Seq<char> {
    if rel.len() > 0 && rel[0] == '/' {
        rel
    } else if dir.len() == 0 || dir.last() == '/' {
        dir + rel
    } else {
        dir.push('/') + rel
    }
}

/// `dir` joined with `rel` (`Path::join`).
pub fn join_path(dir: &str, rel: &str) -> (r: String)
    ensures
        r@ == path_join(dir@, rel@),
{
    let p = chars_of(rel);
    if p.len() > 0 && p[0] == '/' {
        return string_from_chars(p.as_slice());
    }
    let mut v = chars_of(dir);
    if v.len() > 0 && v[v.len() - 1] != '/' {
        v.push('/');
    }
    let ghost head = v@;
    let mut i: usize = 0;
    while i < p.len()
        invariant
            i <= p.len(),
            v@ == head + p@.subrange(0, i as int),
        decreases p.len() - i,
    {
        v.push(p[i]);
        proof {
            assert(head + p@.subrange(0, i + 1) =~= (head + p@.subrange(0, i as int)).push(p@[i as int]));
        }
        i = i + 1;
    }
    proof {
        assert(p@.subrange(0, p@.len() as int) =~= p@);
        assert(v@ =~= path_join(dir@, rel@));
    }
    string_from_chars(v.as_slice())
}

/// `path` made absolute against the working directory `cwd`: an absolute path
/// (one that starts with `/`) is kept, a relative one is joined to `cwd`, and
/// without a working directory it is kept as given.
pub open spec fn normalized_path(path: Seq<char>, cwd: Option<Seq<char>>) -> Seq<char> {
    if path.len() > 0 && path[0] == '/' {
        path
    } else {
        match cwd {
            Some(c) => path_join(c, path),
            None => path,
        }
    }
}

/// Makes `path` absolute against the working directory `cwd` (`None` when it
/// could not be read).
pub fn normalize_path(path: &str, cwd: Option<&str>) -> (r: String)
    ensures
        r@ == normalized_path(path@, match cwd {
            Some(c) => Some(c@),
            None => None,
        }),
{
    let p = chars_of(path);
    if p.len() > 0 && p[0] == '/' {
        return string_from_chars(p.as_slice());
    }
    match cwd {
        Some(c) => join_path(c, path),
        None => string_from_chars(p.as_slice()),
    }
}


/// What `uuid::Uuid::parse_str` gives for a text: the value of the UUID it
/// writes, or the message of the error.
pub uninterp spec fn uuid_parse(s: Seq<char>) -> Result<u128, Seq<char>>;

/// `uuid::Uuid::parse_str`: the 128 bits of the UUID written in `s` (in any
/// of the forms the crate reads), or the text of its error.
#[verifier::external_body]
pub(crate) fn parse_uuid(s: &str) -> (r: Result<u128, String>)
    ensures
        match r {
            Ok(v) => uuid_parse(s@) == Ok::<u128, Seq<char>>(v),
            Err(m) => uuid_parse(s@) == Err::<u128, Seq<char>>(m@),
        },
{
    match uuid::Uuid::parse_str(s) {
        Ok(u) => Ok(u.as_u128()),
        Err(e) => Err(e.to_string()),
    }
}

} // verus!
