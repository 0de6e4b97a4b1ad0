//! Verified text helpers: decimal rendering, joining, and substring
//! predicates over the character view of strings.

use vstd::prelude::*;

verus! {

/// The decimal digit character for `d` (0 to 9).
pub open spec fn digit_char(d: int) -> char {
    if d == 0 {
        '0'
    } else if d == 1 {
        '1'
    } else if d == 2 {
        '2'
    } else if d == 3 {
        '3'
    } else if d == 4 {
        '4'
    } else if d == 5 {
        '5'
    } else if d == 6 {
        '6'
    } else if d == 7 {
        '7'
    } else if d == 8 {
        '8'
    } else {
        '9'
    }
}

/// The usual decimal rendering of `n`, most significant digit first,
/// without leading zeros (a single zero for `n == 0`).
pub open spec fn spec_decimal(n: int) -> Seq<char>
    decreases n,
{
    if n < 10 {
        seq![digit_char(n)]
    } else {
        spec_decimal(n / 10) + seq![digit_char(n % 10)]
    }
}

/// One decimal digit as a string slice.
fn digit_str(d: u64) -> (s: &'static str)
    requires
        d < 10,
    ensures
        s@ =~= seq![digit_char(d as int)],
{
    proof {
        reveal_strlit("0");
        reveal_strlit("1");
        reveal_strlit("2");
        reveal_strlit("3");
        reveal_strlit("4");
        reveal_strlit("5");
        reveal_strlit("6");
        reveal_strlit("7");
        reveal_strlit("8");
        reveal_strlit("9");
    }
    if d == 0 {
        "0"
    } else if d == 1 {
        "1"
    } else if d == 2 {
        "2"
    } else if d == 3 {
        "3"
    } else if d == 4 {
        "4"
    } else if d == 5 {
        "5"
    } else if d == 6 {
        "6"
    } else if d == 7 {
        "7"
    } else if d == 8 {
        "8"
    } else {
        "9"
    }
}

/// Render `n` in decimal.
pub fn u64_to_string(n: u64) -> (s: String)
    ensures
        s@ == spec_decimal(n as int),
    decreases n,
{
    if n < 10 {
        digit_str(n).to_owned()
    } else {
        let mut s = u64_to_string(n / 10);
        s.append(digit_str(n % 10));
        s
    }
}

/// The parts laid end to end with `sep` between neighbours.
pub open spec fn spec_join(parts: Seq<Seq<char>>, sep: Seq<char>) -> Seq<char>
    decreases parts.len(),
{
    if parts.len() == 0 {
        Seq::empty()
    } else if parts.len() == 1 {
        parts[0]
    } else {
        parts[0] + sep + spec_join(parts.drop_first(), sep)
    }
}

/// Appending one part to a join extends it by a separator and the part.
pub proof fn lemma_spec_join_push(parts: Seq<Seq<char>>, sep: Seq<char>, last: Seq<char>)
    ensures
        parts.len() == 0 ==> spec_join(parts.push(last), sep) == last,
        parts.len() > 0 ==> spec_join(parts.push(last), sep) =~= spec_join(parts, sep) + sep
            + last,
    decreases parts.len(),
{
    if parts.len() == 0 {
        assert(parts.push(last).len() == 1);
        assert(spec_join(parts.push(last), sep) == parts.push(last)[0]);
    } else if parts.len() == 1 {
        let ext = parts.push(last);
        assert(ext.drop_first() =~= seq![last]);
        assert(spec_join(ext.drop_first(), sep) == last);
        assert(spec_join(ext, sep) == ext[0] + sep + last);
        assert(ext[0] == parts[0]);
        assert(spec_join(parts, sep) == parts[0]);
    } else {
        lemma_spec_join_push(parts.drop_first(), sep, last);
        assert(parts.push(last).drop_first() =~= parts.drop_first().push(last));
        assert(spec_join(parts.push(last), sep) == parts[0] + sep + spec_join(
            parts.drop_first().push(last),
            sep,
        ));
    }
}

/// Join the strings with `sep` between neighbours.
pub fn join_strings(parts: &Vec<String>, sep: &str) -> (r: String)
    ensures
        r@ == spec_join(parts@.map_values(|p: String| p@), sep@),
{
    let ghost views = parts@.map_values(|p: String| p@);
    let mut r = String::new();
    let mut i: usize = 0;
    while i < parts.len()
        invariant
            i <= parts.len(),
            views == parts@.map_values(|p: String| p@),
            r@ == spec_join(views.take(i as int), sep@),
        decreases parts.len() - i,
    {
        if i > 0 {
            r.append(sep);
        }
        r.append(parts[i].as_str());
        proof {
            lemma_spec_join_push(views.take(i as int), sep@, views[i as int]);
            assert(views.take(i as int).push(views[i as int]) =~= views.take(i + 1 as int));
        }
        i = i + 1;
    }
    proof {
        assert(views.take(parts@.len() as int) =~= views);
    }
    r
}

/// Every part of a join occurs in the joined text as a contiguous run;
/// the returned offset locates part `i`.
pub proof fn lemma_join_has_each_part(parts: Seq<Seq<char>>, sep: Seq<char>, i: int) -> (k: int)
    requires
        0 <= i < parts.len(),
    ensures
        0 <= k,
        k + parts[i].len() <= spec_join(parts, sep).len(),
        spec_join(parts, sep).subrange(k, k + parts[i].len()) == parts[i],
        spec_contains(spec_join(parts, sep), parts[i]),
    decreases parts.len(),
{
    let joined = spec_join(parts, sep);
    let k: int = if parts.len() == 1 || i == 0 {
        let k0: int = 0;
        assert(joined.subrange(k0, k0 + parts[i].len()) =~= parts[i]);
        0
    } else {
        let k0 = lemma_join_has_each_part(parts.drop_first(), sep, i - 1);
        let rest = spec_join(parts.drop_first(), sep);
        let off = parts[0].len() + sep.len();
        let k = k0 + off;
        assert(parts.drop_first()[i - 1] == parts[i]);
        assert(joined =~= parts[0] + sep + rest);
        assert(joined.subrange(k, k + parts[i].len()) =~= rest.subrange(
            k0,
            k0 + parts[i].len(),
        ));
        k
    };
    assert(0 <= k && k + parts[i].len() <= joined.len() && joined.subrange(k, k + parts[i].len())
        == parts[i]);
    k
}

/// Whether `i + needle.len()` characters of `hay` starting at `i` spell
/// `needle`.
fn match_at(hay: &str, needle: &str, i: usize) -> (r: bool)
    requires
        i + needle@.len() <= hay@.len(),
        hay@.len() <= usize::MAX,
    ensures
        r <==> hay@.subrange(i as int, i + needle@.len()) == needle@,
{
    let nlen = needle.unicode_len();
    let mut j: usize = 0;
    while j < nlen
        invariant
            j <= nlen,
            nlen == needle@.len(),
            i + nlen <= hay@.len() <= usize::MAX,
            forall|k: int| 0 <= k < j ==> hay@[i + k] == needle@[k],
        decreases nlen - j,
    {
        if hay.get_char(i + j) != needle.get_char(j) {
            proof {
                assert(hay@.subrange(i as int, i + needle@.len())[j as int] == hay@[i + j]);
            }
            return false;
        }
        j = j + 1;
    }
    proof {
        assert(hay@.subrange(i as int, i + needle@.len()) =~= needle@);
    }
    true
}

/// `needle` occurs somewhere in `hay`.
pub open spec fn spec_contains(hay: Seq<char>, needle: Seq<char>) -> bool {
    exists|k: int|
        0 <= k && k + needle.len() <= hay.len() && #[trigger] hay.subrange(k, k + needle.len())
            == needle
}

/// Substring search over the character views.
pub fn str_contains(hay: &str, needle: &str) -> (r: bool)
    ensures
        r == spec_contains(hay@, needle@),
{
    let hlen = hay.unicode_len();
    let nlen = needle.unicode_len();
    if nlen > hlen {
        return false;
    }
    if nlen == 0 {
        proof {
            let k: int = 0;
            assert(hay@.subrange(k, k + needle@.len()) =~= needle@);
        }
        return true;
    }
    let mut i: usize = 0;
    while i <= hlen - nlen
        invariant
            hlen == hay@.len(),
            nlen == needle@.len(),
            0 < nlen <= hlen,
            i <= hlen - nlen + 1,
            forall|k: int| 0 <= k < i ==> #[trigger] hay@.subrange(k, k + needle@.len())
                != needle@,
        decreases hlen - nlen + 1 - i,
    {
        if match_at(hay, needle, i) {
            proof {
                let k = i as int;
                assert(hay@.subrange(k, k + needle@.len()) == needle@);
            }
            return true;
        }
        i = i + 1;
    }
    false
}

/// `suffix` is a suffix of `s`.
pub open spec fn spec_ends_with(s: Seq<char>, suffix: Seq<char>) -> bool {
    suffix.len() <= s.len() && s.subrange(s.len() - suffix.len(), s.len() as int) == suffix
}

/// Suffix test over the character views.
pub fn str_ends_with(s: &str, suffix: &str) -> (r: bool)
    ensures
        r == spec_ends_with(s@, suffix@),
{
    let slen = s.unicode_len();
    let xlen = suffix.unicode_len();
    if xlen > slen {
        return false;
    }
    match_at(s, suffix, slen - xlen)
}

/// The view of an optional text.
pub open spec fn opt_text_view(o: Option<String>) -> Option<Seq<char>> {
    match o {
        Some(s) => Some(s@),
        None => None,
    }
}

/// `s` with every trailing `/` removed.
pub open spec fn spec_trim_end_slashes(s: Seq<char>) -> Seq<char>
    decreases s.len(),
{
    if s.len() > 0 && s.last() == '/' {
        spec_trim_end_slashes(s.drop_last())
    } else {
        s
    }
}

/// Strip trailing slashes, as [`spec_trim_end_slashes`] describes.
pub fn trim_end_slashes(s: &str) -> (r: String)
    ensures
        r@ == spec_trim_end_slashes(s@),
{
    let n = s.unicode_len();
    proof {
        assert(s@.take(n as int) =~= s@);
    }
    let mut end = n;
    while end > 0 && s.get_char(end - 1) == '/'
        invariant
            end <= n,
            n == s@.len(),
            spec_trim_end_slashes(s@) == spec_trim_end_slashes(s@.take(end as int)),
        decreases end,
    {
        proof {
            assert(s@.take(end as int).last() == s@[end - 1]);
            assert(s@.take(end as int).drop_last() =~= s@.take(end - 1));
        }
        end = end - 1;
    }
    let r = s.substring_char(0, end);
    proof {
        if end > 0 {
            assert(s@.take(end as int).last() != '/');
        }
        assert(r@ =~= s@.take(end as int));
    }
    r.to_owned()
}

/// Whether `c` is Unicode whitespace: the White_Space set that
/// `str::trim` strips.
pub open spec fn spec_is_whitespace(c: char) -> bool {
    ||| c == '\u{0009}'
    ||| c == '\u{000A}'
    ||| c == '\u{000B}'
    ||| c == '\u{000C}'
    ||| c == '\u{000D}'
    ||| c == ' '
    ||| c == '\u{0085}'
    ||| c == '\u{00A0}'
    ||| c == '\u{1680}'
    ||| ('\u{2000}' <= c && c <= '\u{200A}')
    ||| c == '\u{2028}'
    ||| c == '\u{2029}'
    ||| c == '\u{202F}'
    ||| c == '\u{205F}'
    ||| c == '\u{3000}'
}

/// The Unicode-whitespace test, as [`spec_is_whitespace`] states it.
pub fn is_whitespace_char(c: char) -> (r: bool)
    ensures
        r == spec_is_whitespace(c),
{
    c == '\u{0009}' || c == '\u{000A}' || c == '\u{000B}' || c == '\u{000C}' || c == '\u{000D}'
        || c == ' ' || c == '\u{0085}' || c == '\u{00A0}' || c == '\u{1680}' || ('\u{2000}' <= c
        && c <= '\u{200A}') || c == '\u{2028}' || c == '\u{2029}' || c == '\u{202F}' || c
        == '\u{205F}' || c == '\u{3000}'
}

/// `s` with every leading whitespace character removed.
pub open spec fn spec_trim_start(s: Seq<char>) -> Seq<char>
    decreases s.len(),
{
    if s.len() > 0 && spec_is_whitespace(s[0]) {
        spec_trim_start(s.drop_first())
    } else {
        s
    }
}

/// `s` with every trailing whitespace character removed.
pub open spec fn spec_trim_end(s: Seq<char>) -> Seq<char>
    decreases s.len(),
{
    if s.len() > 0 && spec_is_whitespace(s.last()) {
        spec_trim_end(s.drop_last())
    } else {
        s
    }
}

/// `s` with leading and trailing whitespace removed.
pub open spec fn spec_trim(s: Seq<char>) -> Seq<char> {
    spec_trim_end(spec_trim_start(s))
}

/// Strip leading and trailing Unicode whitespace, as [`spec_trim`]
/// describes.
pub fn trim_text(s: &str) -> (r: String)
    ensures
        r@ == spec_trim(s@),
{
    let n = s.unicode_len();
    proof {
        assert(s@.skip(0) =~= s@);
    }
    let mut start: usize = 0;
    while start < n && is_whitespace_char(s.get_char(start))
        invariant
            start <= n,
            n == s@.len(),
            spec_trim_start(s@) == spec_trim_start(s@.skip(start as int)),
        decreases n - start,
    {
        proof {
            assert(s@.skip(start as int)[0] == s@[start as int]);
            assert(s@.skip(start as int).drop_first() =~= s@.skip(start + 1));
        }
        start = start + 1;
    }
    proof {
        if start < n {
            assert(s@.skip(start as int)[0] == s@[start as int]);
        }
        assert(spec_trim_start(s@) == s@.skip(start as int));
        assert(s@.skip(start as int) =~= s@.subrange(start as int, n as int));
    }
    let mut end = n;
    while end > start && is_whitespace_char(s.get_char(end - 1))
        invariant
            start <= end <= n,
            n == s@.len(),
            spec_trim_end(s@.skip(start as int)) == spec_trim_end(
                s@.subrange(start as int, end as int),
            ),
        decreases end,
    {
        proof {
            assert(s@.subrange(start as int, end as int).last() == s@[end - 1]);
            assert(s@.subrange(start as int, end as int).drop_last() =~= s@.subrange(
                start as int,
                end - 1,
            ));
        }
        end = end - 1;
    }
    let r = s.substring_char(start, end);
    proof {
        if end > start {
            assert(s@.subrange(start as int, end as int).last() == s@[end - 1]);
        }
        assert(spec_trim_end(s@.subrange(start as int, end as int)) == s@.subrange(
            start as int,
            end as int,
        ));
        assert(r@ == spec_trim(s@));
    }
    r.to_owned()
}

/// The text after the last `/` of `s` (all of `s` when it has none).
pub open spec fn spec_after_last_slash(s: Seq<char>) -> Seq<char>
    decreases s.len(),
{
    if s.len() == 0 {
        s
    } else if s.last() == '/' {
        Seq::empty()
    } else {
        spec_after_last_slash(s.drop_last()).push(s.last())
    }
}

/// A suffix free of `/` whose left neighbour is `/` (or the start) is
/// the text after the last slash.
proof fn lemma_after_last_slash(s: Seq<char>, k: int)
    requires
        0 <= k <= s.len(),
        forall|j: int| k <= j < s.len() ==> s[j] != '/',
        k > 0 ==> s[k - 1] == '/',
    ensures
        spec_after_last_slash(s) =~= s.skip(k),
    decreases s.len(),
{
    if s.len() == 0 {
    } else if k == s.len() {
        if k > 0 {
            assert(s.last() == '/');
        }
    } else {
        assert(s.last() != '/');
        lemma_after_last_slash(s.drop_last(), k);
        assert(s.drop_last().skip(k).push(s.last()) =~= s.skip(k));
    }
}

/// The file-name component of a path: the text after its last `/`.
pub fn after_last_slash(s: &str) -> (r: &str)
    ensures
        r@ == spec_after_last_slash(s@),
{
    let n = s.unicode_len();
    let mut k = n;
    while k > 0 && s.get_char(k - 1) != '/'
        invariant
            k <= n,
            n == s@.len(),
            forall|j: int| k <= j < n ==> s@[j] != '/',
        decreases k,
    {
        k = k - 1;
    }
    let r = s.substring_char(k, n);
    proof {
        lemma_after_last_slash(s@, k as int);
        assert(r@ =~= s@.skip(k as int));
    }
    r
}

/// Equality of two string slices, decided character by character.
pub fn str_eq(a: &str, b: &str) -> (r: bool)
    ensures
        r == (a@ == b@),
{
    let alen = a.unicode_len();
    let blen = b.unicode_len();
    if alen != blen {
        return false;
    }
    let r = match_at(a, b, 0);
    proof {
        assert(a@.subrange(0, a@.len() as int) =~= a@);
    }
    r
}

} // verus!
