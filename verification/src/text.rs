//! Text helpers shared by the message, error and display code.
use vstd::prelude::*;
use vstd::string::*;

verus! {

/// The character of a decimal digit.
pub open spec fn digit_char(d: nat) -> char {
    (48 + d) as char
}

/// The decimal representation of a natural number, most significant digit first.
pub open spec fn decimal_digits(n: nat) -> Seq<char>
    decreases n,
{
    if n < 10 {
        seq![digit_char(n)]
    } else {
        decimal_digits(n / 10).push(digit_char(n % 10))
    }
}

/// The text of a decimal digit.
fn digit_text(d: u64) -> (r: &'static str)
    requires
        d < 10,
    ensures
        r@ == seq![digit_char(d as nat)],
{
    match d {
        0 => {
            proof {
                reveal_strlit("0");
            }
            "0"
        },
        1 => {
            proof {
                reveal_strlit("1");
            }
            "1"
        },
        2 => {
            proof {
                reveal_strlit("2");
            }
            "2"
        },
        3 => {
            proof {
                reveal_strlit("3");
            }
            "3"
        },
        4 => {
            proof {
                reveal_strlit("4");
            }
            "4"
        },
        5 => {
            proof {
                reveal_strlit("5");
            }
            "5"
        },
        6 => {
            proof {
                reveal_strlit("6");
            }
            "6"
        },
        7 => {
            proof {
                reveal_strlit("7");
            }
            "7"
        },
        8 => {
            proof {
                reveal_strlit("8");
            }
            "8"
        },
        _ => {
            proof {
                reveal_strlit("9");
            }
            "9"
        },
    }
}

/// Writes `n` in decimal, most significant digit first, as `u64::to_string`
/// does.
pub fn u64_to_decimal(n: u64) -> (res: String)
    ensures
        res@ == decimal_digits(n as nat),
    decreases n,
{
    if n < 10 {
        owned(digit_text(n))
    } else {
        let mut s = u64_to_decimal(n / 10);
        s.append(digit_text(n % 10));
        s
    }
}

/// The pieces joined with `sep` between consecutive pieces.
pub open spec fn join_seqs(parts: Seq<Seq<char>>, sep: Seq<char>) -> Seq<char>
    decreases parts.len(),
{
    if parts.len() == 0 {
        Seq::empty()
    } else if parts.len() == 1 {
        parts[0]
    } else {
        join_seqs(parts.drop_last(), sep) + sep + parts.last()
    }
}

/// A fresh string with the contents of `s`.
pub fn owned(s: &str) -> (res: String)
    ensures
        res@ == s@,
{
    s.to_owned()
}

/// Joins strings with a separator.
pub fn join_strings(parts: &Vec<String>, sep: &str) -> (res: String)
    ensures
        res@ == join_seqs(parts@.map_values(|p: String| p@), sep@),
{
    let mut res = String::new();
    let ghost views = parts@.map_values(|p: String| p@);
    let mut i: usize = 0;
    while i < parts.len()
        invariant
            i <= parts.len(),
            views == parts@.map_values(|p: String| p@),
            res@ == join_seqs(views.take(i as int), sep@),
        decreases parts.len() - i,
    {
        assert(views.take((i + 1) as int).drop_last() =~= views.take(i as int));
        if i != 0 {
            res.append(sep);
        }
        res.append(parts[i].as_str());
        i = i + 1;
    }
    assert(views.take(parts.len() as int) =~= views);
    res
}

/// Whether `s` begins with `prefix`.
pub open spec fn seq_starts_with(s: Seq<char>, prefix: Seq<char>) -> bool {
    prefix.len() <= s.len() && s.subrange(0, prefix.len() as int) == prefix
}

/// Whether `needle` occurs somewhere in `hay`.
pub open spec fn seq_contains_seq(hay: Seq<char>, needle: Seq<char>) -> bool {
    exists|i: int|
        0 <= i && i + needle.len() <= hay.len() && #[trigger] hay.subrange(i, i + needle.len())
            == needle
}

/// The characters of a string slice, as a vector.
pub fn chars_of(s: &str) -> (res: Vec<char>)
    ensures
        res@ == s@,
{
    let n = s.unicode_len();
    let mut res: Vec<char> = Vec::new();
    let mut i: usize = 0;
    while i < n
        invariant
            n == s@.len(),
            i <= n,
            res@ == s@.subrange(0, i as int),
        decreases n - i,
    {
        res.push(s.get_char(i));
        i = i + 1;
    }
    assert(res@ =~= s@);
    res
}

/// Whether the character vector `s` begins with `prefix`.
pub fn vec_starts_with(s: &Vec<char>, prefix: &Vec<char>) -> (res: bool)
    ensures
        res == seq_starts_with(s@, prefix@),
{
    if prefix.len() > s.len() {
        return false;
    }
    let mut i: usize = 0;
    while i < prefix.len()
        invariant
            prefix.len() <= s.len(),
            i <= prefix.len(),
            forall|j: int| 0 <= j < i ==> s@[j] == prefix@[j],
        decreases prefix.len() - i,
    {
        if s[i] != prefix[i] {
            assert(s@.subrange(0, prefix@.len() as int)[i as int] != prefix@[i as int]);
            return false;
        }
        i = i + 1;
    }
    assert(s@.subrange(0, prefix@.len() as int) =~= prefix@);
    true
}

/// Whether `needle` occurs in `hay` at position `i`.
fn matches_at(hay: &Vec<char>, needle: &Vec<char>, i: usize) -> (res: bool)
    requires
        i + needle.len() <= hay.len(),
    ensures
        res == (hay@.subrange(i as int, i + needle@.len()) == needle@),
{
    let mut j: usize = 0;
    while j < needle.len()
        invariant
            i + needle.len() <= hay.len(),
            j <= needle.len(),
            forall|m: int| 0 <= m < j ==> hay@[i + m] == needle@[m],
        decreases needle.len() - j,
    {
        if hay[i + j] != needle[j] {
            assert(hay@.subrange(i as int, i + needle@.len())[j as int] != needle@[j as int]);
            return false;
        }
        j = j + 1;
    }
    assert(hay@.subrange(i as int, i + needle@.len()) =~= needle@);
    true
}

/// Whether `needle` occurs in `hay`.
pub fn vec_contains(hay: &Vec<char>, needle: &Vec<char>) -> (res: bool)
    ensures
        res == seq_contains_seq(hay@, needle@),
{
    if needle.len() > hay.len() {
        return false;
    }
    let last = hay.len() - needle.len();
    let mut i: usize = 0;
    loop
        invariant
            last + needle.len() == hay.len(),
            i <= last,
            forall|k: int| 0 <= k < i ==> #[trigger] hay@.subrange(k, k + needle@.len()) != needle@,
        decreases last - i,
    {
        if matches_at(hay, needle, i) {
            return true;
        }
        if i == last {
            assert forall|k: int| 0 <= k && k + needle@.len() <= hay@.len() implies #[trigger] hay@.subrange(k, k + needle@.len()) != needle@ by {
                if k == i {
                } else {
                    assert(k < i);
                }
            }
            return false;
        }
        i = i + 1;
    }
}

/// Whether the string `hay` contains the string `needle`.
pub fn str_contains(hay: &str, needle: &str) -> (res: bool)
    ensures
        res == seq_contains_seq(hay@, needle@),
{
    let h = chars_of(hay);
    let n = chars_of(needle);
    vec_contains(&h, &n)
}

/// Whether the string `s` starts with `prefix`.
pub fn str_starts_with(s: &str, prefix: &str) -> (res: bool)
    ensures
        res == seq_starts_with(s@, prefix@),
{
    let a = chars_of(s);
    let b = chars_of(prefix);
    vec_starts_with(&a, &b)
}

/// Whether two string slices hold the same characters.
pub fn str_eq(a: &str, b: &str) -> (res: bool)
    ensures
        res == (a@ == b@),
{
    let x = chars_of(a);
    let y = chars_of(b);
    if x.len() != y.len() {
        return false;
    }
    let mut i: usize = 0;
    while i < x.len()
        invariant
            x@ == a@,
            y@ == b@,
            x.len() == y.len(),
            i <= x.len(),
            forall|j: int| 0 <= j < i ==> x@[j] == y@[j],
        decreases x.len() - i,
    {
        if x[i] != y[i] {
            return false;
        }
        i = i + 1;
    }
    assert(x@ =~= y@);
    true
}

/// The lowercase form of a string by the Unicode rules that
/// `str::to_lowercase` applies.
pub uninterp spec fn lowercase(s: Seq<char>) -> Seq<char>;

/// Lowercases `s` with `str::to_lowercase`.
#[verifier::external_body]
pub(crate) fn to_lower(s: &str) -> (res: String)
    ensures
        res@ == lowercase(s@),
{
    s.to_lowercase()
}

/// Whether a character has Unicode's `White_Space` property, which
/// `char::is_whitespace` tests: U+0009 to U+000D, U+0020, U+0085, U+00A0,
/// U+1680, U+2000 to U+200A, U+2028, U+2029, U+202F, U+205F and U+3000.
pub open spec fn unicode_white_space(c: char) -> bool {
    let n = c as u32;
    ||| 0x9 <= n <= 0xD
    ||| n == 0x20
    ||| n == 0x85
    ||| n == 0xA0
    ||| n == 0x1680
    ||| 0x2000 <= n <= 0x200A
    ||| n == 0x2028
    ||| n == 0x2029
    ||| n == 0x202F
    ||| n == 0x205F
    ||| n == 0x3000
}

/// Whether `c` is white space, as `char::is_whitespace` decides.
pub fn is_white_space(c: char) -> (r: bool)
    ensures
        r == unicode_white_space(c),
{
    let n = c as u32;
    (0x9 <= n && n <= 0xD) || n == 0x20 || n == 0x85 || n == 0xA0 || n == 0x1680 || (0x2000 <= n && n <= 0x200A)
        || n == 0x2028 || n == 0x2029 || n == 0x202F || n == 0x205F || n == 0x3000
}

/// The text without its leading white space.
pub open spec fn trim_start_seq(s: Seq<char>) -> Seq<char>
    decreases s.len(),
{
    if s.len() > 0 && unicode_white_space(s[0]) {
        trim_start_seq(s.subrange(1, s.len() as int))
    } else {
        s
    }
}

/// The text without its trailing white space.
pub open spec fn trim_end_seq(s: Seq<char>) -> Seq<char>
    decreases s.len(),
{
    if s.len() > 0 && unicode_white_space(s[s.len() - 1]) {
        trim_end_seq(s.subrange(0, s.len() - 1))
    } else {
        s
    }
}

/// The text without its leading and trailing white space, as `str::trim`
/// leaves it.
pub open spec fn trimmed(s: Seq<char>) -> Seq<char> {
    trim_end_seq(trim_start_seq(s))
}

/// Trims white space from both ends of `s`, as `str::trim` does.
pub fn trim(s: &str) -> (res: String)
    ensures
        res@ == trimmed(s@),
{
    let n = s.unicode_len();
    let mut a: usize = 0;
    assert(s@.subrange(0, n as int) =~= s@);
    while a < n && is_white_space(s.get_char(a))
        invariant
            n == s@.len(),
            a <= n,
            trim_start_seq(s@.subrange(a as int, n as int)) == trim_start_seq(s@),
        decreases n - a,
    {
        proof {
            let t = s@.subrange(a as int, n as int);
            assert(t.subrange(1, t.len() as int) =~= s@.subrange(a as int + 1, n as int));
        }
        a = a + 1;
    }
    let ghost t = s@.subrange(a as int, n as int);
    assert(trim_start_seq(t) == t);
    let mut b: usize = n;
    assert(s@.subrange(a as int, b as int) =~= t);
    while b > a && is_white_space(s.get_char(b - 1))
        invariant
            n == s@.len(),
            a <= b <= n,
            t == s@.subrange(a as int, n as int),
            trim_end_seq(s@.subrange(a as int, b as int)) == trim_end_seq(t),
        decreases b - a,
    {
        proof {
            let u = s@.subrange(a as int, b as int);
            assert(u.subrange(0, u.len() - 1) =~= s@.subrange(a as int, b as int - 1));
        }
        b = b - 1;
    }
    let res = s.substring_char(a, b).to_owned();
    res
}

/// The pieces of `s` between occurrences of `sep`, as `str::split` with a
/// character gives them: one more piece than there are separators, empty
/// pieces included.
pub open spec fn split_seq(s: Seq<char>, sep: char) -> Seq<Seq<char>>
    decreases s.len(),
{
    if s.len() == 0 {
        seq![Seq::empty()]
    } else {
        let rest = split_seq(s.drop_last(), sep);
        if s.last() == sep {
            rest.push(Seq::empty())
        } else {
            rest.update(rest.len() - 1, rest.last().push(s.last()))
        }
    }
}

/// A split always has at least one piece.
pub proof fn lemma_split_nonempty(s: Seq<char>, sep: char)
    ensures
        split_seq(s, sep).len() >= 1,
    decreases s.len(),
{
    if s.len() > 0 {
        lemma_split_nonempty(s.drop_last(), sep);
    }
}

/// Splits `s` at every `sep`.
pub fn split_on(s: &str, sep: char) -> (res: Vec<String>)
    ensures
        res@.map_values(|p: String| p@) == split_seq(s@, sep),
{
    let n = s.unicode_len();
    let mut parts: Vec<String> = Vec::new();
    let mut start: usize = 0;
    let mut i: usize = 0;
    assert(parts@.map_values(|p: String| p@) =~= Seq::<Seq<char>>::empty());
    assert(s@.subrange(0, 0) =~= Seq::<char>::empty());
    assert(parts@.map_values(|p: String| p@).push(s@.subrange(0, 0)) =~= split_seq(s@.subrange(0, 0), sep));
    while i < n
        invariant
            n == s@.len(),
            start <= i <= n,
            parts@.map_values(|p: String| p@).push(s@.subrange(start as int, i as int)) == split_seq(s@.subrange(0, i as int), sep),
        decreases n - i,
    {
        let c = s.get_char(i);
        proof {
            let t = s@.subrange(0, i as int + 1);
            assert(t.drop_last() =~= s@.subrange(0, i as int));
            assert(t.last() == c);
            lemma_split_nonempty(s@.subrange(0, i as int), sep);
        }
        if c == sep {
            let piece = s.substring_char(start, i).to_owned();
            parts.push(piece);
            start = i + 1;
            proof {
                assert(s@.subrange(start as int, i as int + 1) =~= Seq::<char>::empty());
                assert(parts@.map_values(|p: String| p@).push(s@.subrange(start as int, i as int + 1))
                    =~= split_seq(s@.subrange(0, i as int + 1), sep));
            }
        } else {
            proof {
                assert(s@.subrange(start as int, i as int + 1) =~= s@.subrange(start as int, i as int).push(c));
                assert(parts@.map_values(|p: String| p@).push(s@.subrange(start as int, i as int + 1))
                    =~= split_seq(s@.subrange(0, i as int + 1), sep));
            }
        }
        i = i + 1;
    }
    assert(s@.subrange(0, n as int) =~= s@);
    let last = s.substring_char(start, n).to_owned();
    parts.push(last);
    assert(parts@.map_values(|p: String| p@) =~= split_seq(s@, sep));
    parts
}

/// The path `name` joined onto `base` by `std::path::Path::join`: `name`
/// itself when it is absolute, otherwise `base` and `name` with a separator
/// between them when `base` does not already end in one.
pub uninterp spec fn path_join(base: Seq<char>, name: Seq<char>) -> Seq<char>;

/// Joins `name` onto `base` with `Path::join`. Both are valid UTF-8, so
/// the joined path converts back to a string without loss.
#[verifier::external_body]
pub(crate) fn join_path(base: &str, name: &str) -> (res: String)
    ensures
        res@ == path_join(base@, name@),
{
    std::path::Path::new(base).join(name).to_string_lossy().into_owned()
}

/// The uppercase form of a string by the Unicode rules that
/// `str::to_uppercase` applies.
pub uninterp spec fn uppercase(s: Seq<char>) -> Seq<char>;

/// Uppercases `s` with `str::to_uppercase`.
#[verifier::external_body]
pub(crate) fn to_upper(s: &str) -> (res: String)
    ensures
        res@ == uppercase(s@),
{
    s.to_uppercase()
}

/// The sequence without the leading and trailing occurrences of `c`.
pub open spec fn trim_char_seq(s: Seq<char>, c: char) -> Seq<char>
    decreases s.len(),
{
    if s.len() == 0 {
        s
    } else if s[0] == c {
        trim_char_seq(s.drop_first(), c)
    } else if s.last() == c {
        trim_char_seq(s.drop_last(), c)
    } else {
        s
    }
}

/// Removes every leading and trailing occurrence of `c`, as
/// `str::trim_matches` with a character does.
pub fn trim_char(s: &str, c: char) -> (res: String)
    ensures
        res@ == trim_char_seq(s@, c),
{
    let n = s.unicode_len();
    let mut lo: usize = 0;
    let mut hi: usize = n;
    assert(s@.subrange(0, n as int) =~= s@);
    while lo < hi && s.get_char(lo) == c
        invariant
            n == s@.len(),
            lo <= hi <= n,
            hi == n,
            trim_char_seq(s@, c) == trim_char_seq(s@.subrange(lo as int, hi as int), c),
        decreases hi - lo,
    {
        assert(s@.subrange(lo as int, hi as int).drop_first() =~= s@.subrange(lo as int + 1, hi as int));
        lo = lo + 1;
    }
    while lo < hi && s.get_char(hi - 1) == c
        invariant
            n == s@.len(),
            lo <= hi <= n,
            lo < hi ==> s@[lo as int] != c,
            trim_char_seq(s@, c) == trim_char_seq(s@.subrange(lo as int, hi as int), c),
        decreases hi - lo,
    {
        assert(s@.subrange(lo as int, hi as int).drop_last() =~= s@.subrange(lo as int, hi as int - 1));
        if lo + 1 < hi {
            assert(s@.subrange(lo as int, hi as int)[0] == s@[lo as int]);
        }
        hi = hi - 1;
    }
    proof {
        let t = s@.subrange(lo as int, hi as int);
        if lo < hi {
            assert(t[0] == s@[lo as int]);
            assert(t.last() == s@[hi as int - 1]);
        }
    }
    s.substring_char(lo, hi).to_owned()
}

/// The sequence after `prefix`, when it starts with it.
pub open spec fn strip_prefix_seq(s: Seq<char>, prefix: Seq<char>) -> Option<Seq<char>> {
    if seq_starts_with(s, prefix) {
        Some(s.subrange(prefix.len() as int, s.len() as int))
    } else {
        None
    }
}

/// What follows `prefix` in `s`, when `s` starts with it.
pub fn strip_prefix(s: &str, prefix: &str) -> (res: Option<String>)
    ensures
        match strip_prefix_seq(s@, prefix@) {
            Some(t) => res matches Some(r) && r@ == t,
            None => res is None,
        },
{
    if str_starts_with(s, prefix) {
        let n = s.unicode_len();
        let k = prefix.unicode_len();
        Some(s.substring_char(k, n).to_owned())
    } else {
        None
    }
}

} // verus!
