//! Character-level text operations with their meaning stated over `Seq<char>`.
//!
//! These are the handful of string operations the rest of the crate needs:
//! prefix tests, splitting at a separator, trimming, ASCII case folding and
//! decimal rendering of integers.
use vstd::prelude::*;
use vstd::string::*;
use vstd::utf8::*;

verus! {

broadcast use {vstd::utf8::encode_utf8_valid_utf8, vstd::utf8::encode_utf8_decode_utf8};

/// `p` is a prefix of `s`.
pub open spec fn has_prefix(s: Seq<char>, p: Seq<char>) -> bool {
    p.len() <= s.len() && s.take(p.len() as int) == p
}

/// `p` occurs somewhere in `s` as a contiguous run.
pub open spec fn has_infix(s: Seq<char>, p: Seq<char>) -> bool {
    exists|i: int| 0 <= i <= s.len() - p.len() && #[trigger] s.subrange(i, i + p.len()) == p
}

/// `i` is the position of the first `c` in `s`.
pub open spec fn is_first_index(s: Seq<char>, c: char, i: int) -> bool {
    &&& 0 <= i < s.len()
    &&& s[i] == c
    &&& forall|j: int| 0 <= j < i ==> s[j] != c
}

/// `i` is the position of the last `c` in `s`.
pub open spec fn is_last_index(s: Seq<char>, c: char, i: int) -> bool {
    &&& 0 <= i < s.len()
    &&& s[i] == c
    &&& forall|j: int| i < j < s.len() ==> s[j] != c
}

/// The position of the first `c` in `s`, if any.
pub open spec fn first_index(s: Seq<char>, c: char) -> Option<int> {
    if s.contains(c) {
        Some(choose|i: int| is_first_index(s, c, i))
    } else {
        None
    }
}

/// The position of the last `c` in `s`, if any.
pub open spec fn last_index(s: Seq<char>, c: char) -> Option<int> {
    if s.contains(c) {
        Some(choose|i: int| is_last_index(s, c, i))
    } else {
        None
    }
}

/// `s` cut around its first `c`: the text before it and the text after it.
pub open spec fn split_first(s: Seq<char>, c: char) -> Option<(Seq<char>, Seq<char>)> {
    match first_index(s, c) {
        Some(i) => Some((s.take(i), s.skip(i + 1))),
        None => None,
    }
}

/// `s` cut around its last `c`: the text before it and the text after it.
pub open spec fn split_last(s: Seq<char>, c: char) -> Option<(Seq<char>, Seq<char>)> {
    match last_index(s, c) {
        Some(i) => Some((s.take(i), s.skip(i + 1))),
        None => None,
    }
}

/// Unicode `White_Space`, the set that `char::is_whitespace` tests for.
pub open spec fn is_white_space(c: char) -> bool {
    let u = c as u32;
    ||| 0x09 <= u <= 0x0D
    ||| u == 0x20
    ||| u == 0x85
    ||| u == 0xA0
    ||| u == 0x1680
    ||| 0x2000 <= u <= 0x200A
    ||| u == 0x2028
    ||| u == 0x2029
    ||| u == 0x202F
    ||| u == 0x205F
    ||| u == 0x3000
}

/// Number of leading white-space characters of `s`.
pub open spec fn leading_white(s: Seq<char>) -> int
    decreases s.len(),
{
    if s.len() > 0 && is_white_space(s[0]) {
        1 + leading_white(s.drop_first())
    } else {
        0
    }
}

/// Number of trailing white-space characters of `s`.
pub open spec fn trailing_white(s: Seq<char>) -> int
    decreases s.len(),
{
    if s.len() > 0 && is_white_space(s.last()) {
        1 + trailing_white(s.drop_last())
    } else {
        0
    }
}

/// `s` without leading and trailing white space.
pub open spec fn trimmed(s: Seq<char>) -> Seq<char> {
    let front = s.skip(leading_white(s));
    front.take(front.len() - trailing_white(front))
}

/// ASCII upper-case letters folded to lower case; every other character kept.
pub open spec fn ascii_lower_char(c: char) -> char {
    if 'A' <= c && c <= 'Z' {
        ((c as u32) + 32) as char
    } else {
        c
    }
}

/// `s` with ASCII upper-case letters folded to lower case.
pub open spec fn ascii_lower(s: Seq<char>) -> Seq<char> {
    s.map_values(|c: char| ascii_lower_char(c))
}

/// The byte range `..n` of `s`'s UTF-8 encoding when `n` falls on a character
/// boundary, otherwise the whole encoding (what `str::get(..n).unwrap_or(s)` gives).
pub open spec fn byte_prefix_or_all(s: Seq<char>, n: int) -> Seq<u8> {
    let b = encode_utf8(s);
    if is_char_boundary(b, n) {
        b.take(n)
    } else {
        b
    }
}

/// The characters of `byte_prefix_or_all(s, n)`: the longest run of `s` that
/// `str::get(..n).unwrap_or(s)` yields.
pub open spec fn prefix_within_bytes(s: Seq<char>, n: int) -> Seq<char> {
    decode_utf8(byte_prefix_or_all(s, n))
}

/// For ASCII text, one byte is one character: the prefix within `n` bytes is
/// the first `n` characters, or the whole text when it is shorter.
pub proof fn lemma_ascii_prefix_within_bytes(s: Seq<char>, n: int)
    requires
        is_ascii_chars(s),
        0 <= n,
    ensures
        prefix_within_bytes(s, n) == s.take(
            if n < s.len() {
                n
            } else {
                s.len() as int
            },
        ),
{
    let b = encode_utf8(s);
    is_ascii_chars_encode_utf8(s);
    encode_utf8_valid_utf8(s);
    encode_utf8_decode_utf8(s);
    if n < s.len() {
        is_char_boundary_iff_not_is_continuation_byte(b, n);
        assert(s[n] as u8 == b[n]);
        assert(b[n] < 0x80);
        let t = s.take(n);
        assert(is_ascii_chars(t));
        is_ascii_chars_encode_utf8(t);
        assert(b.take(n) =~= encode_utf8(t));
        encode_utf8_decode_utf8(t);
    } else if n == s.len() {
        is_char_boundary_start_end_of_seq(b);
        assert(b.take(n) =~= b);
        assert(s.take(n) =~= s);
    } else {
        assert(!is_char_boundary(b, n));
        assert(s.take(s.len() as int) =~= s);
    }
}

/// The decimal digit character for `d < 10`.
pub open spec fn digit_char(d: nat) -> char {
    if d == 0 {
        '0'
    } else if d == 1 {
        '1'
    } else if d == 2 {
        '2'
    } else if d == 3 {
        '3'
    } else if d == 4 {
        '4'
    } else if d == 5 {
        '5'
    } else if d == 6 {
        '6'
    } else if d == 7 {
        '7'
    } else if d == 8 {
        '8'
    } else {
        '9'
    }
}

/// Decimal notation of `n`, without leading zeros.
pub open spec fn decimal(n: nat) -> Seq<char>
    decreases n,
{
    if n < 10 {
        seq![digit_char(n)]
    } else {
        decimal(n / 10) + seq![digit_char(n % 10)]
    }
}

/// Decimal notation of a signed integer, with a leading `-` when negative.
pub open spec fn signed_decimal(n: int) -> Seq<char> {
    if n < 0 {
        seq!['-'] + decimal((-n) as nat)
    } else {
        decimal(n as nat)
    }
}


/// Whenever `c` occurs in `s`, there is a last occurrence.
pub proof fn lemma_last_index_exists(s: Seq<char>, c: char)
    requires
        s.contains(c),
    ensures
        exists|i: int| is_last_index(s, c, i),
    decreases s.len(),
{
    if s.last() == c {
        assert(is_last_index(s, c, s.len() - 1));
    } else {
        let t = s.drop_last();
        let k = choose|k: int| 0 <= k < s.len() && s[k] == c;
        assert(t[k] == c);
        lemma_last_index_exists(t, c);
        let i = choose|i: int| is_last_index(t, c, i);
        assert forall|j: int| i < j < s.len() implies s[j] != c by {
            if j < t.len() {
                assert(s[j] == t[j]);
            }
        }
        assert(is_last_index(s, c, i));
    }
}

/// Whenever `c` occurs in `s`, there is a first occurrence.
pub proof fn lemma_first_index_exists(s: Seq<char>, c: char)
    requires
        s.contains(c),
    ensures
        exists|i: int| is_first_index(s, c, i),
    decreases s.len(),
{
    if s[0] == c {
        assert(is_first_index(s, c, 0));
    } else {
        let t = s.drop_first();
        let k = choose|k: int| 0 <= k < s.len() && s[k] == c;
        assert(t[k - 1] == c);
        lemma_first_index_exists(t, c);
        let i = choose|i: int| is_first_index(t, c, i);
        assert forall|j: int| 0 <= j < i + 1 implies s[j] != c by {
            if j > 0 {
                assert(s[j] == t[j - 1]);
            }
        }
        assert(is_first_index(s, c, i + 1));
    }
}

fn digit_text(d: u64) -> (r: &'static str)
    requires
        d < 10,
    ensures
        r@ == seq![digit_char(d as nat)],
{
    proof {
        reveal_strlit("0");
        reveal_strlit("1");
        reveal_strlit("2");
        reveal_strlit("3");
        reveal_strlit("4");
        reveal_strlit("5");
        reveal_strlit("6");
        reveal_strlit("7");
        reveal_strlit("8");
        reveal_strlit("9");
    }
    if d == 0 {
        "0"
    } else if d == 1 {
        "1"
    } else if d == 2 {
        "2"
    } else if d == 3 {
        "3"
    } else if d == 4 {
        "4"
    } else if d == 5 {
        "5"
    } else if d == 6 {
        "6"
    } else if d == 7 {
        "7"
    } else if d == 8 {
        "8"
    } else {
        "9"
    }
}

/// Decimal rendering of an unsigned integer.
pub fn decimal_text(n: u64) -> (r: String)
    ensures
        r@ == decimal(n as nat),
    decreases n,
{
    if n < 10 {
        String::from_str(digit_text(n))
    } else {
        let head = decimal_text(n / 10);
        head.concat(digit_text(n % 10))
    }
}

/// Decimal rendering of a signed integer.
pub fn signed_decimal_text(n: i64) -> (r: String)
    ensures
        r@ == signed_decimal(n as int),
{
    if n < 0 {
        let magnitude: u64 = if n == i64::MIN {
            9223372036854775808u64
        } else {
            (-n) as u64
        };
        let digits = decimal_text(magnitude);
        proof {
            reveal_strlit("-");
        }
        String::from_str("-").concat(digits.as_str())
    } else {
        decimal_text(n as u64)
    }
}

/// Whether `s` starts with `p`.
pub fn starts_with(s: &str, p: &str) -> (r: bool)
    ensures
        r == has_prefix(s@, p@),
{
    let n = s.unicode_len();
    let m = p.unicode_len();
    if m > n {
        return false;
    }
    let mut i: usize = 0;
    while i < m
        invariant
            n == s@.len(),
            m == p@.len(),
            m <= n,
            i <= m,
            forall|j: int| 0 <= j < i ==> s@[j] == p@[j],
        decreases m - i,
    {
        if s.get_char(i) != p.get_char(i) {
            assert(s@.take(m as int)[i as int] != p@[i as int]);
            return false;
        }
        i = i + 1;
    }
    assert(s@.take(m as int) =~= p@);
    true
}

/// Whether `s` starts with `p` once both are ASCII-lower-cased.
pub fn starts_with_ascii_folded(s: &str, p: &str) -> (r: bool)
    ensures
        r == has_prefix(ascii_lower(s@), ascii_lower(p@)),
{
    let n = s.unicode_len();
    let m = p.unicode_len();
    if m > n {
        return false;
    }
    let mut i: usize = 0;
    while i < m
        invariant
            n == s@.len(),
            m == p@.len(),
            m <= n,
            i <= m,
            forall|j: int| 0 <= j < i ==> ascii_lower_char(s@[j]) == ascii_lower_char(p@[j]),
        decreases m - i,
    {
        if !same_ignoring_ascii_case(s.get_char(i), p.get_char(i)) {
            assert(ascii_lower(s@).take(m as int)[i as int] != ascii_lower(p@)[i as int]);
            return false;
        }
        i = i + 1;
    }
    assert(ascii_lower(s@).take(m as int) =~= ascii_lower(p@));
    true
}

/// Whether `p` occurs in `s` once both are ASCII-lower-cased.
pub fn contains_ascii_folded(s: &str, p: &str) -> (r: bool)
    ensures
        r == has_infix(ascii_lower(s@), ascii_lower(p@)),
{
    let n = s.unicode_len();
    let m = p.unicode_len();
    let ghost ls = ascii_lower(s@);
    let ghost lp = ascii_lower(p@);
    if m > n {
        return false;
    }
    let mut i: usize = 0;
    while i <= n - m
        invariant
            n == s@.len(),
            m == p@.len(),
            m <= n,
            i <= n - m + 1,
            ls == ascii_lower(s@),
            lp == ascii_lower(p@),
            forall|k: int| 0 <= k < i ==> #[trigger] ls.subrange(k, k + m) != lp,
        decreases n - m + 1 - i,
    {
        let mut j: usize = 0;
        let mut same = true;
        while j < m
            invariant
                n == s@.len(),
                m == p@.len(),
                m <= n,
                i <= n - m,
                j <= m,
                ls == ascii_lower(s@),
                lp == ascii_lower(p@),
                same == (forall|q: int| 0 <= q < j ==> ls[i + q] == lp[q]),
            decreases m - j,
        {
            let eq = same_ignoring_ascii_case(s.get_char(i + j), p.get_char(j));
            assert(ls[i + j] == ascii_lower_char(s@[i + j]));
            assert(lp[j as int] == ascii_lower_char(p@[j as int]));
            if !eq {
                same = false;
            }
            j = j + 1;
        }
        if same {
            assert(ls.subrange(i as int, i + m) =~= lp);
            return true;
        } else {
            assert(ls.subrange(i as int, i + m) != lp) by {
                let q = choose|q: int| 0 <= q < m && ls[i + q] != lp[q];
                assert(ls.subrange(i as int, i + m)[q] == ls[i + q]);
            }
        }
        i = i + 1;
    }
    false
}

/// ASCII case-insensitive character comparison.
pub fn same_ignoring_ascii_case(a: char, b: char) -> (r: bool)
    ensures
        r == (ascii_lower_char(a) == ascii_lower_char(b)),
{
    let x = lower_code(a);
    let y = lower_code(b);
    x == y
}

fn lower_code(c: char) -> (r: u32)
    ensures
        r == ascii_lower_char(c) as u32,
{
    let u = c as u32;
    if 65 <= u && u <= 90 {
        u + 32
    } else {
        u
    }
}

/// Position of the first `c` in `s`.
pub fn find_first(s: &str, c: char) -> (r: Option<usize>)
    ensures
        match r {
            Some(i) => is_first_index(s@, c, i as int) && first_index(s@, c) == Some(i as int),
            None => first_index(s@, c) is None,
        },
{
    let n = s.unicode_len();
    let mut i: usize = 0;
    while i < n
        invariant
            n == s@.len(),
            i <= n,
            forall|j: int| 0 <= j < i ==> s@[j] != c,
        decreases n - i,
    {
        if s.get_char(i) == c {
            assert(is_first_index(s@, c, i as int));
            assert(s@.contains(c));
            let ghost k = choose|k: int| is_first_index(s@, c, k);
            assert(k == i);
            return Some(i);
        }
        i = i + 1;
    }
    assert(!s@.contains(c));
    None
}

/// Position of the last `c` in `s`.
pub fn find_last(s: &str, c: char) -> (r: Option<usize>)
    ensures
        match r {
            Some(i) => is_last_index(s@, c, i as int) && last_index(s@, c) == Some(i as int),
            None => last_index(s@, c) is None,
        },
{
    let n = s.unicode_len();
    let mut i: usize = n;
    while i > 0
        invariant
            n == s@.len(),
            i <= n,
            forall|j: int| i <= j < n ==> s@[j] != c,
        decreases i,
    {
        if s.get_char(i - 1) == c {
            assert(is_last_index(s@, c, i - 1));
            assert(s@.contains(c));
            let ghost k = choose|k: int| is_last_index(s@, c, k);
            assert(k == i - 1);
            return Some(i - 1);
        }
        i = i - 1;
    }
    assert(!s@.contains(c));
    None
}

/// `str::split_once` on a single character.
pub fn split_once<'a>(s: &'a str, c: char) -> (r: Option<(&'a str, &'a str)>)
    ensures
        match r {
            Some((a, b)) => split_first(s@, c) == Some((a@, b@)),
            None => split_first(s@, c) is None,
        },
{
    match find_first(s, c) {
        Some(i) => {
            let n = s.unicode_len();
            let a = s.substring_char(0, i);
            let b = s.substring_char(i + 1, n);
            assert(a@ =~= s@.take(i as int));
            assert(b@ =~= s@.skip(i + 1));
            Some((a, b))
        },
        None => None,
    }
}

/// `str::rsplit_once` on a single character.
pub fn rsplit_once<'a>(s: &'a str, c: char) -> (r: Option<(&'a str, &'a str)>)
    ensures
        match r {
            Some((a, b)) => split_last(s@, c) == Some((a@, b@)),
            None => split_last(s@, c) is None,
        },
{
    match find_last(s, c) {
        Some(i) => {
            let n = s.unicode_len();
            let a = s.substring_char(0, i);
            let b = s.substring_char(i + 1, n);
            assert(a@ =~= s@.take(i as int));
            assert(b@ =~= s@.skip(i + 1));
            Some((a, b))
        },
        None => None,
    }
}

/// Whether `c` occurs in `s`.
pub fn contains_char(s: &str, c: char) -> (r: bool)
    ensures
        r == s@.contains(c),
{
    find_first(s, c).is_some()
}

/// `char::is_whitespace`.
pub fn is_white(c: char) -> (r: bool)
    ensures
        r == is_white_space(c),
{
    let u = c as u32;
    (0x09 <= u && u <= 0x0D) || u == 0x20 || u == 0x85 || u == 0xA0 || u == 0x1680 || (0x2000
        <= u && u <= 0x200A) || u == 0x2028 || u == 0x2029 || u == 0x202F || u == 0x205F || u
        == 0x3000
}

proof fn lemma_leading_white(s: Seq<char>, i: int)
    requires
        0 <= i <= s.len(),
        forall|j: int| 0 <= j < i ==> is_white_space(#[trigger] s[j]),
        i == s.len() || !is_white_space(s[i]),
    ensures
        leading_white(s) == i,
    decreases i,
{
    if i > 0 {
        let t = s.drop_first();
        assert forall|j: int| 0 <= j < i - 1 implies is_white_space(#[trigger] t[j]) by {
            assert(t[j] == s[j + 1]);
        }
        lemma_leading_white(t, i - 1);
    }
}

proof fn lemma_trailing_white(s: Seq<char>, k: int)
    requires
        0 <= k <= s.len(),
        forall|j: int| s.len() - k <= j < s.len() ==> is_white_space(#[trigger] s[j]),
        k == s.len() || !is_white_space(s[s.len() - k - 1]),
    ensures
        trailing_white(s) == k,
    decreases k,
{
    if k > 0 {
        let t = s.drop_last();
        assert forall|j: int| t.len() - (k - 1) <= j < t.len() implies is_white_space(
            #[trigger] t[j],
        ) by {
            assert(t[j] == s[j]);
        }
        lemma_trailing_white(t, k - 1);
    }
}

/// `str::trim`.
pub fn trim<'a>(s: &'a str) -> (r: &'a str)
    ensures
        r@ == trimmed(s@),
{
    let n = s.unicode_len();
    let mut i: usize = 0;
    while i < n && is_white(s.get_char(i))
        invariant
            n == s@.len(),
            i <= n,
            forall|j: int| 0 <= j < i ==> is_white_space(#[trigger] s@[j]),
        decreases n - i,
    {
        i = i + 1;
    }
    proof {
        lemma_leading_white(s@, i as int);
    }
    let ghost front = s@.skip(i as int);
    let mut e: usize = n;
    while e > i && is_white(s.get_char(e - 1))
        invariant
            n == s@.len(),
            i <= e <= n,
            front == s@.skip(i as int),
            forall|j: int| e <= j < n ==> is_white_space(#[trigger] s@[j]),
        decreases e,
    {
        e = e - 1;
    }
    proof {
        assert forall|j: int| front.len() - (n - e) <= j < front.len() implies is_white_space(
            #[trigger] front[j],
        ) by {
            assert(front[j] == s@[j + i]);
        }
        if e > i {
            assert(front[front.len() - (n - e) - 1] == s@[e - 1]);
        }
        lemma_trailing_white(front, (n - e) as int);
    }
    let r = s.substring_char(i, e);
    assert(r@ =~= trimmed(s@));
    r
}

/// Whether `s` is empty or white space only.
pub fn is_blank(s: &str) -> (r: bool)
    ensures
        r == (trimmed(s@).len() == 0),
{
    let t = trim(s);
    t.unicode_len() == 0
}

/// `str::get(..n).unwrap_or(s)`: the first `n` bytes when they end on a
/// character boundary, otherwise all of `s`.
pub fn byte_prefix<'a>(s: &'a str, n: usize) -> (r: &'a str)
    ensures
        r.spec_bytes() == byte_prefix_or_all(s@, n as int),
        r@ == prefix_within_bytes(s@, n as int),
{
    if s.is_char_boundary(n) {
        let (a, _) = s.split_at(n);
        assert(decode_utf8(encode_utf8(a@)) == a@);
        a
    } else {
        assert(decode_utf8(encode_utf8(s@)) == s@);
        s
    }
}

/// `String::from(s)` with its content stated.
pub fn owned(s: &str) -> (r: String)
    ensures
        r@ == s@,
{
    String::from_str(s)
}


/// `parts` joined with `sep` between consecutive elements.
pub open spec fn joined(parts: Seq<Seq<char>>, sep: Seq<char>) -> Seq<char>
    decreases parts.len(),
{
    if parts.len() == 0 {
        seq![]
    } else if parts.len() == 1 {
        parts[0]
    } else {
        joined(parts.drop_last(), sep) + sep + parts.last()
    }
}

/// The character sequences of a sequence of strings.
pub open spec fn texts(v: Seq<String>) -> Seq<Seq<char>> {
    v.map_values(|s: String| s@)
}

/// The character sequence of an optional string.
pub open spec fn opt_text(o: Option<String>) -> Option<Seq<char>> {
    match o {
        Some(s) => Some(s@),
        None => None,
    }
}

/// String equality on `&str`.
pub fn text_eq(a: &str, b: &str) -> (r: bool)
    ensures
        r == (a@ == b@),
{
    let n = a.unicode_len();
    let m = b.unicode_len();
    if n != m {
        return false;
    }
    let mut i: usize = 0;
    while i < n
        invariant
            n == a@.len(),
            m == b@.len(),
            n == m,
            i <= n,
            forall|j: int| 0 <= j < i ==> a@[j] == b@[j],
        decreases n - i,
    {
        if a.get_char(i) != b.get_char(i) {
            return false;
        }
        i = i + 1;
    }
    assert(a@ =~= b@);
    true
}

/// Joins `parts` with `sep`, as `Vec<String>::join` does.
pub fn join(parts: &Vec<String>, sep: &str) -> (r: String)
    ensures
        r@ == joined(texts(parts@), sep@),
{
    let mut r = String::new();
    let ghost all = texts(parts@);
    let mut i: usize = 0;
    while i < parts.len()
        invariant
            all == texts(parts@),
            i <= parts.len(),
            r@ == joined(all.take(i as int), sep@),
        decreases parts.len() - i,
    {
        assert(all.take(i + 1).drop_last() =~= all.take(i as int));
        if i == 0 {
            r.append(parts[i].as_str());
            assert(r@ =~= joined(all.take(1), sep@));
        } else {
            r.append(sep);
            r.append(parts[i].as_str());
        }
        i = i + 1;
    }
    assert(all.take(parts.len() as int) =~= all);
    r
}

/// Calls `str::to_ascii_lowercase`, which maps `'A'..='Z'` to `'a'..='z'` and
/// keeps every other character, as its documentation states.
#[verifier::external_body]
pub(crate) fn to_ascii_lowercase(s: &str) -> (r: String)
    ensures
        r@ == ascii_lower(s@),
{
    s.to_ascii_lowercase()
}

/// Unicode lower-case mapping of a character sequence: what `str::to_lowercase`
/// returns for a string with these characters.
pub uninterp spec fn unicode_lower(s: Seq<char>) -> Seq<char>;

/// Calls `str::to_lowercase`. Its result depends on `s` alone; the Unicode
/// case tables that decide it are not restated, only named `unicode_lower`.
#[verifier::external_body]
pub(crate) fn to_lowercase(s: &str) -> (r: String)
    ensures
        r@ == unicode_lower(s@),
{
    s.to_lowercase()
}

} // verus!
