//! Character and string helpers: Unicode whitespace trimming, ASCII case
//! mapping, literal comparison and decimal rendering, each with a model over
//! `Seq<char>`.
use vstd::prelude::*;

verus! {

/// The Unicode `White_Space` property, which `char::is_whitespace` and
/// `str::trim` follow.
pub open spec fn is_white_space(c: char) -> bool {
    let n = c as u32;
    ||| 0x09 <= n <= 0x0D
    ||| n == 0x20
    ||| n == 0x85
    ||| n == 0xA0
    ||| n == 0x1680
    ||| 0x2000 <= n <= 0x200A
    ||| n == 0x2028
    ||| n == 0x2029
    ||| n == 0x202F
    ||| n == 0x205F
    ||| n == 0x3000
}

/// `s` with its leading whitespace removed.
pub open spec fn trim_start(s: Seq<char>) -> Seq<char>
    decreases s.len(),
{
    if s.len() > 0 && is_white_space(s[0]) {
        trim_start(s.drop_first())
    } else {
        s
    }
}

/// `s` with its trailing whitespace removed.
pub open spec fn trim_end(s: Seq<char>) -> Seq<char>
    decreases s.len(),
{
    if s.len() > 0 && is_white_space(s.last()) {
        trim_end(s.drop_last())
    } else {
        s
    }
}

/// `s` with leading and trailing whitespace removed, as `str::trim` does.
pub open spec fn trim(s: Seq<char>) -> Seq<char> {
    trim_end(trim_start(s))
}

/// Every character of `s` is whitespace.
pub open spec fn all_white_space(s: Seq<char>) -> bool {
    forall|i: int| 0 <= i < s.len() ==> is_white_space(#[trigger] s[i])
}

/// `char::to_ascii_uppercase`: `a`..=`z` become `A`..=`Z`, all else stays.
pub open spec fn ascii_upper(c: char) -> char {
    if 'a' <= c && c <= 'z' {
        ((c as u32) - 32) as char
    } else {
        c
    }
}

/// `str::to_ascii_uppercase` on the characters of a string.
pub open spec fn ascii_upper_seq(s: Seq<char>) -> Seq<char> {
    s.map_values(|c: char| ascii_upper(c))
}

/// `char::is_ascii_alphanumeric`.
pub open spec fn is_ascii_alphanumeric(c: char) -> bool {
    ||| '0' <= c && c <= '9'
    ||| 'A' <= c && c <= 'Z'
    ||| 'a' <= c && c <= 'z'
}

/// `str::eq_ignore_ascii_case`.
pub open spec fn eq_ignore_ascii_case(a: Seq<char>, b: Seq<char>) -> bool {
    ascii_upper_seq(a) == ascii_upper_seq(b)
}

/// The character of a decimal digit.
pub open spec fn digit_char(d: nat) -> char {
    (48 + d) as char
}

/// The decimal notation of `n`, without sign or leading zeros.
pub open spec fn decimal(n: nat) -> Seq<char>
    decreases n,
{
    if n < 10 {
        seq![digit_char(n)]
    } else {
        decimal(n / 10).push(digit_char(n % 10))
    }
}

/// ASCII upper-casing neither makes nor unmakes whitespace.
pub proof fn lemma_ascii_upper_white_space(c: char)
    ensures
        is_white_space(ascii_upper(c)) == is_white_space(c),
        ascii_upper(ascii_upper(c)) == ascii_upper(c),
        ((ascii_upper(c) as u32) < 128) == ((c as u32) < 128),
{
}

/// Upper-casing twice is upper-casing once.
pub proof fn lemma_ascii_upper_seq_idempotent(s: Seq<char>)
    ensures
        ascii_upper_seq(ascii_upper_seq(s)) == ascii_upper_seq(s),
{
    assert forall|i: int| 0 <= i < s.len() implies ascii_upper_seq(ascii_upper_seq(s))[i]
        == ascii_upper_seq(s)[i] by {
        lemma_ascii_upper_white_space(s[i]);
    }
    assert(ascii_upper_seq(ascii_upper_seq(s)) =~= ascii_upper_seq(s));
}

/// Trimming commutes with ASCII upper-casing.
pub proof fn lemma_trim_ascii_upper(s: Seq<char>)
    ensures
        trim(ascii_upper_seq(s)) == ascii_upper_seq(trim(s)),
{
    lemma_trim_start_ascii_upper(s);
    lemma_trim_end_ascii_upper(trim_start(s));
}

proof fn lemma_trim_start_ascii_upper(s: Seq<char>)
    ensures
        trim_start(ascii_upper_seq(s)) == ascii_upper_seq(trim_start(s)),
    decreases s.len(),
{
    if s.len() > 0 {
        lemma_ascii_upper_white_space(s[0]);
        assert(ascii_upper_seq(s)[0] == ascii_upper(s[0]));
        assert(ascii_upper_seq(s).drop_first() =~= ascii_upper_seq(s.drop_first()));
        lemma_trim_start_ascii_upper(s.drop_first());
    } else {
        assert(ascii_upper_seq(s) =~= s);
    }
}

proof fn lemma_trim_end_ascii_upper(s: Seq<char>)
    ensures
        trim_end(ascii_upper_seq(s)) == ascii_upper_seq(trim_end(s)),
    decreases s.len(),
{
    if s.len() > 0 {
        lemma_ascii_upper_white_space(s.last());
        assert(ascii_upper_seq(s).last() == ascii_upper(s.last()));
        assert(ascii_upper_seq(s).drop_last() =~= ascii_upper_seq(s.drop_last()));
        lemma_trim_end_ascii_upper(s.drop_last());
    } else {
        assert(ascii_upper_seq(s) =~= s);
    }
}

/// Leading whitespace does not survive `trim_start`.
proof fn lemma_trim_start_skips_white_space(w: Seq<char>, x: Seq<char>)
    requires
        all_white_space(w),
    ensures
        trim_start(w + x) == trim_start(x),
    decreases w.len(),
{
    if w.len() > 0 {
        assert((w + x)[0] == w[0]);
        assert((w + x).drop_first() =~= w.drop_first() + x);
        lemma_trim_start_skips_white_space(w.drop_first(), x);
    } else {
        assert(w + x =~= x);
    }
}

/// Trailing whitespace does not survive `trim_end`.
proof fn lemma_trim_end_skips_white_space(x: Seq<char>, w: Seq<char>)
    requires
        all_white_space(w),
    ensures
        trim_end(x + w) == trim_end(x),
    decreases w.len(),
{
    if w.len() > 0 {
        assert((x + w).last() == w.last());
        assert((x + w).drop_last() =~= x + w.drop_last());
        lemma_trim_end_skips_white_space(x, w.drop_last());
    } else {
        assert(x + w =~= x);
    }
}

/// `trim_start` of a text holding a non-whitespace character keeps what
/// follows the text.
proof fn lemma_trim_start_append(s: Seq<char>, y: Seq<char>)
    requires
        !all_white_space(s),
    ensures
        trim_start(s + y) == trim_start(s) + y,
    decreases s.len(),
{
    if is_white_space(s[0]) {
        assert((s + y).drop_first() =~= s.drop_first() + y);
        assert(!all_white_space(s.drop_first())) by {
            let k = choose|k: int| 0 <= k < s.len() && !is_white_space(#[trigger] s[k]);
            assert(s.drop_first()[k - 1] == s[k]);
        }
        lemma_trim_start_append(s.drop_first(), y);
    } else {
        assert((s + y)[0] == s[0]);
    }
}

/// A text made only of whitespace trims to nothing.
proof fn lemma_trim_start_all_white_space(s: Seq<char>)
    requires
        all_white_space(s),
    ensures
        trim_start(s) == Seq::<char>::empty(),
    decreases s.len(),
{
    if s.len() > 0 {
        assert(is_white_space(s[0]));
        lemma_trim_start_all_white_space(s.drop_first());
    }
}

/// Whitespace around a text does not change how it trims.
pub proof fn lemma_trim_surrounding_white_space(w1: Seq<char>, s: Seq<char>, w2: Seq<char>)
    requires
        all_white_space(w1),
        all_white_space(w2),
    ensures
        trim(w1 + s + w2) == trim(s),
{
    assert(w1 + s + w2 =~= w1 + (s + w2));
    lemma_trim_start_skips_white_space(w1, s + w2);
    if all_white_space(s) {
        assert(all_white_space(s + w2));
        lemma_trim_start_all_white_space(s + w2);
        lemma_trim_start_all_white_space(s);
    } else {
        lemma_trim_start_append(s, w2);
        lemma_trim_end_skips_white_space(trim_start(s), w2);
    }
}

/// Whether `c` is whitespace in the sense of `char::is_whitespace`.
pub fn char_is_white_space(c: char) -> (r: bool)
    ensures
        r == is_white_space(c),
{
    let n = c as u32;
    (0x09 <= n && n <= 0x0D) || n == 0x20 || n == 0x85 || n == 0xA0 || n == 0x1680 || (0x2000
        <= n && n <= 0x200A) || n == 0x2028 || n == 0x2029 || n == 0x202F || n == 0x205F || n
        == 0x3000
}

/// `char::to_ascii_uppercase`.
pub fn char_ascii_upper(c: char) -> (r: char)
    ensures
        r == ascii_upper(c),
{
    if c >= 'a' && c <= 'z' {
        let b = (c as u8) - 32;
        b as char
    } else {
        c
    }
}

/// The characters of `s`, in order.
pub fn chars_of(s: &str) -> (v: Vec<char>)
    ensures
        v@ == s@,
{
    let n = s.unicode_len();
    let mut v: Vec<char> = Vec::new();
    let mut i: usize = 0;
    while i < n
        invariant
            n == s@.len(),
            i <= n,
            v@ == s@.subrange(0, i as int),
        decreases n - i,
    {
        v.push(s.get_char(i));
        i = i + 1;
    }
    v
}

/// Whether the characters in `v` spell out `s`.
pub fn chars_equal_str(v: &Vec<char>, s: &str) -> (r: bool)
    ensures
        r == (v@ == s@),
{
    let n = s.unicode_len();
    if v.len() != n {
        return false;
    }
    let mut i: usize = 0;
    while i < n
        invariant
            n == s@.len(),
            n == v@.len(),
            i <= n,
            forall|k: int| 0 <= k < i ==> v@[k] == s@[k],
        decreases n - i,
    {
        if v[i] != s.get_char(i) {
            return false;
        }
        i = i + 1;
    }
    assert(v@ =~= s@);
    true
}

/// Whether two strings hold the same characters.
pub fn str_equal(a: &str, b: &str) -> (r: bool)
    ensures
        r == (a@ == b@),
{
    let v = chars_of(a);
    chars_equal_str(&v, b)
}

/// `v` with leading and trailing whitespace removed.
pub fn trim_chars(v: &Vec<char>) -> (t: Vec<char>)
    ensures
        t@ == trim(v@),
{
    let n = v.len();
    let mut start: usize = 0;
    assert(v@.subrange(0, n as int) =~= v@);
    while start < n && char_is_white_space(v[start])
        invariant
            n == v@.len(),
            start <= n,
            trim_start(v@) == trim_start(v@.subrange(start as int, n as int)),
        decreases n - start,
    {
        proof {
            let rest = v@.subrange(start as int, n as int);
            assert(rest.drop_first() =~= v@.subrange(start + 1, n as int));
        }
        start = start + 1;
    }
    let ghost front = v@.subrange(start as int, n as int);
    assert(trim_start(front) == front);
    let mut end: usize = n;
    while end > start && char_is_white_space(v[end - 1])
        invariant
            n == v@.len(),
            start <= end <= n,
            front == v@.subrange(start as int, n as int),
            trim_end(front) == trim_end(v@.subrange(start as int, end as int)),
        decreases end - start,
    {
        proof {
            let rest = v@.subrange(start as int, end as int);
            assert(rest.drop_last() =~= v@.subrange(start as int, end - 1));
        }
        end = end - 1;
    }
    let mut t: Vec<char> = Vec::new();
    let mut i: usize = start;
    while i < end
        invariant
            start <= i <= end <= n,
            n == v@.len(),
            t@ == v@.subrange(start as int, i as int),
        decreases end - i,
    {
        t.push(v[i]);
        i = i + 1;
    }
    let ghost mid = v@.subrange(start as int, end as int);
    assert(trim_end(mid) == mid);
    t
}

/// `v` with `a`..=`z` mapped to `A`..=`Z`.
pub fn ascii_upper_chars(v: &Vec<char>) -> (u: Vec<char>)
    ensures
        u@ == ascii_upper_seq(v@),
{
    let mut u: Vec<char> = Vec::new();
    let mut i: usize = 0;
    while i < v.len()
        invariant
            i <= v@.len(),
            u@ =~= ascii_upper_seq(v@.subrange(0, i as int)),
        decreases v.len() - i,
    {
        u.push(char_ascii_upper(v[i]));
        proof {
            assert(ascii_upper_seq(v@.subrange(0, i + 1)) =~= ascii_upper_seq(
                v@.subrange(0, i as int),
            ).push(ascii_upper(v@[i as int])));
        }
        i = i + 1;
    }
    assert(v@.subrange(0, v@.len() as int) =~= v@);
    u
}

/// `str::eq_ignore_ascii_case`.
pub fn str_eq_ignore_ascii_case(a: &str, b: &str) -> (r: bool)
    ensures
        r == eq_ignore_ascii_case(a@, b@),
{
    let ua = ascii_upper_chars(&chars_of(a));
    let ub = ascii_upper_chars(&chars_of(b));
    if ua.len() != ub.len() {
        return false;
    }
    let mut i: usize = 0;
    while i < ua.len()
        invariant
            ua@ == ascii_upper_seq(a@),
            ub@ == ascii_upper_seq(b@),
            ua.len() == ub.len(),
            i <= ua.len(),
            forall|k: int| 0 <= k < i ==> ua@[k] == ub@[k],
        decreases ua.len() - i,
    {
        if ua[i] != ub[i] {
            assert(ascii_upper_seq(a@)[i as int] != ascii_upper_seq(b@)[i as int]);
            return false;
        }
        i = i + 1;
    }
    assert(ua@ =~= ub@);
    true
}

/// The one-character string of a decimal digit.
fn digit_str(d: u32) -> (s: &'static str)
    requires
        d < 10,
    ensures
        s@ == seq![digit_char(d as nat)],
{
    proof {
        reveal_strlit("0");
        reveal_strlit("1");
        reveal_strlit("2");
        reveal_strlit("3");
        reveal_strlit("4");
        reveal_strlit("5");
        reveal_strlit("6");
        reveal_strlit("7");
        reveal_strlit("8");
        reveal_strlit("9");
    }
    let s = if d == 0 {
        "0"
    } else if d == 1 {
        "1"
    } else if d == 2 {
        "2"
    } else if d == 3 {
        "3"
    } else if d == 4 {
        "4"
    } else if d == 5 {
        "5"
    } else if d == 6 {
        "6"
    } else if d == 7 {
        "7"
    } else if d == 8 {
        "8"
    } else {
        "9"
    };
    assert(s@ =~= seq![digit_char(d as nat)]);
    s
}

/// Appends the decimal notation of `n` to `out`, as `format!("{}", n)` writes it.
pub fn push_decimal(out: &mut String, n: u32)
    ensures
        final(out)@ == old(out)@ + decimal(n as nat),
    decreases n,
{
    if n >= 10 {
        push_decimal(out, n / 10);
    }
    out.append(digit_str(n % 10));
    assert(old(out)@ + decimal(n as nat) =~= if n >= 10 {
        old(out)@ + decimal((n / 10) as nat) + seq![digit_char((n % 10) as nat)]
    } else {
        old(out)@ + seq![digit_char((n % 10) as nat)]
    });
}

} // verus!
