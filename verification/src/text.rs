use vstd::prelude::*;

verus! {

/// One more than the largest `u32`: numbers at or above it are kept at this cap
/// while digits are read, so that reading never overflows.
pub const DIGITS_CAP: u64 = 4294967296;

pub open spec fn is_ascii_digit(c: char) -> bool {
    '0' <= c && c <= '9'
}

pub open spec fn digit_value(c: char) -> nat {
    (c as int - '0' as int) as nat
}

pub open spec fn all_digits(s: Seq<char>) -> bool {
    forall|i: int| 0 <= i < s.len() ==> is_ascii_digit(#[trigger] s[i])
}

/// The number that a string of decimal digits writes.
pub open spec fn digits_value(s: Seq<char>) -> nat
    decreases s.len(),
{
    if s.len() == 0 {
        0
    } else {
        digits_value(s.drop_last()) * 10 + digit_value(s.last())
    }
}

pub open spec fn capped(n: nat) -> nat {
    if n >= DIGITS_CAP {
        DIGITS_CAP as nat
    } else {
        n
    }
}

/// The digits after an optional leading `+`.
pub open spec fn unsigned_digits(s: Seq<char>) -> Seq<char> {
    if s.len() > 0 && s[0] == '+' {
        s.drop_first()
    } else {
        s
    }
}

/// What `str::parse::<u32>` gives: an optional `+` followed by one or more
/// ASCII digits whose value fits in a `u32`; anything else is refused.
pub open spec fn u32_of(s: Seq<char>) -> Option<u32> {
    let d = unsigned_digits(s);
    if d.len() > 0 && all_digits(d) && digits_value(d) <= u32::MAX {
        Some(digits_value(d) as u32)
    } else {
        None
    }
}

/// What `str::parse::<i32>` gives: an optional `+` or `-` followed by one or
/// more ASCII digits whose signed value fits in an `i32`.
pub open spec fn i32_of(s: Seq<char>) -> Option<i32> {
    if s.len() > 0 && s[0] == '-' {
        let d = s.drop_first();
        if d.len() > 0 && all_digits(d) && digits_value(d) <= 2147483648 {
            Some((0 - digits_value(d)) as i32)
        } else {
            None
        }
    } else {
        let d = unsigned_digits(s);
        if d.len() > 0 && all_digits(d) && digits_value(d) <= i32::MAX {
            Some(digits_value(d) as i32)
        } else {
            None
        }
    }
}

/// What `str::parse::<bool>` gives: exactly `true` or `false`.
pub open spec fn bool_of(s: Seq<char>) -> Option<bool> {
    if s == seq!['t', 'r', 'u', 'e'] {
        Some(true)
    } else if s == seq!['f', 'a', 'l', 's', 'e'] {
        Some(false)
    } else {
        None
    }
}

pub open spec fn digit_char(d: nat) -> char {
    ('0' as int + d) as char
}

/// The decimal text of a number, as `to_string` writes it.
pub open spec fn decimal(n: nat) -> Seq<char>
    decreases n,
{
    if n < 10 {
        seq![digit_char(n)]
    } else {
        decimal(n / 10) + seq![digit_char(n % 10)]
    }
}

/// The strings of `parts` with `sep` between each two of them.
pub open spec fn joined(parts: Seq<Seq<char>>, sep: Seq<char>) -> Seq<char>
    decreases parts.len(),
{
    if parts.len() == 0 {
        Seq::empty()
    } else if parts.len() == 1 {
        parts[0]
    } else {
        joined(parts.drop_last(), sep) + sep + parts.last()
    }
}

pub open spec fn views(v: Seq<String>) -> Seq<Seq<char>> {
    v.map_values(|s: String| s@)
}

proof fn lemma_digits_step(s: Seq<char>, i: int)
    requires
        0 <= i < s.len(),
    ensures
        digits_value(s.take(i + 1)) == digits_value(s.take(i)) * 10 + digit_value(s[i]),
{
    assert(s.take(i + 1).drop_last() =~= s.take(i));
}

/// Reads the characters of `s` from position `start` on as decimal digits.
/// Returns whether there is at least one character and all are digits, and the
/// value they write kept at `DIGITS_CAP`.
fn read_digits(s: &str, start: usize) -> (r: (bool, u64))
    requires
        start <= s@.len(),
    ensures
        r.0 == (s@.len() > start && all_digits(s@.skip(start as int))),
        r.0 ==> r.1 == capped(digits_value(s@.skip(start as int))),
{
    let n = s.unicode_len();
    let ghost d = s@.skip(start as int);
    let mut value: u64 = 0;
    let mut i = start;
    while i < n
        invariant
            n == s@.len(),
            start <= i <= n,
            d == s@.skip(start as int),
            all_digits(d.take(i - start)),
            value == capped(digits_value(d.take(i - start))),
        decreases n - i,
    {
        let c = s.get_char(i);
        if !('0' <= c && c <= '9') {
            assert(!is_ascii_digit(d[i - start]));
            return (false, 0);
        }
        proof {
            lemma_digits_step(d, i - start);
            assert(d.take(i + 1 - start) =~= d.take(i - start).push(c));
        }
        let digit = (c as u32 - '0' as u32) as u64;
        if value < DIGITS_CAP {
            let next = value * 10 + digit;
            value = if next >= DIGITS_CAP {
                DIGITS_CAP
            } else {
                next
            };
        }
        i = i + 1;
    }
    assert(d.take(n - start) =~= d);
    (n > start, value)
}

/// `str::parse::<u32>`.
pub fn parse_u32(s: &str) -> (r: Option<u32>)
    ensures
        r == u32_of(s@),
{
    let n = s.unicode_len();
    let start: usize = if n > 0 && s.get_char(0) == '+' {
        1
    } else {
        0
    };
    assert(s@.skip(start as int) =~= unsigned_digits(s@));
    let (ok, value) = read_digits(s, start);
    if ok && value <= 4294967295 {
        Some(value as u32)
    } else {
        None
    }
}

/// `str::parse::<i32>`.
pub fn parse_i32(s: &str) -> (r: Option<i32>)
    ensures
        r == i32_of(s@),
{
    let n = s.unicode_len();
    if n > 0 && s.get_char(0) == '-' {
        assert(s@.skip(1) =~= s@.drop_first());
        let (ok, value) = read_digits(s, 1);
        if ok && value <= 2147483648 {
            Some((0 - (value as i64)) as i32)
        } else {
            None
        }
    } else {
        let start: usize = if n > 0 && s.get_char(0) == '+' {
            1
        } else {
            0
        };
        assert(s@.skip(start as int) =~= unsigned_digits(s@));
        let (ok, value) = read_digits(s, start);
        if ok && value <= 2147483647 {
            Some(value as i32)
        } else {
            None
        }
    }
}

/// `str::parse::<bool>`.
pub fn parse_bool(s: &str) -> (r: Option<bool>)
    ensures
        r == bool_of(s@),
{
    let n = s.unicode_len();
    if n == 4 && s.get_char(0) == 't' && s.get_char(1) == 'r' && s.get_char(2) == 'u'
        && s.get_char(3) == 'e' {
        assert(s@ =~= seq!['t', 'r', 'u', 'e']);
        Some(true)
    } else if n == 5 && s.get_char(0) == 'f' && s.get_char(1) == 'a' && s.get_char(2) == 'l'
        && s.get_char(3) == 's' && s.get_char(4) == 'e' {
        assert(s@ =~= seq!['f', 'a', 'l', 's', 'e']);
        Some(false)
    } else {
        proof {
            if s@ == seq!['t', 'r', 'u', 'e'] {
                assert(s@[0] == 't' && s@[1] == 'r' && s@[2] == 'u' && s@[3] == 'e');
            }
            if s@ == seq!['f', 'a', 'l', 's', 'e'] {
                assert(s@[0] == 'f' && s@[1] == 'a' && s@[2] == 'l' && s@[3] == 's' && s@[4] == 'e');
            }
        }
        None
    }
}

/// The one-character text of a decimal digit.
pub(crate) fn digit_text(d: u32) -> (r: &'static str)
    requires
        d < 10,
    ensures
        r@ == seq![digit_char(d as nat)],
{
    if d == 0 {
        proof {
            reveal_strlit("0");
        }
        "0"
    } else if d == 1 {
        proof {
            reveal_strlit("1");
        }
        "1"
    } else if d == 2 {
        proof {
            reveal_strlit("2");
        }
        "2"
    } else if d == 3 {
        proof {
            reveal_strlit("3");
        }
        "3"
    } else if d == 4 {
        proof {
            reveal_strlit("4");
        }
        "4"
    } else if d == 5 {
        proof {
            reveal_strlit("5");
        }
        "5"
    } else if d == 6 {
        proof {
            reveal_strlit("6");
        }
        "6"
    } else if d == 7 {
        proof {
            reveal_strlit("7");
        }
        "7"
    } else if d == 8 {
        proof {
            reveal_strlit("8");
        }
        "8"
    } else {
        proof {
            reveal_strlit("9");
        }
        "9"
    }
}

/// `u32::to_string`: the decimal text of `n`.
pub fn decimal_text(n: u32) -> (r: String)
    ensures
        r@ == decimal(n as nat),
    decreases n,
{
    if n < 10 {
        String::from_str(digit_text(n))
    } else {
        let head = decimal_text(n / 10);
        head.concat(digit_text(n % 10))
    }
}

/// `usize::to_string`: the decimal text of `n`.
pub fn count_text(n: usize) -> (r: String)
    ensures
        r@ == decimal(n as nat),
    decreases n,
{
    if n < 10 {
        String::from_str(digit_text(n as u32))
    } else {
        let head = count_text(n / 10);
        head.concat(digit_text((n % 10) as u32))
    }
}

/// The decimal text of an integer, with a leading `-` when it is negative.
pub open spec fn signed_decimal(n: int) -> Seq<char> {
    if n < 0 {
        seq!['-'] + decimal((-n) as nat)
    } else {
        decimal(n as nat)
    }
}

/// `i32::to_string`: the decimal text of `n`.
pub fn signed_text(n: i32) -> (r: String)
    ensures
        r@ == signed_decimal(n as int),
{
    if n < 0 {
        let m: u32 = (0i64 - (n as i64)) as u32;
        let digits = decimal_text(m);
        let r = String::from_str("-").concat(digits.as_str());
        proof {
            reveal_strlit("-");
        }
        assert(r@ =~= seq!['-'] + decimal((-(n as int)) as nat));
        r
    } else {
        decimal_text(n as u32)
    }
}

/// The first `count` strings of `parts` joined with `sep`, as `join` does.
pub fn join_first(parts: &Vec<String>, count: usize, sep: &str) -> (r: String)
    requires
        count <= parts@.len(),
    ensures
        r@ == joined(views(parts@.take(count as int)), sep@),
{
    let mut out = String::new();
    let mut i: usize = 0;
    while i < count
        invariant
            i <= count <= parts@.len(),
            out@ == joined(views(parts@.take(i as int)), sep@),
        decreases count - i,
    {
        let ghost before = views(parts@.take(i as int));
        let ghost after = views(parts@.take(i + 1));
        assert(after.drop_last() =~= before);
        assert(after.last() == parts@[i as int]@);
        if i == 0 {
            out = parts[i].clone();
            assert(after =~= seq![parts@[0]@]);
        } else {
            out = out.concat(sep);
            out = out.concat(parts[i].as_str());
        }
        i = i + 1;
    }
    out
}

/// What `str::to_lowercase` gives (Unicode lower case mapping).
pub uninterp spec fn lowercase(s: Seq<char>) -> Seq<char>;

/// What `str::to_uppercase` gives (Unicode upper case mapping).
pub uninterp spec fn uppercase(s: Seq<char>) -> Seq<char>;

/// Whether a character has the Unicode `White_Space` property, as
/// `char::is_whitespace` tests.
pub open spec fn is_white_space(c: char) -> bool {
    let n = c as u32;
    (0x9 <= n <= 0xD) || n == 0x20 || n == 0x85 || n == 0xA0 || n == 0x1680 || (0x2000 <= n <= 0x200A)
        || n == 0x2028 || n == 0x2029 || n == 0x202F || n == 0x205F || n == 0x3000
}

/// The words of `s`, as `str::split_whitespace` gives them: the longest
/// runs of characters without white space, in order.
pub open spec fn whitespace_words(s: Seq<char>) -> Seq<Seq<char>>
    decreases s.len(),
{
    if s.len() == 0 {
        seq![]
    } else {
        let before = whitespace_words(s.drop_last());
        if is_white_space(s.last()) {
            before
        } else if s.len() >= 2 && !is_white_space(s[s.len() - 2]) {
            before.drop_last().push(before.last().push(s.last()))
        } else {
            before.push(seq![s.last()])
        }
    }
}

/// The word being read when `start < i`: the characters from `start` up to
/// `i`.
pub open spec fn open_word(s: Seq<char>, start: int, i: int) -> Seq<Seq<char>> {
    if start < i {
        seq![s.subrange(start, i)]
    } else {
        seq![]
    }
}

/// `str::to_lowercase`; its result is named by [`lowercase`].
#[verifier::external_body]
pub fn to_lowercase(s: &str) -> (r: String)
    ensures
        r@ == lowercase(s@),
{
    s.to_lowercase()
}

/// `str::to_uppercase`; its result is named by [`uppercase`].
#[verifier::external_body]
pub fn to_uppercase(s: &str) -> (r: String)
    ensures
        r@ == uppercase(s@),
{
    s.to_uppercase()
}

/// Whether a character is white space (see [`is_white_space`]).
pub fn is_white_space_char(c: char) -> (r: bool)
    ensures
        r == is_white_space(c),
{
    let n = c as u32;
    (0x9 <= n && n <= 0xD) || n == 0x20 || n == 0x85 || n == 0xA0 || n == 0x1680 || (0x2000 <= n && n <= 0x200A)
        || n == 0x2028 || n == 0x2029 || n == 0x202F || n == 0x205F || n == 0x3000
}

/// The words of `s`, each copied into a `String`, as `str::split_whitespace`
/// gives them.
pub fn split_words(s: &str) -> (r: Vec<String>)
    ensures
        views(r@) == whitespace_words(s@),
{
    let n = s.unicode_len();
    let mut out: Vec<String> = Vec::new();
    let mut start: usize = 0;
    let mut i: usize = 0;
    while i < n
        invariant
            n == s@.len(),
            start <= i <= n,
            forall|k: int| start <= k < i ==> !is_white_space(#[trigger] s@[k]),
            start > 0 ==> is_white_space(s@[start - 1]),
            whitespace_words(s@.take(i as int)) == views(out@) + open_word(s@, start as int, i as int),
        decreases n - i,
    {
        let c = s.get_char(i);
        let ghost taken = s@.take(i + 1);
        let ghost before = views(out@);
        proof {
            assert(taken.drop_last() =~= s@.take(i as int));
            assert(taken.last() == c);
            if i >= 1 {
                assert(taken[i - 1] == s@[i - 1]);
            }
        }
        if is_white_space_char(c) {
            if start < i {
                let w = String::from_str(s.substring_char(start, i));
                out.push(w);
                assert(views(out@) =~= before.push(s@.subrange(start as int, i as int)));
            }
            start = i + 1;
            assert(whitespace_words(s@.take(i + 1)) =~= views(out@) + open_word(s@, start as int, i + 1));
        } else {
            if start < i {
                assert(s@.subrange(start as int, i as int).push(c) =~= s@.subrange(start as int, i + 1));
                let ghost w = before + open_word(s@, start as int, i as int);
                assert(w.drop_last() =~= before);
                assert(whitespace_words(s@.take(i + 1)) =~= views(out@) + open_word(s@, start as int, i + 1));
            } else {
                assert(s@.subrange(i as int, i + 1) =~= seq![c]);
                assert(whitespace_words(s@.take(i + 1)) =~= views(out@) + open_word(s@, start as int, i + 1));
            }
        }
        i = i + 1;
    }
    let ghost before = views(out@);
    if start < n {
        let w = String::from_str(s.substring_char(start, n));
        out.push(w);
        assert(views(out@) =~= before.push(s@.subrange(start as int, n as int)));
    }
    assert(s@.take(n as int) =~= s@);
    out
}

/// Whether a string reads exactly as the given text.
pub fn is_text(s: &String, text: &str) -> (r: bool)
    ensures
        r == (s@ == text@),
{
    *s == String::from_str(text)
}

} // verus!
