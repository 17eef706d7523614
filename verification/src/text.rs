//! Character-level text handling: classification, splitting, trimming and
//! the decimal and hexadecimal numerals used by zone identifiers.
use vstd::prelude::*;
use vstd::std_specs::iter::IteratorSpec;

verus! {

/// `c` is one of the ASCII digits `0` to `9`.
pub open spec fn is_ascii_digit(c: char) -> bool {
    '0' <= c <= '9'
}

/// `c` is an ASCII hexadecimal digit, in either case.
pub open spec fn is_hex_digit(c: char) -> bool {
    ('0' <= c <= '9') || ('a' <= c <= 'f') || ('A' <= c <= 'F')
}

/// `c` is an ASCII letter or digit.
pub open spec fn is_ascii_alphanumeric(c: char) -> bool {
    ('0' <= c <= '9') || ('a' <= c <= 'z') || ('A' <= c <= 'Z')
}

/// `c` has the Unicode property `White_Space`.
pub open spec fn is_whitespace(c: char) -> bool {
    ('\u{9}' <= c <= '\u{d}') || c == ' ' || c == '\u{85}' || c == '\u{a0}' || c == '\u{1680}' || (
    '\u{2000}' <= c <= '\u{200a}') || c == '\u{2028}' || c == '\u{2029}' || c == '\u{202f}' || c
        == '\u{205f}' || c == '\u{3000}'
}

/// Every character of `s` is an ASCII digit.
pub open spec fn all_ascii_digits(s: Seq<char>) -> bool {
    forall|i: int| 0 <= i < s.len() ==> is_ascii_digit(#[trigger] s[i])
}

/// Every character of `s` is a hexadecimal digit.
pub open spec fn all_hex_digits(s: Seq<char>) -> bool {
    forall|i: int| 0 <= i < s.len() ==> is_hex_digit(#[trigger] s[i])
}

/// Every character of `s` is an ASCII letter or digit.
pub open spec fn all_ascii_alphanumeric(s: Seq<char>) -> bool {
    forall|i: int| 0 <= i < s.len() ==> is_ascii_alphanumeric(#[trigger] s[i])
}

/// No character of `s` is white space.
pub open spec fn no_whitespace(s: Seq<char>) -> bool {
    forall|i: int| 0 <= i < s.len() ==> !is_whitespace(#[trigger] s[i])
}

/// The views of a vector of character vectors.
pub open spec fn views(v: Seq<Vec<char>>) -> Seq<Seq<char>> {
    v.map_values(|x: Vec<char>| x@)
}

pub fn ascii_digit(c: char) -> (b: bool)
    ensures
        b == is_ascii_digit(c),
{
    '0' <= c && c <= '9'
}

pub fn hex_digit(c: char) -> (b: bool)
    ensures
        b == is_hex_digit(c),
{
    ('0' <= c && c <= '9') || ('a' <= c && c <= 'f') || ('A' <= c && c <= 'F')
}

pub fn whitespace(c: char) -> (b: bool)
    ensures
        b == is_whitespace(c),
{
    ('\u{9}' <= c && c <= '\u{d}') || c == ' ' || c == '\u{85}' || c == '\u{a0}' || c
        == '\u{1680}' || ('\u{2000}' <= c && c <= '\u{200a}') || c == '\u{2028}' || c
        == '\u{2029}' || c == '\u{202f}' || c == '\u{205f}' || c == '\u{3000}'
}

/// The characters of a string slice, in order.
pub fn chars_of(s: &str) -> (v: Vec<char>)
    ensures
        v@ == s@,
{
    let mut v: Vec<char> = Vec::new();
    for c in it: s.chars()
        invariant
            v@ == it.seq().take(it.index() as int),
    {
        v.push(c);
    }
    v
}

/// `String::push`: the string grows by exactly the character given.
#[verifier::external_body]
fn push_char(s: &mut String, c: char)
    ensures
        final(s)@ == old(s)@.push(c),
{
    s.push(c)
}

/// The string that holds the characters of `v`, in order.
pub fn string_of(v: &Vec<char>) -> (s: String)
    ensures
        s@ == v@,
{
    let mut s = String::new();
    let mut i: usize = 0;
    while i < v.len()
        invariant
            i <= v.len(),
            s@ == v@.take(i as int),
        decreases v.len() - i,
    {
        push_char(&mut s, v[i]);
        i += 1;
    }
    s
}

pub fn check_all_ascii_digits(s: &Vec<char>) -> (b: bool)
    ensures
        b == all_ascii_digits(s@),
{
    let mut i: usize = 0;
    while i < s.len()
        invariant
            i <= s.len(),
            all_ascii_digits(s@.take(i as int)),
        decreases s.len() - i,
    {
        if !ascii_digit(s[i]) {
            return false;
        }
        i += 1;
        assert forall|j: int| 0 <= j < i implies is_ascii_digit(#[trigger] s@.take(i as int)[j]) by {
            if j < i - 1 {
                assert(s@.take(i as int)[j] == s@.take(i - 1)[j]);
            }
        }
    }
    assert(s@.take(s.len() as int) =~= s@);
    true
}

pub fn check_all_hex_digits(s: &Vec<char>) -> (b: bool)
    ensures
        b == all_hex_digits(s@),
{
    let mut i: usize = 0;
    while i < s.len()
        invariant
            i <= s.len(),
            all_hex_digits(s@.take(i as int)),
        decreases s.len() - i,
    {
        if !hex_digit(s[i]) {
            return false;
        }
        i += 1;
        assert forall|j: int| 0 <= j < i implies is_hex_digit(#[trigger] s@.take(i as int)[j]) by {
            if j < i - 1 {
                assert(s@.take(i as int)[j] == s@.take(i - 1)[j]);
            }
        }
    }
    assert(s@.take(s.len() as int) =~= s@);
    true
}

/// The number that the digit `c` stands for, for `c` an ASCII digit.
pub open spec fn digit_value(c: char) -> nat {
    (c as int - '0' as int) as nat
}

/// The ASCII digit that stands for `d`, for `d` below ten.
pub open spec fn digit_char(d: nat) -> char {
    ('0' as int + d as int) as char
}

/// The number that the hexadecimal digit `c` stands for.
pub open spec fn hex_digit_value(c: char) -> nat {
    if '0' <= c <= '9' {
        (c as int - '0' as int) as nat
    } else if 'a' <= c <= 'f' {
        (c as int - 'a' as int + 10) as nat
    } else {
        (c as int - 'A' as int + 10) as nat
    }
}

/// The lower-case hexadecimal digit that stands for `d`, for `d` below sixteen.
pub open spec fn hex_digit_char(d: nat) -> char {
    if d < 10 {
        ('0' as int + d as int) as char
    } else {
        ('a' as int + d as int - 10) as char
    }
}

/// The number written by the decimal digits `s`, most significant digit first.
pub open spec fn decimal_value(s: Seq<char>) -> nat
    decreases s.len(),
{
    if s.len() == 0 {
        0
    } else {
        decimal_value(s.drop_last()) * 10 + digit_value(s.last())
    }
}

/// The number written by the hexadecimal digits `s`, most significant digit first.
pub open spec fn hex_value(s: Seq<char>) -> nat
    decreases s.len(),
{
    if s.len() == 0 {
        0
    } else {
        hex_value(s.drop_last()) * 16 + hex_digit_value(s.last())
    }
}

/// The shortest decimal numeral of `n`.
pub open spec fn decimal_digits(n: nat) -> Seq<char>
    decreases n,
{
    if n < 10 {
        seq![digit_char(n)]
    } else {
        decimal_digits(n / 10).push(digit_char(n % 10))
    }
}

/// The shortest lower-case hexadecimal numeral of `n`.
pub open spec fn hex_digits(n: nat) -> Seq<char>
    decreases n,
{
    if n < 16 {
        seq![hex_digit_char(n)]
    } else {
        hex_digits(n / 16).push(hex_digit_char(n % 16))
    }
}

/// What reading `s` as an unsigned decimal of 64 bits gives: the number, where
/// `s` is a non-empty run of digits whose value fits.
pub open spec fn parse_decimal_spec(s: Seq<char>) -> Option<u64> {
    if s.len() > 0 && all_ascii_digits(s) && decimal_value(s) <= u64::MAX {
        Some(decimal_value(s) as u64)
    } else {
        None
    }
}

/// What reading `s` as an unsigned hexadecimal of 64 bits gives.
pub open spec fn parse_hex_spec(s: Seq<char>) -> Option<u64> {
    if s.len() > 0 && all_hex_digits(s) && hex_value(s) <= u64::MAX {
        Some(hex_value(s) as u64)
    } else {
        None
    }
}

/// The value of a prefix of a decimal numeral never exceeds the value of the whole.
pub proof fn lemma_decimal_prefix(s: Seq<char>, k: int)
    requires
        0 <= k <= s.len(),
    ensures
        decimal_value(s.take(k)) <= decimal_value(s),
    decreases s.len(),
{
    if k == s.len() {
        assert(s.take(k) =~= s);
    } else {
        lemma_decimal_prefix(s.drop_last(), k);
        assert(s.drop_last().take(k) =~= s.take(k));
    }
}

/// The value of a prefix of a hexadecimal numeral never exceeds the value of the whole.
pub proof fn lemma_hex_prefix(s: Seq<char>, k: int)
    requires
        0 <= k <= s.len(),
    ensures
        hex_value(s.take(k)) <= hex_value(s),
    decreases s.len(),
{
    if k == s.len() {
        assert(s.take(k) =~= s);
    } else {
        lemma_hex_prefix(s.drop_last(), k);
        assert(s.drop_last().take(k) =~= s.take(k));
    }
}

fn digit_of(c: char) -> (d: u64)
    requires
        is_ascii_digit(c),
    ensures
        d == digit_value(c),
        d < 10,
{
    (c as u32 - '0' as u32) as u64
}

fn hex_digit_of(c: char) -> (d: u64)
    requires
        is_hex_digit(c),
    ensures
        d == hex_digit_value(c),
        d < 16,
{
    if '0' <= c && c <= '9' {
        (c as u32 - '0' as u32) as u64
    } else if 'a' <= c && c <= 'f' {
        (c as u32 - 'a' as u32 + 10) as u64
    } else {
        (c as u32 - 'A' as u32 + 10) as u64
    }
}

/// Reads an unsigned decimal numeral of 64 bits.
pub fn parse_decimal(s: &Vec<char>) -> (r: Option<u64>)
    ensures
        r == parse_decimal_spec(s@),
{
    if s.len() == 0 || !check_all_ascii_digits(s) {
        return None;
    }
    let mut v: u64 = 0;
    let mut i: usize = 0;
    while i < s.len()
        invariant
            i <= s.len(),
            all_ascii_digits(s@),
            v == decimal_value(s@.take(i as int)),
        decreases s.len() - i,
    {
        let d = digit_of(s[i]);
        proof {
            assert(s@.take(i + 1).drop_last() =~= s@.take(i as int));
            assert(s@.take(i + 1).last() == s@[i as int]);
            lemma_decimal_prefix(s@, i + 1);
        }
        if v > (u64::MAX - d) / 10 {
            return None;
        }
        v = v * 10 + d;
        i += 1;
    }
    assert(s@.take(s.len() as int) =~= s@);
    Some(v)
}

/// Reads an unsigned hexadecimal numeral of 64 bits.
pub fn parse_hex(s: &Vec<char>) -> (r: Option<u64>)
    ensures
        r == parse_hex_spec(s@),
{
    if s.len() == 0 || !check_all_hex_digits(s) {
        return None;
    }
    let mut v: u64 = 0;
    let mut i: usize = 0;
    while i < s.len()
        invariant
            i <= s.len(),
            all_hex_digits(s@),
            v == hex_value(s@.take(i as int)),
        decreases s.len() - i,
    {
        let d = hex_digit_of(s[i]);
        proof {
            assert(s@.take(i + 1).drop_last() =~= s@.take(i as int));
            assert(s@.take(i + 1).last() == s@[i as int]);
            lemma_hex_prefix(s@, i + 1);
        }
        if v > (u64::MAX - d) / 16 {
            return None;
        }
        v = v * 16 + d;
        i += 1;
    }
    assert(s@.take(s.len() as int) =~= s@);
    Some(v)
}

fn char_of_digit(d: u64) -> (c: char)
    requires
        d < 10,
    ensures
        c == digit_char(d as nat),
        is_ascii_digit(c),
{
    if d == 0 {
        '0'
    } else if d == 1 {
        '1'
    } else if d == 2 {
        '2'
    } else if d == 3 {
        '3'
    } else if d == 4 {
        '4'
    } else if d == 5 {
        '5'
    } else if d == 6 {
        '6'
    } else if d == 7 {
        '7'
    } else if d == 8 {
        '8'
    } else {
        '9'
    }
}

/// Writes `n` as its shortest decimal numeral.
pub fn decimal_of(n: u64) -> (v: Vec<char>)
    ensures
        v@ == decimal_digits(n as nat),
    decreases n,
{
    if n < 10 {
        let mut v: Vec<char> = Vec::new();
        v.push(char_of_digit(n));
        v
    } else {
        let mut v = decimal_of(n / 10);
        v.push(char_of_digit(n % 10));
        v
    }
}

/// A decimal numeral without a needless leading zero.
pub open spec fn canonical_decimal(s: Seq<char>) -> bool {
    &&& s.len() > 0
    &&& all_ascii_digits(s)
    &&& s.len() > 1 ==> s[0] != '0'
}

/// Writing a number and reading it back gives the number, and what is written
/// is a canonical decimal numeral.
pub proof fn lemma_decimal_digits_value(n: nat)
    ensures
        canonical_decimal(decimal_digits(n)),
        decimal_value(decimal_digits(n)) == n,
        no_whitespace(decimal_digits(n)),
    decreases n,
{
    if n < 10 {
        let s = decimal_digits(n);
        assert(s.drop_last() =~= Seq::<char>::empty());
        assert(decimal_value(s.drop_last()) == 0);
    } else {
        lemma_decimal_digits_value(n / 10);
        let p = decimal_digits(n / 10);
        let s = decimal_digits(n);
        assert(s.drop_last() =~= p);
        assert(s.last() == digit_char(n % 10));
        assert(s[0] == p[0]);
        if p.len() == 1 {
            assert(decimal_value(p.drop_last()) == 0) by {
                assert(p.drop_last() =~= Seq::<char>::empty());
            }
            assert(p[0] != '0');
        }
    }
}

/// Reading a canonical decimal numeral and writing the number again gives the numeral.
pub proof fn lemma_decimal_value_digits(s: Seq<char>)
    requires
        canonical_decimal(s),
    ensures
        decimal_digits(decimal_value(s)) == s,
    decreases s.len(),
{
    let p = s.drop_last();
    if s.len() == 1 {
        assert(p =~= Seq::<char>::empty());
        assert(decimal_value(p) == 0);
        assert(decimal_digits(decimal_value(s)) =~= s);
    } else {
        assert(p[0] == s[0]);
        assert(all_ascii_digits(p)) by {
            assert forall|i: int| 0 <= i < p.len() implies is_ascii_digit(#[trigger] p[i]) by {
                assert(p[i] == s[i]);
            }
        }
        lemma_decimal_value_digits(p);
        lemma_decimal_leading(p);
        let v = decimal_value(s);
        assert(v / 10 == decimal_value(p));
        assert(v % 10 == digit_value(s.last()));
        assert(decimal_digits(v) =~= s);
    }
}

/// A canonical decimal numeral is zero only as the single digit `0`.
proof fn lemma_decimal_leading(s: Seq<char>)
    requires
        canonical_decimal(s),
    ensures
        s.len() > 1 ==> decimal_value(s) >= 10,
        s.len() == 1 ==> decimal_value(s) < 10,
    decreases s.len(),
{
    let p = s.drop_last();
    if s.len() == 1 {
        assert(p =~= Seq::<char>::empty());
        assert(decimal_value(p) == 0);
    } else {
        assert(p[0] == s[0]);
        assert(all_ascii_digits(p)) by {
            assert forall|i: int| 0 <= i < p.len() implies is_ascii_digit(#[trigger] p[i]) by {
                assert(p[i] == s[i]);
            }
        }
        if p.len() == 1 {
            assert(p.drop_last() =~= Seq::<char>::empty());
            assert(decimal_value(p.drop_last()) == 0);
            assert(decimal_value(p) == digit_value(p[0]));
            assert(decimal_value(p) >= 1);
        } else {
            lemma_decimal_leading(p);
        }
    }
}

/// Sixteen to the power `n`.
pub open spec fn pow16(n: nat) -> nat
    decreases n,
{
    if n == 0 {
        1
    } else {
        16 * pow16((n - 1) as nat)
    }
}

/// A hexadecimal numeral of `n` digits is below sixteen to the `n`.
pub proof fn lemma_hex_value_bound(s: Seq<char>)
    requires
        all_hex_digits(s),
    ensures
        hex_value(s) < pow16(s.len()),
    decreases s.len(),
{
    if s.len() > 0 {
        let p = s.drop_last();
        assert(all_hex_digits(p)) by {
            assert forall|i: int| 0 <= i < p.len() implies is_hex_digit(#[trigger] p[i]) by {
                assert(p[i] == s[i]);
            }
        }
        lemma_hex_value_bound(p);
        assert(is_hex_digit(s.last()));
    }
}

/// Sixteen to the sixteenth is two to the sixty-fourth, and smaller powers are smaller.
pub proof fn lemma_pow16_sixteen(n: nat)
    requires
        n <= 16,
    ensures
        pow16(n) <= 0x1_0000_0000_0000_0000,
{
    reveal_with_fuel(pow16, 17);
}

/// A hexadecimal numeral of at most sixteen digits fits in 64 bits.
pub proof fn lemma_hex_fits(s: Seq<char>)
    requires
        all_hex_digits(s),
        s.len() <= 16,
    ensures
        hex_value(s) <= u64::MAX,
{
    lemma_hex_value_bound(s);
    lemma_pow16_sixteen(s.len());
}

/// The hexadecimal numeral of a number is made of hexadecimal digits, reads
/// back as the number, and holds no white space.
pub proof fn lemma_hex_digits_value(n: nat)
    ensures
        hex_digits(n).len() > 0,
        all_hex_digits(hex_digits(n)),
        hex_value(hex_digits(n)) == n,
        n >= 1 ==> pow16((hex_digits(n).len() - 1) as nat) <= n,
    decreases n,
{
    if n < 16 {
        let s = hex_digits(n);
        assert(s.drop_last() =~= Seq::<char>::empty());
        assert(hex_value(s.drop_last()) == 0);
    } else {
        lemma_hex_digits_value(n / 16);
        let p = hex_digits(n / 16);
        let s = hex_digits(n);
        assert(s.drop_last() =~= p);
        assert(s.last() == hex_digit_char(n % 16));
        assert forall|i: int| 0 <= i < s.len() implies is_hex_digit(#[trigger] s[i]) by {
            if i < p.len() {
                assert(s[i] == p[i]);
            }
        }
    }
}

/// The hexadecimal numeral of a number of 64 bits has at most sixteen digits.
pub proof fn lemma_hex_digits_len(n: u64)
    ensures
        1 <= hex_digits(n as nat).len() <= 16,
{
    lemma_hex_digits_value(n as nat);
    let l = hex_digits(n as nat).len();
    if l > 16 {
        lemma_pow16_mono(16, (l - 1) as nat);
        reveal_with_fuel(pow16, 17);
    }
}

/// Powers of sixteen grow with the exponent.
pub proof fn lemma_pow16_mono(a: nat, b: nat)
    requires
        a <= b,
    ensures
        pow16(a) <= pow16(b),
    decreases b,
{
    if a < b {
        lemma_pow16_mono(a, (b - 1) as nat);
    }
}

/// The lines still to come from `s` while `cur` holds the line being read.
/// A line ends at each line feed; a last line without one counts if it is not empty.
pub open spec fn lines_from(s: Seq<char>, cur: Seq<char>) -> Seq<Seq<char>>
    decreases s.len(),
{
    if s.len() == 0 {
        if cur.len() == 0 {
            Seq::<Seq<char>>::empty()
        } else {
            seq![cur]
        }
    } else if s[0] == '\n' {
        seq![cur] + lines_from(s.drop_first(), Seq::<char>::empty())
    } else {
        lines_from(s.drop_first(), cur.push(s[0]))
    }
}

/// The lines of a text: the runs between line feeds, without the line feeds.
pub open spec fn lines(s: Seq<char>) -> Seq<Seq<char>> {
    lines_from(s, Seq::<char>::empty())
}

/// The tokens still to come from `s` while `cur` holds the token being read.
pub open spec fn tokens_from(s: Seq<char>, cur: Seq<char>) -> Seq<Seq<char>>
    decreases s.len(),
{
    if s.len() == 0 {
        if cur.len() == 0 {
            Seq::<Seq<char>>::empty()
        } else {
            seq![cur]
        }
    } else if is_whitespace(s[0]) {
        if cur.len() == 0 {
            tokens_from(s.drop_first(), Seq::<char>::empty())
        } else {
            seq![cur] + tokens_from(s.drop_first(), Seq::<char>::empty())
        }
    } else {
        tokens_from(s.drop_first(), cur.push(s[0]))
    }
}

/// The tokens of a line: its maximal runs of characters that are not white space.
pub open spec fn tokens(s: Seq<char>) -> Seq<Seq<char>> {
    tokens_from(s, Seq::<char>::empty())
}

/// Every token is non-empty and free of white space.
pub proof fn lemma_tokens_shape(s: Seq<char>, cur: Seq<char>)
    requires
        no_whitespace(cur),
    ensures
        forall|k: int|
            0 <= k < tokens_from(s, cur).len() ==> (#[trigger] tokens_from(s, cur)[k]).len() > 0
                && no_whitespace(tokens_from(s, cur)[k]),
    decreases s.len(),
{
    let all = tokens_from(s, cur);
    assert forall|k: int| 0 <= k < all.len() implies (#[trigger] all[k]).len() > 0
        && no_whitespace(all[k]) by {
        if s.len() == 0 {
        } else if is_whitespace(s[0]) {
            let rest = tokens_from(s.drop_first(), Seq::<char>::empty());
            lemma_tokens_shape(s.drop_first(), Seq::<char>::empty());
            if cur.len() == 0 {
                assert(all[k] == rest[k]);
            } else if k > 0 {
                assert(all[k] == rest[k - 1]);
            }
        } else {
            let next = cur.push(s[0]);
            assert(no_whitespace(next)) by {
                assert forall|i: int| 0 <= i < next.len() implies !is_whitespace(
                    #[trigger] next[i],
                ) by {
                    if i < cur.len() {
                        assert(next[i] == cur[i]);
                    }
                }
            }
            lemma_tokens_shape(s.drop_first(), next);
            assert(all[k] == tokens_from(s.drop_first(), next)[k]);
        }
    }
}

/// No line holds a line feed.
pub proof fn lemma_lines_shape(s: Seq<char>, cur: Seq<char>)
    requires
        !cur.contains('\n'),
    ensures
        forall|k: int|
            0 <= k < lines_from(s, cur).len() ==> !(#[trigger] lines_from(s, cur)[k]).contains(
                '\n',
            ),
    decreases s.len(),
{
    let all = lines_from(s, cur);
    assert forall|k: int| 0 <= k < all.len() implies !(#[trigger] all[k]).contains('\n') by {
        if s.len() == 0 {
        } else if s[0] == '\n' {
            let rest = lines_from(s.drop_first(), Seq::<char>::empty());
            assert(!Seq::<char>::empty().contains('\n'));
            lemma_lines_shape(s.drop_first(), Seq::<char>::empty());
            if k > 0 {
                assert(all[k] == rest[k - 1]);
            }
        } else {
            let next = cur.push(s[0]);
            assert(!next.contains('\n')) by {
                if next.contains('\n') {
                    let i = choose|i: int| 0 <= i < next.len() && next[i] == '\n';
                    if i < cur.len() {
                        assert(cur[i] == '\n');
                        assert(cur.contains('\n'));
                    }
                }
            }
            lemma_lines_shape(s.drop_first(), next);
            assert(all[k] == lines_from(s.drop_first(), next)[k]);
        }
    }
}

/// Splits a text into its lines.
pub fn split_lines(s: &Vec<char>) -> (out: Vec<Vec<char>>)
    ensures
        views(out@) == lines(s@),
        forall|k: int| 0 <= k < out.len() ==> !(#[trigger] out[k])@.contains('\n'),
{
    proof {
        assert(!Seq::<char>::empty().contains('\n'));
        lemma_lines_shape(s@, Seq::<char>::empty());
    }
    let mut out: Vec<Vec<char>> = Vec::new();
    let mut cur: Vec<char> = Vec::new();
    let mut i: usize = 0;
    assert(s@.skip(0) =~= s@);
    assert(views(out@) =~= Seq::<Seq<char>>::empty());
    while i < s.len()
        invariant
            i <= s.len(),
            lines(s@) == views(out@) + lines_from(s@.skip(i as int), cur@),
        decreases s.len() - i,
    {
        let c = s[i];
        proof {
            assert(s@.skip(i as int)[0] == c);
            assert(s@.skip(i as int).drop_first() =~= s@.skip(i + 1));
        }
        if c == '\n' {
            let ghost before = out@;
            let ghost line = cur@;
            out.push(cur);
            cur = Vec::new();
            assert(views(out@) =~= views(before) + seq![line]);
            assert(views(before) + (seq![line] + lines_from(
                s@.skip(i + 1),
                Seq::<char>::empty(),
            )) =~= views(out@) + lines_from(s@.skip(i + 1), Seq::<char>::empty()));
        } else {
            cur.push(c);
        }
        i += 1;
    }
    if cur.len() > 0 {
        let ghost before = out@;
        let ghost line = cur@;
        out.push(cur);
        assert(views(out@) =~= views(before) + seq![line]);
    }
    assert forall|k: int| 0 <= k < out.len() implies !(#[trigger] out[k])@.contains('\n') by {
        assert(views(out@)[k] == out[k]@);
    }
    out
}

/// Splits a line into its tokens.
pub fn split_whitespace(s: &Vec<char>) -> (out: Vec<Vec<char>>)
    ensures
        views(out@) == tokens(s@),
        forall|k: int|
            0 <= k < out.len() ==> (#[trigger] out[k]).len() > 0 && no_whitespace(out[k]@),
{
    proof {
        lemma_tokens_shape(s@, Seq::<char>::empty());
    }
    let mut out: Vec<Vec<char>> = Vec::new();
    let mut cur: Vec<char> = Vec::new();
    let mut i: usize = 0;
    assert(s@.skip(0) =~= s@);
    assert(views(out@) =~= Seq::<Seq<char>>::empty());
    while i < s.len()
        invariant
            i <= s.len(),
            tokens(s@) == views(out@) + tokens_from(s@.skip(i as int), cur@),
            forall|k: int| 0 <= k < out.len() ==> (#[trigger] out[k]).len() > 0,
        decreases s.len() - i,
    {
        let c = s[i];
        proof {
            assert(s@.skip(i as int)[0] == c);
            assert(s@.skip(i as int).drop_first() =~= s@.skip(i + 1));
        }
        if whitespace(c) {
            if cur.len() > 0 {
                let ghost before = out@;
                let ghost token = cur@;
                out.push(cur);
                cur = Vec::new();
                assert(views(out@) =~= views(before) + seq![token]);
                assert(views(before) + (seq![token] + tokens_from(
                    s@.skip(i + 1),
                    Seq::<char>::empty(),
                )) =~= views(out@) + tokens_from(s@.skip(i + 1), Seq::<char>::empty()));
            } else {
                assert(cur@ =~= Seq::<char>::empty());
            }
        } else {
            cur.push(c);
        }
        i += 1;
    }
    if cur.len() > 0 {
        let ghost before = out@;
        let ghost token = cur@;
        out.push(cur);
        assert(views(out@) =~= views(before) + seq![token]);
    }
    assert forall|k: int| 0 <= k < out.len() implies (#[trigger] out[k]).len() > 0
        && no_whitespace(out[k]@) by {
        assert(views(out@)[k] == out[k]@);
    }
    out
}

/// `s` without the white space at its start.
pub open spec fn trim_start(s: Seq<char>) -> Seq<char>
    decreases s.len(),
{
    if s.len() > 0 && is_whitespace(s[0]) {
        trim_start(s.drop_first())
    } else {
        s
    }
}

/// `s` without the white space at its end.
pub open spec fn trim_end(s: Seq<char>) -> Seq<char>
    decreases s.len(),
{
    if s.len() > 0 && is_whitespace(s.last()) {
        trim_end(s.drop_last())
    } else {
        s
    }
}

/// `s` without the white space at its start and at its end.
pub open spec fn trimmed(s: Seq<char>) -> Seq<char> {
    trim_end(trim_start(s))
}

/// Trimming leaves alone what neither starts nor ends with white space.
pub proof fn lemma_trimmed_fixed(s: Seq<char>)
    requires
        s.len() > 0 ==> !is_whitespace(s[0]) && !is_whitespace(s.last()),
    ensures
        trimmed(s) == s,
{
}

/// Removes the white space at both ends.
pub fn trim(s: &Vec<char>) -> (out: Vec<char>)
    ensures
        out@ == trimmed(s@),
{
    let mut start: usize = 0;
    assert(s@.skip(0) =~= s@);
    while start < s.len() && whitespace(s[start])
        invariant
            start <= s.len(),
            trim_start(s@) == trim_start(s@.skip(start as int)),
        decreases s.len() - start,
    {
        proof {
            assert(s@.skip(start as int)[0] == s@[start as int]);
            assert(s@.skip(start as int).drop_first() =~= s@.skip(start + 1));
        }
        start += 1;
    }
    proof {
        if start < s.len() {
            assert(s@.skip(start as int)[0] == s@[start as int]);
        }
        assert(trim_start(s@) == s@.skip(start as int));
        assert(s@.skip(start as int) =~= s@.subrange(start as int, s.len() as int));
    }
    let mut end: usize = s.len();
    while end > start && whitespace(s[end - 1])
        invariant
            start <= end <= s.len(),
            trimmed(s@) == trim_end(s@.subrange(start as int, end as int)),
        decreases end,
    {
        proof {
            assert(s@.subrange(start as int, end as int).last() == s@[end - 1]);
            assert(s@.subrange(start as int, end as int).drop_last() =~= s@.subrange(
                start as int,
                end - 1,
            ));
        }
        end -= 1;
    }
    proof {
        if end > start {
            assert(s@.subrange(start as int, end as int).last() == s@[end - 1]);
        }
        assert(trimmed(s@) == s@.subrange(start as int, end as int));
    }
    let mut out: Vec<char> = Vec::new();
    let mut i: usize = start;
    while i < end
        invariant
            start <= i <= end <= s.len(),
            out@ == s@.subrange(start as int, i as int),
        decreases end - i,
    {
        out.push(s[i]);
        i += 1;
    }
    out
}

/// Whether two character vectors hold the same characters.
pub fn same_chars(a: &Vec<char>, b: &Vec<char>) -> (r: bool)
    ensures
        r == (a@ == b@),
{
    if a.len() != b.len() {
        return false;
    }
    let mut i: usize = 0;
    while i < a.len()
        invariant
            i <= a.len(),
            a.len() == b.len(),
            a@.take(i as int) == b@.take(i as int),
        decreases a.len() - i,
    {
        if a[i] != b[i] {
            return false;
        }
        i += 1;
        assert(a@.take(i as int) =~= a@.take(i - 1).push(a@[i - 1]));
        assert(b@.take(i as int) =~= b@.take(i - 1).push(b@[i - 1]));
    }
    assert(a@.take(a.len() as int) =~= a@);
    assert(b@.take(b.len() as int) =~= b@);
    true
}

/// The lower-case form of an ASCII capital; any other character itself.
pub open spec fn to_ascii_lower(c: char) -> char {
    if 'A' <= c <= 'Z' {
        (c as int + 32) as char
    } else {
        c
    }
}

/// `s` with every ASCII capital in lower case.
pub open spec fn lowercase(s: Seq<char>) -> Seq<char> {
    s.map_values(|c: char| to_ascii_lower(c))
}

pub fn ascii_lower(c: char) -> (l: char)
    ensures
        l == to_ascii_lower(c),
{
    if 'A' <= c && c <= 'Z' {
        ((c as u8) + 32) as char
    } else {
        c
    }
}

/// Puts every ASCII capital of `s` in lower case.
pub fn to_lowercase(s: &Vec<char>) -> (out: Vec<char>)
    ensures
        out@ == lowercase(s@),
{
    let mut out: Vec<char> = Vec::new();
    let mut i: usize = 0;
    while i < s.len()
        invariant
            i <= s.len(),
            out@ == lowercase(s@.take(i as int)),
        decreases s.len() - i,
    {
        out.push(ascii_lower(s[i]));
        i += 1;
        assert(out@ =~= lowercase(s@.take(i as int)));
    }
    assert(s@.take(s.len() as int) =~= s@);
    out
}

/// The characters of `a` followed by those of `b`.
pub fn append_chars(a: &Vec<char>, b: &Vec<char>) -> (out: Vec<char>)
    ensures
        out@ == a@ + b@,
{
    let mut out: Vec<char> = Vec::new();
    let mut i: usize = 0;
    while i < a.len()
        invariant
            i <= a.len(),
            out@ == a@.take(i as int),
        decreases a.len() - i,
    {
        out.push(a[i]);
        i += 1;
    }
    assert(a@.take(a.len() as int) =~= a@);
    let mut j: usize = 0;
    while j < b.len()
        invariant
            j <= b.len(),
            out@ == a@ + b@.take(j as int),
        decreases b.len() - j,
    {
        out.push(b[j]);
        j += 1;
        assert(out@ =~= a@ + b@.take(j as int));
    }
    assert(b@.take(b.len() as int) =~= b@);
    out
}

} // verus!
