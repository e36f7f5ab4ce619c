//! Text primitives on Unicode scalar values: white space, trimming, word
//! counting, decimal formatting and the parsing of 32-bit integers.
use vstd::prelude::*;

verus! {

broadcast use vstd::string::group_string_axioms;

/// `String::push` appends one character to the end of the string.
pub assume_specification[ String::push ](s: &mut String, ch: char)
    ensures
        final(s)@ == old(s)@.push(ch),
;

/// The Unicode `White_Space` property: the characters that `char::is_whitespace`
/// accepts, and by which `str::trim` and `str::split_whitespace` cut.
pub open spec fn is_white_space_spec(c: char) -> bool {
    let u = c as u32;
    ||| 0x9 <= u <= 0xD
    ||| u == 0x20
    ||| u == 0x85
    ||| u == 0xA0
    ||| u == 0x1680
    ||| 0x2000 <= u <= 0x200A
    ||| u == 0x2028
    ||| u == 0x2029
    ||| u == 0x202F
    ||| u == 0x205F
    ||| u == 0x3000
}

/// Whether `c` is a white-space character.
pub fn is_white_space(c: char) -> (b: bool)
    ensures
        b == is_white_space_spec(c),
{
    let u = c as u32;
    (0x9 <= u && u <= 0xD) || u == 0x20 || u == 0x85 || u == 0xA0 || u == 0x1680 || (0x2000 <= u
        && u <= 0x200A) || u == 0x2028 || u == 0x2029 || u == 0x202F || u == 0x205F || u == 0x3000
}

/// The characters of `s`, in order.
pub fn chars_of(s: &str) -> (v: Vec<char>)
    ensures
        v@ == s@,
{
    let mut v: Vec<char> = Vec::new();
    for c in it: s.chars()
        invariant
            it.seq() == s@,
            v@ == s@.take(it.index() as int),
    {
        v.push(c);
    }
    assert(s@.take(s@.len() as int) =~= s@);
    v
}

/// Equality of two string slices, character by character.
pub fn str_equal(a: &str, b: &str) -> (r: bool)
    ensures
        r == (a@ == b@),
{
    let va = chars_of(a);
    let vb = chars_of(b);
    if va.len() != vb.len() {
        return false;
    }
    let n = va.len();
    for i in 0..n
        invariant
            n == va@.len(),
            n == vb@.len(),
            va@ == a@,
            vb@ == b@,
            forall|k: int| 0 <= k < i ==> va@[k] == vb@[k],
    {
        if va[i] != vb[i] {
            return false;
        }
    }
    assert(va@ =~= vb@);
    true
}

/// `s` without its leading white space.
pub open spec fn trim_start_chars(s: Seq<char>) -> Seq<char>
    decreases s.len(),
{
    if s.len() > 0 && is_white_space_spec(s[0]) {
        trim_start_chars(s.drop_first())
    } else {
        s
    }
}

/// `s` without its trailing white space.
pub open spec fn trim_end_chars(s: Seq<char>) -> Seq<char>
    decreases s.len(),
{
    if s.len() > 0 && is_white_space_spec(s.last()) {
        trim_end_chars(s.drop_last())
    } else {
        s
    }
}

/// `s` without leading and trailing white space, as `str::trim` gives it.
pub open spec fn trim_chars(s: Seq<char>) -> Seq<char> {
    trim_end_chars(trim_start_chars(s))
}

/// The sub-slice of `s` without leading and trailing white space.
pub fn trim(s: &str) -> (r: &str)
    ensures
        r@ == trim_chars(s@),
{
    let v = chars_of(s);
    let n = v.len();
    let mut i: usize = 0;
    assert(s@.subrange(0, n as int) =~= s@);
    while i < n && is_white_space(v[i])
        invariant
            n == v@.len(),
            v@ == s@,
            i <= n,
            trim_start_chars(s@) == trim_start_chars(s@.subrange(i as int, n as int)),
        decreases n - i,
    {
        assert(s@.subrange(i as int, n as int).drop_first() =~= s@.subrange(i + 1, n as int));
        i = i + 1;
    }
    assert(trim_start_chars(s@) == s@.subrange(i as int, n as int));
    let mut j: usize = n;
    while j > i && is_white_space(v[j - 1])
        invariant
            n == v@.len(),
            v@ == s@,
            i <= j <= n,
            trim_end_chars(s@.subrange(i as int, n as int)) == trim_end_chars(
                s@.subrange(i as int, j as int),
            ),
        decreases j - i,
    {
        assert(s@.subrange(i as int, j as int).drop_last() =~= s@.subrange(i as int, j - 1));
        j = j - 1;
    }
    s.substring_char(i, j)
}

/// Whether `s` holds nothing but white space (the empty string included).
pub fn is_blank(s: &str) -> (b: bool)
    ensures
        b == (trim_chars(s@).len() == 0),
        b == (forall|i: int| 0 <= i < s@.len() ==> is_white_space_spec(#[trigger] s@[i])),
{
    proof {
        lemma_blank_iff_all_white_space(s@);
    }
    trim(s).is_empty()
}

/// Trimming leaves nothing exactly when every character is white space.
pub proof fn lemma_blank_iff_all_white_space(s: Seq<char>)
    ensures
        (trim_chars(s).len() == 0) == (forall|i: int|
            0 <= i < s.len() ==> is_white_space_spec(#[trigger] s[i])),
    decreases s.len(),
{
    lemma_trim_start_shape(s);
    if s.len() > 0 && is_white_space_spec(s[0]) {
        lemma_blank_iff_all_white_space(s.drop_first());
        assert(trim_chars(s) == trim_chars(s.drop_first()));
        if forall|i: int| 0 <= i < s.drop_first().len() ==> is_white_space_spec(
            #[trigger] s.drop_first()[i],
        ) {
            assert forall|i: int| 0 <= i < s.len() implies is_white_space_spec(#[trigger] s[i]) by {
                if i > 0 {
                    assert(s[i] == s.drop_first()[i - 1]);
                }
            }
        } else {
            let k = choose|i: int|
                0 <= i < s.drop_first().len() && !is_white_space_spec(#[trigger] s.drop_first()[i]);
            assert(s[k + 1] == s.drop_first()[k]);
        }
    } else if s.len() > 0 {
        lemma_trim_end_shape(s);
    }
}

/// What `trim_start_chars` keeps: a suffix of `s` that is empty or starts
/// with a character that is not white space.
pub proof fn lemma_trim_start_shape(s: Seq<char>)
    ensures
        trim_start_chars(s).len() <= s.len(),
        trim_start_chars(s) =~= s.subrange(s.len() - trim_start_chars(s).len(), s.len() as int),
        trim_start_chars(s).len() > 0 ==> !is_white_space_spec(trim_start_chars(s)[0]),
        forall|i: int|
            0 <= i < s.len() - trim_start_chars(s).len() ==> is_white_space_spec(#[trigger] s[i]),
    decreases s.len(),
{
    if s.len() > 0 && is_white_space_spec(s[0]) {
        lemma_trim_start_shape(s.drop_first());
        assert forall|i: int|
            0 <= i < s.len() - trim_start_chars(s).len() implies is_white_space_spec(
            #[trigger] s[i],
        ) by {
            if i > 0 {
                assert(s[i] == s.drop_first()[i - 1]);
            }
        }
    }
}

/// What `trim_end_chars` keeps: a prefix of `s` that is empty or ends with a
/// character that is not white space; a non-empty prefix keeps the first
/// character.
pub proof fn lemma_trim_end_shape(s: Seq<char>)
    ensures
        trim_end_chars(s).len() <= s.len(),
        trim_end_chars(s) =~= s.take(trim_end_chars(s).len() as int),
        trim_end_chars(s).len() > 0 ==> !is_white_space_spec(trim_end_chars(s).last()),
        s.len() > 0 && !is_white_space_spec(s[0]) ==> trim_end_chars(s).len() > 0,
        forall|i: int|
            trim_end_chars(s).len() <= i < s.len() ==> is_white_space_spec(#[trigger] s[i]),
    decreases s.len(),
{
    if s.len() > 0 && is_white_space_spec(s.last()) {
        lemma_trim_end_shape(s.drop_last());
        if s.len() > 1 && !is_white_space_spec(s[0]) {
            assert(s.drop_last()[0] == s[0]);
        }
        assert forall|i: int| trim_end_chars(s).len() <= i < s.len() implies is_white_space_spec(
            #[trigger] s[i],
        ) by {
            if i < s.len() - 1 {
                assert(s[i] == s.drop_last()[i]);
            }
        }
    }
}

/// Trimming is idempotent: a trimmed text trims to itself.
pub proof fn lemma_trim_idempotent(s: Seq<char>)
    ensures
        trim_chars(trim_chars(s)) == trim_chars(s),
{
    let t = trim_start_chars(s);
    let u = trim_end_chars(t);
    lemma_trim_start_shape(s);
    lemma_trim_end_shape(t);
    if u.len() > 0 {
        assert(u[0] == t[0]);
        assert(trim_start_chars(u) == u);
        assert(trim_end_chars(u) == u);
    } else {
        assert(trim_start_chars(u) == u);
        assert(trim_end_chars(u) == u);
    }
}

/// The number of maximal runs of characters that are not white space, as
/// `str::split_whitespace().count()` gives it.
pub open spec fn word_count_chars(s: Seq<char>) -> nat
    decreases s.len(),
{
    if s.len() == 0 {
        0
    } else {
        let starts_word = !is_white_space_spec(s.last()) && (s.len() == 1 || is_white_space_spec(
            s[s.len() - 2],
        ));
        word_count_chars(s.drop_last()) + if starts_word {
            1nat
        } else {
            0nat
        }
    }
}

proof fn lemma_word_count_bound(s: Seq<char>)
    ensures
        word_count_chars(s) <= s.len(),
    decreases s.len(),
{
    if s.len() > 0 {
        lemma_word_count_bound(s.drop_last());
    }
}

/// The number of words of `s`, words being separated by white space.
pub fn word_count(s: &str) -> (n: usize)
    ensures
        n == word_count_chars(s@),
{
    let v = chars_of(s);
    let len = v.len();
    let mut n: usize = 0;
    let mut after_space = true;
    for i in 0..len
        invariant
            len == v@.len(),
            v@ == s@,
            n == word_count_chars(s@.take(i as int)),
            after_space == (i == 0 || is_white_space_spec(s@[i - 1])),
    {
        proof {
            lemma_word_count_bound(s@.take(i as int));
            assert(s@.take(i + 1).drop_last() =~= s@.take(i as int));
        }
        let white = is_white_space(v[i]);
        if !white && after_space {
            n = n + 1;
        }
        after_space = white;
    }
    assert(s@.take(len as int) =~= s@);
    n
}

/// The decimal digit `d` (for `d` below ten) as a character.
pub open spec fn digit_char_spec(d: nat) -> char {
    if d == 0 {
        '0'
    } else if d == 1 {
        '1'
    } else if d == 2 {
        '2'
    } else if d == 3 {
        '3'
    } else if d == 4 {
        '4'
    } else if d == 5 {
        '5'
    } else if d == 6 {
        '6'
    } else if d == 7 {
        '7'
    } else if d == 8 {
        '8'
    } else {
        '9'
    }
}

fn digit_char(d: usize) -> (c: char)
    requires
        d < 10,
    ensures
        c == digit_char_spec(d as nat),
{
    if d == 0 {
        '0'
    } else if d == 1 {
        '1'
    } else if d == 2 {
        '2'
    } else if d == 3 {
        '3'
    } else if d == 4 {
        '4'
    } else if d == 5 {
        '5'
    } else if d == 6 {
        '6'
    } else if d == 7 {
        '7'
    } else if d == 8 {
        '8'
    } else {
        '9'
    }
}

/// The decimal notation of `n`, without sign or leading zeros, as `Display`
/// writes an unsigned integer.
pub open spec fn decimal_chars(n: nat) -> Seq<char>
    decreases n,
{
    if n < 10 {
        seq![digit_char_spec(n)]
    } else {
        decimal_chars(n / 10).push(digit_char_spec(n % 10))
    }
}

fn push_decimal(out: &mut String, n: usize)
    ensures
        final(out)@ == old(out)@ + decimal_chars(n as nat),
    decreases n,
{
    if n >= 10 {
        push_decimal(out, n / 10);
    }
    out.push(digit_char(n % 10));
    assert(final(out)@ =~= old(out)@ + decimal_chars(n as nat));
}

/// The decimal notation of `n`.
pub fn decimal_string(n: usize) -> (r: String)
    ensures
        r@ == decimal_chars(n as nat),
{
    let mut r = String::new();
    push_decimal(&mut r, n);
    assert(r@ =~= decimal_chars(n as nat));
    r
}

/// Whether `c` is one of the ASCII digits `0` to `9`.
pub open spec fn is_digit_spec(c: char) -> bool {
    48 <= (c as u32) <= 57
}

/// The value of the ASCII digit `c`.
pub open spec fn digit_value(c: char) -> int {
    (c as u32) - 48
}

/// Whether every character of `s` is an ASCII digit.
pub open spec fn all_digits(s: Seq<char>) -> bool {
    forall|i: int| 0 <= i < s.len() ==> is_digit_spec(#[trigger] s[i])
}

/// The value of a string of decimal digits.
pub open spec fn digits_value(s: Seq<char>) -> int
    decreases s.len(),
{
    if s.len() == 0 {
        0
    } else {
        10 * digits_value(s.drop_last()) + digit_value(s.last())
    }
}

/// The integer that `s` writes in decimal: an optional `+` or `-` followed by
/// at least one ASCII digit, and nothing else; `None` for any other text.
pub open spec fn int_from_chars(s: Seq<char>) -> Option<int> {
    if s.len() == 0 {
        None
    } else {
        let signed = s[0] == '-' || s[0] == '+';
        let body = if signed {
            s.drop_first()
        } else {
            s
        };
        if body.len() == 0 || !all_digits(body) {
            None
        } else if s[0] == '-' {
            Some(-digits_value(body))
        } else {
            Some(digits_value(body))
        }
    }
}

/// What `str::parse::<i32>` gives for `s`: the integer it writes, where it
/// writes one that fits in 32 bits.
pub open spec fn parse_i32_chars(s: Seq<char>) -> Option<i32> {
    match int_from_chars(s) {
        Some(v) => if i32::MIN <= v <= i32::MAX {
            Some(v as i32)
        } else {
            None
        },
        None => None,
    }
}

proof fn lemma_digits_value_nonneg(s: Seq<char>)
    requires
        all_digits(s),
    ensures
        digits_value(s) >= 0,
    decreases s.len(),
{
    if s.len() > 0 {
        assert(is_digit_spec(s[s.len() - 1]));
        lemma_digits_value_nonneg(s.drop_last());
    }
}

/// The value at which the digit accumulator of `parse_i32` saturates: above
/// every magnitude that fits in an `i32`.
const DIGITS_CAP: u64 = 2147483649;

/// Parses `s` as a decimal `i32`, as `str::parse::<i32>` does.
pub fn parse_i32(s: &str) -> (r: Option<i32>)
    ensures
        r == parse_i32_chars(s@),
{
    let v = chars_of(s);
    let n = v.len();
    if n == 0 {
        return None;
    }
    let negative = v[0] == '-';
    let start: usize = if v[0] == '-' || v[0] == '+' {
        1
    } else {
        0
    };
    if start == n {
        return None;
    }
    let ghost body = s@.subrange(start as int, n as int);
    assert(start == 1 ==> body =~= s@.drop_first());
    assert(start == 0 ==> body =~= s@);
    let mut acc: u64 = 0;
    let mut j: usize = start;
    while j < n
        invariant
            n == v@.len(),
            v@ == s@,
            start <= j <= n,
            body == s@.subrange(start as int, n as int),
            n > 0,
            (s@[0] == '-' || s@[0] == '+') == (start == 1),
            negative == (s@[0] == '-'),
            body == (if start == 1 {
                s@.drop_first()
            } else {
                s@
            }),
            all_digits(s@.subrange(start as int, j as int)),
            acc <= DIGITS_CAP,
            digits_value(s@.subrange(start as int, j as int)) >= 0,
            acc == (if digits_value(s@.subrange(start as int, j as int)) < DIGITS_CAP {
                digits_value(s@.subrange(start as int, j as int))
            } else {
                DIGITS_CAP as int
            }),
        decreases n - j,
    {
        let cu = v[j] as u32;
        let ghost prefix = s@.subrange(start as int, j as int);
        let ghost next = s@.subrange(start as int, j + 1);
        assert(next.drop_last() =~= prefix);
        if !(48 <= cu && cu <= 57) {
            assert(body[j - start] == s@[j as int]);
            assert(!is_digit_spec(body[j - start]));
            assert(!all_digits(body));
            return None;
        }
        let d = (cu - 48) as u64;
        let grown = acc * 10 + d;
        acc = if grown >= DIGITS_CAP {
            DIGITS_CAP
        } else {
            grown
        };
        assert forall|k: int| 0 <= k < next.len() implies is_digit_spec(#[trigger] next[k]) by {
            if k < prefix.len() {
                assert(next[k] == prefix[k]);
            }
        }
        j = j + 1;
    }
    proof {
        lemma_digits_value_nonneg(body);
    }
    if negative {
        if acc <= 2147483648 {
            Some((0 - (acc as i64)) as i32)
        } else {
            None
        }
    } else {
        if acc <= 2147483647 {
            Some(acc as i32)
        } else {
            None
        }
    }
}

/// What trimming keeps: the characters `a` to `b` of `s`, where everything
/// before `a` and from `b` on is white space, and a non-empty result starts
/// and ends with a character that is not.
pub proof fn lemma_trim_keeps_middle(s: Seq<char>)
    ensures
        exists|a: int, b: int|
            {
                &&& 0 <= a <= b <= s.len()
                &&& trim_chars(s) == s.subrange(a, b)
                &&& forall|i: int| 0 <= i < a ==> is_white_space_spec(#[trigger] s[i])
                &&& forall|i: int| b <= i < s.len() ==> is_white_space_spec(#[trigger] s[i])
                &&& a < b ==> !is_white_space_spec(s[a]) && !is_white_space_spec(s[b - 1])
            },
{
    let t = trim_start_chars(s);
    lemma_trim_start_shape(s);
    lemma_trim_end_shape(t);
    let a = s.len() - t.len();
    let b = a + trim_end_chars(t).len();
    assert(trim_chars(s) =~= s.subrange(a, b));
    assert forall|i: int| b <= i < s.len() implies is_white_space_spec(#[trigger] s[i]) by {
        assert(s[i] == t[i - a]);
    }
    if a < b {
        assert(s[a] == t[0]);
        assert(s[b - 1] == trim_end_chars(t).last());
    }
}

/// A text has no word exactly when it holds nothing but white space.
pub proof fn lemma_no_words_iff_blank(s: Seq<char>)
    ensures
        (word_count_chars(s) == 0) == (forall|i: int|
            0 <= i < s.len() ==> is_white_space_spec(#[trigger] s[i])),
    decreases s.len(),
{
    if s.len() > 0 {
        let d = s.drop_last();
        lemma_no_words_iff_blank(d);
        if !is_white_space_spec(s.last()) {
            if word_count_chars(d) == 0 {
                if s.len() > 1 {
                    assert(is_white_space_spec(d[s.len() - 2]));
                }
            }
        } else {
            assert forall|i: int| 0 <= i < d.len() implies (is_white_space_spec(#[trigger] s[i])
                == is_white_space_spec(d[i])) by {}
        }
        if forall|i: int| 0 <= i < s.len() ==> is_white_space_spec(#[trigger] s[i]) {
            assert(is_white_space_spec(s[s.len() - 1]));
        }
        if exists|i: int| 0 <= i < d.len() && !is_white_space_spec(#[trigger] d[i]) {
            let k = choose|i: int| 0 <= i < d.len() && !is_white_space_spec(#[trigger] d[i]);
            assert(s[k] == d[k]);
        }
    }
}

/// Words on both sides of a white-space character are counted apart: the
/// words of `a`, a space, then `b` are those of `a` and those of `b`.
pub proof fn lemma_word_count_join(a: Seq<char>, c: char, b: Seq<char>)
    requires
        is_white_space_spec(c),
    ensures
        word_count_chars(a.push(c) + b) == word_count_chars(a) + word_count_chars(b),
    decreases b.len(),
{
    let j = a.push(c) + b;
    if b.len() == 0 {
        assert(j =~= a.push(c));
        assert(a.push(c).drop_last() =~= a);
    } else {
        lemma_word_count_join(a, c, b.drop_last());
        assert(j.drop_last() =~= a.push(c) + b.drop_last());
        assert(j.last() == b.last());
        assert(j[j.len() - 2] == (if b.len() == 1 {
            c
        } else {
            b[b.len() - 2]
        }));
    }
}

proof fn lemma_digit_char(d: nat)
    requires
        d < 10,
    ensures
        is_digit_spec(digit_char_spec(d)),
        digit_value(digit_char_spec(d)) == d,
{
}

proof fn lemma_decimal_digits(n: nat)
    ensures
        decimal_chars(n).len() > 0,
        all_digits(decimal_chars(n)),
        digits_value(decimal_chars(n)) == n,
    decreases n,
{
    if n < 10 {
        lemma_digit_char(n);
        let d = decimal_chars(n);
        assert(d.drop_last() =~= Seq::<char>::empty());
        assert(digits_value(d.drop_last()) == 0);
    } else {
        lemma_decimal_digits(n / 10);
        lemma_digit_char(n % 10);
        let d = decimal_chars(n);
        assert(d.drop_last() =~= decimal_chars(n / 10));
        assert(d.last() == digit_char_spec(n % 10));
        assert(digits_value(d) == 10 * digits_value(d.drop_last()) + digit_value(d.last()));
        assert(n == 10 * (n / 10) + n % 10);
        assert forall|i: int| 0 <= i < d.len() implies is_digit_spec(#[trigger] d[i]) by {
            if i < d.len() - 1 {
                assert(d[i] == decimal_chars(n / 10)[i]);
            }
        }
    }
}

/// Reading back a number written in decimal gives the number, with a sign in
/// front too, as long as it fits in an `i32`; a larger one reads as nothing.
pub proof fn lemma_parse_reads_decimal(n: nat)
    ensures
        n <= i32::MAX ==> parse_i32_chars(decimal_chars(n)) == Some(n as i32),
        n <= i32::MAX ==> parse_i32_chars(seq!['+'] + decimal_chars(n)) == Some(n as i32),
        n <= 2147483648 ==> parse_i32_chars(seq!['-'] + decimal_chars(n)) == Some((-n) as i32),
        n > i32::MAX ==> parse_i32_chars(decimal_chars(n)) is None,
{
    lemma_decimal_digits(n);
    let d = decimal_chars(n);
    assert(is_digit_spec(d[0]));
    assert((seq!['+'] + d).drop_first() =~= d);
    assert((seq!['-'] + d).drop_first() =~= d);
}

} // verus!
