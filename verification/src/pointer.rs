//! The pointer coordinates in what the shell's `global.get_pointer()` call
//! prints, such as `(true, '[812, 344, 0]')`.
use vstd::prelude::*;

use crate::text::{chars_of, parse_i32, parse_i32_chars, trim, trim_chars};

verus! {

broadcast use vstd::string::group_string_axioms;

/// The position of the first `c` in `s`.
pub open spec fn char_index(s: Seq<char>, c: char) -> Option<int>
    decreases s.len(),
{
    if s.len() == 0 {
        None
    } else if s[0] == c {
        Some(0)
    } else {
        match char_index(s.drop_first(), c) {
            Some(i) => Some(i + 1),
            None => None,
        }
    }
}

/// `r` is the position of the first `c` in `s`, or `None` where `s` holds no `c`.
pub open spec fn is_first_char(s: Seq<char>, c: char, r: Option<int>) -> bool {
    match r {
        Some(i) => 0 <= i < s.len() && s[i] == c && forall|j: int| 0 <= j < i ==> s[j] != c,
        None => forall|j: int| 0 <= j < s.len() ==> s[j] != c,
    }
}

proof fn lemma_char_index(s: Seq<char>, c: char, r: Option<int>)
    requires
        is_first_char(s, c, r),
    ensures
        char_index(s, c) == r,
    decreases s.len(),
{
    if s.len() > 0 && s[0] != c {
        let rest = s.drop_first();
        let r2: Option<int> = match r {
            Some(i) => Some(i - 1),
            None => None,
        };
        if let Some(i) = r {
            assert(i > 0);
            assert(rest[i - 1] == s[i]);
            assert forall|j: int| 0 <= j < i - 1 implies rest[j] != c by {
                assert(rest[j] == s[j + 1]);
            }
        } else {
            assert forall|j: int| 0 <= j < rest.len() implies rest[j] != c by {
                assert(rest[j] == s[j + 1]);
            }
        }
        lemma_char_index(rest, c, r2);
    } else if s.len() > 0 {
        if let Some(i) = r {
            assert(i == 0);
        }
    }
}

/// A position measured from `lo`.
pub open spec fn offset_from(r: Option<usize>, lo: int) -> Option<int> {
    match r {
        Some(i) => Some(i - lo),
        None => None,
    }
}

/// The position of the first `c` among the characters `lo` to `hi` of `v`.
fn find_char_in(v: &Vec<char>, lo: usize, hi: usize, c: char) -> (r: Option<usize>)
    requires
        lo <= hi <= v@.len(),
    ensures
        char_index(v@.subrange(lo as int, hi as int), c) == offset_from(r, lo as int),
        r matches Some(i) ==> lo <= i < hi && v@[i as int] == c,
{
    let ghost s = v@.subrange(lo as int, hi as int);
    let mut i = lo;
    while i < hi
        invariant
            lo <= i <= hi <= v@.len(),
            s == v@.subrange(lo as int, hi as int),
            forall|j: int| 0 <= j < i - lo ==> s[j] != c,
        decreases hi - i,
    {
        if v[i] == c {
            proof {
                assert(s[i - lo] == c);
                lemma_char_index(s, c, Some(i - lo));
            }
            return Some(i);
        }
        i = i + 1;
    }
    proof {
        lemma_char_index(s, c, None);
    }
    None
}

/// The value of one coordinate: the trimmed text as an `i32`, or 100 where it
/// is none.
pub open spec fn coordinate_spec(part: Seq<char>) -> i32 {
    match parse_i32_chars(trim_chars(part)) {
        Some(v) => v,
        None => 100,
    }
}

/// The value of one coordinate.
pub fn coordinate(part: &str) -> (r: i32)
    ensures
        r == coordinate_spec(part@),
        parse_i32_chars(trim_chars(part@)) matches Some(v) ==> r == v,
        parse_i32_chars(trim_chars(part@)) is None ==> r == 100,
{
    proof {
        lemma_coordinate_value(part@);
    }
    match parse_i32(trim(part)) {
        Some(v) => v,
        None => 100,
    }
}

/// A field that reads as an `i32` once trimmed gives that value; 100 stands
/// only for a field that does not.
pub proof fn lemma_coordinate_value(part: Seq<char>)
    ensures
        parse_i32_chars(trim_chars(part)) matches Some(v) ==> coordinate_spec(part) == v,
        parse_i32_chars(trim_chars(part)) is None ==> coordinate_spec(part) == 100,
{
}

/// Whether the first `]` of `out` does not stand before its first `[`; on any
/// other text the coordinates cannot be cut out.
pub open spec fn brackets_in_order(out: Seq<char>) -> bool {
    match (char_index(out, '['), char_index(out, ']')) {
        (Some(a), Some(b)) => a < b,
        _ => true,
    }
}

/// The pointer position that `out` reports: the first two comma-separated
/// fields between the first `[` and the first `]`, each trimmed and read as an
/// `i32` (100 where a field is not one); `(500, 400)` where the brackets or
/// the comma are missing.
pub open spec fn pointer_position_spec(out: Seq<char>) -> (i32, i32) {
    match (char_index(out, '['), char_index(out, ']')) {
        (Some(a), Some(b)) => {
            let coords = out.subrange(a + 1, b);
            match char_index(coords, ',') {
                Some(k) => {
                    let rest = coords.skip(k + 1);
                    let second = match char_index(rest, ',') {
                        Some(m) => rest.take(m),
                        None => rest,
                    };
                    (coordinate_spec(coords.take(k)), coordinate_spec(second))
                },
                None => (500, 400),
            }
        },
        _ => (500, 400),
    }
}

/// The pointer position in the output of the pointer query.
pub fn parse_pointer_position(output: &str) -> (r: (i32, i32))
    requires
        brackets_in_order(output@),
    ensures
        r == pointer_position_spec(output@),
{
    let v = chars_of(output);
    let n = v.len();
    assert(v@.subrange(0, n as int) =~= output@);
    let open = find_char_in(&v, 0, n, '[');
    let close = find_char_in(&v, 0, n, ']');
    match (open, close) {
        (Some(a), Some(b)) => {
            let ghost coords = output@.subrange(a + 1, b as int);
            assert(v@.subrange(a + 1, b as int) =~= coords);
            match find_char_in(&v, a + 1, b, ',') {
                Some(k) => {
                    let ghost rest = coords.skip(k - a);
                    assert(v@.subrange(k + 1, b as int) =~= rest);
                    assert(coords.take(k - a - 1) =~= output@.subrange(a + 1, k as int));
                    let end = match find_char_in(&v, k + 1, b, ',') {
                        Some(m) => {
                            assert(rest.take(m - k - 1) =~= output@.subrange(k + 1, m as int));
                            m
                        },
                        None => b,
                    };
                    let x = coordinate(output.substring_char(a + 1, k));
                    let y = coordinate(output.substring_char(k + 1, end));
                    (x, y)
                },
                None => (500, 400),
            }
        },
        _ => (500, 400),
    }
}

/// Whether `s` holds none of the characters `a`, `b` and `c`.
pub open spec fn free_of(s: Seq<char>, a: char, b: char, c: char) -> bool {
    forall|i: int| 0 <= i < s.len() ==> s[i] != a && s[i] != b && s[i] != c
}

/// The answer's shape, `prefix[x,y` followed by `]` or by `,` and more up to
/// a `]`: the position is the two fields `x` and `y`, each read on its own
/// (a field that reads as an `i32` gives its value, another gives 100),
/// whatever the prefix before the bracket and whatever follows.
pub proof fn lemma_pointer_fields(prefix: Seq<char>, x: Seq<char>, y: Seq<char>, tail: Seq<char>)
    requires
        free_of(prefix, '[', ']', '['),
        free_of(x, '[', ']', ','),
        free_of(y, '[', ']', ','),
        tail.len() > 0,
        tail[0] == ']' || tail[0] == ',',
        exists|k: int| 0 <= k < tail.len() && tail[k] == ']',
    ensures
        ({
            let out = prefix + seq!['['] + x + seq![','] + y + tail;
            &&& brackets_in_order(out)
            &&& pointer_position_spec(out) == (coordinate_spec(x), coordinate_spec(y))
        }),
{
    let out = prefix + seq!['['] + x + seq![','] + y + tail;
    let a = prefix.len() as int;
    let xs = a + 1;
    let comma = xs + x.len();
    let ys = comma + 1;
    let ts = ys + y.len();
    assert(exists|k: int| 0 <= k < tail.len() && tail[k] == ']' && forall|j: int|
        0 <= j < k ==> tail[j] != ']') by {
        let k0 = choose|k: int| 0 <= k < tail.len() && tail[k] == ']';
        lemma_first_at_most(tail, ']', k0);
    }
    let kt = choose|k: int| 0 <= k < tail.len() && tail[k] == ']' && forall|j: int|
        0 <= j < k ==> tail[j] != ']';
    let b = ts + kt;
    assert forall|j: int| 0 <= j < out.len() implies out[j] == (if j < a {
        prefix[j]
    } else if j == a {
        '['
    } else if j < comma {
        x[j - xs]
    } else if j == comma {
        ','
    } else if j < ts {
        y[j - ys]
    } else {
        tail[j - ts]
    }) by {}
    assert(is_first_char(out, '[', Some(a)));
    lemma_char_index(out, '[', Some(a));
    assert(is_first_char(out, ']', Some(b)));
    lemma_char_index(out, ']', Some(b));
    let coords = out.subrange(a + 1, b);
    assert(coords.len() == b - xs);
    assert forall|j: int| 0 <= j < coords.len() implies coords[j] == out[xs + j] by {}
    assert(is_first_char(coords, ',', Some(x.len() as int)));
    lemma_char_index(coords, ',', Some(x.len() as int));
    assert(coords.take(x.len() as int) =~= x);
    let rest = coords.skip(x.len() + 1int);
    if tail[0] == ']' {
        assert(kt == 0);
        assert(rest =~= y);
        assert(is_first_char(rest, ',', None));
        lemma_char_index(rest, ',', None);
    } else {
        assert(is_first_char(rest, ',', Some(y.len() as int)));
        lemma_char_index(rest, ',', Some(y.len() as int));
        assert(rest.take(y.len() as int) =~= y);
    }
}

/// A character that occurs in `s` has a first occurrence.
proof fn lemma_first_at_most(s: Seq<char>, c: char, k: int)
    requires
        0 <= k < s.len(),
        s[k] == c,
    ensures
        exists|m: int| 0 <= m <= k && s[m] == c && forall|j: int| 0 <= j < m ==> s[j] != c,
    decreases k,
{
    if exists|j: int| 0 <= j < k && s[j] == c {
        let j = choose|j: int| 0 <= j < k && s[j] == c;
        lemma_first_at_most(s, c, j);
    } else {
        assert(forall|j: int| 0 <= j < k ==> s[j] != c);
    }
}

} // verus!
