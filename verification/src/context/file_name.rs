//! File names whose production attributes can be read.
use vstd::prelude::*;

verus! {

/// Whether every character of `s` is ASCII.
pub open spec fn ascii_name(s: Seq<char>) -> bool {
    forall|i: int| 0 <= i < s.len() ==> #[trigger] s[i] < '\u{80}'
}

/// Whether position `k` holds the first dot of `s`.
pub open spec fn first_dot_at(s: Seq<char>, k: int) -> bool {
    &&& 0 <= k < s.len()
    &&& s[k] == '.'
    &&& forall|j: int| 0 <= j < k ==> s[j] != '.'
}

/// Whether `c` is a decimal digit.
pub open spec fn is_digit(c: char) -> bool {
    '0' <= c && c <= '9'
}

/// Whether `s[from..from + n]` reads as an unsigned integer: an optional
/// plus sign, then digits only, at least one.
pub open spec fn unsigned_text(s: Seq<char>, from: int, n: int) -> bool {
    &&& n >= 1
    &&& 0 <= from && from + n <= s.len()
    &&& (is_digit(s[from]) || (s[from] == '+' && n >= 2))
    &&& forall|j: int| from < j < from + n ==> is_digit(#[trigger] s[j])
}

/// Whether reading the production attributes of the ASCII file name `s`
/// (`ProductionAttributes::from_str`) stops on a slice past its end: a short
/// name with its first dot at position 8, too short for the year and type
/// that follow it, or a long name with its first dot at position 30 or
/// more, whose year and batch read well, too short for the type after it.
pub open spec fn production_name_breaks(s: Seq<char>) -> bool {
    ||| (s.len() < 13 && first_dot_at(s, 8) && (s.len() <= 10 || (s.len() == 11 && unsigned_text(
        s,
        9,
        2,
    ))))
    ||| (s.len() >= 13 && exists|k: int|
        #![trigger first_dot_at(s, k)]
        k >= 30 && first_dot_at(s, k) && s.len() < k + 4 && unsigned_text(s, 12, 4) && is_digit(
            s[5],
        ))
}

/// Whether the production attributes of the file name `s` can be read: it
/// is ASCII and its reading does not stop on a slice past its end.
pub open spec fn production_name_readable(s: Seq<char>) -> bool {
    ascii_name(s) && !production_name_breaks(s)
}

/// Whether `s[from..from + n]` reads as an unsigned integer.
fn unsigned_text_at(s: &str, from: usize, n: usize) -> (b: bool)
    requires
        from + n <= s@.len(),
        from <= 16,
        n <= 4,
    ensures
        b == unsigned_text(s@, from as int, n as int),
{
    if n == 0 {
        return false;
    }
    let c = s.get_char(from);
    let first = ('0' <= c && c <= '9') || (c == '+' && n >= 2);
    if !first {
        return false;
    }
    let mut j: usize = from + 1;
    while j < from + n
        invariant
            from + n <= s@.len(),
            from <= 16,
            n <= 4,
            from < j <= from + n,
            forall|i: int| from < i < j ==> is_digit(#[trigger] s@[i]),
        decreases from + n - j,
    {
        let d = s.get_char(j);
        if !('0' <= d && d <= '9') {
            return false;
        }
        j = j + 1;
    }
    true
}

/// Whether the production attributes of the file name `name` can be read.
pub fn production_name_ok(name: &str) -> (b: bool)
    ensures
        b == production_name_readable(name@),
{
    let n = name.unicode_len();
    let mut dot: Option<usize> = None;
    let mut i: usize = 0;
    while i < n
        invariant
            n == name@.len(),
            i <= n,
            forall|j: int| 0 <= j < i ==> #[trigger] name@[j] < '\u{80}',
            match dot {
                Some(k) => k < i && first_dot_at(name@, k as int),
                None => forall|j: int| 0 <= j < i ==> name@[j] != '.',
            },
        decreases n - i,
    {
        let c = name.get_char(i);
        if !(c < '\u{80}') {
            assert(!ascii_name(name@));
            return false;
        }
        if dot.is_none() && c == '.' {
            dot = Some(i);
        }
        i = i + 1;
    }
    let s = Ghost(name@);
    let breaks = match dot {
        None => {
            assert forall|k: int| !first_dot_at(s@, k) by {
                if first_dot_at(s@, k) {
                    assert(s@[k] != '.');
                }
            }
            false
        },
        Some(k) => {
            proof {
                assert forall|q: int| first_dot_at(s@, q) implies q == k by {
                    if q < k {
                        assert(s@[q] != '.');
                    } else if q > k {
                        assert(s@[k as int] != '.');
                    }
                }
            }
            if n < 13 {
                k == 8 && (n <= 10 || (n == 11 && unsigned_text_at(name, 9, 2)))
            } else {
                k >= 30 && n - k < 4 && unsigned_text_at(name, 12, 4) && {
                    let c = name.get_char(5);
                    '0' <= c && c <= '9'
                }
            }
        },
    };
    !breaks
}

} // verus!
