//! Reading numbers given on the command line, as Rust's `FromStr` for the
//! integer types reads them: an optional sign, then decimal digits.
use vstd::prelude::*;

verus! {

/// Whether `c` is an ASCII decimal digit.
pub open spec fn is_digit(c: char) -> bool {
    '0' <= c && c <= '9'
}

/// The value of a run of decimal digits.
pub open spec fn digits_value(d: Seq<char>) -> nat
    decreases d.len(),
{
    if d.len() == 0 {
        0
    } else {
        digits_value(d.drop_last()) * 10 + ((d.last() as u32) - 48) as nat
    }
}

/// The value of a nonempty run of decimal digits; `None` for anything else.
pub open spec fn digits_literal(d: Seq<char>) -> Option<nat> {
    if d.len() > 0 && forall|i: int| 0 <= i < d.len() ==> #[trigger] is_digit(d[i]) {
        Some(digits_value(d))
    } else {
        None
    }
}

/// The integer that `s` spells: an optional `+` (or `-` when `signed`), then
/// at least one decimal digit; `None` when `s` is not of that form.
pub open spec fn int_literal(s: Seq<char>, signed: bool) -> Option<int> {
    if s.len() == 0 {
        None
    } else if (s[0] == '+' || s[0] == '-') && s.len() == 1 {
        None
    } else if s[0] == '+' {
        match digits_literal(s.drop_first()) {
            Some(v) => Some(v as int),
            None => None,
        }
    } else if s[0] == '-' && signed {
        match digits_literal(s.drop_first()) {
            Some(v) => Some(-(v as int)),
            None => None,
        }
    } else {
        match digits_literal(s) {
            Some(v) => Some(v as int),
            None => None,
        }
    }
}

/// What `str::parse::<u32>` gives for `s`.
pub open spec fn u32_literal(s: Seq<char>) -> Option<u32> {
    match int_literal(s, false) {
        Some(v) => if 0 <= v <= u32::MAX {
            Some(v as u32)
        } else {
            None
        },
        None => None,
    }
}

/// What `str::parse::<i32>` gives for `s`.
pub open spec fn i32_literal(s: Seq<char>) -> Option<i32> {
    match int_literal(s, true) {
        Some(v) => if i32::MIN <= v <= i32::MAX {
            Some(v as i32)
        } else {
            None
        },
        None => None,
    }
}

proof fn lemma_digits_value_step(d: Seq<char>, i: int)
    requires
        0 <= i < d.len(),
    ensures
        digits_value(d.subrange(0, i + 1)) == digits_value(d.subrange(0, i)) * 10 + ((d[i] as u32)
            - 48) as nat,
{
    assert(d.subrange(0, i + 1).drop_last() =~= d.subrange(0, i));
}

proof fn lemma_digits_value_grows(d: Seq<char>, i: int)
    requires
        0 <= i <= d.len(),
        forall|k: int| 0 <= k < d.len() ==> #[trigger] is_digit(d[k]),
    ensures
        digits_value(d.subrange(0, i)) <= digits_value(d),
    decreases d.len() - i,
{
    if i < d.len() {
        lemma_digits_value_step(d, i);
        lemma_digits_value_grows(d, i + 1);
    } else {
        assert(d.subrange(0, i) =~= d);
    }
}

/// The value of the digits of `s` from `start` on, when they are all digits,
/// there is at least one, and the value is at most `limit`.
fn parse_digits(s: &str, start: usize, limit: u64) -> (r: Option<u64>)
    requires
        start <= s@.len(),
        limit >= 9,
    ensures
        ({
            let d = s@.subrange(start as int, s@.len() as int);
            match digits_literal(d) {
                Some(v) => if v <= limit {
                    r == Some(v as u64)
                } else {
                    r is None
                },
                None => r is None,
            }
        }),
{
    let n = s.unicode_len();
    let ghost d = s@.subrange(start as int, s@.len() as int);
    if start == n {
        return None;
    }
    let mut acc: u64 = 0;
    let mut over = false;
    let mut i: usize = start;
    while i < n
        invariant
            n == s@.len(),
            start < n,
            start <= i <= n,
            limit >= 9,
            d == s@.subrange(start as int, n as int),
            forall|k: int| start <= k < i ==> #[trigger] is_digit(s@[k]),
            !over ==> acc == digits_value(d.subrange(0, i - start)) && acc <= limit,
            over ==> digits_value(d.subrange(0, i - start)) > limit,
        decreases n - i,
    {
        let c = s.get_char(i);
        if !('0' <= c && c <= '9') {
            proof {
                assert(d[i - start] == c);
                assert(!is_digit(d[i - start]));
            }
            return None;
        }
        let v = ((c as u32) - 48) as u64;
        proof {
            lemma_digits_value_step(d, i - start);
            assert(d[i - start] == c);
        }
        if !over {
            if acc > (limit - v) / 10 {
                over = true;
                assert(acc * 10 + v > limit) by (nonlinear_arith)
                    requires
                        acc > (limit - v) / 10,
                        v <= limit,
                ;
            } else {
                assert(acc * 10 + v <= limit) by (nonlinear_arith)
                    requires
                        acc <= (limit - v) / 10,
                        v <= limit,
                ;
                acc = acc * 10 + v;
            }
        } else {
            assert(digits_value(d.subrange(0, i - start)) * 10 + v >= digits_value(
                d.subrange(0, i - start),
            )) by (nonlinear_arith);
        }
        i = i + 1;
    }
    proof {
        assert(d.subrange(0, n - start) =~= d);
        assert forall|k: int| 0 <= k < d.len() implies #[trigger] is_digit(d[k]) by {
            assert(d[k] == s@[start + k]);
        }
    }
    if over {
        None
    } else {
        Some(acc)
    }
}

/// A number type that can be read from a command line argument.
pub trait ArgValue: Sized {
    /// What the argument `s` reads as; `None` when it is no such number.
    spec fn arg_value(s: Seq<char>) -> Option<Self>;

    fn parse_arg(s: &str) -> (r: Option<Self>)
        ensures
            r == Self::arg_value(s@),
    ;
}

impl ArgValue for u32 {
    open spec fn arg_value(s: Seq<char>) -> Option<u32> {
        u32_literal(s)
    }

    fn parse_arg(s: &str) -> (r: Option<u32>) {
        let n = s.unicode_len();
        if n == 0 {
            return None;
        }
        let c = s.get_char(0);
        if (c == '+' || c == '-') && n == 1 {
            return None;
        }
        let start: usize = if c == '+' {
            1
        } else {
            0
        };
        proof {
            assert(s@.subrange(1, n as int) =~= s@.drop_first());
            assert(s@.subrange(0, n as int) =~= s@);
        }
        match parse_digits(s, start, 0xffff_ffff) {
            Some(v) => Some(v as u32),
            None => None,
        }
    }
}

impl ArgValue for i32 {
    open spec fn arg_value(s: Seq<char>) -> Option<i32> {
        i32_literal(s)
    }

    fn parse_arg(s: &str) -> (r: Option<i32>) {
        let n = s.unicode_len();
        if n == 0 {
            return None;
        }
        let c = s.get_char(0);
        if (c == '+' || c == '-') && n == 1 {
            return None;
        }
        proof {
            assert(s@.subrange(1, n as int) =~= s@.drop_first());
            assert(s@.subrange(0, n as int) =~= s@);
        }
        if c == '-' {
            match parse_digits(s, 1, 0x8000_0000) {
                Some(v) => Some((0 - (v as i64)) as i32),
                None => None,
            }
        } else {
            let start: usize = if c == '+' {
                1
            } else {
                0
            };
            match parse_digits(s, start, 0x7fff_ffff) {
                Some(v) => Some(v as i32),
                None => None,
            }
        }
    }
}

} // verus!
