//! The `cpu-stats` command: its arguments, how many CPUs to show, and the
//! lines it prints.
use vstd::prelude::*;
use crate::args::ArgValue;
use crate::text::{
    decimal, pad_left, pad_right, push_char, push_decimal, push_decimal_right, push_str, push_str_left,
};
use crate::wire::{i32_bits, i32_to_bits};

verus! {

/// Checks that an argument reads as a number of type `T`; the argument
/// itself is the error.
pub fn check_type<T: ArgValue>(value: &str) -> (r: Result<(), String>)
    ensures
        T::arg_value(value@) is Some ==> r is Ok,
        T::arg_value(value@) is None ==> (r matches Err(e) && e@ == value@),
{
    match T::parse_arg(value) {
        Some(_) => Ok(()),
        None => Err(String::from_str(value)),
    }
}

/// Whether an explicitly given first CPU lies past the last one.
pub fn start_out_of_range(start_given: bool, start: i32, max_cpu_num: i32) -> (r: bool)
    ensures
        r == (start_given && max_cpu_num <= start),
{
    start_given && max_cpu_num <= start
}

/// How many CPUs to show: the count asked for, or, when none was asked for
/// (a negative count) or it exceeds the CPUs there are, those from `start`
/// to the last, the difference taken as 32 unsigned bits.
pub fn cpu_count(start: i32, count: i32, max_cpu_num: i32) -> (r: u32)
    requires
        (count < 0 || max_cpu_num < count) ==> i32::MIN <= max_cpu_num - start <= i32::MAX,
    ensures
        r == if count < 0 || max_cpu_num < count {
            i32_bits((max_cpu_num - start) as i32)
        } else {
            count as u32
        },
{
    if count < 0 || max_cpu_num < count {
        i32_to_bits(max_cpu_num - start)
    } else {
        count as u32
    }
}

/// A statistic in nanoseconds as printed: a tab, the name left-aligned in 12
/// columns, the seconds right-aligned in 9, a point, the nanoseconds
/// zero-padded to 9, and the word `seconds`.
pub open spec fn stat_text(field: Seq<char>, value: u64) -> Seq<char> {
    seq!['\t'] + pad_right(field, 12) + pad_left(decimal((value / 1_000_000_000) as nat), 9, ' ')
        + seq!['.'] + pad_left(decimal((value % 1_000_000_000) as nat), 9, '0') + " seconds"@
}

/// Formats one CPU time statistic.
pub fn stat_line(field: &str, value: u64) -> (r: String)
    ensures
        r@ == stat_text(field@, value),
{
    let s = value / 1_000_000_000;
    let n = value % 1_000_000_000;
    let mut out = String::new();
    push_char(&mut out, '\t');
    push_str_left(&mut out, field, 12);
    push_decimal_right(&mut out, s, 9, ' ');
    push_char(&mut out, '.');
    push_decimal_right(&mut out, n, 9, '0');
    push_str(&mut out, " seconds");
    assert(out@ =~= stat_text(field@, value));
    out
}

/// The lines of `n` statistics of `params` from `start` on, each a
/// statistic line and a newline.
pub open spec fn stat_lines_text(params: Seq<(String, u64)>, start: int, n: nat) -> Seq<char>
    decreases n,
{
    if n == 0 {
        Seq::empty()
    } else {
        stat_lines_text(params, start, (n - 1) as nat) + stat_text(
            params[start + n - 1].0@,
            params[start + n - 1].1,
        ) + seq!['\n']
    }
}

/// The header line of the block of CPU `ncpu`: `CPU`, the number, a colon.
pub open spec fn cpu_header_text(ncpu: nat) -> Seq<char> {
    seq!['C', 'P', 'U'] + decimal(ncpu) + seq![':', '\n']
}

/// The blocks of the first `count` CPUs: for CPU `k`, its header line, then
/// the lines of the `nparams` statistics of `params` from index `k` on (the
/// statistics of CPU `k` are read from there).
pub open spec fn cpu_blocks_text(params: Seq<(String, u64)>, count: nat, nparams: nat) -> Seq<char>
    decreases count,
{
    if count == 0 {
        Seq::empty()
    } else {
        let k = (count - 1) as nat;
        cpu_blocks_text(params, k, nparams) + cpu_header_text(k) + stat_lines_text(
            params,
            k as int,
            nparams,
        )
    }
}

/// Formats `n` statistics of `params` from `start` on, one per line.
pub fn stat_lines(params: &Vec<(String, u64)>, start: usize, n: usize) -> (r: String)
    requires
        start + n <= params@.len(),
    ensures
        r@ == stat_lines_text(params@, start as int, n as nat),
{
    let len = params.len();
    let mut out = String::new();
    let mut i: usize = 0;
    while i < n
        invariant
            len == params@.len(),
            start + n <= len,
            i <= n,
            out@ == stat_lines_text(params@, start as int, i as nat),
        decreases n - i,
    {
        let line = stat_line(params[start + i].0.as_str(), params[start + i].1);
        push_str(&mut out, line.as_str());
        push_char(&mut out, '\n');
        i = i + 1;
        assert(out@ =~= stat_lines_text(params@, start as int, i as nat));
    }
    out
}

/// Formats the blocks of the first `count` CPUs, with `nparams` statistics
/// each, CPU `k`'s read from index `k` of `params` on.
pub fn cpu_blocks(params: &Vec<(String, u64)>, count: u32, nparams: u32) -> (r: String)
    requires
        count == 0 || count - 1 + nparams <= params@.len(),
    ensures
        r@ == cpu_blocks_text(params@, count as nat, nparams as nat),
{
    let mut out = String::new();
    let mut k: u32 = 0;
    while k < count
        invariant
            k <= count,
            count == 0 || count - 1 + nparams <= params@.len(),
            out@ == cpu_blocks_text(params@, k as nat, nparams as nat),
        decreases count - k,
    {
        push_char(&mut out, 'C');
        push_char(&mut out, 'P');
        push_char(&mut out, 'U');
        push_decimal(&mut out, k as u64);
        push_char(&mut out, ':');
        push_char(&mut out, '\n');
        let lines = stat_lines(params, k as usize, nparams as usize);
        push_str(&mut out, lines.as_str());
        k = k + 1;
        assert(out@ =~= cpu_blocks_text(params@, k as nat, nparams as nat));
    }
    out
}

} // verus!
