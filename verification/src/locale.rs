//! Choosing the language of messages.
use vstd::prelude::*;
use crate::text::str_eq;

verus! {

/// Whether some requested language is available.
pub open spec fn any_match(requested: Seq<Seq<char>>, available: Seq<Seq<char>>) -> bool {
    exists|i: int, j: int|
        0 <= i < requested.len() && 0 <= j < available.len() && requested[i] == available[j]
}

/// The available language to use: the first one that equals the first
/// requested language that is available at all; `None` when none is.
pub fn select_locale(requested: &Vec<String>, available: &Vec<String>) -> (r: Option<usize>)
    ensures
        r is None <==> !any_match(requested@.map_values(|s: String| s@), available@.map_values(|s: String| s@)),
        r matches Some(j) ==> j < available@.len() && exists|i: int|
            0 <= i < requested@.len() && requested@[i]@ == available@[j as int]@ && (forall|i2: int, j2: int|
                0 <= i2 < i && 0 <= j2 < available@.len() ==> requested@[i2]@ != available@[j2]@)
                && (forall|j2: int| 0 <= j2 < j ==> requested@[i]@ != available@[j2]@),
{
    let ghost req = requested@.map_values(|s: String| s@);
    let ghost avail = available@.map_values(|s: String| s@);
    let nr = requested.len();
    let na = available.len();
    let mut i: usize = 0;
    while i < nr
        invariant
            nr == requested@.len(),
            na == available@.len(),
            req == requested@.map_values(|s: String| s@),
            avail == available@.map_values(|s: String| s@),
            i <= nr,
            forall|i2: int, j2: int|
                0 <= i2 < i && 0 <= j2 < na ==> requested@[i2]@ != available@[j2]@,
        decreases nr - i,
    {
        let mut j: usize = 0;
        while j < na
            invariant
                nr == requested@.len(),
                na == available@.len(),
                req == requested@.map_values(|s: String| s@),
                avail == available@.map_values(|s: String| s@),
                i < nr,
                j <= na,
                forall|i2: int, j2: int|
                    0 <= i2 < i && 0 <= j2 < na ==> requested@[i2]@ != available@[j2]@,
                forall|j2: int| 0 <= j2 < j ==> requested@[i as int]@ != available@[j2]@,
            decreases na - j,
        {
            if str_eq(requested[i].as_str(), available[j].as_str()) {
                proof {
                    assert(req[i as int] == avail[j as int]);
                }
                return Some(j);
            }
            j = j + 1;
        }
        i = i + 1;
    }
    proof {
        assert forall|a: int, b: int| 0 <= a < req.len() && 0 <= b < avail.len() implies req[a] != avail[b] by {
            assert(req[a] == requested@[a]@);
            assert(avail[b] == available@[b]@);
        }
    }
    None
}

/// Whether `k` is where the language part of `s` ends: at the first `.`, or
/// at the end when there is none.
pub open spec fn language_end(s: Seq<char>, k: int) -> bool {
    &&& 0 <= k <= s.len()
    &&& (k == s.len() || s[k] == '.')
    &&& forall|j: int| 0 <= j < k ==> s[j] != '.'
}

/// The language part of a `LANG` value: everything before the first `.`.
pub fn lang_tag(lang: &str) -> (r: String)
    ensures
        exists|k: int| #[trigger] language_end(lang@, k) && r@ == lang@.subrange(0, k),
{
    let n = lang.unicode_len();
    let mut k: usize = 0;
    while k < n
        invariant
            n == lang@.len(),
            k <= n,
            forall|j: int| 0 <= j < k ==> lang@[j] != '.',
        ensures
            k <= n,
            k == n || lang@[k as int] == '.',
            forall|j: int| 0 <= j < k ==> lang@[j] != '.',
        decreases n - k,
    {
        if lang.get_char(k) == '.' {
            break;
        }
        k = k + 1;
    }
    let r = String::from_str(lang.substring_char(0, k));
    assert(language_end(lang@, k as int));
    r
}

} // verus!
