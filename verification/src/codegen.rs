//! What the client generator decides from the names in the protocol
//! definitions: which procedures become call methods and with which argument
//! and reply records, which records are event messages and in what order they
//! come, and the shape of each generated method.
use vstd::prelude::*;
use crate::naming::{undeconstructing, undeconstructing_names};
use crate::text::{push_str, str_eq};

verus! {

/// Whether `a` comes before `b` in the order of strings: character by
/// character by code point, a proper prefix first. On UTF-8 this is the byte
/// order in which `String` compares.
pub open spec fn lex_lt(a: Seq<char>, b: Seq<char>) -> bool
    decreases a.len(),
{
    if b.len() == 0 {
        false
    } else if a.len() == 0 {
        true
    } else if a[0] != b[0] {
        (a[0] as int) < (b[0] as int)
    } else {
        lex_lt(a.drop_first(), b.drop_first())
    }
}

/// No string comes before itself.
pub proof fn lemma_lex_irreflexive(a: Seq<char>)
    ensures
        !lex_lt(a, a),
    decreases a.len(),
{
    if a.len() > 0 {
        lemma_lex_irreflexive(a.drop_first());
    }
}

/// Of two different strings exactly one comes first.
pub proof fn lemma_lex_total(a: Seq<char>, b: Seq<char>)
    ensures
        a != b ==> (lex_lt(a, b) || lex_lt(b, a)),
        !(lex_lt(a, b) && lex_lt(b, a)),
    decreases a.len(),
{
    if a.len() > 0 && b.len() > 0 && a[0] == b[0] {
        lemma_lex_total(a.drop_first(), b.drop_first());
        if a.drop_first() == b.drop_first() {
            assert forall|i: int| 0 <= i < a.len() implies a[i] == b[i] by {
                if i > 0 {
                    assert(a[i] == a.drop_first()[i - 1]);
                    assert(b[i] == b.drop_first()[i - 1]);
                }
            }
            assert(a =~= b);
        }
    } else if a.len() == 0 && b.len() == 0 {
        assert(a =~= b);
    }
}

/// The order of strings is transitive.
pub proof fn lemma_lex_trans(a: Seq<char>, b: Seq<char>, c: Seq<char>)
    requires
        lex_lt(a, b),
        lex_lt(b, c),
    ensures
        lex_lt(a, c),
    decreases a.len(),
{
    if a.len() > 0 && b.len() > 0 && c.len() > 0 && a[0] == b[0] && b[0] == c[0] {
        lemma_lex_trans(a.drop_first(), b.drop_first(), c.drop_first());
    }
}

/// After a common prefix of `i` characters, the order is that of the rests.
proof fn lemma_lex_skip(a: Seq<char>, b: Seq<char>, i: int)
    requires
        0 <= i <= a.len(),
        i <= b.len(),
        a.subrange(0, i) == b.subrange(0, i),
    ensures
        lex_lt(a, b) == lex_lt(a.subrange(i, a.len() as int), b.subrange(i, b.len() as int)),
    decreases i,
{
    if i > 0 {
        assert(a[0] == a.subrange(0, i)[0]);
        assert(b[0] == b.subrange(0, i)[0]);
        let a1 = a.drop_first();
        let b1 = b.drop_first();
        assert(a1.subrange(0, i - 1) =~= a.subrange(1, i));
        assert(b1.subrange(0, i - 1) =~= b.subrange(1, i));
        assert(a.subrange(1, i) =~= a.subrange(0, i).drop_first());
        assert(b.subrange(1, i) =~= b.subrange(0, i).drop_first());
        lemma_lex_skip(a1, b1, i - 1);
        assert(a1.subrange(i - 1, a1.len() as int) =~= a.subrange(i, a.len() as int));
        assert(b1.subrange(i - 1, b1.len() as int) =~= b.subrange(i, b.len() as int));
    } else {
        assert(a.subrange(0, a.len() as int) =~= a);
        assert(b.subrange(0, b.len() as int) =~= b);
    }
}

/// Whether `a` comes before `b` in the order of strings.
pub fn str_lt(a: &str, b: &str) -> (r: bool)
    ensures
        r == lex_lt(a@, b@),
{
    let n = a.unicode_len();
    let m = b.unicode_len();
    let mut i: usize = 0;
    while i < n && i < m && a.get_char(i) == b.get_char(i)
        invariant
            n == a@.len(),
            m == b@.len(),
            i <= n,
            i <= m,
            a@.subrange(0, i as int) == b@.subrange(0, i as int),
        decreases n - i,
    {
        assert(a@.subrange(0, i + 1) =~= a@.subrange(0, i as int).push(a@[i as int]));
        assert(b@.subrange(0, i + 1) =~= b@.subrange(0, i as int).push(b@[i as int]));
        i = i + 1;
    }
    proof {
        lemma_lex_skip(a@, b@, i as int);
    }
    let ghost ra = a@.subrange(i as int, n as int);
    let ghost rb = b@.subrange(i as int, m as int);
    if i == m {
        assert(rb.len() == 0);
        false
    } else if i == n {
        assert(ra.len() == 0 && rb.len() > 0);
        true
    } else {
        let x = a.get_char(i);
        let y = b.get_char(i);
        assert(ra[0] == x && rb[0] == y);
        (x as u32) < (y as u32)
    }
}

/// `s` without its prefix `p`, when it starts with `p`.
pub open spec fn without_prefix(s: Seq<char>, p: Seq<char>) -> Option<Seq<char>> {
    if p.len() <= s.len() && s.subrange(0, p.len() as int) == p {
        Some(s.subrange(p.len() as int, s.len() as int))
    } else {
        None
    }
}

/// Whether `s` ends with `p`.
pub open spec fn has_suffix(s: Seq<char>, p: Seq<char>) -> bool {
    p.len() <= s.len() && s.subrange(s.len() - p.len(), s.len() as int) == p
}

/// The characters of each string.
pub open spec fn names_of(v: Seq<String>) -> Seq<Seq<char>> {
    v.map_values(|s: String| s@)
}

/// `s` without its prefix `p`, when it starts with `p`.
pub fn strip_prefix(s: &str, p: &str) -> (r: Option<String>)
    ensures
        match without_prefix(s@, p@) {
            Some(t) => r matches Some(x) && x@ == t,
            None => r is None,
        },
{
    let n = s.unicode_len();
    let k = p.unicode_len();
    if k > n {
        return None;
    }
    let head = s.substring_char(0, k);
    if !str_eq(head, p) {
        return None;
    }
    Some(String::from_str(s.substring_char(k, n)))
}

/// Whether `s` ends with `p`.
pub fn ends_with(s: &str, p: &str) -> (r: bool)
    ensures
        r == has_suffix(s@, p@),
{
    let n = s.unicode_len();
    let k = p.unicode_len();
    if k > n {
        return false;
    }
    str_eq(s.substring_char(n - k, n), p)
}

/// Whether one of `names` is `name`.
pub fn contains_name(names: &Vec<String>, name: &str) -> (r: bool)
    ensures
        r == names_of(names@).contains(name@),
{
    let n = names.len();
    let mut i: usize = 0;
    while i < n
        invariant
            n == names@.len(),
            i <= n,
            forall|j: int| 0 <= j < i ==> names@[j]@ != name@,
        decreases n - i,
    {
        if str_eq(names[i].as_str(), name) {
            assert(names_of(names@)[i as int] == name@);
            return true;
        }
        i = i + 1;
    }
    proof {
        if names_of(names@).contains(name@) {
            let j = choose|j: int| 0 <= j < names_of(names@).len() && names_of(names@)[j] == name@;
            assert(names@[j]@ == name@);
        }
    }
    false
}

/// The record called `name` among `models`, if there is one.
pub open spec fn find_model(models: Seq<Seq<char>>, name: Seq<char>) -> Option<Seq<char>> {
    if models.contains(name) {
        Some(name)
    } else {
        None
    }
}

/// The call method of procedure `method` of program `prefix`: its name, and
/// its argument and reply records (`{prefix}{method}Args`, `{prefix}{method}Ret`)
/// where the definitions hold them.
pub open spec fn call_entry(prefix: Seq<char>, method: Seq<char>, models: Seq<Seq<char>>) -> (
    Seq<char>,
    Option<Seq<char>>,
    Option<Seq<char>>,
) {
    (
        method,
        find_model(models, prefix + method + "Args"@),
        find_model(models, prefix + method + "Ret"@),
    )
}

/// The call methods of the procedure variants of program `prefix`, in the
/// order of the variants: one for each variant named `{prefix}Proc...`.
pub open spec fn call_entries(prefix: Seq<char>, variants: Seq<Seq<char>>, models: Seq<Seq<char>>) -> Seq<
    (Seq<char>, Option<Seq<char>>, Option<Seq<char>>),
>
    decreases variants.len(),
{
    if variants.len() == 0 {
        Seq::empty()
    } else {
        let rest = call_entries(prefix, variants.drop_last(), models);
        match without_prefix(variants.last(), prefix + "Proc"@) {
            Some(m) => rest.push(call_entry(prefix, m, models)),
            None => rest,
        }
    }
}

/// An optional string by its characters.
pub open spec fn opt_view(o: Option<String>) -> Option<Seq<char>> {
    match o {
        Some(s) => Some(s@),
        None => None,
    }
}

/// A call method entry by its characters.
pub open spec fn call_view(e: (String, Option<String>, Option<String>)) -> (
    Seq<char>,
    Option<Seq<char>>,
    Option<Seq<char>>,
) {
    (e.0@, opt_view(e.1), opt_view(e.2))
}

/// `prefix` followed by `a` and `b`.
fn joined3(prefix: &str, a: &str, b: &str) -> (r: String)
    ensures
        r@ == prefix@ + a@ + b@,
{
    let mut s = String::from_str(prefix);
    push_str(&mut s, a);
    push_str(&mut s, b);
    s
}

/// The record called `name` among `models`, if there is one.
fn find_model_in(models: &Vec<String>, name: String) -> (r: Option<String>)
    ensures
        opt_view(r) == find_model(names_of(models@), name@),
{
    if contains_name(models, name.as_str()) {
        Some(name)
    } else {
        None
    }
}

/// The call methods of the procedures of program `prefix` (`Remote`, `Qemu`
/// or `Lxc`), from the names of the procedure variants and of the records.
pub fn call_methods(prefix: &str, variants: &Vec<String>, models: &Vec<String>) -> (r: Vec<
    (String, Option<String>, Option<String>),
>)
    ensures
        r@.map_values(|e: (String, Option<String>, Option<String>)| call_view(e)) == call_entries(
            prefix@,
            names_of(variants@),
            names_of(models@),
        ),
{
    let ghost vs = names_of(variants@);
    let ghost ms = names_of(models@);
    let mut proc_prefix = String::from_str(prefix);
    push_str(&mut proc_prefix, "Proc");
    let n = variants.len();
    let mut out: Vec<(String, Option<String>, Option<String>)> = Vec::new();
    let mut i: usize = 0;
    while i < n
        invariant
            n == variants@.len(),
            vs == names_of(variants@),
            ms == names_of(models@),
            proc_prefix@ == prefix@ + "Proc"@,
            i <= n,
            out@.map_values(|e: (String, Option<String>, Option<String>)| call_view(e))
                == call_entries(prefix@, vs.subrange(0, i as int), ms),
        decreases n - i,
    {
        let ghost before = out@;
        assert(vs.subrange(0, i + 1).drop_last() =~= vs.subrange(0, i as int));
        assert(vs.subrange(0, i + 1).last() == variants@[i as int]@);
        match strip_prefix(variants[i].as_str(), proc_prefix.as_str()) {
            Some(method) => {
                let args = find_model_in(models, joined3(prefix, method.as_str(), "Args"));
                let ret = find_model_in(models, joined3(prefix, method.as_str(), "Ret"));
                let e = (method, args, ret);
                let ghost ev = call_view(e);
                out.push(e);
                assert(out@.map_values(|e: (String, Option<String>, Option<String>)| call_view(e))
                    =~= before.map_values(
                    |e: (String, Option<String>, Option<String>)| call_view(e),
                ).push(ev));
            },
            None => {},
        }
        i = i + 1;
        assert(out@.map_values(|e: (String, Option<String>, Option<String>)| call_view(e))
            =~= call_entries(prefix@, vs.subrange(0, i as int), ms));
    }
    assert(vs.subrange(0, n as int) =~= vs);
    out
}

/// Whether record `m` is an event message of program `prefix`: its name
/// starts with the prefix and ends with `Msg`.
pub open spec fn is_msg_model(prefix: Seq<char>, m: Seq<char>) -> bool {
    without_prefix(m, prefix) is Some && has_suffix(m, "Msg"@)
}

/// Whether the entries are in strictly increasing order of their record names.
pub open spec fn names_sorted(v: Seq<(String, String)>) -> bool {
    forall|i: int, j: int| 0 <= i < j < v.len() ==> lex_lt(#[trigger] v[i].1@, #[trigger] v[j].1@)
}

/// Puts `e` into the entries at the place its record name sorts to.
fn insert_by_name(v: &mut Vec<(String, String)>, e: (String, String))
    requires
        names_sorted(old(v)@),
        forall|i: int| 0 <= i < old(v)@.len() ==> old(v)@[i].1@ != e.1@,
    ensures
        names_sorted(final(v)@),
        exists|k: int| 0 <= k <= old(v)@.len() && final(v)@ == old(v)@.insert(k, e),
{
    let n = v.len();
    let mut k: usize = 0;
    while k < n && str_lt(v[k].1.as_str(), e.1.as_str())
        invariant
            n == v@.len(),
            v@ == old(v)@,
            k <= n,
            forall|i: int| 0 <= i < k ==> lex_lt(#[trigger] v@[i].1@, e.1@),
        decreases n - k,
    {
        k = k + 1;
    }
    let ghost old_v = v@;
    proof {
        if k < n {
            lemma_lex_total(old_v[k as int].1@, e.1@);
        }
    }
    let ghost ev = e;
    v.insert(k, e);
    proof {
        let nv = v@;
        assert(nv == old_v.insert(k as int, ev));
        assert forall|i: int, j: int| 0 <= i < j < nv.len() implies lex_lt(
            #[trigger] nv[i].1@,
            #[trigger] nv[j].1@,
        ) by {
            if j < k {
                assert(nv[i] == old_v[i] && nv[j] == old_v[j]);
            } else if j == k {
                assert(nv[i] == old_v[i]);
            } else if i < k {
                assert(nv[i] == old_v[i] && nv[j] == old_v[j - 1]);
            } else if i == k {
                assert(nv[j] == old_v[j - 1]);
                if j - 1 > k {
                    assert(lex_lt(old_v[k as int].1@, old_v[j - 1].1@));
                    lemma_lex_trans(ev.1@, old_v[k as int].1@, old_v[j - 1].1@);
                }
            } else {
                assert(nv[i] == old_v[i - 1] && nv[j] == old_v[j - 1]);
            }
        }
    }
}

/// Every entry names one of the first `j` records.
spec fn drawn_from(out: Seq<(String, String)>, models: Seq<String>, j: int) -> bool {
    forall|i: int|
        0 <= i < out.len() ==> exists|j2: int| 0 <= j2 < j && #[trigger] out[i].1@ == models[j2]@
}

/// Every entry is an event message with its short name.
spec fn entries_ok(out: Seq<(String, String)>, prefix: Seq<char>) -> bool {
    forall|i: int|
        0 <= i < out.len() ==> is_msg_model(prefix, #[trigger] out[i].1@) && without_prefix(
            out[i].1@,
            prefix,
        ) == Some(out[i].0@)
}

/// Every event message among the first `j` records has an entry.
spec fn covers(out: Seq<(String, String)>, models: Seq<String>, prefix: Seq<char>, j: int) -> bool {
    forall|j2: int|
        0 <= j2 < j && is_msg_model(prefix, #[trigger] models[j2]@) ==> exists|i: int|
            0 <= i < out.len() && out[i].1@ == models[j2]@
}

/// Record `j` is no entry yet, since the records are distinct.
proof fn lemma_fresh(out: Seq<(String, String)>, models: Seq<String>, j: int)
    requires
        0 <= j < models.len(),
        names_of(models).no_duplicates(),
        drawn_from(out, models, j),
    ensures
        forall|i: int| 0 <= i < out.len() ==> out[i].1@ != models[j]@,
{
    let ms = names_of(models);
    assert forall|i: int| 0 <= i < out.len() implies out[i].1@ != models[j]@ by {
        let j2 = choose|j2: int| 0 <= j2 < j && #[trigger] out[i].1@ == models[j2]@;
        assert(ms[j2] == models[j2]@ && ms[j] == models[j]@);
    }
}

/// After inserting the entry of record `j`, every entry names one of the
/// first `j + 1` records.
proof fn lemma_insert_drawn(
    before: Seq<(String, String)>,
    out: Seq<(String, String)>,
    k: int,
    e: (String, String),
    models: Seq<String>,
    j: int,
)
    requires
        0 <= j < models.len(),
        0 <= k <= before.len(),
        out == before.insert(k, e),
        e.1@ == models[j]@,
        drawn_from(before, models, j),
    ensures
        drawn_from(out, models, j + 1),
{
    assert forall|i: int| 0 <= i < out.len() implies exists|j2: int|
        0 <= j2 < j + 1 && #[trigger] out[i].1@ == models[j2]@ by {
        if i < k {
            assert(out[i] == before[i]);
            let j2 = choose|j2: int| 0 <= j2 < j && #[trigger] before[i].1@ == models[j2]@;
            assert(out[i].1@ == models[j2]@);
        } else if i == k {
            assert(out[i].1@ == models[j]@);
        } else {
            assert(out[i] == before[i - 1]);
            let j2 = choose|j2: int| 0 <= j2 < j && #[trigger] before[i - 1].1@ == models[j2]@;
            assert(out[i].1@ == models[j2]@);
        }
    }
}

/// Inserting a well-formed entry keeps every entry well-formed.
proof fn lemma_insert_ok(
    before: Seq<(String, String)>,
    out: Seq<(String, String)>,
    k: int,
    e: (String, String),
    prefix: Seq<char>,
)
    requires
        0 <= k <= before.len(),
        out == before.insert(k, e),
        is_msg_model(prefix, e.1@),
        without_prefix(e.1@, prefix) == Some(e.0@),
        entries_ok(before, prefix),
    ensures
        entries_ok(out, prefix),
{
    assert forall|i: int| 0 <= i < out.len() implies is_msg_model(prefix, #[trigger] out[i].1@)
        && without_prefix(out[i].1@, prefix) == Some(out[i].0@) by {
        if i < k {
            assert(out[i] == before[i]);
        } else if i > k {
            assert(out[i] == before[i - 1]);
        }
    }
}

/// After inserting the entry of record `j`, every event message among the
/// first `j + 1` records has an entry.
proof fn lemma_insert_covers(
    before: Seq<(String, String)>,
    out: Seq<(String, String)>,
    k: int,
    e: (String, String),
    models: Seq<String>,
    prefix: Seq<char>,
    j: int,
)
    requires
        0 <= j < models.len(),
        0 <= k <= before.len(),
        out == before.insert(k, e),
        e.1@ == models[j]@,
        covers(before, models, prefix, j),
    ensures
        covers(out, models, prefix, j + 1),
{
    assert forall|j2: int| 0 <= j2 < j + 1 && is_msg_model(prefix, #[trigger] models[j2]@) implies exists|i: int|
        0 <= i < out.len() && out[i].1@ == models[j2]@ by {
        if j2 < j {
            let i = choose|i: int| 0 <= i < before.len() && before[i].1@ == models[j2]@;
            if i < k {
                assert(out[i] == before[i]);
            } else {
                assert(out[i + 1] == before[i]);
            }
        } else {
            assert(out[k].1@ == models[j2]@);
        }
    }
}

/// Passing over a record that is no event message keeps the bookkeeping for `j + 1`.
proof fn lemma_skip_step(out: Seq<(String, String)>, models: Seq<String>, prefix: Seq<char>, j: int)
    requires
        0 <= j < models.len(),
        !is_msg_model(prefix, models[j]@),
        drawn_from(out, models, j),
        covers(out, models, prefix, j),
    ensures
        drawn_from(out, models, j + 1),
        covers(out, models, prefix, j + 1),
{
    assert forall|i: int| 0 <= i < out.len() implies exists|j2: int|
        0 <= j2 < j + 1 && #[trigger] out[i].1@ == models[j2]@ by {
        let j2 = choose|j2: int| 0 <= j2 < j && #[trigger] out[i].1@ == models[j2]@;
    }
}

/// The event message records of program `prefix`, each as the name without
/// the prefix and the record name, in the order of the record names. The
/// record names are distinct, as the keys of a map are.
pub fn msg_methods(prefix: &str, models: &Vec<String>) -> (r: Vec<(String, String)>)
    requires
        names_of(models@).no_duplicates(),
    ensures
        names_sorted(r@),
        forall|i: int|
            0 <= i < r@.len() ==> names_of(models@).contains(#[trigger] r@[i].1@) && is_msg_model(
                prefix@,
                r@[i].1@,
            ) && without_prefix(r@[i].1@, prefix@) == Some(r@[i].0@),
        forall|j: int|
            0 <= j < models@.len() && is_msg_model(prefix@, #[trigger] models@[j]@) ==> exists|i: int|
                0 <= i < r@.len() && r@[i].1@ == models@[j]@,
{
    let n = models.len();
    let mut out: Vec<(String, String)> = Vec::new();
    let mut j: usize = 0;
    while j < n
        invariant
            n == models@.len(),
            names_of(models@).no_duplicates(),
            j <= n,
            names_sorted(out@),
            drawn_from(out@, models@, j as int),
            entries_ok(out@, prefix@),
            covers(out@, models@, prefix@, j as int),
        decreases n - j,
    {
        let name = &models[j];
        let stripped = strip_prefix(name.as_str(), prefix);
        let is_msg = match &stripped {
            Some(_) => ends_with(name.as_str(), "Msg"),
            None => false,
        };
        if is_msg {
            let ghost before = out@;
            let short = match stripped {
                Some(t) => t,
                None => String::new(),
            };
            proof {
                lemma_fresh(before, models@, j as int);
            }
            let e = (short, name.clone());
            insert_by_name(&mut out, e);
            proof {
                let k = choose|k: int| 0 <= k <= before.len() && out@ == before.insert(k, e);
                lemma_insert_drawn(before, out@, k, e, models@, j as int);
                lemma_insert_ok(before, out@, k, e, prefix@);
                lemma_insert_covers(before, out@, k, e, models@, prefix@, j as int);
            }
        } else {
            proof {
                lemma_skip_step(out@, models@, prefix@, j as int);
            }
        }
        j = j + 1;
    }
    proof {
        let ms = names_of(models@);
        assert forall|i: int| 0 <= i < out@.len() implies ms.contains(#[trigger] out@[i].1@) && is_msg_model(
            prefix@,
            out@[i].1@,
        ) && without_prefix(out@[i].1@, prefix@) == Some(out@[i].0@) by {
            let j2 = choose|j2: int| 0 <= j2 < n && #[trigger] out@[i].1@ == models@[j2]@;
            assert(ms[j2] == models@[j2]@);
        }
    }
    out
}

/// How a generated method takes its argument record.
#[derive(Clone, Copy, Debug, PartialEq, Eq, Structural)]
pub enum ArgShape {
    /// The procedure takes no arguments.
    NoArgs,
    /// The record is one parameter.
    Whole,
    /// Each field of the record is a parameter.
    Fields,
}

/// Whether a record is passed whole: always for the wrapped client, else
/// for the records kept whole.
pub open spec fn passed_whole(model: Seq<char>, wrapped: bool) -> bool {
    wrapped || undeconstructing_names().contains(model)
}

/// How the method for a procedure with argument record `model` takes it.
pub fn arg_shape(model: Option<&str>, wrapped: bool) -> (r: ArgShape)
    ensures
        r == match model {
            None => ArgShape::NoArgs,
            Some(m) => if passed_whole(m@, wrapped) {
                ArgShape::Whole
            } else {
                ArgShape::Fields
            },
        },
{
    match model {
        None => ArgShape::NoArgs,
        Some(m) => if wrapped || undeconstructing(m) {
            ArgShape::Whole
        } else {
            ArgShape::Fields
        },
    }
}

/// The type a generated method returns.
#[derive(Clone, Copy, Debug, PartialEq, Eq, Structural)]
pub enum ReplyType {
    /// A stream response carrying the reply record, if any.
    Stream,
    /// Nothing.
    Unit,
    /// The reply record.
    Whole,
    /// A tuple of the record's fields.
    Tuple,
    /// The record's one field.
    Single,
}

/// The return type of the method for a procedure with reply record `model`
/// of `nfields` fields.
pub fn reply_type(model: Option<&str>, wrapped: bool, stream: bool, nfields: usize) -> (r: ReplyType)
    ensures
        r == if stream {
            ReplyType::Stream
        } else {
            match model {
                None => ReplyType::Unit,
                Some(m) => if passed_whole(m@, wrapped) {
                    ReplyType::Whole
                } else if nfields > 1 {
                    ReplyType::Tuple
                } else {
                    ReplyType::Single
                },
            }
        },
{
    if stream {
        return ReplyType::Stream;
    }
    match model {
        None => ReplyType::Unit,
        Some(m) => if wrapped || undeconstructing(m) {
            ReplyType::Whole
        } else if nfields > 1 {
            ReplyType::Tuple
        } else {
            ReplyType::Single
        },
    }
}

/// What a generated method does with the reply.
#[derive(Clone, Copy, Debug, PartialEq, Eq, Structural)]
pub enum ReplyStep {
    /// Returns the reply record.
    Whole,
    /// Returns a stream response holding the reply record.
    StreamWithBody,
    /// Returns a stream response without a record.
    StreamWithoutBody,
    /// Returns the record's fields as a tuple.
    Tuple,
    /// Returns the record's one field.
    Single,
    /// Returns nothing.
    Unit,
}

/// The last step of the method for a procedure with reply record `model` of
/// `nfields` fields: a record passed whole is returned as it is, even for a
/// stream.
pub fn reply_step(model: Option<&str>, wrapped: bool, stream: bool, nfields: usize) -> (r: ReplyStep)
    ensures
        r == match model {
            Some(m) => if passed_whole(m@, wrapped) {
                ReplyStep::Whole
            } else if stream {
                ReplyStep::StreamWithBody
            } else if nfields > 1 {
                ReplyStep::Tuple
            } else {
                ReplyStep::Single
            },
            None => if stream {
                ReplyStep::StreamWithoutBody
            } else {
                ReplyStep::Unit
            },
        },
{
    match model {
        Some(m) => if wrapped || undeconstructing(m) {
            ReplyStep::Whole
        } else if stream {
            ReplyStep::StreamWithBody
        } else if nfields > 1 {
            ReplyStep::Tuple
        } else {
            ReplyStep::Single
        },
        None => if stream {
            ReplyStep::StreamWithoutBody
        } else {
            ReplyStep::Unit
        },
    }
}

} // verus!
