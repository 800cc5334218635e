//! Names of the generated client: procedure names in snake case, and which
//! procedures carry streams or keep their argument and reply records whole.
use vstd::prelude::*;
use crate::text::{
    ascii_lower, ascii_lower_seq, ascii_upper, push_char, str_eq, to_ascii_lower, to_ascii_upper,
};

verus! {

/// Whether std classes `c` as lowercase (Unicode `Lowercase` property).
pub uninterp spec fn unicode_lowercase(c: char) -> bool;

/// Whether std classes `c` as numeric (Unicode general categories `Nd`, `Nl`, `No`).
pub uninterp spec fn unicode_numeric(c: char) -> bool;

/// Whether std classes `c` as uppercase (Unicode `Uppercase` property).
pub uninterp spec fn unicode_uppercase(c: char) -> bool;

/// Whether `c` is an ASCII character.
pub open spec fn is_ascii(c: char) -> bool {
    0 <= (c as int) < 128
}

/// A wrapper for `char::is_lowercase`; its result is named, not described:
/// the Unicode tables behind it are not restated here, beyond what they say
/// of ASCII, where the `Lowercase` property holds of `a` to `z` alone.
#[verifier::external_body]
fn char_is_lowercase(c: char) -> (r: bool)
    ensures
        r == unicode_lowercase(c),
        is_ascii(c) ==> (r <==> ('a' <= c && c <= 'z')),
{
    c.is_lowercase()
}

/// A wrapper for `char::is_numeric`; its result is named, not described,
/// beyond ASCII, where the numeric categories hold of `0` to `9` alone.
#[verifier::external_body]
fn char_is_numeric(c: char) -> (r: bool)
    ensures
        r == unicode_numeric(c),
        is_ascii(c) ==> (r <==> ('0' <= c && c <= '9')),
{
    c.is_numeric()
}

/// A wrapper for `char::is_uppercase`; its result is named, not described,
/// beyond ASCII, where the `Uppercase` property holds of `A` to `Z` alone.
#[verifier::external_body]
fn char_is_uppercase(c: char) -> (r: bool)
    ensures
        r == unicode_uppercase(c),
        is_ascii(c) ==> (r <==> ('A' <= c && c <= 'Z')),
{
    c.is_uppercase()
}

/// The procedures whose calls open a data stream: uploads and downloads,
/// consoles and channels, screenshots, and the tunnelled migrations, whose
/// migration data travels as a stream on the call's serial.
pub open spec fn stream_proc_names() -> Seq<Seq<char>> {
    seq![
        "DomainMigratePrepareTunnel"@,
        "DomainOpenConsole"@,
        "StorageVolUpload"@,
        "StorageVolDownload"@,
        "DomainScreenshot"@,
        "DomainMigratePrepareTunnel3"@,
        "DomainOpenChannel"@,
        "DomainMigratePrepareTunnel3Params"@,
    ]
}

/// The records that generated methods take and return whole rather than field by field.
pub open spec fn undeconstructing_names() -> Seq<Seq<char>> {
    seq![
        "RemoteDomainGetJobInfoRet"@,
        "RemoteDomainInterfaceStatsRet"@,
        "RemoteDomainMigratePerform3Args"@,
        "RemoteNodeGetInfoRet"@,
    ]
}

/// Whether the procedure `model` (its name without prefix) opens a data stream.
pub fn stream_procs(model: &str) -> (r: bool)
    ensures
        r == stream_proc_names().contains(model@),
{
    let r = str_eq(model, "DomainMigratePrepareTunnel") || str_eq(model, "DomainOpenConsole")
        || str_eq(model, "StorageVolUpload") || str_eq(model, "StorageVolDownload") || str_eq(
        model,
        "DomainScreenshot",
    ) || str_eq(model, "DomainMigratePrepareTunnel3") || str_eq(model, "DomainOpenChannel")
        || str_eq(model, "DomainMigratePrepareTunnel3Params");
    proof {
        let names = stream_proc_names();
        if r {
            assert(names[0] == "DomainMigratePrepareTunnel"@);
            assert(names[1] == "DomainOpenConsole"@);
            assert(names[2] == "StorageVolUpload"@);
            assert(names[3] == "StorageVolDownload"@);
            assert(names[4] == "DomainScreenshot"@);
            assert(names[5] == "DomainMigratePrepareTunnel3"@);
            assert(names[6] == "DomainOpenChannel"@);
            assert(names[7] == "DomainMigratePrepareTunnel3Params"@);
        } else {
            assert forall|i: int| 0 <= i < names.len() implies names[i] != model@ by {}
        }
    }
    r
}

/// The procedures that open a data stream are exactly the volume upload and
/// download, the console and channel, the screenshot and the three
/// tunnelled migration preparations; no other name is one.
pub proof fn lemma_stream_procs_declared(model: Seq<char>)
    ensures
        stream_proc_names().contains(model) <==> (model == "DomainMigratePrepareTunnel"@ || model
            == "DomainOpenConsole"@ || model == "StorageVolUpload"@ || model == "StorageVolDownload"@
            || model == "DomainScreenshot"@ || model == "DomainMigratePrepareTunnel3"@ || model
            == "DomainOpenChannel"@ || model == "DomainMigratePrepareTunnel3Params"@),
{
    let names = stream_proc_names();
    if model == "DomainMigratePrepareTunnel"@ {
        assert(names[0] == model);
    } else if model == "DomainOpenConsole"@ {
        assert(names[1] == model);
    } else if model == "StorageVolUpload"@ {
        assert(names[2] == model);
    } else if model == "StorageVolDownload"@ {
        assert(names[3] == model);
    } else if model == "DomainScreenshot"@ {
        assert(names[4] == model);
    } else if model == "DomainMigratePrepareTunnel3"@ {
        assert(names[5] == model);
    } else if model == "DomainOpenChannel"@ {
        assert(names[6] == model);
    } else if model == "DomainMigratePrepareTunnel3Params"@ {
        assert(names[7] == model);
    }
}

/// The records passed whole are exactly the job info and interface
/// statistics replies, the third migration perform arguments and the node
/// info reply.
pub proof fn lemma_undeconstructing_declared(model: Seq<char>)
    ensures
        undeconstructing_names().contains(model) <==> (model == "RemoteDomainGetJobInfoRet"@ || model
            == "RemoteDomainInterfaceStatsRet"@ || model == "RemoteDomainMigratePerform3Args"@
            || model == "RemoteNodeGetInfoRet"@),
{
    let names = undeconstructing_names();
    if model == "RemoteDomainGetJobInfoRet"@ {
        assert(names[0] == model);
    } else if model == "RemoteDomainInterfaceStatsRet"@ {
        assert(names[1] == model);
    } else if model == "RemoteDomainMigratePerform3Args"@ {
        assert(names[2] == model);
    } else if model == "RemoteNodeGetInfoRet"@ {
        assert(names[3] == model);
    }
}

/// Whether the record `model` is passed whole by the generated methods.
pub fn undeconstructing(model: &str) -> (r: bool)
    ensures
        r == undeconstructing_names().contains(model@),
{
    let r = str_eq(model, "RemoteDomainGetJobInfoRet") || str_eq(
        model,
        "RemoteDomainInterfaceStatsRet",
    ) || str_eq(model, "RemoteDomainMigratePerform3Args") || str_eq(model, "RemoteNodeGetInfoRet");
    proof {
        let names = undeconstructing_names();
        if r {
            assert(names[0] == "RemoteDomainGetJobInfoRet"@);
            assert(names[1] == "RemoteDomainInterfaceStatsRet"@);
            assert(names[2] == "RemoteDomainMigratePerform3Args"@);
            assert(names[3] == "RemoteNodeGetInfoRet"@);
        } else {
            assert forall|i: int| 0 <= i < names.len() implies names[i] != model@ by {}
        }
    }
    r
}

/// `s` with its first character in ASCII uppercase and the rest in ASCII lowercase.
pub open spec fn capitalized(s: Seq<char>) -> Seq<char> {
    Seq::new(s.len(), |i: int| if i == 0 { ascii_upper(s[i]) } else { ascii_lower(s[i]) })
}

/// The first character in ASCII uppercase, the rest in ASCII lowercase.
pub fn capitalize(value: &str) -> (r: String)
    ensures
        r@ == capitalized(value@),
{
    let n = value.unicode_len();
    let mut out = String::new();
    let mut i: usize = 0;
    while i < n
        invariant
            n == value@.len(),
            i <= n,
            out@ == capitalized(value@).subrange(0, i as int),
        decreases n - i,
    {
        let c = value.get_char(i);
        if i == 0 {
            push_char(&mut out, to_ascii_upper(c));
        } else {
            push_char(&mut out, to_ascii_lower(c));
        }
        i = i + 1;
        assert(out@ =~= capitalized(value@).subrange(0, i as int));
    }
    assert(capitalized(value@).subrange(0, n as int) =~= capitalized(value@));
    out
}

/// An underscore, then `value` in ASCII lowercase.
pub fn with_underscore(value: &str) -> (r: String)
    ensures
        r@ == seq!['_'] + ascii_lower_seq(value@),
{
    let n = value.unicode_len();
    let mut out = String::new();
    push_char(&mut out, '_');
    let mut i: usize = 0;
    while i < n
        invariant
            n == value@.len(),
            i <= n,
            out@ == seq!['_'] + ascii_lower_seq(value@).subrange(0, i as int),
        decreases n - i,
    {
        let c = value.get_char(i);
        push_char(&mut out, to_ascii_lower(c));
        i = i + 1;
        assert(out@ =~= seq!['_'] + ascii_lower_seq(value@).subrange(0, i as int));
    }
    assert(ascii_lower_seq(value@).subrange(0, n as int) =~= ascii_lower_seq(value@));
    out
}

/// Whether a character closes a word piece: a lowercase letter or a numeric character.
pub open spec fn ends_piece(c: char) -> bool {
    unicode_lowercase(c) || unicode_numeric(c)
}

/// Whether position `i` starts a piece, `closes[k]` telling whether the
/// character at `k` closes one (pieces are split after each such character).
pub open spec fn starts_piece(closes: Seq<bool>, i: int) -> bool {
    i == 0 || closes[i - 1]
}

/// Whether position `i` is a piece of one character.
pub open spec fn single_piece(closes: Seq<bool>, i: int) -> bool {
    starts_piece(closes, i) && (closes[i] || i + 1 == closes.len())
}

/// `s` with every piece of two or more characters capitalized, so that a run
/// of capitals such as `ID` becomes `Id`; `closes` marks where pieces end.
pub open spec fn pieces_capitalized(s: Seq<char>, closes: Seq<bool>) -> Seq<char> {
    Seq::new(
        s.len(),
        |i: int|
            if single_piece(closes, i) {
                s[i]
            } else if starts_piece(closes, i) {
                ascii_upper(s[i])
            } else {
                ascii_lower(s[i])
            },
    )
}

/// What position `i` of a capitalized name contributes to the snake case
/// name: the character in ASCII lowercase, after an underscore when it is an
/// uppercase character (`upper[i]`) past the start.
pub open spec fn snake_piece(cap: Seq<char>, upper: Seq<bool>, i: int) -> Seq<char> {
    if i > 0 && upper[i] {
        seq!['_', ascii_lower(cap[i])]
    } else {
        seq![ascii_lower(cap[i])]
    }
}

/// The contributions of the first `n` positions of `cap`.
pub open spec fn words_joined(cap: Seq<char>, upper: Seq<bool>, n: int) -> Seq<char>
    decreases n,
{
    if n <= 0 {
        Seq::empty()
    } else {
        words_joined(cap, upper, n - 1) + snake_piece(cap, upper, n - 1)
    }
}

/// Which characters of `s` close a piece.
pub open spec fn piece_ends(s: Seq<char>) -> Seq<bool> {
    Seq::new(s.len(), |i: int| ends_piece(s[i]))
}

/// Which characters of `s` are uppercase.
pub open spec fn uppercase_marks(s: Seq<char>) -> Seq<bool> {
    Seq::new(s.len(), |i: int| unicode_uppercase(s[i]))
}

/// The snake case form of a CamelCase name.
pub open spec fn snake_cased(s: Seq<char>) -> Seq<char> {
    let cap = pieces_capitalized(s, piece_ends(s));
    words_joined(cap, uppercase_marks(cap), cap.len() as int)
}

/// Capitalizes the pieces of `value` of two or more characters, `closes[i]`
/// telling whether character `i` closes a piece.
pub fn capitalize_pieces(value: &str, closes: &Vec<bool>) -> (r: String)
    requires
        closes@.len() == value@.len(),
    ensures
        r@ == pieces_capitalized(value@, closes@),
{
    let n = value.unicode_len();
    let mut out = String::new();
    let mut i: usize = 0;
    while i < n
        invariant
            n == value@.len(),
            closes@.len() == n,
            i <= n,
            out@ == pieces_capitalized(value@, closes@).subrange(0, i as int),
        decreases n - i,
    {
        let c = value.get_char(i);
        let start = i == 0 || closes[i - 1];
        let d = if start && (closes[i] || i + 1 == n) {
            c
        } else if start {
            to_ascii_upper(c)
        } else {
            to_ascii_lower(c)
        };
        push_char(&mut out, d);
        i = i + 1;
        assert(out@ =~= pieces_capitalized(value@, closes@).subrange(0, i as int));
    }
    assert(pieces_capitalized(value@, closes@).subrange(0, n as int) =~= pieces_capitalized(
        value@,
        closes@,
    ));
    out
}

/// Lowercases a capitalized name and puts an underscore before each
/// uppercase character past the first, `upper[i]` telling whether character
/// `i` is uppercase.
pub fn join_words(cap: &str, upper: &Vec<bool>) -> (r: String)
    requires
        upper@.len() == cap@.len(),
    ensures
        r@ == words_joined(cap@, upper@, cap@.len() as int),
{
    let n = cap.unicode_len();
    let mut out = String::new();
    let mut i: usize = 0;
    while i < n
        invariant
            n == cap@.len(),
            upper@.len() == n,
            i <= n,
            out@ == words_joined(cap@, upper@, i as int),
        decreases n - i,
    {
        let c = cap.get_char(i);
        if i > 0 && upper[i] {
            push_char(&mut out, '_');
        }
        push_char(&mut out, to_ascii_lower(c));
        i = i + 1;
        assert(out@ =~= words_joined(cap@, upper@, i as int));
    }
    out
}

/// Whether `c` is an ASCII letter, an ASCII digit or `_`.
pub open spec fn name_char(c: char) -> bool {
    ('a' <= c && c <= 'z') || ('A' <= c && c <= 'Z') || ('0' <= c && c <= '9') || c == '_'
}

/// Whether `c` is an ASCII lowercase letter, an ASCII digit or `_`.
pub open spec fn snake_char(c: char) -> bool {
    ('a' <= c && c <= 'z') || ('0' <= c && c <= '9') || c == '_'
}

/// What the std classes are on ASCII characters.
spec fn ascii_classes(c: char) -> bool {
    &&& (unicode_lowercase(c) <==> ('a' <= c && c <= 'z'))
    &&& (unicode_numeric(c) <==> ('0' <= c && c <= '9'))
    &&& (unicode_uppercase(c) <==> ('A' <= c && c <= 'Z'))
}

/// Asks std for its classes of every ASCII character.
fn learn_ascii_classes()
    ensures
        forall|c: char| is_ascii(c) ==> #[trigger] ascii_classes(c),
{
    let mut b: u8 = 0;
    while b < 128
        invariant
            b <= 128,
            forall|c: char| 0 <= (c as int) < b ==> #[trigger] ascii_classes(c),
        decreases 128 - b,
    {
        let c = b as char;
        char_is_lowercase(c);
        char_is_numeric(c);
        char_is_uppercase(c);
        assert forall|d: char| 0 <= (d as int) < b + 1 implies #[trigger] ascii_classes(d) by {
            if (d as int) == b as int {
                assert(d == c);
            }
        }
        b = b + 1;
    }
}

/// The characters that `words_joined` gives for a name of ASCII letters,
/// digits and `_` are ASCII lowercase letters, digits and `_`.
proof fn lemma_joined_snake_chars(cap: Seq<char>, upper: Seq<bool>, n: int)
    requires
        0 <= n <= cap.len(),
        forall|i: int| 0 <= i < cap.len() ==> name_char(#[trigger] cap[i]),
    ensures
        forall|i: int| 0 <= i < words_joined(cap, upper, n).len() ==> snake_char(
            #[trigger] words_joined(cap, upper, n)[i],
        ),
    decreases n,
{
    if n > 0 {
        lemma_joined_snake_chars(cap, upper, n - 1);
        let prev = words_joined(cap, upper, n - 1);
        let piece = snake_piece(cap, upper, n - 1);
        assert(name_char(cap[n - 1]));
        assert forall|i: int| 0 <= i < words_joined(cap, upper, n).len() implies snake_char(
            #[trigger] words_joined(cap, upper, n)[i],
        ) by {
            if i < prev.len() {
                assert(words_joined(cap, upper, n)[i] == prev[i]);
            } else {
                assert(words_joined(cap, upper, n)[i] == piece[i - prev.len()]);
            }
        }
    }
}

/// Joining words of ASCII lowercase letters, digits and `_` with no
/// uppercase marks changes nothing.
proof fn lemma_joined_identity(t: Seq<char>, upper: Seq<bool>, n: int)
    requires
        0 <= n <= t.len(),
        upper.len() == t.len(),
        forall|i: int| 0 <= i < t.len() ==> !upper[i],
        forall|i: int| 0 <= i < t.len() ==> snake_char(#[trigger] t[i]),
    ensures
        words_joined(t, upper, n) == t.subrange(0, n),
    decreases n,
{
    if n > 0 {
        lemma_joined_identity(t, upper, n - 1);
        assert(snake_char(t[n - 1]));
        assert(t.subrange(0, n) =~= t.subrange(0, n - 1) + seq![t[n - 1]]);
    } else {
        assert(t.subrange(0, 0) =~= Seq::<char>::empty());
    }
}

/// The snake case form of a snake case name of ASCII lowercase letters,
/// digits and `_` is the name itself, given std's classes of ASCII.
proof fn lemma_snake_cased_fixed(t: Seq<char>)
    requires
        forall|i: int| 0 <= i < t.len() ==> snake_char(#[trigger] t[i]),
        forall|c: char| is_ascii(c) ==> #[trigger] ascii_classes(c),
    ensures
        snake_cased(t) == t,
{
    let ends = piece_ends(t);
    let cap = pieces_capitalized(t, ends);
    assert forall|i: int| 0 <= i < t.len() implies cap[i] == t[i] by {
        let c = t[i];
        assert(snake_char(c));
        assert(ascii_classes(c));
        assert(ends[i] == ends_piece(c));
        if i > 0 {
            assert(snake_char(t[i - 1]));
            assert(ascii_classes(t[i - 1]));
            assert(ends[i - 1] == ends_piece(t[i - 1]));
        }
    }
    assert(cap =~= t);
    let upper = uppercase_marks(cap);
    assert forall|i: int| 0 <= i < t.len() implies !upper[i] by {
        assert(snake_char(t[i]));
        assert(ascii_classes(t[i]));
    }
    lemma_joined_identity(t, upper, t.len() as int);
    assert(t.subrange(0, t.len() as int) =~= t);
}

/// Whether every character of `s` is ASCII.
pub open spec fn ascii_name(s: Seq<char>) -> bool {
    forall|i: int| 0 <= i < s.len() ==> is_ascii(#[trigger] s[i])
}

/// Which characters of an ASCII name close a piece: the lowercase letters
/// and the digits.
pub open spec fn ascii_piece_ends(s: Seq<char>) -> Seq<bool> {
    Seq::new(s.len(), |i: int| ('a' <= s[i] && s[i] <= 'z') || ('0' <= s[i] && s[i] <= '9'))
}

/// Which characters of an ASCII name are uppercase: `A` to `Z`.
pub open spec fn ascii_uppercase_marks(s: Seq<char>) -> Seq<bool> {
    Seq::new(s.len(), |i: int| 'A' <= s[i] && s[i] <= 'Z')
}

/// The snake case form of an ASCII CamelCase name, with std's classes on
/// ASCII written out.
pub open spec fn ascii_snake_cased(s: Seq<char>) -> Seq<char> {
    let cap = pieces_capitalized(s, ascii_piece_ends(s));
    words_joined(cap, ascii_uppercase_marks(cap), cap.len() as int)
}

/// `words_joined` over `n` positions depends on those positions alone.
proof fn lemma_words_joined_prefix(
    cap: Seq<char>,
    upper: Seq<bool>,
    cap2: Seq<char>,
    upper2: Seq<bool>,
    n: int,
)
    requires
        0 <= n,
        forall|i: int| 0 <= i < n ==> cap[i] == cap2[i] && upper[i] == upper2[i],
    ensures
        words_joined(cap, upper, n) == words_joined(cap2, upper2, n),
    decreases n,
{
    if n > 0 {
        lemma_words_joined_prefix(cap, upper, cap2, upper2, n - 1);
    }
}

/// Joining the words of two capitalized parts: the first part, then the
/// second, with an underscore between them when the second starts with an
/// uppercase character.
proof fn lemma_words_joined_concat(
    cp: Seq<char>,
    up: Seq<bool>,
    cq: Seq<char>,
    uq: Seq<bool>,
    k: int,
)
    requires
        cp.len() > 0,
        up.len() == cp.len(),
        uq.len() == cq.len(),
        1 <= k <= cq.len(),
    ensures
        words_joined(cp + cq, up + uq, cp.len() + k) == words_joined(cp, up, cp.len() as int) + (if uq[0] {
            seq!['_']
        } else {
            Seq::<char>::empty()
        }) + words_joined(cq, uq, k),
    decreases k,
{
    let c = cp + cq;
    let u = up + uq;
    let n = cp.len() as int;
    if k == 1 {
        lemma_words_joined_prefix(c, u, cp, up, n);
        assert(c[n] == cq[0] && u[n] == uq[0]);
        assert(words_joined(cq, uq, 0) == Seq::<char>::empty());
        assert(snake_piece(cq, uq, 0) == seq![ascii_lower(cq[0])]);
        assert(words_joined(cq, uq, 1) =~= seq![ascii_lower(cq[0])]);
        if uq[0] {
            assert(snake_piece(c, u, n) =~= seq!['_'] + seq![ascii_lower(cq[0])]);
        } else {
            assert(snake_piece(c, u, n) =~= Seq::<char>::empty() + seq![ascii_lower(cq[0])]);
        }
    } else {
        lemma_words_joined_concat(cp, up, cq, uq, k - 1);
        assert(c[n + k - 1] == cq[k - 1] && u[n + k - 1] == uq[k - 1]);
        assert(snake_piece(c, u, n + k - 1) == snake_piece(cq, uq, k - 1));
    }
}

/// A digit closes a word as a lowercase letter does: when an ASCII name
/// `p` ends with a lowercase letter or a digit, the snake case of `p`
/// followed by `q` is that of `p`, an underscore when `q` starts with an
/// uppercase letter, then that of `q`. So `Tunnel3Params` becomes
/// `tunnel3_params`, and `userID` becomes `user_id`.
pub proof fn lemma_ascii_snake_split(p: Seq<char>, q: Seq<char>)
    requires
        p.len() > 0,
        q.len() > 0,
        ('a' <= p.last() && p.last() <= 'z') || ('0' <= p.last() && p.last() <= '9'),
    ensures
        ascii_snake_cased(p + q) == ascii_snake_cased(p) + (if 'A' <= q[0] && q[0] <= 'Z' {
            seq!['_']
        } else {
            Seq::<char>::empty()
        }) + ascii_snake_cased(q),
{
    let s = p + q;
    let n = p.len() as int;
    let e = ascii_piece_ends(s);
    let ep = ascii_piece_ends(p);
    let eq = ascii_piece_ends(q);
    assert(e =~= ep + eq);
    let c = pieces_capitalized(s, e);
    let cp = pieces_capitalized(p, ep);
    let cq = pieces_capitalized(q, eq);
    assert(ep[n - 1]);
    assert forall|i: int| 0 <= i < s.len() implies c[i] == (cp + cq)[i] by {
        if i < n {
            assert(s[i] == p[i]);
            if i > 0 {
                assert(e[i - 1] == ep[i - 1]);
            }
            assert(e[i] == ep[i]);
        } else {
            let j = i - n;
            assert(s[i] == q[j]);
            assert(e[i] == eq[j]);
            if j > 0 {
                assert(e[i - 1] == eq[j - 1]);
            } else {
                assert(e[i - 1] == ep[n - 1]);
            }
        }
    }
    assert(c =~= cp + cq);
    let u = ascii_uppercase_marks(c);
    let up = ascii_uppercase_marks(cp);
    let uq = ascii_uppercase_marks(cq);
    assert(u =~= up + uq);
    lemma_words_joined_concat(cp, up, cq, uq, q.len() as int);
    assert(uq[0] == ('A' <= q[0] && q[0] <= 'Z'));
}

/// ASCII case mapping keeps a character ASCII.
proof fn lemma_ascii_case_stays_ascii(c: char)
    requires
        is_ascii(c),
    ensures
        is_ascii(ascii_upper(c)),
        is_ascii(ascii_lower(c)),
{
}

/// On ASCII names, snake case is its ASCII form, given std's classes of ASCII.
proof fn lemma_snake_cased_ascii(s: Seq<char>)
    requires
        ascii_name(s),
        forall|c: char| is_ascii(c) ==> #[trigger] ascii_classes(c),
    ensures
        snake_cased(s) == ascii_snake_cased(s),
{
    assert forall|i: int| 0 <= i < s.len() implies piece_ends(s)[i] == ascii_piece_ends(s)[i] by {
        assert(is_ascii(s[i]));
        assert(ascii_classes(s[i]));
    }
    assert(piece_ends(s) =~= ascii_piece_ends(s));
    let cap = pieces_capitalized(s, ascii_piece_ends(s));
    assert forall|i: int| 0 <= i < cap.len() implies uppercase_marks(cap)[i] == ascii_uppercase_marks(
        cap,
    )[i] by {
        assert(is_ascii(s[i]));
        lemma_ascii_case_stays_ascii(s[i]);
        assert(is_ascii(cap[i]));
        assert(ascii_classes(cap[i]));
    }
    assert(uppercase_marks(cap) =~= ascii_uppercase_marks(cap));
}

/// Turns a CamelCase procedure name into the snake case method name:
/// `ConnectOpen` becomes `connect_open`, and a run of capitals counts as one
/// word, so `userID` becomes `user_id`. On an ASCII name the result is
/// stated with std's classes of ASCII written out. A name of ASCII letters, digits and
/// `_` becomes one of ASCII lowercase letters, digits and `_`, which snake
/// case leaves as it is: applied twice, it gives what it gave once.
pub fn snake_case(value: &str) -> (r: String)
    ensures
        r@ == snake_cased(value@),
        ascii_name(value@) ==> r@ == ascii_snake_cased(value@),
        (forall|i: int| 0 <= i < value@.len() ==> name_char(#[trigger] value@[i])) ==> {
            &&& forall|i: int| 0 <= i < r@.len() ==> snake_char(#[trigger] r@[i])
            &&& snake_cased(r@) == r@
        },
{
    let n = value.unicode_len();
    let mut closes: Vec<bool> = Vec::new();
    let mut i: usize = 0;
    while i < n
        invariant
            n == value@.len(),
            i <= n,
            closes@ == piece_ends(value@).subrange(0, i as int),
        decreases n - i,
    {
        let c = value.get_char(i);
        closes.push(char_is_lowercase(c) || char_is_numeric(c));
        i = i + 1;
        assert(closes@ =~= piece_ends(value@).subrange(0, i as int));
    }
    assert(closes@ =~= piece_ends(value@));
    let cap = capitalize_pieces(value, &closes);
    let m = cap.unicode_len();
    let mut upper: Vec<bool> = Vec::new();
    let mut j: usize = 0;
    while j < m
        invariant
            m == cap@.len(),
            j <= m,
            upper@ == uppercase_marks(cap@).subrange(0, j as int),
        decreases m - j,
    {
        upper.push(char_is_uppercase(cap.get_char(j)));
        j = j + 1;
        assert(upper@ =~= uppercase_marks(cap@).subrange(0, j as int));
    }
    assert(upper@ =~= uppercase_marks(cap@));
    let r = join_words(cap.as_str(), &upper);
    learn_ascii_classes();
    proof {
        if ascii_name(value@) {
            lemma_snake_cased_ascii(value@);
        }
        if forall|i: int| 0 <= i < value@.len() ==> name_char(#[trigger] value@[i]) {
            assert forall|i: int| 0 <= i < cap@.len() implies name_char(#[trigger] cap@[i]) by {
                assert(name_char(value@[i]));
            }
            lemma_joined_snake_chars(cap@, upper@, cap@.len() as int);
            lemma_snake_cased_fixed(r@);
        }
    }
    r
}

} // verus!
