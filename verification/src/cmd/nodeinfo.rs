//! The `nodeinfo` command: the host's CPU model arrives as a fixed buffer of C `char`s.
use vstd::prelude::*;
use vstd::utf8::{decode_utf8, valid_utf8};

verus! {

#[verifier::external_type_specification]
#[verifier::external_body]
pub struct ExFromUtf8Error(std::string::FromUtf8Error);

/// A wrapper for `String::from_utf8`, which std documents as succeeding
/// exactly when the bytes are valid UTF-8, the string then holding the
/// characters they encode.
#[verifier::external_body]
fn string_from_utf8(bytes: Vec<u8>) -> (r: Result<String, std::string::FromUtf8Error>)
    ensures
        r is Ok <==> valid_utf8(bytes@),
        r matches Ok(s) ==> s@ == decode_utf8(bytes@),
{
    String::from_utf8(bytes)
}

/// The byte with the same bits as a C `char`.
pub open spec fn c_char_byte(c: i8) -> u8 {
    if c >= 0 {
        c as u8
    } else {
        (c + 256) as u8
    }
}

/// The bytes of a C string held in a fixed buffer: everything before the
/// first NUL, or the whole buffer when there is none.
pub open spec fn c_string_bytes(v: Seq<i8>) -> Seq<u8>
    decreases v.len(),
{
    if v.len() == 0 || v[0] == 0 {
        Seq::empty()
    } else {
        seq![c_char_byte(v[0])] + c_string_bytes(v.drop_first())
    }
}

proof fn lemma_c_string_prefix(v: Seq<i8>, i: int)
    requires
        0 <= i <= v.len(),
        forall|j: int| 0 <= j < i ==> v[j] != 0,
        i == v.len() || v[i] == 0,
    ensures
        c_string_bytes(v) == Seq::new(i as nat, |j: int| c_char_byte(v[j])),
    decreases i,
{
    if i == 0 {
        assert(c_string_bytes(v) =~= Seq::new(0, |j: int| c_char_byte(v[j])));
    } else {
        let t = v.drop_first();
        assert forall|j: int| 0 <= j < i - 1 implies t[j] != 0 by {
            assert(t[j] == v[j + 1]);
        }
        lemma_c_string_prefix(t, i - 1);
        assert(c_string_bytes(v) =~= Seq::new(i as nat, |j: int| c_char_byte(v[j])));
    }
}

/// Reads a C string out of a fixed buffer of `char`s as UTF-8.
pub fn to_utf8_str(value: &[i8]) -> (r: Result<String, std::string::FromUtf8Error>)
    ensures
        r is Ok <==> valid_utf8(c_string_bytes(value@)),
        r matches Ok(s) ==> s@ == decode_utf8(c_string_bytes(value@)),
{
    let n = value.len();
    let mut bytes: Vec<u8> = Vec::new();
    let mut i: usize = 0;
    while i < n && value[i] != 0
        invariant
            n == value@.len(),
            i <= n,
            forall|j: int| 0 <= j < i ==> value@[j] != 0,
            bytes@ == Seq::new(i as nat, |j: int| c_char_byte(value@[j])),
        decreases n - i,
    {
        let c = value[i];
        let b: u8 = if c >= 0 {
            c as u8
        } else {
            ((c as i16) + 256) as u8
        };
        bytes.push(b);
        i = i + 1;
        assert(bytes@ =~= Seq::new(i as nat, |j: int| c_char_byte(value@[j])));
    }
    proof {
        lemma_c_string_prefix(value@, i as int);
    }
    string_from_utf8(bytes)
}

} // verus!
