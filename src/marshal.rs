use vstd::prelude::*;
use vstd::string::*;
use crate::hint::no_nul;
use vstd::utf8::*;

verus! {

/// A string held a null byte, which a null-terminated buffer cannot carry.
#[derive(Clone, Copy, Debug, PartialEq, Eq, Structural)]
pub struct NulError {
    /// Byte offset of the first null.
    pub position: usize,
}

/// Bytes read back from the native side were not valid UTF-8.
#[derive(Clone, Copy, Debug, PartialEq, Eq, Structural)]
pub struct InvalidUtf8;

proof fn lemma_scalar_has_zero(c: char)
    ensures
        encode_scalar(c as u32).contains(0u8) <==> c == '\0',
{
    let u = c as u32;
    let e = encode_scalar(u);
    assert(u <= 0x7F ==> ((u & 0x7F) as u8 == 0u8 <==> u == 0u32)) by (bit_vector);
    assert(forall|x: u8| #[trigger] (0x80u8 | x) != 0u8) by (bit_vector);
    assert(forall|x: u8| #[trigger] (0xC0u8 | x) != 0u8) by (bit_vector);
    assert(forall|x: u8| #[trigger] (0xE0u8 | x) != 0u8) by (bit_vector);
    assert(forall|x: u8| #[trigger] (0xF0u8 | x) != 0u8) by (bit_vector);
    if c == '\0' {
        assert(u == 0u32);
        assert(e[0] == 0u8);
    } else {
        assert(u != 0u32);
        assert(forall|i: int| 0 <= i < e.len() ==> e[i] != 0u8);
    }
}

/// The UTF-8 bytes of a text hold a zero byte exactly where the text holds a
/// null character.
pub proof fn lemma_bytes_have_zero(s: Seq<char>)
    ensures
        encode_utf8(s).contains(0u8) <==> !no_nul(s),
    decreases s.len(),
{
    if s.len() > 0 {
        let head = encode_scalar(s[0] as u32);
        let rest = encode_utf8(s.drop_first());
        lemma_scalar_has_zero(s[0]);
        lemma_bytes_have_zero(s.drop_first());
        assert(encode_utf8(s) == head + rest);
        if (head + rest).contains(0u8) {
            let i = choose|i: int| 0 <= i < (head + rest).len() && (head + rest)[i] == 0u8;
            if i >= head.len() {
                assert(rest[i - head.len()] == 0u8);
            }
        }
        if head.contains(0u8) {
            let i = choose|i: int| 0 <= i < head.len() && head[i] == 0u8;
            assert((head + rest)[i] == 0u8);
        }
        if rest.contains(0u8) {
            let i = choose|i: int| 0 <= i < rest.len() && rest[i] == 0u8;
            assert((head + rest)[head.len() + i] == 0u8);
        }
        if s.contains('\0') {
            let i = choose|i: int| 0 <= i < s.len() && s[i] == '\0';
            if i > 0 {
                assert(s.drop_first()[i - 1] == '\0');
            }
        }
        if s.drop_first().contains('\0') {
            let i = choose|i: int| 0 <= i < s.len() - 1 && s.drop_first()[i] == '\0';
            assert(s[i + 1] == '\0');
        }
    }
}

/// The null-terminated buffer for `s`: its UTF-8 bytes and a trailing zero,
/// or the offset of the first null byte it holds.
pub fn to_c_bytes(s: &str) -> (r: Result<Vec<u8>, NulError>)
    ensures
        match r {
            Ok(v) => no_nul(s@) && v@ == s.spec_bytes().push(0u8),
            Err(e) => {
                &&& !no_nul(s@)
                &&& e.position < s.spec_bytes().len()
                &&& s.spec_bytes()[e.position as int] == 0u8
                &&& forall|j: int| 0 <= j < e.position ==> s.spec_bytes()[j] != 0u8
            },
        },
{
    proof {
        lemma_bytes_have_zero(s@);
        assert(s.spec_bytes() == encode_utf8(s@));
    }
    let bytes = s.as_bytes();
    let mut out: Vec<u8> = Vec::new();
    let mut i: usize = 0;
    while i < bytes.len()
        invariant
            bytes@ == s.spec_bytes(),
            s.spec_bytes().contains(0u8) <==> !no_nul(s@),
            i <= bytes.len(),
            out@ == bytes@.subrange(0, i as int),
            forall|j: int| 0 <= j < i ==> bytes@[j] != 0u8,
        decreases bytes.len() - i,
    {
        let b = bytes[i];
        if b == 0 {
            assert(bytes@[i as int] == 0u8);
            assert(s.spec_bytes().contains(0u8));
            return Err(NulError { position: i });
        }
        out.push(b);
        i = i + 1;
    }
    out.push(0);
    assert(out@ =~= s.spec_bytes().push(0u8));
    assert(!s.spec_bytes().contains(0u8));
    Ok(out)
}

/// Relies on `std::str::from_utf8`: it accepts exactly the valid UTF-8 byte
/// sequences, and the string it gives is made of those same bytes.
#[verifier::external_body]
fn utf8_to_string(b: &[u8]) -> (r: Option<String>)
    ensures
        r is Some <==> valid_utf8(b@),
        r matches Some(s) ==> encode_utf8(s@) == b@,
{
    match std::str::from_utf8(b) {
        Ok(s) => Some(s.to_owned()),
        Err(_) => None,
    }
}

/// Turns a value read from the native store into an owned string: `None`
/// stays `None` (the hint is unset), and bytes that are not UTF-8 are an
/// error.
pub fn decode_value(raw: &Option<Vec<u8>>) -> (r: Result<Option<String>, InvalidUtf8>)
    ensures
        match raw {
            None => r == Ok::<Option<String>, InvalidUtf8>(None),
            Some(b) => match r {
                Ok(Some(s)) => valid_utf8(b@) && encode_utf8(s@) == b@,
                Ok(None) => false,
                Err(_) => !valid_utf8(b@),
            },
        },
{
    match raw {
        None => Ok(None),
        Some(b) => match utf8_to_string(b.as_slice()) {
            Some(s) => Ok(Some(s)),
            None => Err(InvalidUtf8),
        },
    }
}

} // verus!
