//! Hex strings and witness stacks.
use amplify::hex::FromHex;
use vstd::prelude::*;

verus! {

/// Why a hex string could not be decoded.
#[derive(Clone, Copy, Debug, PartialEq, Eq, Structural)]
pub enum HexDecodeError {
    /// A byte that is not a hexadecimal digit.
    InvalidChar(u8),
    /// The string has an odd number of bytes; carries that number.
    OddLengthString(usize),
    /// A fixed-size value met a string of another length (expected, got).
    InvalidLength(usize, usize),
}

/// A hexadecimal digit, in either case.
pub open spec fn is_hex_char(c: char) -> bool {
    ('0' <= c && c <= '9') || ('a' <= c && c <= 'f') || ('A' <= c && c <= 'F')
}

/// The value of a hexadecimal digit.
pub open spec fn hex_value(c: char) -> int {
    if '0' <= c && c <= '9' {
        c as int - '0' as int
    } else if 'a' <= c && c <= 'f' {
        c as int - 'a' as int + 10
    } else {
        c as int - 'A' as int + 10
    }
}

/// Every character is ASCII, so that characters and bytes coincide.
pub open spec fn is_ascii(s: Seq<char>) -> bool {
    forall|i: int| 0 <= i < s.len() ==> (s[i] as u32) < 128
}

/// An even number of hexadecimal digits.
pub open spec fn is_hex(s: Seq<char>) -> bool {
    s.len() % 2 == 0 && forall|i: int| 0 <= i < s.len() ==> is_hex_char(#[trigger] s[i])
}

/// The bytes that a string of hexadecimal digits denotes, two digits per byte,
/// the high half first.
pub open spec fn hex_bytes(s: Seq<char>) -> Seq<u8> {
    Seq::new(
        s.len() / 2,
        |i: int| (16 * hex_value(s[2 * i]) + hex_value(s[2 * i + 1])) as u8,
    )
}

/// The position of the first character that is no hexadecimal digit
/// (the length when there is none).
pub open spec fn first_non_hex(s: Seq<char>) -> int
    decreases s.len(),
{
    if s.len() == 0 {
        0
    } else if !is_hex_char(s[0]) {
        0
    } else {
        1 + first_non_hex(s.drop_first())
    }
}

/// The error that an ASCII string that is no valid hex gives.
pub open spec fn hex_error(s: Seq<char>) -> HexDecodeError {
    if s.len() % 2 == 1 {
        HexDecodeError::OddLengthString(s.len() as usize)
    } else {
        HexDecodeError::InvalidChar(s[first_non_hex(s)] as u8)
    }
}

/// Relies on amplify's `FromHex` for `Vec<u8>`: it refuses a string of odd byte
/// length, then decodes byte pairs in order with `char::to_digit(16)` and stops
/// at the first byte that is no hexadecimal digit.
#[verifier::external_body]
fn from_hex(s: &str) -> (r: Result<Vec<u8>, HexDecodeError>)
    ensures
        r is Ok <==> is_hex(s@),
        r is Ok ==> r->Ok_0@ == hex_bytes(s@),
        r is Err && is_ascii(s@) ==> r->Err_0 == hex_error(s@),
{
    match Vec::<u8>::from_hex(s) {
        Ok(v) => Ok(v),
        Err(amplify::hex::Error::InvalidChar(c)) => Err(HexDecodeError::InvalidChar(c)),
        Err(amplify::hex::Error::OddLengthString(n)) => Err(HexDecodeError::OddLengthString(n)),
        Err(amplify::hex::Error::InvalidLength(a, b)) => Err(HexDecodeError::InvalidLength(a, b)),
    }
}

/// A string with a character that is no hexadecimal digit is refused, and the
/// empty string decodes to no bytes.
pub proof fn lemma_hex_rejects_non_digit(s: Seq<char>, i: int)
    requires
        0 <= i < s.len(),
        !is_hex_char(s[i]),
    ensures
        !is_hex(s),
        is_hex(Seq::<char>::empty()),
        hex_bytes(Seq::<char>::empty()) == Seq::<u8>::empty(),
{
    assert(hex_bytes(Seq::<char>::empty()) =~= Seq::<u8>::empty());
}

/// Decodes one hex string.
pub fn decode_hex(s: &str) -> (r: Result<Vec<u8>, HexDecodeError>)
    ensures
        r is Ok <==> is_hex(s@),
        r is Ok ==> r->Ok_0@ == hex_bytes(s@),
        r is Err && is_ascii(s@) ==> r->Err_0 == hex_error(s@),
{
    from_hex(s)
}

/// The first position whose string is no valid hex (the length when there is none).
pub open spec fn first_invalid(list: Seq<String>) -> int
    decreases list.len(),
{
    if list.len() == 0 {
        0
    } else if !is_hex(list[0]@) {
        0
    } else {
        1 + first_invalid(list.drop_first())
    }
}

proof fn lemma_first_invalid(list: Seq<String>)
    ensures
        0 <= first_invalid(list) <= list.len(),
        forall|j: int| 0 <= j < first_invalid(list) ==> is_hex(#[trigger] list[j]@),
        first_invalid(list) < list.len() ==> !is_hex(list[first_invalid(list)]@),
    decreases list.len(),
{
    if list.len() > 0 && is_hex(list[0]@) {
        lemma_first_invalid(list.drop_first());
        assert forall|j: int| 0 <= j < first_invalid(list) implies is_hex(#[trigger] list[j]@) by {
            if j > 0 {
                assert(list[j] == list.drop_first()[j - 1]);
            }
        }
    }
}

/// Decodes each string of a stack in order, by the rule of `decode_hex`; the
/// first string that fails decides the error.
pub fn decode_stack(l: &Vec<String>) -> (r: Result<Vec<Vec<u8>>, HexDecodeError>)
    ensures
        r is Ok <==> (forall|i: int| 0 <= i < l@.len() ==> is_hex(#[trigger] l@[i]@)),
        r is Ok ==> {
            &&& r->Ok_0@.len() == l@.len()
            &&& forall|i: int| 0 <= i < l@.len() ==> #[trigger] r->Ok_0@[i]@ == hex_bytes(l@[i]@)
        },
        r is Err ==> {
            &&& first_invalid(l@) < l@.len()
            &&& is_ascii(l@[first_invalid(l@)]@) ==> r->Err_0 == hex_error(l@[first_invalid(l@)]@)
        },
{
    proof {
        lemma_first_invalid(l@);
    }
    let mut out: Vec<Vec<u8>> = Vec::new();
    let mut i: usize = 0;
    while i < l.len()
        invariant
            0 <= i <= l@.len(),
            i <= first_invalid(l@),
            out@.len() == i,
            forall|j: int| 0 <= j < i ==> #[trigger] out@[j]@ == hex_bytes(l@[j]@),
            0 <= first_invalid(l@) <= l@.len(),
            forall|j: int| 0 <= j < first_invalid(l@) ==> is_hex(#[trigger] l@[j]@),
            first_invalid(l@) < l@.len() ==> !is_hex(l@[first_invalid(l@)]@),
        decreases l@.len() - i,
    {
        match decode_hex(l[i].as_str()) {
            Ok(bytes) => {
                out.push(bytes);
            },
            Err(e) => {
                assert(i == first_invalid(l@));
                return Err(e);
            },
        }
        i = i + 1;
    }
    Ok(out)
}

/// `w` is the stack that the optional list of hex strings `list` decodes to:
/// empty where the list is absent.
pub open spec fn witness_decoded(list: Option<Vec<String>>, w: Seq<Vec<u8>>) -> bool {
    match list {
        None => w.len() == 0,
        Some(l) => w.len() == l@.len() && forall|i: int|
            0 <= i < w.len() ==> #[trigger] w[i]@ == hex_bytes(l@[i]@),
    }
}

/// Decodes a witness stack that may be absent: an absent stack is the empty
/// stack, a present one is decoded by `decode_stack`.
pub fn decode_witness(list: Option<Vec<String>>) -> (r: Result<Vec<Vec<u8>>, HexDecodeError>)
    ensures
        list is None ==> r is Ok,
        r is Ok ==> witness_decoded(list, r->Ok_0@),
        list is Some ==> {
            let l = list->Some_0;
            &&& r is Ok <==> (forall|i: int| 0 <= i < l@.len() ==> is_hex(#[trigger] l@[i]@))
            &&& r is Ok ==> {
                &&& r->Ok_0@.len() == l@.len()
                &&& forall|i: int|
                    0 <= i < l@.len() ==> #[trigger] r->Ok_0@[i]@ == hex_bytes(l@[i]@)
            }
            &&& r is Err ==> {
                &&& first_invalid(l@) < l@.len()
                &&& is_ascii(l@[first_invalid(l@)]@) ==> r->Err_0 == hex_error(
                    l@[first_invalid(l@)]@,
                )
            }
        },
{
    match list {
        None => Ok(Vec::new()),
        Some(l) => decode_stack(&l),
    }
}

} // verus!
