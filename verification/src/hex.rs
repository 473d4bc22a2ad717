use vstd::prelude::*;

verus! {

/// ASCII byte of the hexadecimal digit with value `v`, lowercase.
pub open spec fn hex_digit(v: u8) -> u8
    recommends
        v < 16,
{
    if v < 10 {
        (48 + v) as u8
    } else {
        (87 + v) as u8
    }
}

/// The value of an ASCII byte read as a hexadecimal digit, if it is one.
/// Lowercase and uppercase digits are both accepted.
pub open spec fn hex_digit_value(b: u8) -> Option<u8> {
    if 48 <= b && b <= 57 {
        Some((b - 48) as u8)
    } else if 97 <= b && b <= 102 {
        Some((b - 87) as u8)
    } else if 65 <= b && b <= 70 {
        Some((b - 55) as u8)
    } else {
        None
    }
}

/// Hex encoding of a byte sequence: two lowercase digits per byte, high
/// nibble first.
pub open spec fn hex_bytes_of(data: Seq<u8>) -> Seq<u8>
    decreases data.len(),
{
    if data.len() == 0 {
        Seq::empty()
    } else {
        seq![hex_digit((data[0] / 16) as u8), hex_digit((data[0] % 16) as u8)]
            + hex_bytes_of(data.drop_first())
    }
}

/// Whether a byte sequence is a well-formed hex string: even length, every
/// byte a hex digit.
pub open spec fn is_hex_bytes(s: Seq<u8>) -> bool {
    &&& s.len() % 2 == 0
    &&& forall|i: int| 0 <= i < s.len() ==> (#[trigger] hex_digit_value(s[i])) is Some
}

/// The bytes denoted by a well-formed hex string.
pub open spec fn hex_decode_bytes(s: Seq<u8>) -> Seq<u8>
    decreases s.len(),
{
    if s.len() < 2 {
        Seq::empty()
    } else {
        seq![(hex_digit_value(s[0]).unwrap() * 16 + hex_digit_value(s[1]).unwrap()) as u8]
            + hex_decode_bytes(s.skip(2))
    }
}

pub proof fn lemma_hex_bytes_of_append(a: Seq<u8>, b: Seq<u8>)
    ensures
        hex_bytes_of(a + b) == hex_bytes_of(a) + hex_bytes_of(b),
    decreases a.len(),
{
    if a.len() == 0 {
        assert(a + b =~= b);
        assert(hex_bytes_of(a) + hex_bytes_of(b) =~= hex_bytes_of(b));
    } else {
        lemma_hex_bytes_of_append(a.drop_first(), b);
        assert((a + b).drop_first() =~= a.drop_first() + b);
        assert((a + b)[0] == a[0]);
        assert(hex_bytes_of(a) + hex_bytes_of(b) =~= seq![
            hex_digit((a[0] / 16) as u8),
            hex_digit((a[0] % 16) as u8),
        ] + (hex_bytes_of(a.drop_first()) + hex_bytes_of(b)));
    }
}

pub proof fn lemma_hex_bytes_of_len(data: Seq<u8>)
    ensures
        hex_bytes_of(data).len() == 2 * data.len(),
    decreases data.len(),
{
    if data.len() == 0 {
    } else {
        lemma_hex_bytes_of_len(data.drop_first());
    }
}

pub proof fn lemma_hex_digit_roundtrip(v: u8)
    requires
        v < 16,
    ensures
        hex_digit_value(hex_digit(v)) == Some(v),
{
}

/// Every hex encoding is a well-formed hex string.
pub proof fn lemma_hex_bytes_of_is_hex(data: Seq<u8>)
    ensures
        is_hex_bytes(hex_bytes_of(data)),
    decreases data.len(),
{
    lemma_hex_bytes_of_len(data);
    if data.len() == 0 {
    } else {
        lemma_hex_bytes_of_is_hex(data.drop_first());
        lemma_hex_digit_roundtrip((data[0] / 16) as u8);
        lemma_hex_digit_roundtrip((data[0] % 16) as u8);
        let s = hex_bytes_of(data);
        let t = hex_bytes_of(data.drop_first());
        assert forall|i: int| 0 <= i < s.len() implies (#[trigger] hex_digit_value(s[i]))
            is Some by {
            if i >= 2 {
                assert(s[i] == t[i - 2]);
                assert(hex_digit_value(t[i - 2]) is Some);
            }
        }
    }
}

/// Decoding distributes over concatenation at even offsets.
pub proof fn lemma_hex_decode_append(a: Seq<u8>, b: Seq<u8>)
    requires
        a.len() % 2 == 0,
    ensures
        hex_decode_bytes(a + b) == hex_decode_bytes(a) + hex_decode_bytes(b),
    decreases a.len(),
{
    if a.len() == 0 {
        assert(a + b =~= b);
        assert(hex_decode_bytes(a) + hex_decode_bytes(b) =~= hex_decode_bytes(b));
    } else {
        lemma_hex_decode_append(a.skip(2), b);
        assert((a + b).skip(2) =~= a.skip(2) + b);
        assert((a + b)[0] == a[0]);
        assert((a + b)[1] == a[1]);
        assert(hex_decode_bytes(a) + hex_decode_bytes(b) =~= seq![
            (hex_digit_value(a[0]).unwrap() * 16 + hex_digit_value(a[1]).unwrap()) as u8,
        ] + (hex_decode_bytes(a.skip(2)) + hex_decode_bytes(b)));
    }
}

/// Decoding a hex encoding gives the original bytes back.
pub proof fn lemma_hex_roundtrip(data: Seq<u8>)
    ensures
        hex_decode_bytes(hex_bytes_of(data)) == data,
    decreases data.len(),
{
    if data.len() == 0 {
        assert(hex_decode_bytes(hex_bytes_of(data)) =~= data);
    } else {
        lemma_hex_roundtrip(data.drop_first());
        let d0 = data[0];
        lemma_hex_digit_roundtrip((d0 / 16) as u8);
        lemma_hex_digit_roundtrip((d0 % 16) as u8);
        let s = hex_bytes_of(data);
        assert(s.skip(2) =~= hex_bytes_of(data.drop_first()));
        vstd::arithmetic::div_mod::lemma_fundamental_div_mod(d0 as int, 16);
        assert(((d0 / 16) * 16 + (d0 % 16)) as u8 == d0);
        assert(hex_decode_bytes(s) =~= seq![d0] + data.drop_first());
        assert(seq![d0] + data.drop_first() =~= data);
    }
}

pub proof fn lemma_hex_bytes_of_singleton(x: u8)
    ensures
        hex_bytes_of(seq![x]) == seq![hex_digit((x / 16) as u8), hex_digit((x % 16) as u8)],
{
    reveal_with_fuel(hex_bytes_of, 2);
    assert(seq![x].drop_first() =~= Seq::<u8>::empty());
    assert(hex_bytes_of(seq![x]) =~= seq![hex_digit((x / 16) as u8), hex_digit((x % 16) as u8)]);
}

pub proof fn lemma_hex_decode_pair(a: u8, b: u8)
    ensures
        hex_decode_bytes(seq![a, b]) == seq![
            (hex_digit_value(a).unwrap() * 16 + hex_digit_value(b).unwrap()) as u8,
        ],
{
    reveal_with_fuel(hex_decode_bytes, 2);
    assert(seq![a, b].skip(2) =~= Seq::<u8>::empty());
    assert(hex_decode_bytes(seq![a, b]) =~= seq![
        (hex_digit_value(a).unwrap() * 16 + hex_digit_value(b).unwrap()) as u8,
    ]);
}

fn hex_digit_of(v: u8) -> (r: u8)
    requires
        v < 16,
    ensures
        r == hex_digit(v),
{
    if v < 10 {
        48 + v
    } else {
        87 + v
    }
}

fn hex_value_of(b: u8) -> (r: Option<u8>)
    ensures
        r == hex_digit_value(b),
        r matches Some(v) ==> v < 16,
{
    if 48 <= b && b <= 57 {
        Some(b - 48)
    } else if 97 <= b && b <= 102 {
        Some(b - 87)
    } else if 65 <= b && b <= 70 {
        Some(b - 55)
    } else {
        None
    }
}

/// Hex-encode a byte vector into its ASCII digit bytes.
pub fn encode_hex(data: &Vec<u8>) -> (r: Vec<u8>)
    ensures
        r@ == hex_bytes_of(data@),
{
    let mut out: Vec<u8> = Vec::new();
    let mut i: usize = 0;
    while i < data.len()
        invariant
            i <= data@.len(),
            out@ == hex_bytes_of(data@.take(i as int)),
        decreases data@.len() - i,
    {
        let b = data[i];
        out.push(hex_digit_of(b / 16));
        out.push(hex_digit_of(b % 16));
        proof {
            let pre = data@.take(i as int);
            let one = seq![data@[i as int]];
            assert(data@.take(i as int + 1) =~= pre + one);
            lemma_hex_bytes_of_append(pre, one);
            lemma_hex_bytes_of_singleton(b);
        }
        i = i + 1;
    }
    proof {
        assert(data@.take(data@.len() as int) =~= data@);
    }
    out
}

/// Decode an ASCII hex string into bytes; `None` if it is not well-formed
/// hex.
pub fn decode_hex(s: &[u8]) -> (r: Option<Vec<u8>>)
    ensures
        r is Some <==> is_hex_bytes(s@),
        r matches Some(v) ==> v@ == hex_decode_bytes(s@),
{
    if s.len() % 2 != 0 {
        return None;
    }
    let mut out: Vec<u8> = Vec::new();
    let mut i: usize = 0;
    while i < s.len()
        invariant
            s@.len() % 2 == 0,
            i % 2 == 0,
            i <= s@.len(),
            forall|j: int| 0 <= j < i ==> (#[trigger] hex_digit_value(s@[j])) is Some,
            out@ == hex_decode_bytes(s@.take(i as int)),
        decreases s@.len() - i,
    {
        let hi = match hex_value_of(s[i]) {
            Some(v) => v,
            None => {
                return None;
            },
        };
        let lo = match hex_value_of(s[i + 1]) {
            Some(v) => v,
            None => {
                return None;
            },
        };
        out.push(hi * 16 + lo);
        proof {
            let pre = s@.take(i as int);
            let two = seq![s@[i as int], s@[i as int + 1]];
            assert(s@.take(i as int + 2) =~= pre + two);
            lemma_hex_decode_append(pre, two);
            lemma_hex_decode_pair(s@[i as int], s@[i as int + 1]);
        }
        i = i + 2;
    }
    proof {
        assert(s@.take(s@.len() as int) =~= s@);
    }
    Some(out)
}

/// Relies on `String::from_utf8`: for a byte vector that is valid UTF-8 it
/// returns the string whose UTF-8 encoding is exactly those bytes. Hex digit
/// bytes are ASCII, hence valid UTF-8, so the call cannot fail here.
#[verifier::external_body]
pub(crate) fn hex_digits_to_string(digits: Vec<u8>) -> (r: String)
    requires
        is_hex_bytes(digits@),
    ensures
        vstd::utf8::encode_utf8(r@) == digits@,
{
    String::from_utf8(digits).unwrap()
}

} // verus!
