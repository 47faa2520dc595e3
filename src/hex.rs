use vstd::prelude::*;

verus! {

/// The lowercase hex digit for a value below sixteen.
pub open spec fn hex_digit(n: u8) -> u8 {
    if n < 10 {
        (48 + n) as u8
    } else {
        (87 + n) as u8
    }
}

/// The value of a hex digit, either case, or `None` for any other byte.
pub open spec fn digit_value(c: u8) -> Option<u8> {
    if 48 <= c && c <= 57 {
        Some((c - 48) as u8)
    } else if 97 <= c && c <= 102 {
        Some((c - 87) as u8)
    } else if 65 <= c && c <= 70 {
        Some((c - 55) as u8)
    } else {
        None
    }
}

/// Lowercase hex text of `b`: two digits per byte, high nibble first.
pub open spec fn hex_encoding(b: Seq<u8>) -> Seq<u8> {
    Seq::new(2 * b.len(), |j: int| if j % 2 == 0 {
        hex_digit(b[j / 2] / 16)
    } else {
        hex_digit(b[j / 2] % 16)
    })
}

/// Whether `s` is hex text: an even number of hex digits.
pub open spec fn is_hex(s: Seq<u8>) -> bool {
    s.len() % 2 == 0 && forall|i: int| 0 <= i < s.len() ==> (#[trigger] digit_value(s[i])).is_some()
}

/// The bytes that hex text stands for.
pub open spec fn hex_bytes(s: Seq<u8>) -> Seq<u8> {
    Seq::new(s.len() / 2, |i: int| (digit_value(s[2 * i]).unwrap() * 16 + digit_value(s[2 * i + 1]).unwrap()) as u8)
}

/// What decoding hex text gives: the bytes, or `None` where the text is not hex.
pub open spec fn hex_decoding(s: Seq<u8>) -> Option<Seq<u8>> {
    if is_hex(s) {
        Some(hex_bytes(s))
    } else {
        None
    }
}

proof fn lemma_digit_round_trip(n: u8)
    requires
        n < 16,
    ensures
        digit_value(hex_digit(n)) == Some(n),
{
}

/// Decoding the hex text of any bytes gives those bytes back.
pub proof fn lemma_hex_round_trip(b: Seq<u8>)
    ensures
        hex_decoding(hex_encoding(b)) == Some(b),
{
    let e = hex_encoding(b);
    assert forall|i: int| 0 <= i < e.len() implies (#[trigger] digit_value(e[i])).is_some() by {
        let v = b[i / 2];
        lemma_digit_round_trip(v / 16);
        lemma_digit_round_trip(v % 16);
    }
    assert forall|i: int| 0 <= i < b.len() implies #[trigger] hex_bytes(e)[i] == b[i] by {
        let v = b[i];
        assert((2 * i) / 2 == i);
        assert((2 * i + 1) / 2 == i);
        assert((2 * i) % 2 == 0);
        assert((2 * i + 1) % 2 == 1);
        lemma_digit_round_trip(v / 16);
        lemma_digit_round_trip(v % 16);
        assert((v / 16) * 16 + v % 16 == v) by (nonlinear_arith);
    }
    assert(hex_bytes(e) =~= b);
}

fn digit_of(n: u8) -> (r: u8)
    requires
        n < 16,
    ensures
        r == hex_digit(n),
{
    if n < 10 {
        48 + n
    } else {
        87 + n
    }
}

fn value_of_digit(c: u8) -> (r: Option<u8>)
    ensures
        r == digit_value(c),
{
    if 48 <= c && c <= 57 {
        Some(c - 48)
    } else if 97 <= c && c <= 102 {
        Some(c - 87)
    } else if 65 <= c && c <= 70 {
        Some(c - 55)
    } else {
        None
    }
}

/// Lowercase hex text of `b`.
pub fn to_hex(b: &[u8]) -> (r: Vec<u8>)
    requires
        2 * b@.len() <= usize::MAX,
    ensures
        r@ == hex_encoding(b@),
{
    let mut r: Vec<u8> = Vec::new();
    let mut i: usize = 0;
    while i < b.len()
        invariant
            i <= b@.len(),
            2 * b@.len() <= usize::MAX,
            r@.len() == 2 * i,
            forall|j: int| 0 <= j < 2 * i ==> r@[j] == #[trigger] hex_encoding(b@)[j],
        decreases b@.len() - i,
    {
        let v = b[i];
        r.push(digit_of(v / 16));
        r.push(digit_of(v % 16));
        proof {
            assert forall|j: int| 0 <= j < 2 * (i + 1) implies r@[j] == #[trigger] hex_encoding(b@)[j] by {
                if j >= 2 * i {
                    assert(j / 2 == i as int);
                }
            }
        }
        i = i + 1;
    }
    assert(r@ =~= hex_encoding(b@));
    r
}

/// The bytes that hex text stands for, or `None` where it is not hex text.
pub fn from_hex(s: &[u8]) -> (r: Option<Vec<u8>>)
    ensures
        r matches Some(v) ==> hex_decoding(s@) == Some(v@),
        r is None ==> hex_decoding(s@) is None,
{
    if s.len() % 2 != 0 {
        return None;
    }
    let mut r: Vec<u8> = Vec::new();
    let mut i: usize = 0;
    while i < s.len() / 2
        invariant
            s@.len() % 2 == 0,
            i <= s@.len() / 2,
            r@.len() == i,
            forall|k: int| 0 <= k < 2 * i ==> (#[trigger] digit_value(s@[k])).is_some(),
            forall|k: int| 0 <= k < i ==> r@[k] == #[trigger] hex_bytes(s@)[k],
        decreases s@.len() / 2 - i,
    {
        let hi = value_of_digit(s[2 * i]);
        let lo = value_of_digit(s[2 * i + 1]);
        match (hi, lo) {
            (Some(h), Some(l)) => {
                assert(h < 16 && l < 16);
                r.push(h * 16 + l);
            },
            _ => {
                proof {
                    if hi is None {
                        assert(!(digit_value(s@[2 * i as int])).is_some());
                    } else {
                        assert(!(digit_value(s@[2 * i + 1])).is_some());
                    }
                }
                return None;
            },
        }
        i = i + 1;
    }
    assert(is_hex(s@));
    assert(r@ =~= hex_bytes(s@));
    Some(r)
}

} // verus!
