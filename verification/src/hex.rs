use vstd::prelude::*;
use vstd::string::*;

verus! {

/// The lower-case hexadecimal digit for a nibble `n < 16`.
pub open spec fn hex_digit(n: u8) -> char {
    if n < 10 {
        (48 + n) as char
    } else {
        (87 + n) as char
    }
}

/// Two lower-case hexadecimal digits per byte, most significant nibble first.
pub open spec fn hex_chars(data: Seq<u8>) -> Seq<char>
    decreases data.len(),
{
    if data.len() == 0 {
        Seq::empty()
    } else {
        hex_chars(data.drop_last()) + seq![hex_digit(data.last() / 16), hex_digit(data.last() % 16)]
    }
}

/// The one-character string naming nibble `n`.
pub(crate) fn nibble_str(n: u8) -> (s: &'static str)
    requires
        n < 16,
    ensures
        s@ == seq![hex_digit(n)],
{
    match n {
        0 => { proof { reveal_strlit("0"); } "0" },
        1 => { proof { reveal_strlit("1"); } "1" },
        2 => { proof { reveal_strlit("2"); } "2" },
        3 => { proof { reveal_strlit("3"); } "3" },
        4 => { proof { reveal_strlit("4"); } "4" },
        5 => { proof { reveal_strlit("5"); } "5" },
        6 => { proof { reveal_strlit("6"); } "6" },
        7 => { proof { reveal_strlit("7"); } "7" },
        8 => { proof { reveal_strlit("8"); } "8" },
        9 => { proof { reveal_strlit("9"); } "9" },
        10 => { proof { reveal_strlit("a"); } "a" },
        11 => { proof { reveal_strlit("b"); } "b" },
        12 => { proof { reveal_strlit("c"); } "c" },
        13 => { proof { reveal_strlit("d"); } "d" },
        14 => { proof { reveal_strlit("e"); } "e" },
        _ => { proof { reveal_strlit("f"); } "f" },
    }
}

/// Encodes `data` as lower-case hexadecimal, two digits per byte.
pub fn hex_encode(data: &[u8]) -> (encoded: String)
    ensures
        encoded@ == hex_chars(data@),
        encoded@.len() == 2 * data@.len(),
{
    let mut out = String::new();
    let mut i: usize = 0;
    while i < data.len()
        invariant
            i <= data@.len(),
            out@ == hex_chars(data@.subrange(0, i as int)),
            out@.len() == 2 * i,
        decreases data@.len() - i,
    {
        let b = data[i];
        out.append(nibble_str(b / 16));
        out.append(nibble_str(b % 16));
        proof {
            let next = data@.subrange(0, i + 1);
            assert(next.drop_last() =~= data@.subrange(0, i as int));
            assert(next.last() == b);
        }
        i = i + 1;
    }
    proof {
        assert(data@.subrange(0, data@.len() as int) =~= data@);
    }
    out
}

/// The encoding has two digits per byte.
pub proof fn lemma_hex_chars_len(data: Seq<u8>)
    ensures
        hex_chars(data).len() == 2 * data.len(),
    decreases data.len(),
{
    if data.len() > 0 {
        lemma_hex_chars_len(data.drop_last());
    }
}

/// Encoding a concatenation gives the concatenation of the encodings.
pub proof fn lemma_hex_chars_concat(a: Seq<u8>, b: Seq<u8>)
    ensures
        hex_chars(a + b) == hex_chars(a) + hex_chars(b),
    decreases b.len(),
{
    if b.len() == 0 {
        assert(a + b =~= a);
        assert(hex_chars(a) + hex_chars(b) =~= hex_chars(a));
    } else {
        assert((a + b).drop_last() =~= a + b.drop_last());
        assert((a + b).last() == b.last());
        lemma_hex_chars_concat(a, b.drop_last());
        assert(hex_chars(a + b) =~= hex_chars(a) + hex_chars(b));
    }
}

/// Different nibbles have different digits.
proof fn lemma_hex_digit_injective(x: u8, y: u8)
    requires
        x < 16,
        y < 16,
        hex_digit(x) == hex_digit(y),
    ensures
        x == y,
{
    assert(hex_digit(x) as int == if x < 10 { 48 + x } else { 87 + x });
    assert(hex_digit(y) as int == if y < 10 { 48 + y } else { 87 + y });
}

/// Different byte strings have different encodings.
pub proof fn lemma_hex_chars_injective(a: Seq<u8>, b: Seq<u8>)
    requires
        hex_chars(a) == hex_chars(b),
    ensures
        a == b,
    decreases a.len(),
{
    lemma_hex_chars_len(a);
    lemma_hex_chars_len(b);
    if a.len() > 0 {
        let ha = hex_chars(a);
        let n = ha.len() as int;
        lemma_hex_chars_len(a.drop_last());
        lemma_hex_chars_len(b.drop_last());
        assert(ha[n - 2] == hex_digit(a.last() / 16));
        assert(ha[n - 1] == hex_digit(a.last() % 16));
        assert(hex_chars(b)[n - 2] == hex_digit(b.last() / 16));
        assert(hex_chars(b)[n - 1] == hex_digit(b.last() % 16));
        lemma_hex_digit_injective(a.last() / 16, b.last() / 16);
        lemma_hex_digit_injective(a.last() % 16, b.last() % 16);
        assert(a.last() == b.last());
        assert(hex_chars(a.drop_last()) =~= ha.subrange(0, n - 2));
        assert(hex_chars(b.drop_last()) =~= hex_chars(b).subrange(0, n - 2));
        lemma_hex_chars_injective(a.drop_last(), b.drop_last());
        assert(a =~= a.drop_last().push(a.last()));
        assert(b =~= b.drop_last().push(b.last()));
    } else {
        assert(a =~= b);
    }
}

} // verus!
