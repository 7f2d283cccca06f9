use vstd::prelude::*;
use vstd::string::*;

verus! {

/// The lowercase hexadecimal digit of value `d`, for `d < 16`.
pub open spec fn hex_digit(d: nat) -> char {
    seq!['0', '1', '2', '3', '4', '5', '6', '7', '8', '9', 'a', 'b', 'c', 'd', 'e', 'f'][d as int]
}

/// The low `width` hexadecimal digits of `n`, most significant first,
/// padded with zeros on the left.
pub open spec fn hex_digits(n: nat, width: nat) -> Seq<char>
    decreases width,
{
    if width == 0 {
        Seq::empty()
    } else {
        hex_digits(n / 16, (width - 1) as nat).push(hex_digit(n % 16))
    }
}

/// The characters for a run of digit values.
pub open spec fn digit_chars(ds: Seq<usize>) -> Seq<char> {
    ds.map_values(|d: usize| hex_digit(d as nat))
}

/// `0x` followed by the low `width` hexadecimal digits of `n`.
pub(crate) fn hex_text(n: usize, width: usize) -> (r: String)
    ensures
        r@ == seq!['0', 'x'] + hex_digits(n as nat, width as nat),
{
    // Digit values, most significant first, gathered from the low end.
    let mut ds: Vec<usize> = Vec::new();
    let mut m: usize = n;
    let mut j: usize = 0;
    while j < width
        invariant
            j <= width,
            forall|k: int| 0 <= k < ds@.len() ==> ds@[k] < 16,
            hex_digits(n as nat, width as nat) == hex_digits(m as nat, (width - j) as nat)
                + digit_chars(ds@),
        decreases width - j,
    {
        let d = m % 16;
        proof {
            let rest = hex_digits((m / 16) as nat, (width - j - 1) as nat);
            assert(hex_digits(m as nat, (width - j) as nat) == rest.push(hex_digit(d as nat)));
            assert(digit_chars(ds@.insert(0, d)) =~= seq![hex_digit(d as nat)] + digit_chars(ds@));
            assert(rest.push(hex_digit(d as nat)) + digit_chars(ds@) =~= rest + (seq![hex_digit(d as nat)] + digit_chars(ds@)));
        }
        ds.insert(0, d);
        m = m / 16;
        j = j + 1;
    }
    assert(hex_digits(m as nat, 0) =~= Seq::<char>::empty());
    assert(digit_chars(ds@) =~= hex_digits(n as nat, width as nat));
    let digits = "0123456789abcdef";
    let prefix = "0x";
    proof {
        reveal_strlit("0123456789abcdef");
        reveal_strlit("0x");
    }
    assert(digits.is_ascii());
    let mut r = String::from_str(prefix);
    let mut i: usize = 0;
    while i < ds.len()
        invariant
            i <= ds@.len(),
            digits@ == seq!['0', '1', '2', '3', '4', '5', '6', '7', '8', '9', 'a', 'b', 'c', 'd', 'e', 'f'],
            digits.is_ascii(),
            forall|k: int| 0 <= k < ds@.len() ==> ds@[k] < 16,
            r@ == seq!['0', 'x'] + digit_chars(ds@.take(i as int)),
        decreases ds@.len() - i,
    {
        let d = ds[i];
        let one = digits.substring_ascii(d, d + 1);
        assert(one@ =~= seq![hex_digit(d as nat)]);
        r.append(one);
        assert(digit_chars(ds@.take(i as int + 1)) =~= digit_chars(ds@.take(i as int)).push(hex_digit(d as nat)));
        i = i + 1;
    }
    assert(ds@.take(ds@.len() as int) =~= ds@);
    r
}

} // verus!
