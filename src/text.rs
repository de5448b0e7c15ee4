use vstd::prelude::*;
use vstd::string::*;

verus! {

/// The decimal digit character for `d < 10`.
pub open spec fn digit_char(d: nat) -> char {
    if d == 0 {
        '0'
    } else if d == 1 {
        '1'
    } else if d == 2 {
        '2'
    } else if d == 3 {
        '3'
    } else if d == 4 {
        '4'
    } else if d == 5 {
        '5'
    } else if d == 6 {
        '6'
    } else if d == 7 {
        '7'
    } else if d == 8 {
        '8'
    } else {
        '9'
    }
}

/// The decimal representation of `n`, without sign or leading zeros.
pub open spec fn dec(n: nat) -> Seq<char>
    decreases n,
{
    if n < 10 {
        seq![digit_char(n)]
    } else {
        dec(n / 10).push(digit_char(n % 10))
    }
}

/// `s` padded on the left with spaces to at least `width` characters.
pub open spec fn pad_left(s: Seq<char>, width: nat) -> Seq<char> {
    if s.len() >= width {
        s
    } else {
        Seq::new((width - s.len()) as nat, |i: int| ' ') + s
    }
}

/// A count of thousandths written with three decimals: `12345` is `12.345`.
pub open spec fn fixed3(t: nat) -> Seq<char> {
    let r = t % 1000;
    dec(t / 1000) + seq!['.', digit_char(r / 100), digit_char((r / 10) % 10), digit_char(r % 10)]
}

/// A micro-unit length rounded to the nearest thousandth, halves upward.
pub open spec fn round_to_thousandths(micros: nat) -> nat {
    (micros + 500) / 1000
}

/// A micro-unit length as a decimal with three places.
pub open spec fn length_text(micros: nat) -> Seq<char> {
    fixed3(round_to_thousandths(micros))
}

/// The label engraved for a bore of `micros` micro-units: the length times
/// one thousand, truncated, in a field three characters wide.
pub open spec fn label_text_of(micros: nat) -> Seq<char> {
    pad_left(dec(micros / 1000), 3)
}

fn digit_str(d: u64) -> (r: &'static str)
    requires
        d < 10,
    ensures
        r@ == seq![digit_char(d as nat)],
{
    if d == 0 {
        proof { reveal_strlit("0"); }
        "0"
    } else if d == 1 {
        proof { reveal_strlit("1"); }
        "1"
    } else if d == 2 {
        proof { reveal_strlit("2"); }
        "2"
    } else if d == 3 {
        proof { reveal_strlit("3"); }
        "3"
    } else if d == 4 {
        proof { reveal_strlit("4"); }
        "4"
    } else if d == 5 {
        proof { reveal_strlit("5"); }
        "5"
    } else if d == 6 {
        proof { reveal_strlit("6"); }
        "6"
    } else if d == 7 {
        proof { reveal_strlit("7"); }
        "7"
    } else if d == 8 {
        proof { reveal_strlit("8"); }
        "8"
    } else {
        proof { reveal_strlit("9"); }
        "9"
    }
}

/// Appends the decimal representation of `n` to `s`.
pub fn push_decimal(s: &mut String, n: u64)
    ensures
        final(s)@ == old(s)@ + dec(n as nat),
    decreases n,
{
    if n < 10 {
        s.append(digit_str(n));
    } else {
        push_decimal(s, n / 10);
        s.append(digit_str(n % 10));
        proof {
            assert(dec(n as nat) == dec((n / 10) as nat).push(digit_char((n % 10) as nat)));
        }
    }
}

/// The decimal representation of `n`.
pub fn decimal_text(n: u64) -> (r: String)
    ensures
        r@ == dec(n as nat),
{
    let mut s = String::new();
    push_decimal(&mut s, n);
    proof {
        assert(s@ =~= dec(n as nat));
    }
    s
}

/// Appends `micros` micro-units to `s` as a decimal with three places,
/// rounded to the nearest thousandth with halves going up.
pub fn push_length(s: &mut String, micros: u64)
    ensures
        final(s)@ == old(s)@ + length_text(micros as nat),
{
    let up: u64 = if micros % 1000 >= 500 { 1 } else { 0 };
    let t: u64 = micros / 1000 + up;
    assert(t as nat == round_to_thousandths(micros as nat));
    let r: u64 = t % 1000;
    proof { reveal_strlit("."); }
    let ghost s0 = s@;
    push_decimal(s, t / 1000);
    s.append(".");
    s.append(digit_str(r / 100));
    s.append(digit_str((r / 10) % 10));
    s.append(digit_str(r % 10));
    proof {
        assert(s@ =~= s0 + length_text(micros as nat));
    }
}

/// The label text for a bore of `micros` micro-units: the bore length in
/// thousandths of a unit, truncated, right-aligned in three characters.
pub fn label_text(micros: u64) -> (r: String)
    ensures
        r@ == label_text_of(micros as nat),
{
    let digits = decimal_text(micros / 1000);
    let n: usize = digits.as_str().unicode_len();
    if n >= 3 {
        digits
    } else {
        let mut s = String::new();
        let mut k: usize = n;
        while k < 3
            invariant
                n <= k <= 3,
                n == digits@.len(),
                s@ == Seq::new((k - n) as nat, |i: int| ' '),
            decreases 3 - k,
        {
            proof { reveal_strlit(" "); }
            s.append(" ");
            k = k + 1;
            proof {
                assert(s@ =~= Seq::new((k - n) as nat, |i: int| ' '));
            }
        }
        s.append(digits.as_str());
        s
    }
}

/// A decimal digit character.
pub open spec fn is_digit(c: char) -> bool {
    '0' <= c <= '9'
}

/// A decimal representation is a non-empty run of digits, of two or more
/// digits from ten up.
pub proof fn lemma_dec_is_digits(n: nat)
    ensures
        dec(n).len() >= 1,
        n >= 10 ==> dec(n).len() >= 2,
        forall|k: int| 0 <= k < dec(n).len() ==> is_digit(#[trigger] dec(n)[k]),
    decreases n,
{
    if n >= 10 {
        lemma_dec_is_digits(n / 10);
        assert forall|k: int| 0 <= k < dec(n).len() implies is_digit(#[trigger] dec(n)[k]) by {
            if k < dec(n / 10).len() {
                assert(dec(n)[k] == dec(n / 10)[k]);
            }
        }
    }
}

/// Different digits have different characters.
pub proof fn lemma_digit_char_injective(a: nat, b: nat)
    requires
        a < 10,
        b < 10,
        digit_char(a) == digit_char(b),
    ensures
        a == b,
{
}

/// Different numbers have different decimal representations.
pub proof fn lemma_dec_injective(a: nat, b: nat)
    requires
        dec(a) == dec(b),
    ensures
        a == b,
    decreases a,
{
    lemma_dec_is_digits(a / 10);
    lemma_dec_is_digits(b / 10);
    if a < 10 && b < 10 {
        assert(dec(a)[0] == digit_char(a));
        assert(dec(b)[0] == digit_char(b));
        lemma_digit_char_injective(a, b);
    } else if a >= 10 && b >= 10 {
        assert(dec(a).last() == digit_char(a % 10));
        assert(dec(b).last() == digit_char(b % 10));
        lemma_digit_char_injective(a % 10, b % 10);
        assert(dec(a / 10) =~= dec(a).drop_last());
        assert(dec(b / 10) =~= dec(b).drop_last());
        lemma_dec_injective(a / 10, b / 10);
    } else {
        lemma_dec_is_digits(a);
        lemma_dec_is_digits(b);
    }
}

} // verus!
