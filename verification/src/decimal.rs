//! Decimal text: parsing the integer keys of the wire format's sparse maps,
//! and printing the indices that name the archive's image members.

use vstd::prelude::*;

verus! {

/// The value of one decimal digit character; `None` on any other character.
pub open spec fn spec_dec_digit(c: char) -> Option<u8> {
    let v = c as u32;
    if 48 <= v <= 57 {
        Some((v - 48) as u8)
    } else {
        None
    }
}

/// The numeric value of a decimal digit string: one or more digits, most
/// significant first, leading zeros allowed. `None` where the text is empty
/// or holds any non-digit.
pub open spec fn spec_dec_val(s: Seq<char>) -> Option<nat>
    decreases s.len(),
{
    if s.len() == 0 {
        None
    } else if s.len() == 1 {
        match spec_dec_digit(s[0]) {
            Some(d) => Some(d as nat),
            None => None,
        }
    } else {
        match (spec_dec_val(s.drop_last()), spec_dec_digit(s.last())) {
            (Some(hi), Some(d)) => Some(hi * 10 + d as nat),
            _ => None,
        }
    }
}

/// The sparse-map key parse: the decimal value of the key text, where it
/// fits the platform's index type. `None` on empty text, a non-digit, or
/// overflow.
pub open spec fn spec_parse_usize(s: Seq<char>) -> Option<usize> {
    match spec_dec_val(s) {
        Some(v) => if v <= usize::MAX {
            Some(v as usize)
        } else {
            None
        },
        None => None,
    }
}

/// A non-digit anywhere makes the whole text valueless.
proof fn lemma_dec_val_nondigit(s: Seq<char>, j: int)
    requires
        0 <= j < s.len(),
        spec_dec_digit(s[j]) is None,
    ensures
        spec_dec_val(s) is None,
    decreases s.len(),
{
    if j < s.len() - 1 {
        assert(s.drop_last()[j] == s[j]);
        lemma_dec_val_nondigit(s.drop_last(), j);
    }
}

/// A text of digits alone always has a value.
proof fn lemma_dec_val_all_digits(s: Seq<char>)
    requires
        s.len() >= 1,
        forall|j: int| 0 <= j < s.len() ==> #[trigger] spec_dec_digit(s[j]) is Some,
    ensures
        spec_dec_val(s) is Some,
    decreases s.len(),
{
    if s.len() > 1 {
        assert(forall|j: int|
            0 <= j < s.drop_last().len() ==> #[trigger] spec_dec_digit(s.drop_last()[j])
                == spec_dec_digit(s[j]));
        lemma_dec_val_all_digits(s.drop_last());
    }
}

/// A digit string's value never shrinks as the string grows: every prefix of
/// at least one character has a value, no larger than the whole text's.
proof fn lemma_dec_val_prefix_le(s: Seq<char>, i: int)
    requires
        1 <= i <= s.len(),
        spec_dec_val(s) is Some,
    ensures
        spec_dec_val(s.take(i)) is Some,
        spec_dec_val(s.take(i))->Some_0 <= spec_dec_val(s)->Some_0,
    decreases s.len() - i,
{
    if i == s.len() {
        assert(s.take(i) =~= s);
    } else {
        lemma_dec_val_prefix_le(s, i + 1);
        let t1 = s.take(i + 1);
        assert(t1.drop_last() =~= s.take(i));
        assert(t1.last() == s[i]);
    }
}

/// Parses a decimal key: one or more digits, most significant first, leading
/// zeros allowed. `None` on empty text, any non-digit, and values beyond the
/// platform's index type.
#[verifier::loop_isolation(false)]
pub fn parse_usize(s: &str) -> (r: Option<usize>)
    ensures
        r == spec_parse_usize(s@),
{
    let n = s.unicode_len();
    if n == 0 {
        return None;
    }
    let c0 = s.get_char(0);
    let v0 = c0 as u32;
    if !(48 <= v0 && v0 <= 57) {
        proof {
            lemma_dec_val_nondigit(s@, 0);
        }
        return None;
    }
    let mut acc: usize = (v0 - 48) as usize;
    proof {
        assert(s@.take(1).len() == 1);
        assert(s@.take(1)[0] == s@[0]);
    }
    let mut i: usize = 1;
    while i < n
        invariant
            1 <= i <= n,
            spec_dec_val(s@.take(i as int)) == Some(acc as nat),
            forall|j: int| 0 <= j < i ==> #[trigger] spec_dec_digit(s@[j]) is Some,
        decreases n - i,
    {
        let c = s.get_char(i);
        let v = c as u32;
        if !(48 <= v && v <= 57) {
            proof {
                lemma_dec_val_nondigit(s@, i as int);
            }
            return None;
        }
        let d = (v - 48) as usize;
        proof {
            assert(s@.take(i + 1).drop_last() =~= s@.take(i as int));
            assert(s@.take(i + 1).last() == s@[i as int]);
        }
        let next = match acc.checked_mul(10) {
            Some(m) => m.checked_add(d),
            None => None,
        };
        match next {
            Some(a) => {
                acc = a;
            },
            None => {
                // The value overflows the index type: the parse fails
                // whatever follows, a non-digit or a too-large number.
                if rest_digits(s, i + 1) {
                    proof {
                        lemma_dec_val_all_digits(s@);
                        lemma_dec_val_prefix_le(s@, i + 1);
                        assert(spec_dec_val(s@.take(i + 1))->Some_0 > usize::MAX);
                    }
                } else {
                    proof {
                        let j = choose|j: int|
                            i + 1 <= j < s@.len() && !(#[trigger] spec_dec_digit(s@[j]) is Some);
                        lemma_dec_val_nondigit(s@, j);
                    }
                }
                return None;
            },
        }
        i = i + 1;
    }
    proof {
        assert(s@.take(n as int) =~= s@);
    }
    Some(acc)
}

/// Whether every character from `from` on is a decimal digit.
#[verifier::loop_isolation(false)]
fn rest_digits(s: &str, from: usize) -> (r: bool)
    requires
        from <= s@.len(),
    ensures
        r == forall|j: int| from <= j < s@.len() ==> #[trigger] spec_dec_digit(s@[j]) is Some,
{
    let n = s.unicode_len();
    let mut i: usize = from;
    while i < n
        invariant
            from <= i <= n,
            forall|j: int| from <= j < i ==> #[trigger] spec_dec_digit(s@[j]) is Some,
        decreases n - i,
    {
        let c = s.get_char(i);
        let v = c as u32;
        if !(48 <= v && v <= 57) {
            proof {
                assert(spec_dec_digit(s@[i as int]) is None);
            }
            return false;
        }
        i = i + 1;
    }
    true
}

/// The character of one decimal digit.
pub open spec fn spec_digit_char(d: nat) -> char {
    if d == 0 {
        '0'
    } else if d == 1 {
        '1'
    } else if d == 2 {
        '2'
    } else if d == 3 {
        '3'
    } else if d == 4 {
        '4'
    } else if d == 5 {
        '5'
    } else if d == 6 {
        '6'
    } else if d == 7 {
        '7'
    } else if d == 8 {
        '8'
    } else {
        '9'
    }
}

/// The decimal digits of `n`, most significant first, no leading zeros.
pub open spec fn spec_decimal(n: nat) -> Seq<char>
    decreases n,
{
    if n < 10 {
        seq![spec_digit_char(n)]
    } else {
        spec_decimal(n / 10).push(spec_digit_char(n % 10))
    }
}

/// One decimal digit as text.
fn digit_str(d: u64) -> (r: &'static str)
    requires
        d < 10,
    ensures
        r@ == seq![spec_digit_char(d as nat)],
{
    if d == 0 {
        proof {
            reveal_strlit("0");
            assert("0"@ =~= seq!['0']);
        }
        "0"
    } else if d == 1 {
        proof {
            reveal_strlit("1");
            assert("1"@ =~= seq!['1']);
        }
        "1"
    } else if d == 2 {
        proof {
            reveal_strlit("2");
            assert("2"@ =~= seq!['2']);
        }
        "2"
    } else if d == 3 {
        proof {
            reveal_strlit("3");
            assert("3"@ =~= seq!['3']);
        }
        "3"
    } else if d == 4 {
        proof {
            reveal_strlit("4");
            assert("4"@ =~= seq!['4']);
        }
        "4"
    } else if d == 5 {
        proof {
            reveal_strlit("5");
            assert("5"@ =~= seq!['5']);
        }
        "5"
    } else if d == 6 {
        proof {
            reveal_strlit("6");
            assert("6"@ =~= seq!['6']);
        }
        "6"
    } else if d == 7 {
        proof {
            reveal_strlit("7");
            assert("7"@ =~= seq!['7']);
        }
        "7"
    } else if d == 8 {
        proof {
            reveal_strlit("8");
            assert("8"@ =~= seq!['8']);
        }
        "8"
    } else {
        proof {
            reveal_strlit("9");
            assert("9"@ =~= seq!['9']);
        }
        "9"
    }
}

/// Prints `n` in decimal, most significant digit first, no leading zeros.
pub fn u64_to_string(n: u64) -> (s: String)
    ensures
        s@ == spec_decimal(n as nat),
    decreases n,
{
    if n < 10 {
        let s = String::from_str(digit_str(n));
        proof {
            assert(s@ =~= spec_decimal(n as nat));
        }
        s
    } else {
        let mut s = u64_to_string(n / 10);
        s.append(digit_str(n % 10));
        proof {
            assert(s@ =~= spec_decimal((n / 10) as nat).push(spec_digit_char((n % 10) as nat)));
        }
        s
    }
}

} // verus!
