use vstd::prelude::*;

verus! {

/// The largest join code: codes are six decimal digits.
pub const MAX_JOIN_CODE: u32 = 999999;

/// The decimal digit `d` as a character.
pub open spec fn digit_char(d: u32) -> char {
    seq!['0', '1', '2', '3', '4', '5', '6', '7', '8', '9'][d as int]
}

/// The value of a decimal digit character, if it is one.
pub open spec fn char_digit(c: char) -> Option<u32> {
    if c == '0' {
        Some(0)
    } else if c == '1' {
        Some(1)
    } else if c == '2' {
        Some(2)
    } else if c == '3' {
        Some(3)
    } else if c == '4' {
        Some(4)
    } else if c == '5' {
        Some(5)
    } else if c == '6' {
        Some(6)
    } else if c == '7' {
        Some(7)
    } else if c == '8' {
        Some(8)
    } else if c == '9' {
        Some(9)
    } else {
        None
    }
}

/// The text of code `n`: six digits, zero-padded on the left.
pub open spec fn code_text(n: u32) -> Seq<char> {
    seq![
        digit_char(n / 100000 % 10),
        digit_char(n / 10000 % 10),
        digit_char(n / 1000 % 10),
        digit_char(n / 100 % 10),
        digit_char(n / 10 % 10),
        digit_char(n % 10),
    ]
}

/// `s` is six decimal digits.
pub open spec fn is_code_text(s: Seq<char>) -> bool {
    s.len() == 6 && forall|i: int| 0 <= i < 6 ==> (#[trigger] char_digit(s[i])).is_some()
}

/// The number written by the first `k` digits of `s`.
pub open spec fn digits_value(s: Seq<char>, k: nat) -> nat
    decreases k,
{
    if k == 0 {
        0
    } else {
        digits_value(s, (k - 1) as nat) * 10 + char_digit(s[k - 1]).unwrap() as nat
    }
}

/// The code that the text `s` names, if it is one.
pub open spec fn code_of_text(s: Seq<char>) -> Option<u32> {
    if is_code_text(s) {
        Some(digits_value(s, 6) as u32)
    } else {
        None
    }
}

/// The one-character text of the digit `d`.
fn digit_str(d: u32) -> (r: &'static str)
    requires
        d < 10,
    ensures
        r@ == seq![digit_char(d)],
{
    proof {
        reveal_strlit("0");
        reveal_strlit("1");
        reveal_strlit("2");
        reveal_strlit("3");
        reveal_strlit("4");
        reveal_strlit("5");
        reveal_strlit("6");
        reveal_strlit("7");
        reveal_strlit("8");
        reveal_strlit("9");
    }
    let r = match d {
        0 => "0",
        1 => "1",
        2 => "2",
        3 => "3",
        4 => "4",
        5 => "5",
        6 => "6",
        7 => "7",
        8 => "8",
        _ => "9",
    };
    assert(r@ =~= seq![digit_char(d)]);
    r
}

/// The value of the digit character `c`, if it is one.
fn digit_of_char(c: char) -> (r: Option<u32>)
    ensures
        r == char_digit(c),
{
    match c {
        '0' => Some(0),
        '1' => Some(1),
        '2' => Some(2),
        '3' => Some(3),
        '4' => Some(4),
        '5' => Some(5),
        '6' => Some(6),
        '7' => Some(7),
        '8' => Some(8),
        '9' => Some(9),
        _ => None,
    }
}

/// The text of join code `n`, six digits with leading zeros.
pub fn join_code_text(n: u32) -> (r: String)
    requires
        n <= MAX_JOIN_CODE,
    ensures
        r@ == code_text(n),
{
    let mut r = String::new();
    r.append(digit_str(n / 100000 % 10));
    r.append(digit_str(n / 10000 % 10));
    r.append(digit_str(n / 1000 % 10));
    r.append(digit_str(n / 100 % 10));
    r.append(digit_str(n / 10 % 10));
    r.append(digit_str(n % 10));
    assert(r@ =~= code_text(n));
    r
}

/// The join code that `s` names: `Some` exactly when `s` is six decimal digits.
pub fn parse_join_code(s: &str) -> (r: Option<u32>)
    ensures
        r == code_of_text(s@),
        r matches Some(n) ==> n <= MAX_JOIN_CODE,
{
    if s.unicode_len() != 6 {
        return None;
    }
    let mut acc: u32 = 0;
    let mut i: usize = 0;
    while i < 6
        invariant
            i <= 6,
            s@.len() == 6,
            acc == digits_value(s@, i as nat),
            acc < pow10(i as nat),
            forall|j: int| 0 <= j < i ==> (#[trigger] char_digit(s@[j])).is_some(),
        decreases 6 - i,
    {
        let c = s.get_char(i);
        match digit_of_char(c) {
            None => {
                return None;
            },
            Some(d) => {
                proof {
                    reveal_with_fuel(pow10, 7);
                    assert(acc * 10 + d < pow10((i + 1) as nat)) by (nonlinear_arith)
                        requires
                            acc < pow10(i as nat),
                            d < 10,
                            pow10((i + 1) as nat) == pow10(i as nat) * 10,
                    ;
                }
                acc = acc * 10 + d;
                i = i + 1;
            },
        }
    }
    proof {
        reveal_with_fuel(pow10, 7);
    }
    Some(acc)
}

/// Ten to the power `k`.
pub open spec fn pow10(k: nat) -> nat
    decreases k,
{
    if k == 0 {
        1
    } else {
        pow10((k - 1) as nat) * 10
    }
}

/// Reading back the text of a code gives the code.
pub proof fn lemma_code_text_round_trip(n: u32)
    requires
        n <= MAX_JOIN_CODE,
    ensures
        code_of_text(code_text(n)) == Some(n),
{
    let t = code_text(n);
    let d5 = n / 100000 % 10;
    let d4 = n / 10000 % 10;
    let d3 = n / 1000 % 10;
    let d2 = n / 100 % 10;
    let d1 = n / 10 % 10;
    let d0 = n % 10;
    assert forall|i: int| 0 <= i < 6 implies (#[trigger] char_digit(t[i])).is_some() by {
        assert(t[i] == digit_char(t_digit(n, i)));
    }
    assert(char_digit(t[0]) == Some(d5));
    assert(char_digit(t[1]) == Some(d4));
    assert(char_digit(t[2]) == Some(d3));
    assert(char_digit(t[3]) == Some(d2));
    assert(char_digit(t[4]) == Some(d1));
    assert(char_digit(t[5]) == Some(d0));
    reveal_with_fuel(digits_value, 7);
    assert(digits_value(t, 6) == ((((d5 * 10 + d4) * 10 + d3) * 10 + d2) * 10 + d1) * 10 + d0);
    assert(((((d5 * 10 + d4) * 10 + d3) * 10 + d2) * 10 + d1) * 10 + d0 == n) by (nonlinear_arith)
        requires
            n <= 999999,
            d5 == n / 100000 % 10,
            d4 == n / 10000 % 10,
            d3 == n / 1000 % 10,
            d2 == n / 100 % 10,
            d1 == n / 10 % 10,
            d0 == n % 10,
    ;
}

/// The digit at place `i` of the text of `n`, counted from the left.
spec fn t_digit(n: u32, i: int) -> u32 {
    if i == 0 {
        n / 100000 % 10
    } else if i == 1 {
        n / 10000 % 10
    } else if i == 2 {
        n / 1000 % 10
    } else if i == 3 {
        n / 100 % 10
    } else if i == 4 {
        n / 10 % 10
    } else {
        n % 10
    }
}

} // verus!
