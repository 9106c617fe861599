use vstd::prelude::*;

verus! {

/// The decimal digit character for `d`, which must lie in 0..10.
pub open spec fn digit_char(d: int) -> char {
    if d == 0 {
        '0'
    } else if d == 1 {
        '1'
    } else if d == 2 {
        '2'
    } else if d == 3 {
        '3'
    } else if d == 4 {
        '4'
    } else if d == 5 {
        '5'
    } else if d == 6 {
        '6'
    } else if d == 7 {
        '7'
    } else if d == 8 {
        '8'
    } else {
        '9'
    }
}

/// The decimal numeral of `n`, most significant digit first, without leading
/// zeros (the numeral of 0 is "0").
pub open spec fn dec_of(n: nat) -> Seq<char>
    decreases n,
{
    if n < 10 {
        seq![digit_char(n as int)]
    } else {
        dec_of(n / 10).push(digit_char((n % 10) as int))
    }
}

fn push_digit(s: &mut String, d: usize)
    requires
        d < 10,
    ensures
        final(s)@ == old(s)@.push(digit_char(d as int)),
{
    let digit: &str = match d {
        0 => "0",
        1 => "1",
        2 => "2",
        3 => "3",
        4 => "4",
        5 => "5",
        6 => "6",
        7 => "7",
        8 => "8",
        _ => "9",
    };
    proof {
        reveal_strlit("0");
        reveal_strlit("1");
        reveal_strlit("2");
        reveal_strlit("3");
        reveal_strlit("4");
        reveal_strlit("5");
        reveal_strlit("6");
        reveal_strlit("7");
        reveal_strlit("8");
        reveal_strlit("9");
        assert(digit@ =~= seq![digit_char(d as int)]);
    }
    s.append(digit);
    proof {
        assert(s@ =~= old(s)@.push(digit_char(d as int)));
    }
}

/// The decimal numeral of `n` as a string.
pub fn dec_string(n: usize) -> (s: String)
    ensures
        s@ == dec_of(n as nat),
    decreases n,
{
    if n < 10 {
        let mut s = String::new();
        push_digit(&mut s, n);
        proof {
            assert(s@ =~= dec_of(n as nat));
        }
        s
    } else {
        let mut s = dec_string(n / 10);
        push_digit(&mut s, n % 10);
        proof {
            assert(s@ =~= dec_of(n as nat));
        }
        s
    }
}

/// A decimal digit character.
pub open spec fn is_digit(c: char) -> bool {
    48 <= c as u32 <= 57
}

/// A tab name in exactly the auto-generated form: the literal default-name
/// prefix "Tab #" followed by a decimal number. A name that merely starts
/// with "Tab #" but goes on with anything but digits, or the bare "Tab #"
/// itself, is taken as user-assigned.
pub open spec fn is_default_name(name: Seq<char>) -> bool {
    name.len() > 5 && name[0] == 'T' && name[1] == 'a' && name[2] == 'b' && name[3] == ' '
        && name[4] == '#' && (forall|i: int| 5 <= i < name.len() ==> is_digit(#[trigger] name[i]))
}

/// Whether `name` is an auto-generated default name.
pub fn matches_default_name(name: &str) -> (b: bool)
    ensures
        b == is_default_name(name@),
{
    let n = name.unicode_len();
    if n <= 5 {
        return false;
    }
    if !(name.get_char(0) == 'T' && name.get_char(1) == 'a' && name.get_char(2) == 'b'
        && name.get_char(3) == ' ' && name.get_char(4) == '#') {
        return false;
    }
    let mut i: usize = 5;
    while i < n
        invariant
            5 <= i <= n,
            n == name@.len(),
            name@[0] == 'T',
            name@[1] == 'a',
            name@[2] == 'b',
            name@[3] == ' ',
            name@[4] == '#',
            forall|j: int| 5 <= j < i ==> is_digit(#[trigger] name@[j]),
        decreases n - i,
    {
        let c = name.get_char(i);
        let u = c as u32;
        if u < 48 || u > 57 {
            proof {
                assert(!is_digit(name@[i as int]));
            }
            return false;
        }
        i += 1;
    }
    true
}

} // verus!
