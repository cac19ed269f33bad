use vstd::prelude::*;

verus! {

/// The lower-case hexadecimal digits, by value; the first ten are the decimal digits.
pub open spec fn hex_digits() -> Seq<char> {
    seq!['0', '1', '2', '3', '4', '5', '6', '7', '8', '9', 'a', 'b', 'c', 'd', 'e', 'f']
}

/// The one-character text of the digit `n`.
pub fn digit(n: usize) -> (s: &'static str)
    requires
        n < 16,
    ensures
        s@ == seq![hex_digits()[n as int]],
{
    let digits = "0123456789abcdef";
    proof {
        reveal_strlit("0123456789abcdef");
        assert(digits@ =~= hex_digits());
    }
    let s = digits.substring_char(n, n + 1);
    assert(s@ =~= seq![hex_digits()[n as int]]);
    s
}

/// The decimal text of `n`, without leading zeros.
pub open spec fn decimal_of(n: nat) -> Seq<char>
    decreases n,
{
    if n < 10 {
        seq![hex_digits()[n as int]]
    } else {
        decimal_of(n / 10) + seq![hex_digits()[(n % 10) as int]]
    }
}

/// The decimal text of `n`.
pub fn decimal(n: usize) -> (s: String)
    ensures
        s@ == decimal_of(n as nat),
    decreases n,
{
    if n < 10 {
        String::from_str(digit(n))
    } else {
        let mut s = decimal(n / 10);
        s.append(digit(n % 10));
        s
    }
}

/// The debug text of an optional index: `None`, or `Some(` its decimal text `)`.
pub open spec fn option_index_of(o: Option<usize>) -> Seq<char> {
    match o {
        Some(i) => "Some("@ + decimal_of(i as nat) + ")"@,
        None => "None"@,
    }
}

/// The debug text of an optional index.
pub fn option_index(o: Option<usize>) -> (s: String)
    ensures
        s@ == option_index_of(o),
{
    match o {
        Some(i) => {
            let mut s = String::from_str("Some(");
            s.append(decimal(i).as_str());
            s.append(")");
            s
        },
        None => String::from_str("None"),
    }
}

} // verus!
