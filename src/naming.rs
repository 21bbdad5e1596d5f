//! Diagnostic names of the worker threads of the global thread pool.
use vstd::prelude::*;

verus! {

/// The decimal digit `d` (taken below ten) as a character.
pub open spec fn digit_char(d: nat) -> char {
    if d == 0 {
        '0'
    } else if d == 1 {
        '1'
    } else if d == 2 {
        '2'
    } else if d == 3 {
        '3'
    } else if d == 4 {
        '4'
    } else if d == 5 {
        '5'
    } else if d == 6 {
        '6'
    } else if d == 7 {
        '7'
    } else if d == 8 {
        '8'
    } else {
        '9'
    }
}

/// The decimal writing of `n`, most significant digit first, without
/// leading zeros.
pub open spec fn decimal(n: nat) -> Seq<char>
    decreases n,
{
    if n < 10 {
        seq![digit_char(n)]
    } else {
        decimal(n / 10) + seq![digit_char(n % 10)]
    }
}

/// The prefix shared by every worker name.
pub open spec fn worker_prefix() -> Seq<char> {
    seq!['z', 'c', '-', 'r', 'a', 'y', 'o', 'n', '-']
}

/// The name of the worker thread with the given index: `zc-rayon-<index>`.
pub open spec fn worker_name(index: nat) -> Seq<char> {
    worker_prefix() + decimal(index)
}

fn digit_str(d: usize) -> (r: &'static str)
    requires
        d < 10,
    ensures
        r@ == seq![digit_char(d as nat)],
{
    proof {
        reveal_strlit("0");
        reveal_strlit("1");
        reveal_strlit("2");
        reveal_strlit("3");
        reveal_strlit("4");
        reveal_strlit("5");
        reveal_strlit("6");
        reveal_strlit("7");
        reveal_strlit("8");
        reveal_strlit("9");
    }
    let r = if d == 0 {
        "0"
    } else if d == 1 {
        "1"
    } else if d == 2 {
        "2"
    } else if d == 3 {
        "3"
    } else if d == 4 {
        "4"
    } else if d == 5 {
        "5"
    } else if d == 6 {
        "6"
    } else if d == 7 {
        "7"
    } else if d == 8 {
        "8"
    } else {
        "9"
    };
    assert(r@ =~= seq![digit_char(d as nat)]);
    r
}

/// Appends the decimal writing of `n` to `s`.
fn push_decimal(s: &mut String, n: usize)
    ensures
        final(s)@ == old(s)@ + decimal(n as nat),
    decreases n,
{
    if n >= 10 {
        push_decimal(s, n / 10);
    }
    s.append(digit_str(n % 10));
    proof {
        if n >= 10 {
            assert(decimal(n as nat) == decimal((n / 10) as nat) + seq![digit_char((n % 10) as nat)]);
        }
        assert(s@ =~= old(s)@ + decimal(n as nat));
    }
}

/// The diagnostic name of the worker thread with index `index`, such as
/// `zc-rayon-0` or `zc-rayon-12`.
pub fn worker_thread_name(index: usize) -> (r: String)
    ensures
        r@ == worker_name(index as nat),
{
    let mut s = String::from_str("zc-rayon-");
    proof {
        reveal_strlit("zc-rayon-");
        assert(s@ =~= worker_prefix());
    }
    push_decimal(&mut s, index);
    s
}

} // verus!
