use vstd::prelude::*;
use vstd::string::*;

verus! {

/// The character that stands for one decimal digit.
pub open spec fn digit_char(d: nat) -> char
    recommends
        d < 10,
{
    if d == 0 {
        '0'
    } else if d == 1 {
        '1'
    } else if d == 2 {
        '2'
    } else if d == 3 {
        '3'
    } else if d == 4 {
        '4'
    } else if d == 5 {
        '5'
    } else if d == 6 {
        '6'
    } else if d == 7 {
        '7'
    } else if d == 8 {
        '8'
    } else {
        '9'
    }
}

/// A number in decimal notation: most significant digit first, no leading
/// zeros, `"0"` for zero.
pub open spec fn decimal(n: nat) -> Seq<char>
    decreases n,
{
    if n < 10 {
        seq![digit_char(n)]
    } else {
        decimal(n / 10).push(digit_char(n % 10))
    }
}

/// One capture window in text: its first second, a hyphen, and the second
/// after it, as in `"2-3"`.
pub open spec fn window_text(start: nat) -> Seq<char> {
    decimal(start) + seq!['-'] + decimal(start + 1)
}

/// Capture windows in text, in the order given and joined by commas, as in
/// `"2-3,7-8"`. Nothing is merged and nothing is left out.
pub open spec fn windows_text(starts: Seq<u64>) -> Seq<char>
    decreases starts.len(),
{
    if starts.len() == 0 {
        Seq::empty()
    } else if starts.len() == 1 {
        window_text(starts[0] as nat)
    } else {
        windows_text(starts.drop_last()) + seq![','] + window_text(starts.last() as nat)
    }
}

fn digit_text(d: u128) -> (s: &'static str)
    requires
        d < 10,
    ensures
        s@ == seq![digit_char(d as nat)],
{
    proof {
        reveal_strlit("0");
        reveal_strlit("1");
        reveal_strlit("2");
        reveal_strlit("3");
        reveal_strlit("4");
        reveal_strlit("5");
        reveal_strlit("6");
        reveal_strlit("7");
        reveal_strlit("8");
        reveal_strlit("9");
    }
    let s: &'static str = if d == 0 {
        "0"
    } else if d == 1 {
        "1"
    } else if d == 2 {
        "2"
    } else if d == 3 {
        "3"
    } else if d == 4 {
        "4"
    } else if d == 5 {
        "5"
    } else if d == 6 {
        "6"
    } else if d == 7 {
        "7"
    } else if d == 8 {
        "8"
    } else {
        "9"
    };
    assert(s@ =~= seq![digit_char(d as nat)]);
    s
}

fn push_decimal(text: &mut String, n: u128)
    ensures
        final(text)@ == old(text)@ + decimal(n as nat),
    decreases n,
{
    if n >= 10 {
        push_decimal(text, n / 10);
    }
    text.append(digit_text(n % 10));
    assert(text@ =~= old(text)@ + decimal(n as nat));
}

fn push_window(text: &mut String, start: u64)
    ensures
        final(text)@ == old(text)@ + window_text(start as nat),
{
    push_decimal(text, start as u128);
    text.append("-");
    push_decimal(text, start as u128 + 1);
    proof {
        reveal_strlit("-");
        assert("-"@ =~= seq!['-']);
        assert(text@ =~= old(text)@ + window_text(start as nat));
    }
}

/// The decimal notation of `n`.
pub fn to_decimal(n: u64) -> (s: String)
    ensures
        s@ == decimal(n as nat),
{
    let mut s = String::new();
    push_decimal(&mut s, n as u128);
    assert(s@ =~= decimal(n as nat));
    s
}

/// The text of a list of capture windows, each given by its first second.
pub fn render_windows(starts: &[u64]) -> (s: String)
    ensures
        s@ == windows_text(starts@),
{
    let mut s = String::new();
    let mut i: usize = 0;
    while i < starts.len()
        invariant
            i <= starts@.len(),
            s@ == windows_text(starts@.take(i as int)),
        decreases starts@.len() - i,
    {
        proof {
            let next = starts@.take(i + 1);
            assert(next.drop_last() =~= starts@.take(i as int));
            assert(next.last() == starts@[i as int]);
            assert(next[0] == starts@[0]);
        }
        if i > 0 {
            s.append(",");
            proof {
                reveal_strlit(",");
                assert(","@ =~= seq![',']);
            }
        }
        push_window(&mut s, starts[i]);
        assert(s@ =~= windows_text(starts@.take(i + 1)));
        i += 1;
    }
    assert(starts@.take(i as int) =~= starts@);
    s
}

/// Joining windows adds, after the text so far, a comma and the new window;
/// the first window stands alone.
pub proof fn lemma_windows_text_push(starts: Seq<u64>, start: u64)
    ensures
        windows_text(starts.push(start)) == if starts.len() == 0 {
            window_text(start as nat)
        } else {
            windows_text(starts) + seq![','] + window_text(start as nat)
        },
{
    let next = starts.push(start);
    assert(next.drop_last() =~= starts);
    assert(next.last() == start);
    assert(next[0] == if starts.len() == 0 { start } else { starts[0] });
}

} // verus!
