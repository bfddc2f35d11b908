//! Text shown on screen: phase names, and the `M:SS`-style countdown (the
//! seconds field is not zero-padded, so 1500 seconds reads `25:0`).

use vstd::prelude::*;
use vstd::string::StringExecFns;
use crate::timer::Phase;

verus! {

/// The decimal digit character for a value below ten.
pub open spec fn digit_char(d: nat) -> char
    recommends
        d < 10,
{
    if d == 0 {
        '0'
    } else if d == 1 {
        '1'
    } else if d == 2 {
        '2'
    } else if d == 3 {
        '3'
    } else if d == 4 {
        '4'
    } else if d == 5 {
        '5'
    } else if d == 6 {
        '6'
    } else if d == 7 {
        '7'
    } else if d == 8 {
        '8'
    } else {
        '9'
    }
}

/// The ordinary decimal rendering of `n`, most significant digit first, with
/// no leading zeros (a lone `0` for zero itself).
pub open spec fn spec_decimal(n: nat) -> Seq<char>
    decreases n,
{
    if n < 10 {
        seq![digit_char(n)]
    } else {
        spec_decimal(n / 10).push(digit_char(n % 10))
    }
}

/// The single-character string for a decimal digit.
fn digit_str(d: u64) -> (r: &'static str)
    requires
        d < 10,
    ensures
        r@ == seq![digit_char(d as nat)],
{
    proof {
        reveal_strlit("0");
        reveal_strlit("1");
        reveal_strlit("2");
        reveal_strlit("3");
        reveal_strlit("4");
        reveal_strlit("5");
        reveal_strlit("6");
        reveal_strlit("7");
        reveal_strlit("8");
        reveal_strlit("9");
        assert("0"@ =~= seq!['0']);
        assert("1"@ =~= seq!['1']);
        assert("2"@ =~= seq!['2']);
        assert("3"@ =~= seq!['3']);
        assert("4"@ =~= seq!['4']);
        assert("5"@ =~= seq!['5']);
        assert("6"@ =~= seq!['6']);
        assert("7"@ =~= seq!['7']);
        assert("8"@ =~= seq!['8']);
        assert("9"@ =~= seq!['9']);
    }
    if d == 0 {
        "0"
    } else if d == 1 {
        "1"
    } else if d == 2 {
        "2"
    } else if d == 3 {
        "3"
    } else if d == 4 {
        "4"
    } else if d == 5 {
        "5"
    } else if d == 6 {
        "6"
    } else if d == 7 {
        "7"
    } else if d == 8 {
        "8"
    } else {
        "9"
    }
}

/// Render `n` in decimal.
pub fn u64_to_string(n: u64) -> (r: String)
    ensures
        r@ == spec_decimal(n as nat),
    decreases n,
{
    if n < 10 {
        String::from_str(digit_str(n))
    } else {
        let prefix = u64_to_string(n / 10);
        let r = prefix.concat(digit_str(n % 10));
        proof {
            assert(r@ =~= spec_decimal(n as nat));
        }
        r
    }
}

/// The countdown text for `t` remaining seconds: whole minutes, a colon, then
/// the leftover seconds (not zero-padded).
pub open spec fn spec_m_sec(t: u64) -> Seq<char> {
    spec_decimal((t / 60) as nat) + seq![':'] + spec_decimal((t % 60) as nat)
}

/// The countdown text for `t` remaining seconds: whole minutes, a colon, then
/// the leftover seconds (not zero-padded).
pub fn sec_to_m_sec(t: u64) -> (r: String)
    ensures
        r@ == spec_m_sec(t),
{
    let minutes = u64_to_string(t / 60);
    let seconds = u64_to_string(t % 60);
    let r = minutes.concat(":").concat(seconds.as_str());
    proof {
        reveal_strlit(":");
        assert(":"@ =~= seq![':']);
        assert(r@ =~= spec_m_sec(t));
    }
    r
}

/// The human name of each phase.
pub open spec fn spec_phase_name(phase: Phase) -> Seq<char> {
    match phase {
        Phase::Focus => "Focus"@,
        Phase::Break => "Break"@,
        Phase::LongBreak => "Long break"@,
        Phase::Idle => "Not running"@,
    }
}

/// The human name of each phase.
pub fn state_to_string(state: &Phase) -> (r: &'static str)
    ensures
        r@ == spec_phase_name(*state),
{
    match state {
        Phase::Focus => "Focus",
        Phase::Break => "Break",
        Phase::LongBreak => "Long break",
        Phase::Idle => "Not running",
    }
}

/// The idle screen's caption: which phase the start action would begin.
pub fn next_phase_label(next: Phase) -> (r: String)
    ensures
        r@ == "Next: "@ + spec_phase_name(next),
{
    String::from_str("Next: ").concat(state_to_string(&next))
}

} // verus!
