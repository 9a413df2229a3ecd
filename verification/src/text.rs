//! Verified construction of the score / lives display strings, including
//! decimal rendering of the counters.

use vstd::prelude::*;
use vstd::string::StringExecFns;

verus! {

pub open spec fn digit_char(d: nat) -> char
    recommends
        d < 10,
{
    if d == 0 {
        '0'
    } else if d == 1 {
        '1'
    } else if d == 2 {
        '2'
    } else if d == 3 {
        '3'
    } else if d == 4 {
        '4'
    } else if d == 5 {
        '5'
    } else if d == 6 {
        '6'
    } else if d == 7 {
        '7'
    } else if d == 8 {
        '8'
    } else {
        '9'
    }
}

/// The decimal digit sequence of a natural number, most significant first.
pub open spec fn spec_dec(n: nat) -> Seq<char>
    decreases n,
{
    if n < 10 {
        seq![digit_char(n)]
    } else {
        spec_dec(n / 10).push(digit_char(n % 10))
    }
}

/// The decimal rendering of a signed number: a leading minus sign when it is
/// negative.
pub open spec fn spec_dec_signed(n: int) -> Seq<char> {
    if n >= 0 {
        spec_dec(n as nat)
    } else {
        seq!['-'] + spec_dec((-n) as nat)
    }
}

fn digit_str(d: u64) -> (s: &'static str)
    requires
        d < 10,
    ensures
        s@ == seq![digit_char(d as nat)],
{
    proof {
        reveal_strlit("0");
        reveal_strlit("1");
        reveal_strlit("2");
        reveal_strlit("3");
        reveal_strlit("4");
        reveal_strlit("5");
        reveal_strlit("6");
        reveal_strlit("7");
        reveal_strlit("8");
        reveal_strlit("9");
    }
    let s: &'static str = if d == 0 {
        "0"
    } else if d == 1 {
        "1"
    } else if d == 2 {
        "2"
    } else if d == 3 {
        "3"
    } else if d == 4 {
        "4"
    } else if d == 5 {
        "5"
    } else if d == 6 {
        "6"
    } else if d == 7 {
        "7"
    } else if d == 8 {
        "8"
    } else {
        "9"
    };
    proof {
        assert(s@ =~= seq![digit_char(d as nat)]);
    }
    s
}

/// Renders an unsigned counter in decimal.
pub fn u64_string(n: u64) -> (s: String)
    ensures
        s@ == spec_dec(n as nat),
    decreases n,
{
    if n < 10 {
        String::from_str(digit_str(n))
    } else {
        let mut s = u64_string(n / 10);
        s.append(digit_str(n % 10));
        proof {
            assert(s@ =~= spec_dec(n as nat));
        }
        s
    }
}

/// Renders a signed counter in decimal.
pub fn i64_string(n: i64) -> (s: String)
    ensures
        s@ == spec_dec_signed(n as int),
{
    if n >= 0 {
        let s = u64_string(n as u64);
        s
    } else {
        let mag: u64 = ((-(n + 1)) as u64) + 1;
        assert(mag == -(n as int));
        let mut s = String::from_str("-");
        proof {
            reveal_strlit("-");
            assert(s@ =~= seq!['-']);
        }
        let tail = u64_string(mag);
        s.append(tail.as_str());
        proof {
            assert(s@ =~= spec_dec_signed(n as int));
        }
        s
    }
}

/// The paddle-ball variant's display line: both scores and the rally count.
pub open spec fn spec_pong_text(s0: nat, s1: nat, hits: nat) -> Seq<char> {
    "Score: "@ + spec_dec(s0) + "x"@ + spec_dec(s1) + " - Hits: "@ + spec_dec(hits)
}

pub fn pong_text(s0: u32, s1: u32, hits: u32) -> (t: String)
    ensures
        t@ == spec_pong_text(s0 as nat, s1 as nat, hits as nat),
{
    let mut t = String::from_str("Score: ");
    let d0 = u64_string(s0 as u64);
    t.append(d0.as_str());
    t.append("x");
    let d1 = u64_string(s1 as u64);
    t.append(d1.as_str());
    t.append(" - Hits: ");
    let dh = u64_string(hits as u64);
    t.append(dh.as_str());
    proof {
        assert(t@ =~= spec_pong_text(s0 as nat, s1 as nat, hits as nat));
    }
    t
}

/// The lane-crosser and brick-breaker variants' display line.
pub open spec fn spec_score_lives_text(score: nat, lives: int) -> Seq<char> {
    "Score: "@ + spec_dec(score) + " Lives: "@ + spec_dec_signed(lives)
}

pub fn score_lives_text(score: u32, lives: i64) -> (t: String)
    ensures
        t@ == spec_score_lives_text(score as nat, lives as int),
{
    let mut t = String::from_str("Score: ");
    let ds = u64_string(score as u64);
    t.append(ds.as_str());
    t.append(" Lives: ");
    let dl = i64_string(lives);
    t.append(dl.as_str());
    proof {
        assert(t@ =~= spec_score_lives_text(score as nat, lives as int));
    }
    t
}

} // verus!
