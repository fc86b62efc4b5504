//! Text built by the worker: decimal numbers, environment entries and the
//! shell command line.

use vstd::prelude::*;
use vstd::string::*;

verus! {

/// The script prefix that sources the system-wide and then the user's
/// profile, each only where the file exists.
pub open spec fn profile_prefix() -> Seq<char> {
    "[ -f /etc/profile ] && . /etc/profile; [ -f $HOME/.profile ] && . $HOME/.profile; "@
}

pub open spec fn digit(d: nat) -> char {
    if d == 0 { '0' }
    else if d == 1 { '1' }
    else if d == 2 { '2' }
    else if d == 3 { '3' }
    else if d == 4 { '4' }
    else if d == 5 { '5' }
    else if d == 6 { '6' }
    else if d == 7 { '7' }
    else if d == 8 { '8' }
    else { '9' }
}

/// The decimal digits of `n`, most significant first, without leading zeros.
pub open spec fn decimal_of(n: nat) -> Seq<char>
    decreases n,
{
    if n < 10 {
        seq![digit(n)]
    } else {
        decimal_of(n / 10).push(digit(n % 10))
    }
}

/// The words of `ws`, separated by single spaces.
pub open spec fn joined(ws: Seq<String>) -> Seq<char>
    decreases ws.len(),
{
    if ws.len() == 0 {
        Seq::empty()
    } else if ws.len() == 1 {
        ws[0]@
    } else {
        joined(ws.drop_last()) + " "@ + ws.last()@
    }
}

/// `name=value`.
pub open spec fn entry_of(name: Seq<char>, value: Seq<char>) -> Seq<char> {
    name + "="@ + value
}

/// The command line handed to `sh -c`: the words of `cmd` after `exec`,
/// preceded by the profile prefix where profiles are sourced.
pub open spec fn shell_command_of(cmd: Seq<String>, source_profile: bool) -> Seq<char> {
    if source_profile {
        profile_prefix() + "exec "@ + joined(cmd)
    } else {
        "exec "@ + joined(cmd)
    }
}

fn digit_str(d: usize) -> (r: &'static str)
    requires
        d < 10,
    ensures
        r@ == seq![digit(d as nat)],
{
    proof {
        reveal_strlit("0");
        reveal_strlit("1");
        reveal_strlit("2");
        reveal_strlit("3");
        reveal_strlit("4");
        reveal_strlit("5");
        reveal_strlit("6");
        reveal_strlit("7");
        reveal_strlit("8");
        reveal_strlit("9");
    }
    if d == 0 { "0" }
    else if d == 1 { "1" }
    else if d == 2 { "2" }
    else if d == 3 { "3" }
    else if d == 4 { "4" }
    else if d == 5 { "5" }
    else if d == 6 { "6" }
    else if d == 7 { "7" }
    else if d == 8 { "8" }
    else { "9" }
}

/// `n` written in decimal.
pub fn decimal(n: usize) -> (r: String)
    ensures
        r@ == decimal_of(n as nat),
    decreases n,
{
    if n < 10 {
        String::from_str(digit_str(n))
    } else {
        let mut s = decimal(n / 10);
        s.append(digit_str(n % 10));
        s
    }
}

/// The words of `ws`, separated by single spaces.
pub fn join_words(ws: &Vec<String>) -> (r: String)
    ensures
        r@ == joined(ws@),
{
    let mut s = String::new();
    let mut i: usize = 0;
    while i < ws.len()
        invariant
            i <= ws.len(),
            s@ == joined(ws@.subrange(0, i as int)),
        decreases ws.len() - i,
    {
        let ghost before = ws@.subrange(0, i as int);
        let ghost after = ws@.subrange(0, i as int + 1);
        assert(after.drop_last() =~= before);
        if i > 0 {
            s.append(" ");
        } else {
            assert(s@ =~= Seq::<char>::empty());
        }
        s.append(ws[i].as_str());
        i = i + 1;
    }
    assert(ws@.subrange(0, ws.len() as int) =~= ws@);
    s
}

/// The environment entry `name=value`.
pub fn env_entry(name: &str, value: &str) -> (r: String)
    ensures
        r@ == entry_of(name@, value@),
{
    let mut s = String::from_str(name);
    s.append("=");
    s.append(value);
    s
}

/// The command line that the session's shell runs.
pub fn shell_command(cmd: &Vec<String>, source_profile: bool) -> (r: String)
    ensures
        r@ == shell_command_of(cmd@, source_profile),
{
    let words = join_words(cmd);
    let mut s = if source_profile {
        let mut p = String::from_str(
            "[ -f /etc/profile ] && . /etc/profile; [ -f $HOME/.profile ] && . $HOME/.profile; ",
        );
        p.append("exec ");
        p
    } else {
        String::from_str("exec ")
    };
    s.append(words.as_str());
    s
}

/// Whether `s` holds a NUL character, which native strings cannot carry.
pub fn has_nul(s: &str) -> (r: bool)
    ensures
        r == exists|i: int| 0 <= i < s@.len() && s@[i] == '\0',
{
    let n = s.unicode_len();
    let mut i: usize = 0;
    while i < n
        invariant
            i <= n,
            n == s@.len(),
            forall|j: int| 0 <= j < i ==> s@[j] != '\0',
        decreases n - i,
    {
        if s.get_char(i) == '\0' {
            return true;
        }
        i = i + 1;
    }
    false
}

} // verus!
