use vstd::prelude::*;
use vstd::string::StringExecFns;

verus! {

/// The operating-system family the host runs on, as far as termination goes.
#[derive(PartialEq, Eq, Structural, Clone, Copy)]
pub enum Platform {
    /// Descendants of a killed process survive it; a forced tree kill is needed.
    Windows,
    /// A standard kill is enough.
    Posix,
}

/// The character of a decimal digit.
pub open spec fn digit_char(d: nat) -> char {
    if d == 0 { '0' }
    else if d == 1 { '1' }
    else if d == 2 { '2' }
    else if d == 3 { '3' }
    else if d == 4 { '4' }
    else if d == 5 { '5' }
    else if d == 6 { '6' }
    else if d == 7 { '7' }
    else if d == 8 { '8' }
    else { '9' }
}

/// The decimal writing of `n`, without leading zeros.
pub open spec fn decimal(n: nat) -> Seq<char>
    decreases n,
{
    if n < 10 {
        seq![digit_char(n)]
    } else {
        decimal(n / 10).push(digit_char(n % 10))
    }
}

fn digit_str(d: u32) -> (r: &'static str)
    requires
        d < 10,
    ensures
        r@ == seq![digit_char(d as nat)],
{
    if d == 0 {
        proof { reveal_strlit("0"); }
        "0"
    } else if d == 1 {
        proof { reveal_strlit("1"); }
        "1"
    } else if d == 2 {
        proof { reveal_strlit("2"); }
        "2"
    } else if d == 3 {
        proof { reveal_strlit("3"); }
        "3"
    } else if d == 4 {
        proof { reveal_strlit("4"); }
        "4"
    } else if d == 5 {
        proof { reveal_strlit("5"); }
        "5"
    } else if d == 6 {
        proof { reveal_strlit("6"); }
        "6"
    } else if d == 7 {
        proof { reveal_strlit("7"); }
        "7"
    } else if d == 8 {
        proof { reveal_strlit("8"); }
        "8"
    } else {
        proof { reveal_strlit("9"); }
        "9"
    }
}

/// The decimal writing of `n`.
pub fn decimal_string(n: u32) -> (r: String)
    ensures
        r@ == decimal(n as nat),
    decreases n,
{
    if n < 10 {
        <String as StringExecFns>::from_str(digit_str(n))
    } else {
        let mut s = decimal_string(n / 10);
        s.append(digit_str(n % 10));
        s
    }
}

/// The forced termination of the process tree rooted at `pid`, as a command
/// line (program first), on the platform that needs one; `None` where a
/// standard kill already ends the descendants.
pub fn kill_process_tree(pid: u32, platform: Platform) -> (r: Option<Vec<String>>)
    ensures
        platform is Posix ==> r is None,
        platform is Windows ==> r is Some && r->0@.map_values(|s: String| s@) == seq![
            "taskkill"@,
            "/F"@,
            "/T"@,
            "/PID"@,
            decimal(pid as nat),
        ],
{
    match platform {
        Platform::Posix => None,
        Platform::Windows => {
            let mut cmd: Vec<String> = Vec::new();
            cmd.push(<String as StringExecFns>::from_str("taskkill"));
            cmd.push(<String as StringExecFns>::from_str("/F"));
            cmd.push(<String as StringExecFns>::from_str("/T"));
            cmd.push(<String as StringExecFns>::from_str("/PID"));
            cmd.push(decimal_string(pid));
            proof {
                assert(cmd@.map_values(|s: String| s@) =~= seq![
                    "taskkill"@,
                    "/F"@,
                    "/T"@,
                    "/PID"@,
                    decimal(pid as nat),
                ]);
            }
            Some(cmd)
        },
    }
}

} // verus!
