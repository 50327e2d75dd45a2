//! Construction of the compose command line sent to a remote agent.

use vstd::prelude::*;
use vstd::string::StringExecFns;

verus! {

/// The characters of a natural number written in base ten, without
/// leading zeros (zero is written `0`).
pub open spec fn decimal(n: nat) -> Seq<char>
    decreases n,
{
    if n < 10 {
        seq![digit_char(n)]
    } else {
        decimal(n / 10).push(digit_char(n % 10))
    }
}

/// The character of a single decimal digit.
pub open spec fn digit_char(d: nat) -> char {
    if d == 0 {
        '0'
    } else if d == 1 {
        '1'
    } else if d == 2 {
        '2'
    } else if d == 3 {
        '3'
    } else if d == 4 {
        '4'
    } else if d == 5 {
        '5'
    } else if d == 6 {
        '6'
    } else if d == 7 {
        '7'
    } else if d == 8 {
        '8'
    } else {
        '9'
    }
}

/// A signed integer written in base ten, with a leading `-` when negative.
pub open spec fn signed_decimal(n: int) -> Seq<char> {
    if n < 0 {
        seq!['-'] + decimal((-n) as nat)
    } else {
        decimal(n as nat)
    }
}

fn digit_str(d: u64) -> (s: &'static str)
    requires
        d < 10,
    ensures
        s@ == seq![digit_char(d as nat)],
{
    proof {
        reveal_strlit("0");
        reveal_strlit("1");
        reveal_strlit("2");
        reveal_strlit("3");
        reveal_strlit("4");
        reveal_strlit("5");
        reveal_strlit("6");
        reveal_strlit("7");
        reveal_strlit("8");
        reveal_strlit("9");
    }
    let s = if d == 0 {
        "0"
    } else if d == 1 {
        "1"
    } else if d == 2 {
        "2"
    } else if d == 3 {
        "3"
    } else if d == 4 {
        "4"
    } else if d == 5 {
        "5"
    } else if d == 6 {
        "6"
    } else if d == 7 {
        "7"
    } else if d == 8 {
        "8"
    } else {
        "9"
    };
    assert(s@ =~= seq![digit_char(d as nat)]);
    s
}

/// Writes `n` in base ten.
pub fn format_unsigned(n: u64) -> (s: String)
    ensures
        s@ == decimal(n as nat),
    decreases n,
{
    if n < 10 {
        String::from_str(digit_str(n))
    } else {
        let mut s = format_unsigned(n / 10);
        s.append(digit_str(n % 10));
        assert(s@ =~= decimal(n as nat));
        s
    }
}

/// Writes `n` in base ten, with a leading `-` when it is negative.
pub fn format_signed(n: i32) -> (s: String)
    ensures
        s@ == signed_decimal(n as int),
{
    if n < 0 {
        let magnitude: u64 = if n == i32::MIN {
            2147483648u64
        } else {
            (-n) as u64
        };
        let digits = format_unsigned(magnitude);
        let mut s = String::from_str("-");
        s.append(digits.as_str());
        proof {
            reveal_strlit("-");
            assert(s@ =~= signed_decimal(n as int));
        }
        s
    } else {
        format_unsigned(n as u64)
    }
}

/// The timeout modifier of a command: empty without a timeout, else
/// ` --timeout ` followed by the seconds in base ten.
pub open spec fn timeout_flag(timeout: Option<i32>) -> Seq<char> {
    match timeout {
        Some(seconds) => " --timeout "@ + signed_decimal(seconds as int),
        None => Seq::empty(),
    }
}

/// The orphan-removal modifier of a command.
pub open spec fn orphans_flag(remove_orphans: bool) -> Seq<char> {
    if remove_orphans {
        " --remove-orphans"@
    } else {
        Seq::empty()
    }
}

/// The trailing service name of a command: a space and the name, or
/// nothing where the whole stack is addressed.
pub open spec fn service_suffix(service: Option<Seq<char>>) -> Seq<char> {
    match service {
        Some(name) => seq![' '] + name,
        None => Seq::empty(),
    }
}

/// The view of an optional service name.
pub open spec fn service_view(service: &Option<String>) -> Option<Seq<char>> {
    match service {
        Some(name) => Some(name@),
        None => None,
    }
}

/// Renders the timeout modifier.
pub fn maybe_timeout(timeout: Option<i32>) -> (s: String)
    ensures
        s@ == timeout_flag(timeout),
{
    match timeout {
        Some(seconds) => {
            let digits = format_signed(seconds);
            let mut s = String::from_str(" --timeout ");
            s.append(digits.as_str());
            s
        },
        None => String::new(),
    }
}

/// Renders the orphan-removal modifier.
pub fn maybe_remove_orphans(remove_orphans: bool) -> (s: &'static str)
    ensures
        s@ == orphans_flag(remove_orphans),
{
    if remove_orphans {
        " --remove-orphans"
    } else {
        proof {
            reveal_strlit("");
            assert(""@ =~= Seq::<char>::empty());
        }
        ""
    }
}

/// Renders the trailing service name.
pub fn maybe_service(service: &Option<String>) -> (s: String)
    ensures
        s@ == service_suffix(service_view(service)),
{
    match service {
        Some(name) => {
            let mut s = String::from_str(" ");
            s.append(name.as_str());
            proof {
                reveal_strlit(" ");
                assert(s@ =~= seq![' '] + name@);
            }
            s
        },
        None => String::new(),
    }
}

/// A complete command: the keyword, then the timeout modifier, the
/// orphan-removal modifier and the service name, in that order.
pub open spec fn command_line(
    keyword: Seq<char>,
    timeout: Option<i32>,
    remove_orphans: bool,
    service: Option<Seq<char>>,
) -> Seq<char> {
    keyword + timeout_flag(timeout) + orphans_flag(remove_orphans) + service_suffix(service)
}

/// Assembles a command from its keyword and modifiers.
pub fn build_command(
    keyword: &str,
    timeout: Option<i32>,
    remove_orphans: bool,
    service: &Option<String>,
) -> (command: String)
    ensures
        command@ == command_line(keyword@, timeout, remove_orphans, service_view(service)),
{
    let mut command = String::from_str(keyword);
    let timeout_part = maybe_timeout(timeout);
    command.append(timeout_part.as_str());
    command.append(maybe_remove_orphans(remove_orphans));
    let service_part = maybe_service(service);
    command.append(service_part.as_str());
    command
}

} // verus!
