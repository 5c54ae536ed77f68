//! Reading the command line: which port to listen on, or why not to start.
//!
//! The arguments are read from left to right, the program's own name left
//! out. `-p` takes the next argument as the port, `-h` asks for the usage
//! text, anything else is passed over. The first argument that ends the
//! reading decides; otherwise the last port given is used.

use vstd::prelude::*;
use vstd::string::*;

verus! {

/// The port listened on when none is given.
pub const DEFAULT_PORT: u16 = 8080;

/// What the command line asks for.
#[derive(Debug, Clone, Copy, PartialEq, Eq, Structural)]
pub enum Startup {
    /// Start the server on `port`.
    Serve { port: u16 },
    /// Print the usage text and leave.
    Help,
    /// `-p` was the last argument: say that it needs a port, and leave.
    MissingPort,
    /// What follows `-p` is no port: fail before anything is bound.
    InvalidPort,
}

/// Whether `c` is one of the ten decimal digits.
pub open spec fn is_digit(c: char) -> bool {
    '0' as int <= c as int <= '9' as int
}

/// The number a run of decimal digits stands for.
pub open spec fn decimal(digits: Seq<char>) -> int
    decreases digits.len(),
{
    if digits.len() == 0 {
        0
    } else {
        10 * decimal(digits.drop_last()) + (digits.last() as int - '0' as int)
    }
}

/// The text of a port without the `+` that may lead it.
pub open spec fn unsigned_part(text: Seq<char>) -> Seq<char> {
    if text.len() > 0 && text[0] == '+' {
        text.drop_first()
    } else {
        text
    }
}

/// The port that a text stands for: decimal digits, at least one, after an
/// optional `+`, with a value of at most 65535. Any other text is no port.
pub open spec fn port_of(text: Seq<char>) -> Option<u16> {
    let digits = unsigned_part(text);
    if digits.len() > 0 && (forall|i: int| 0 <= i < digits.len() ==> is_digit(digits[i]))
        && decimal(digits) <= 65535 {
        Some(decimal(digits) as u16)
    } else {
        None
    }
}

/// The arguments as sequences of characters.
pub open spec fn texts(args: Seq<String>) -> Seq<Seq<char>> {
    Seq::new(args.len(), |i: int| args[i]@)
}

/// What the arguments from place `i` on ask for, `port` being the port set
/// so far.
pub open spec fn startup_from(args: Seq<Seq<char>>, i: int, port: u16) -> Startup
    decreases args.len() - i,
{
    if i < 0 || i >= args.len() {
        Startup::Serve { port }
    } else if args[i] == "-p"@ {
        if i + 1 < args.len() {
            match port_of(args[i + 1]) {
                Some(given) => startup_from(args, i + 1, given),
                None => Startup::InvalidPort,
            }
        } else {
            Startup::MissingPort
        }
    } else if args[i] == "-h"@ {
        Startup::Help
    } else {
        startup_from(args, i + 1, port)
    }
}

/// What a command line asks for. Its first entry is the program's name and
/// is not read.
pub open spec fn startup(args: Seq<Seq<char>>) -> Startup {
    startup_from(args, 1, 8080)
}

/// Whether the reading goes on past place `j`: the argument there is no
/// `-h`, and if it is `-p`, a port follows it.
pub open spec fn passes_over(args: Seq<Seq<char>>, j: int) -> bool {
    &&& args[j] != "-h"@
    &&& args[j] == "-p"@ ==> j + 1 < args.len() && port_of(args[j + 1]) is Some
}

/// A text with a character that is no digit, other than a `+` in front, is
/// no port.
pub proof fn lemma_non_numeric_is_no_port(text: Seq<char>, i: int)
    requires
        0 <= i < text.len(),
        !is_digit(text[i]),
        i > 0 || text[0] != '+',
    ensures
        port_of(text) is None,
{
    let digits = unsigned_part(text);
    if text[0] == '+' {
        assert(digits[i - 1] == text[i]);
    } else {
        assert(digits[i] == text[i]);
    }
}

/// A `-p` followed by something that is no port stops the startup, whatever
/// stands after it, if the reading gets that far.
pub proof fn lemma_invalid_port_stops_startup(args: Seq<Seq<char>>, i: int)
    requires
        1 <= i,
        i + 1 < args.len(),
        args[i] == "-p"@,
        port_of(args[i + 1]) is None,
        forall|j: int| 1 <= j < i ==> passes_over(args, j),
    ensures
        startup(args) == Startup::InvalidPort,
{
    lemma_invalid_port_from(args, 1, i, 8080);
}

proof fn lemma_invalid_port_from(args: Seq<Seq<char>>, from: int, i: int, port: u16)
    requires
        1 <= from <= i,
        i + 1 < args.len(),
        args[i] == "-p"@,
        port_of(args[i + 1]) is None,
        forall|j: int| from <= j < i ==> passes_over(args, j),
    ensures
        startup_from(args, from, port) == Startup::InvalidPort,
    decreases i - from,
{
    if from < i {
        assert(passes_over(args, from));
        if args[from] == "-p"@ {
            lemma_invalid_port_from(args, from + 1, i, port_of(args[from + 1])->Some_0);
        } else {
            lemma_invalid_port_from(args, from + 1, i, port);
        }
    }
}

/// Without `-p` and `-h` among the arguments the server starts on the
/// default port.
pub proof fn lemma_no_flags_serves_default(args: Seq<Seq<char>>)
    requires
        forall|j: int| 1 <= j < args.len() ==> args[j] != "-p"@ && args[j] != "-h"@,
    ensures
        startup(args) == (Startup::Serve { port: 8080 }),
{
    lemma_no_flags_from(args, 1, 8080);
}

proof fn lemma_no_flags_from(args: Seq<Seq<char>>, from: int, port: u16)
    requires
        1 <= from,
        forall|j: int| from <= j < args.len() ==> args[j] != "-p"@ && args[j] != "-h"@,
    ensures
        startup_from(args, from, port) == (Startup::Serve { port }),
    decreases args.len() - from,
{
    if from < args.len() {
        lemma_no_flags_from(args, from + 1, port);
    }
}

/// Reads a port number from its text.
pub fn parse_port(text: &str) -> (port: Option<u16>)
    ensures
        port == port_of(text@),
{
    let n: usize = text.unicode_len();
    let start: usize = if n > 0 && text.get_char(0) == '+' {
        1
    } else {
        0
    };
    let ghost digits = unsigned_part(text@);
    assert(digits =~= text@.subrange(start as int, n as int));
    if start == n {
        return None;
    }
    let mut i: usize = start;
    let mut value: u32 = 0;
    let mut too_large = false;
    assert(digits.take(0) =~= Seq::<char>::empty());
    while i < n
        invariant
            n == text@.len(),
            start <= i <= n,
            digits == unsigned_part(text@),
            digits == text@.subrange(start as int, n as int),
            forall|j: int| 0 <= j < i - start ==> is_digit(digits[j]),
            too_large ==> decimal(digits.take(i - start)) > 65535,
            !too_large ==> value == decimal(digits.take(i - start)) && value <= 65535,
        decreases n - i,
    {
        let c = text.get_char(i);
        assert(c == digits[i - start]);
        if c < '0' || c > '9' {
            assert(!is_digit(digits[i - start]));
            return None;
        }
        let digit: u32 = c as u32 - 48;
        proof {
            let longer = digits.take(i - start + 1);
            assert(longer.drop_last() =~= digits.take(i - start));
            assert(longer.last() == c);
        }
        if !too_large {
            value = value * 10 + digit;
            if value > 65535 {
                too_large = true;
            }
        }
        i += 1;
    }
    assert(digits.take(n - start) =~= digits);
    if too_large {
        None
    } else {
        Some(value as u16)
    }
}

/// Reads the command line and says what it asks for.
pub fn parse_args(args: &Vec<String>) -> (r: Startup)
    ensures
        r == startup(texts(args@)),
{
    let port_flag = String::from_str("-p");
    let help_flag = String::from_str("-h");
    let n: usize = args.len();
    let mut port: u16 = DEFAULT_PORT;
    let mut i: usize = 1;
    while i < n
        invariant
            n == args@.len(),
            1 <= i,
            port_flag@ == "-p"@,
            help_flag@ == "-h"@,
            startup(texts(args@)) == startup_from(texts(args@), i as int, port),
        decreases n - i,
    {
        assert(texts(args@)[i as int] == args@[i as int]@);
        if args[i] == port_flag {
            if i + 1 < n {
                assert(texts(args@)[i + 1] == args@[i + 1]@);
                match parse_port(args[i + 1].as_str()) {
                    Some(given) => {
                        port = given;
                    },
                    None => {
                        return Startup::InvalidPort;
                    },
                }
            } else {
                return Startup::MissingPort;
            }
        } else if args[i] == help_flag {
            return Startup::Help;
        }
        i += 1;
    }
    Startup::Serve { port }
}

/// The text that explains the options.
pub fn usage() -> (text: String)
    ensures
        text@ == "Usage: \n-p [port number]: Set the port number for the server\n-h: Display this help message"@,
{
    String::from_str(
        "Usage: \n-p [port number]: Set the port number for the server\n-h: Display this help message",
    )
}

} // verus!
