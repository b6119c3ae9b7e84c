//! The command lines of the system tools through which processes are
//! listed and ended.

use vstd::prelude::*;
use vstd::string::StringExecFns;
use crate::health::BACKEND_PORT;
use crate::pids::{decimal_value, is_digit, pid_of, texts};
use crate::reaper::{ReapAction, Signal};
use crate::sweep::SweepQuery;

verus! {

/// A program and its arguments.
pub struct CommandLine {
    pub program: String,
    pub arguments: Vec<String>,
}

impl View for CommandLine {
    type V = Seq<Seq<char>>;

    /// The words of the command line: the program, then its arguments.
    open spec fn view(&self) -> Seq<Seq<char>> {
        seq![self.program@] + texts(self.arguments@)
    }
}

/// The character of a digit.
pub open spec fn digit_char(d: nat) -> char
    recommends
        d < 10,
{
    (0x30 + d) as char
}

/// A number written in base ten, without sign or leading zeros.
pub open spec fn decimal(n: nat) -> Seq<char>
    decreases n,
{
    if n < 10 {
        seq![digit_char(n)]
    } else {
        decimal(n / 10).push(digit_char(n % 10))
    }
}

/// The flag by which the signalling tool is told the signal.
pub open spec fn signal_flag(signal: Signal) -> Seq<char> {
    match signal {
        Signal::Terminate => "-15"@,
        Signal::Kill => "-9"@,
    }
}

/// The words that send `signal` to the process `pid`.
pub open spec fn signal_words(signal: Signal, pid: u32) -> Seq<Seq<char>> {
    seq!["kill"@, signal_flag(signal), decimal(pid as nat)]
}

/// The words that end by force the process that a socket table names.
pub open spec fn taskkill_words(owner: Seq<char>) -> Seq<Seq<char>> {
    seq!["taskkill"@, "/F"@, "/PID"@, owner]
}

/// The words that end by force every process of the backend's image.
pub open spec fn taskkill_image_words() -> Seq<Seq<char>> {
    seq!["taskkill"@, "/F"@, "/IM"@, "xfactor-backend.exe"@]
}

/// The words of a listing.
pub open spec fn query_words(query: SweepQuery) -> Seq<Seq<char>> {
    match query {
        SweepQuery::ProcessesByName => seq!["pgrep"@, "-f"@, "xfactor-backend"@],
        SweepQuery::ProcessesByPort => seq!["lsof"@, "-ti"@, ":9876"@],
        SweepQuery::ListeningSockets => seq!["netstat"@, "-ano"@],
    }
}

/// The words that carry out a step of a teardown, for the steps that a
/// system tool carries out.
pub open spec fn action_words(action: ReapAction) -> Option<Seq<Seq<char>>> {
    match action {
        ReapAction::Signal { signal, pid } => Some(signal_words(signal, pid)),
        ReapAction::TaskKill { pid } => Some(taskkill_words(decimal(pid as nat))),
        _ => None,
    }
}

/// The digits of a number are digits, and at least one.
pub proof fn lemma_decimal_is_digits(n: nat)
    ensures
        decimal(n).len() >= 1,
        forall|k: int| 0 <= k < decimal(n).len() ==> is_digit(#[trigger] decimal(n)[k]),
    decreases n,
{
    if n >= 10 {
        lemma_decimal_is_digits(n / 10);
    }
}

/// The value of digits depends on nothing outside their range.
pub proof fn lemma_value_is_local(a: Seq<char>, b: Seq<char>, lo: int, hi: int)
    requires
        0 <= lo,
        hi <= a.len(),
        hi <= b.len(),
        forall|k: int| lo <= k < hi ==> a[k] == b[k],
    ensures
        decimal_value(a, lo, hi) == decimal_value(b, lo, hi),
    decreases hi - lo,
{
    if hi > lo {
        lemma_value_is_local(a, b, lo, hi - 1);
    }
}

/// The digits of a number have the number as their value.
pub proof fn lemma_decimal_value(n: nat)
    ensures
        decimal_value(decimal(n), 0, decimal(n).len() as int) == n,
    decreases n,
{
    let text = decimal(n);
    if n < 10 {
        assert(decimal_value(text, 0, 0) == 0);
    } else {
        let head = decimal(n / 10);
        lemma_decimal_value(n / 10);
        lemma_value_is_local(text, head, 0, head.len() as int);
    }
}

/// A process id written in base ten reads back as itself: what a command
/// line names is the process that the listing named.
pub proof fn lemma_decimal_reads_back(pid: u32)
    ensures
        pid_of(decimal(pid as nat)) == Some(pid),
{
    lemma_decimal_is_digits(pid as nat);
    lemma_decimal_value(pid as nat);
}

/// The port named in listings and socket tables is the port that is probed.
pub proof fn lemma_port_is_the_probed_one()
    ensures
        ":9876"@ == seq![':'] + decimal(BACKEND_PORT as nat),
{
    reveal_strlit(":9876");
    reveal_with_fuel(decimal, 4);
}

fn digit_text(d: u32) -> (text: &'static str)
    requires
        d < 10,
    ensures
        text@ == seq![digit_char(d as nat)],
{
    proof {
        reveal_strlit("0");
        reveal_strlit("1");
        reveal_strlit("2");
        reveal_strlit("3");
        reveal_strlit("4");
        reveal_strlit("5");
        reveal_strlit("6");
        reveal_strlit("7");
        reveal_strlit("8");
        reveal_strlit("9");
    }
    let text = if d == 0 {
        "0"
    } else if d == 1 {
        "1"
    } else if d == 2 {
        "2"
    } else if d == 3 {
        "3"
    } else if d == 4 {
        "4"
    } else if d == 5 {
        "5"
    } else if d == 6 {
        "6"
    } else if d == 7 {
        "7"
    } else if d == 8 {
        "8"
    } else {
        "9"
    };
    text
}

fn append_decimal(out: &mut String, n: u32)
    ensures
        final(out)@ == old(out)@ + decimal(n as nat),
    decreases n,
{
    if n >= 10 {
        append_decimal(out, n / 10);
    }
    out.append(digit_text(n % 10));
}

/// Writes a number in base ten.
pub fn decimal_text(n: u32) -> (text: String)
    ensures
        text@ == decimal(n as nat),
{
    let mut text = String::new();
    append_decimal(&mut text, n);
    text
}

fn command_of(program: &str, arguments: Vec<String>) -> (line: CommandLine)
    ensures
        line@ == seq![program@] + texts(arguments@),
{
    CommandLine { program: program.to_string(), arguments }
}

/// The command that sends `signal` to the process `pid`.
pub fn signal_command(signal: Signal, pid: u32) -> (line: CommandLine)
    ensures
        line@ == signal_words(signal, pid),
{
    let mut arguments: Vec<String> = Vec::new();
    match signal {
        Signal::Terminate => arguments.push("-15".to_string()),
        Signal::Kill => arguments.push("-9".to_string()),
    }
    arguments.push(decimal_text(pid));
    let line = command_of("kill", arguments);
    line
}

/// The command that ends by force the process that a socket table names.
/// The name goes through as the table wrote it.
pub fn taskkill_command(owner: &str) -> (line: CommandLine)
    ensures
        line@ == taskkill_words(owner@),
{
    let mut arguments: Vec<String> = Vec::new();
    arguments.push("/F".to_string());
    arguments.push("/PID".to_string());
    arguments.push(owner.to_string());
    let line = command_of("taskkill", arguments);
    line
}

/// The command that ends by force every process of the backend's image.
pub fn taskkill_image_command() -> (line: CommandLine)
    ensures
        line@ == taskkill_image_words(),
{
    let mut arguments: Vec<String> = Vec::new();
    arguments.push("/F".to_string());
    arguments.push("/IM".to_string());
    arguments.push("xfactor-backend.exe".to_string());
    let line = command_of("taskkill", arguments);
    line
}

/// The command of a listing.
pub fn query_command(query: SweepQuery) -> (line: CommandLine)
    ensures
        line@ == query_words(query),
{
    let mut arguments: Vec<String> = Vec::new();
    let line = match query {
        SweepQuery::ProcessesByName => {
            arguments.push("-f".to_string());
            arguments.push("xfactor-backend".to_string());
            command_of("pgrep", arguments)
        },
        SweepQuery::ProcessesByPort => {
            arguments.push("-ti".to_string());
            arguments.push(":9876".to_string());
            command_of("lsof", arguments)
        },
        SweepQuery::ListeningSockets => {
            arguments.push("-ano".to_string());
            command_of("netstat", arguments)
        },
    };
    line
}

/// The command that carries out a step of a teardown, if a system tool
/// does: a signal or a forced end. The other steps have none.
pub fn action_command(action: ReapAction) -> (line: Option<CommandLine>)
    ensures
        match line {
            Some(l) => action_words(action) == Some(l@),
            None => action_words(action) is None,
        },
{
    match action {
        ReapAction::Signal { signal, pid } => Some(signal_command(signal, pid)),
        ReapAction::TaskKill { pid } => {
            let text = decimal_text(pid);
            Some(taskkill_command(text.as_str()))
        },
        _ => None,
    }
}

} // verus!
