//! The sweep for stragglers: a broad, last-resort cleanup that ends every
//! process which looks like the backend, by name or by the port it holds,
//! whoever started it. It runs only on shutdown and cleanup, never on start.

use vstd::prelude::*;
use crate::commands::{
    signal_command, signal_words, taskkill_command, taskkill_words, CommandLine,
};
use crate::pids::{
    listening_owners, parse_pid_lines, pid_lines, socket_owners, texts,
};
use crate::reaper::{Platform, Signal};

verus! {

/// A listing whose output names the processes to end.
#[derive(Clone, Copy, Debug, PartialEq, Eq, Structural)]
pub enum SweepQuery {
    /// Processes whose command line holds the backend's name.
    ProcessesByName,
    /// Processes bound to the backend's port.
    ProcessesByPort,
    /// All sockets with their owning process ids.
    ListeningSockets,
}

/// One step of the sweep.
#[derive(Clone, Copy, Debug, PartialEq, Eq, Structural)]
pub enum SweepStep {
    /// End every process running the backend's executable image.
    KillImage,
    /// Run a listing and end every process that it names.
    Query { query: SweepQuery },
}

/// The sweep of a platform, in order.
pub open spec fn sweep_plan(platform: Platform) -> Seq<SweepStep> {
    match platform {
        Platform::Unix => seq![
            SweepStep::Query { query: SweepQuery::ProcessesByName },
            SweepStep::Query { query: SweepQuery::ProcessesByPort },
        ],
        Platform::Windows => seq![
            SweepStep::KillImage,
            SweepStep::Query { query: SweepQuery::ListeningSockets },
        ],
    }
}

/// The broad cleanup for stragglers: by name, then by port. It depends on
/// nothing but the platform, so it runs the same with nothing tracked and
/// nothing recorded.
pub fn kill_zombie_backends(platform: Platform) -> (steps: Vec<SweepStep>)
    ensures
        steps@ == sweep_plan(platform),
{
    let mut steps: Vec<SweepStep> = Vec::new();
    match platform {
        Platform::Unix => {
            steps.push(SweepStep::Query { query: SweepQuery::ProcessesByName });
            steps.push(SweepStep::Query { query: SweepQuery::ProcessesByPort });
        },
        Platform::Windows => {
            steps.push(SweepStep::KillImage);
            steps.push(SweepStep::Query { query: SweepQuery::ListeningSockets });
        },
    }
    steps
}

/// What a list of command lines says.
pub open spec fn lines_of(commands: Seq<CommandLine>) -> Seq<Seq<Seq<char>>> {
    commands.map_values(|c: CommandLine| c@)
}

/// The commands that end what a listing names, in the listing's order: a
/// forceful signal for each process id of a listing of processes, a forced
/// end for each owner of a listening socket of a socket table.
pub open spec fn sweep_words(query: SweepQuery, listing: Seq<char>) -> Seq<Seq<Seq<char>>> {
    match query {
        SweepQuery::ListeningSockets => socket_owners(listing).map_values(
            |owner: Seq<char>| taskkill_words(owner),
        ),
        _ => pid_lines(listing).map_values(|pid: u32| signal_words(Signal::Kill, pid)),
    }
}

/// The text that a tool's output is read as: its bytes taken as UTF-8, with
/// the replacement character for every part that is none.
pub uninterp spec fn lossy_text(bytes: Seq<u8>) -> Seq<char>;

/// `String::from_utf8_lossy` of std, with the result as an owned string.
/// The contract only names the text that comes out; nothing is claimed of
/// what it holds.
#[verifier::external_body]
fn decode_lossy(bytes: &[u8]) -> (text: String)
    ensures
        text@ == lossy_text(bytes@),
{
    String::from_utf8_lossy(bytes).into_owned()
}

/// Turns the text of a listing into the commands that end what it names.
pub fn sweep_kills_in(query: SweepQuery, listing: &str) -> (kills: Vec<CommandLine>)
    ensures
        lines_of(kills@) == sweep_words(query, listing@),
{
    let mut kills: Vec<CommandLine> = Vec::new();
    match query {
        SweepQuery::ListeningSockets => {
            let owners = listening_owners(listing);
            let mut i: usize = 0;
            while i < owners.len()
                invariant
                    i <= owners@.len(),
                    kills@.len() == i,
                    texts(owners@) == socket_owners(listing@),
                    forall|j: int| 0 <= j < i ==> (#[trigger] kills@[j])@ == taskkill_words(
                        owners@[j]@,
                    ),
                decreases owners@.len() - i,
            {
                kills.push(taskkill_command(owners[i].as_str()));
                i += 1;
            }
            assert forall|j: int| 0 <= j < kills@.len() implies lines_of(kills@)[j] == sweep_words(
                query,
                listing@,
            )[j] by {
            }
        },
        _ => {
            let pids = parse_pid_lines(listing);
            let mut i: usize = 0;
            while i < pids.len()
                invariant
                    i <= pids@.len(),
                    kills@.len() == i,
                    forall|j: int| 0 <= j < i ==> (#[trigger] kills@[j])@ == signal_words(
                        Signal::Kill,
                        pids@[j],
                    ),
                decreases pids@.len() - i,
            {
                kills.push(signal_command(Signal::Kill, pids[i]));
                i += 1;
            }
        },
    }
    kills
}

/// Turns the output of a listing into the commands that end what it names.
pub fn sweep_kills(query: SweepQuery, output: &[u8]) -> (kills: Vec<CommandLine>)
    ensures
        lines_of(kills@) == sweep_words(query, lossy_text(output@)),
{
    let listing = decode_lossy(output);
    sweep_kills_in(query, listing.as_str())
}

/// Turns what came of running a listing tool into the commands that end
/// what it names: those for its output, or none at all when the tool could
/// not be run. A tool that is missing ends nothing and fails nothing.
pub fn sweep_kills_after(query: SweepQuery, output: Option<Vec<u8>>) -> (kills: Vec<CommandLine>)
    ensures
        lines_of(kills@) == (match output {
            Some(bytes) => sweep_words(query, lossy_text(bytes@)),
            None => Seq::empty(),
        }),
{
    match output {
        Some(bytes) => sweep_kills(query, bytes.as_slice()),
        None => {
            let kills: Vec<CommandLine> = Vec::new();
            assert(lines_of(kills@) =~= Seq::empty());
            kills
        },
    }
}

} // verus!
