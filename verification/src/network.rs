//! The network indicator: the name of the connection, or a mark for none.

use crate::cycle::command_output;
use crate::cycle::CommandRun;
use crate::cycle::FetchFailure;
use crate::cycle::fetched_view;
use crate::text::trim;
use crate::text::trimmed;
use vstd::prelude::*;
use vstd::string::*;

verus! {

/// The display text for a connection named `name`; an empty name stands for
/// no connection.
pub open spec fn network_text(name: Seq<char>) -> Seq<char> {
    if name.len() != 0 {
        "\u{f1eb} "@ + name
    } else {
        "\u{f05e}"@
    }
}

/// The display text that a run of the connection query leads to, or the
/// failure.
pub open spec fn network_reading(
    run: CommandRun,
    on_exit_failure: FetchFailure,
) -> Result<Seq<char>, FetchFailure> {
    match run {
        CommandRun::NotStarted => Err(FetchFailure::Fatal),
        CommandRun::Failed => Err(on_exit_failure),
        CommandRun::Succeeded(output) => Ok(network_text(trimmed(output@))),
    }
}

/// The display text for a connection named `name`, which holds no white
/// space at its ends.
pub fn network_from_name(name: &str) -> (text: String)
    ensures
        text@ == network_text(name@),
{
    if name.unicode_len() != 0 {
        let mut text = String::from_str("\u{f1eb} ");
        text.append(name);
        text
    } else {
        String::from_str("\u{f05e}")
    }
}

/// The display text for what the connection query printed.
pub fn network_display(output: &str) -> (text: String)
    ensures
        text@ == network_text(trimmed(output@)),
{
    network_from_name(trim(output))
}

/// The display text that a run of the connection query leads to.
pub fn network_fetch(run: CommandRun, on_exit_failure: FetchFailure) -> (fetched: Result<
    String,
    FetchFailure,
>)
    ensures
        fetched_view(fetched) == network_reading(run, on_exit_failure),
{
    match command_output(run, on_exit_failure) {
        Ok(output) => Ok(network_display(output.as_str())),
        Err(failure) => Err(failure),
    }
}

} // verus!
