//! What the user is shown: the status line of a running installation and the
//! final report, one line per tool.

use crate::batch::{entry_views, Batch, BatchEntry, EntryView};
use crate::manifest::InstallStatus;
use crate::protocol::{outcome_of, InstallOutcome, Outcome};
use crate::text::{decimal, decimal_text, texts};
use vstd::prelude::*;

verus! {

/// `text` between the escape sequences that switch bold type on and off.
pub open spec fn bold_text(text: Seq<char>) -> Seq<char> {
    seq!['\u{1b}', '[', '1', 'm'] + text + seq!['\u{1b}', '[', '0', 'm']
}

/// A label shows a name when it is the name itself, or the name in bold.
pub open spec fn shows(label: Seq<char>, name: Seq<char>) -> bool {
    label == name || label == bold_text(name)
}

/// The mark that opens the line of a success.
pub open spec fn success_mark() -> Seq<char> {
    "\u{2705}"@
}

/// The mark that opens the line of a failure.
pub open spec fn error_mark() -> Seq<char> {
    "\u{274c}"@
}

/// The mark that opens the line of an outcome.
pub open spec fn mark_of(outcome: Outcome) -> Seq<char> {
    match outcome {
        Outcome::Failed(_) => error_mark(),
        _ => success_mark(),
    }
}

/// A mark is drawn as itself, or left out where the terminal cannot draw it.
pub open spec fn draws(drawn: Seq<char>, mark: Seq<char>) -> bool {
    drawn == mark || drawn == Seq::<char>::empty()
}

/// The line that reports `outcome` for the tool labelled `label`, opened by
/// `mark`.
pub open spec fn report_line(mark: Seq<char>, label: Seq<char>, outcome: Outcome) -> Seq<char> {
    match outcome {
        Outcome::AlreadyInstalled => mark + " "@ + label + ": Already installed"@,
        Outcome::Installed => mark + " "@ + label + ": Installed Successfully"@,
        Outcome::Failed(reason) => mark + " "@ + label + ": Failed to install. Reason: "@
            + reason,
    }
}

/// Whether `line` reports `outcome` for the tool called `name`, however the
/// terminal draws the mark and the name.
pub open spec fn reports(line: Seq<char>, name: Seq<char>, outcome: Outcome) -> bool {
    exists|mark: Seq<char>, label: Seq<char>|
        draws(mark, mark_of(outcome)) && shows(label, name) && line == #[trigger] report_line(
            mark,
            label,
            outcome,
        )
}

/// The prefix of the status line of the tool at `index` among `count`.
pub open spec fn prefix_text(index: nat, count: nat) -> Seq<char> {
    "["@ + decimal_text(index + 1) + "/"@ + decimal_text(count) + "]"@
}

/// The status message `message` of the tool labelled `label`.
pub open spec fn status_text(label: Seq<char>, message: Seq<char>) -> Seq<char> {
    label + ": "@ + message
}

/// The lines that tell which manifest is used.
pub open spec fn banner_text(path: Seq<char>, version: Seq<char>, author: Seq<char>) -> Seq<char> {
    "Using Toolkits Manifest:\n  Path:    "@ + path + "\n  Version: "@ + version
        + "\n  Author:  "@ + author + "\n"@
}

/// What `console::style(text).bold()` displays: `text` between the escape
/// sequences for bold type where the terminal takes colours, `text` alone
/// where it does not.
#[verifier::external_body]
fn bold(text: &str) -> (label: String)
    ensures
        shows(label@, text@),
{
    console::style(text).bold().to_string()
}

/// What `console::Emoji(symbol, fallback)` displays: `symbol` where the
/// terminal wants emoji, `fallback` where it does not.
#[verifier::external_body]
fn emoji(symbol: &str, fallback: &str) -> (drawn: String)
    ensures
        drawn@ == symbol@ || drawn@ == fallback@,
{
    console::Emoji(symbol, fallback).to_string()
}

/// The prefix of the status line of the tool at `index` among `count`:
/// its place, counted from one, and the count, as `[place/count]`.
pub fn status_prefix(index: usize, count: usize) -> (prefix: String)
    ensures
        prefix@ == prefix_text(index as nat, count as nat),
{
    let mut prefix = String::from_str("[");
    prefix.append(decimal(index as u128 + 1).as_str());
    prefix.append("/");
    prefix.append(decimal(count as u128).as_str());
    prefix.append("]");
    prefix
}

/// The status message `message` of the tool labelled `label`.
pub fn format_status(label: &str, message: &str) -> (line: String)
    ensures
        line@ == status_text(label@, message@),
{
    let mut line = String::from_str(label);
    line.append(": ");
    line.append(message);
    line
}

/// The status message `message` of the tool called `tool_name`, the name in
/// bold where the terminal can show it.
pub fn status_message(tool_name: &str, message: &str) -> (line: String)
    ensures
        exists|label: Seq<char>|
            shows(label, tool_name@) && line@ == #[trigger] status_text(label, message@),
{
    let label = bold(tool_name);
    let line = format_status(label.as_str(), message);
    assert(line@ == status_text(label@, message@));
    line
}

/// The lines that tell which manifest is used.
pub fn manifest_banner(path: &str, version: &str, author: &str) -> (banner: String)
    ensures
        banner@ == banner_text(path@, version@, author@),
{
    let mut banner = String::from_str("Using Toolkits Manifest:\n  Path:    ");
    banner.append(path);
    banner.append("\n  Version: ");
    banner.append(version);
    banner.append("\n  Author:  ");
    banner.append(author);
    banner.append("\n");
    banner
}

/// The line that reports `outcome` for the tool labelled `label`, opened by
/// `mark`.
pub fn format_report_line(mark: &str, label: &str, outcome: &InstallOutcome) -> (line: String)
    ensures
        line@ == report_line(mark@, label@, outcome@),
{
    let mut line = String::from_str(mark);
    line.append(" ");
    line.append(label);
    match outcome {
        InstallOutcome::AlreadyInstalled => {
            line.append(": Already installed");
        },
        InstallOutcome::Installed => {
            line.append(": Installed Successfully");
        },
        InstallOutcome::Failed(reason) => {
            line.append(": Failed to install. Reason: ");
            line.append(reason.as_str());
        },
    }
    line
}

/// The line that reports `outcome` for the tool called `tool_name`, as the
/// terminal can show it.
pub fn outcome_line(tool_name: &str, outcome: &InstallOutcome) -> (line: String)
    ensures
        reports(line@, tool_name@, outcome@),
{
    proof {
        reveal_strlit("");
        assert(""@ =~= Seq::<char>::empty());
    }
    let mark = match outcome {
        InstallOutcome::Failed(_) => emoji("\u{274c}", ""),
        _ => emoji("\u{2705}", ""),
    };
    let label = bold(tool_name);
    let line = format_report_line(mark.as_str(), label.as_str(), outcome);
    assert(line@ == report_line(mark@, label@, outcome@));
    line
}

/// Adds to `installation_results` the line that reports how the
/// installation of `tool_name` ended.
pub fn handle_installation_finish_message(
    tool_name: &str,
    result: Result<InstallStatus, String>,
    installation_results: &mut Vec<String>,
)
    ensures
        final(installation_results)@.len() == old(installation_results)@.len() + 1,
        final(installation_results)@.drop_last() == old(installation_results)@,
        reports(final(installation_results)@.last()@, tool_name@, outcome_of(result)),
{
    let outcome = InstallOutcome::from_result(result);
    let line = outcome_line(tool_name, &outcome);
    installation_results.push(line);
    assert(installation_results@.drop_last() =~= old(installation_results)@);
}

/// The final report of a batch: one line per tool, in the order in which the
/// installations ended. There is no report before every installation has
/// ended.
pub fn final_report(batch: &Batch) -> (report: Option<Vec<String>>)
    requires
        batch@.wf(),
    ensures
        report is Some <==> batch@.complete(),
        report matches Some(lines) ==> {
            &&& lines.len() == batch@.tools.len()
            &&& lines.len() == batch@.results.len()
            &&& forall|k: int|
                0 <= k < lines.len() ==> reports(
                    (#[trigger] lines[k])@,
                    batch@.results[k].name,
                    batch@.results[k].outcome,
                )
        },
{
    if !batch.is_complete() {
        return None;
    }
    let results = batch.results();
    let mut lines: Vec<String> = Vec::new();
    let mut k: usize = 0;
    while k < results.len()
        invariant
            k <= results.len(),
            lines.len() == k,
            entry_views(results@) == batch@.results,
            forall|j: int|
                0 <= j < k ==> reports(
                    (#[trigger] lines[j])@,
                    batch@.results[j].name,
                    batch@.results[j].outcome,
                ),
        decreases results.len() - k,
    {
        let entry = &results[k];
        assert(entry_views(results@)[k as int] == entry@);
        let line = outcome_line(entry.name.as_str(), &entry.outcome);
        lines.push(line);
        k += 1;
    }
    assert(entry_views(results@).len() == results.len());
    Some(lines)
}

} // verus!
