//! What a run is asked to do: the switches on the command line and the
//! three lines of the channel configuration.

use vstd::prelude::*;
use crate::error::ReportError;

verus! {

/// The switches of one run.
#[derive(Clone, Copy, Debug)]
pub struct RunOptions {
    /// Put an entry at the head of the log.
    pub save_log: bool,
    /// Also show the ids of the chosen videos.
    pub debug: bool,
}

/// The channel to report on.
#[derive(Debug)]
pub struct ChannelConfig {
    pub identifier: String,
    pub api_key: String,
    /// The identifier is a channel id, not a legacy user name.
    pub use_id: bool,
}

/// The log is written only where the first argument after the program's
/// name is exactly `true`.
pub open spec fn wants_log(args: Seq<String>) -> bool {
    args.len() >= 2 && args[1]@ == "true"@
}

/// Video ids are shown only where the second argument after the program's
/// name is `--d` or `--debug`.
pub open spec fn wants_debug(args: Seq<String>) -> bool {
    args.len() >= 3 && (args[2]@ == "--d"@ || args[2]@ == "--debug"@)
}

/// Whether `text` reads exactly as `word`.
fn reads_as(text: &String, word: &str) -> (r: bool)
    ensures
        r == (text@ == word@),
{
    let other = String::from_str(word);
    *text == other
}

/// The switches that the command line `args` asks for; `args[0]` is the
/// program's name. With no argument nothing is switched on.
pub fn run_options(args: &Vec<String>) -> (r: RunOptions)
    ensures
        r.save_log == wants_log(args@),
        r.debug == wants_debug(args@),
{
    let save_log = args.len() >= 2 && reads_as(&args[1], "true");
    let debug = args.len() >= 3 && (reads_as(&args[2], "--d") || reads_as(&args[2], "--debug"));
    RunOptions { save_log, debug }
}

/// The channel that the configuration `lines` name: the identifier, the API
/// key, and `true` where the identifier is a channel id. Fewer than three
/// lines are no configuration; lines after the third are not read.
pub fn channel_config(lines: &Vec<String>) -> (r: Result<ChannelConfig, ReportError>)
    ensures
        lines@.len() < 3 <==> r is Err,
        r matches Err(e) ==> e == ReportError::ShortConfig,
        r matches Ok(config) ==> {
            &&& config.identifier@ == lines@[0]@
            &&& config.api_key@ == lines@[1]@
            &&& config.use_id == (lines@[2]@ == "true"@)
        },
{
    if lines.len() < 3 {
        return Err(ReportError::ShortConfig);
    }
    Ok(
        ChannelConfig {
            identifier: lines[0].clone(),
            api_key: lines[1].clone(),
            use_id: reads_as(&lines[2], "true"),
        },
    )
}

} // verus!
