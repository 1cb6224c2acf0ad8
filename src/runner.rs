use vstd::prelude::*;

verus! {

/// Seconds to wait between two reports in continuous mode.
pub const REPORT_INTERVAL_SECS: u64 = 120;

/// Prefix of the line printed after a successful report.
pub const SUCCESS_PREFIX: &'static str = "[*] Successfully reported IP. - ";

/// Prefix of the line printed after a failed report.
pub const FAILURE_PREFIX: &'static str = "[!] Failed to report IP. - ";

/// Prefix of the line that shows the machine's short link.
pub const LINK_PREFIX: &'static str = "Link for this machine: ";

/// The line printed when no short link could be had.
pub const LINK_MISSING: &'static str =
    "Failed to get link, please ensure this machine has reported IP.";

#[derive(Clone, Copy, Debug, PartialEq, Eq, Structural)]
pub enum Mode {
    /// Look up the short link once and exit.
    Link,
    /// Report once and exit.
    Once,
    /// Report every interval, forever.
    Continuous,
}

/// What the runner does next.
#[derive(Clone, Copy, Debug, PartialEq, Eq, Structural)]
pub enum Action {
    /// End the process, with a success or a failure status.
    Exit { success: bool },
    /// Wait this many seconds, then report again.
    Sleep { seconds: u64 },
}

/// The mode chosen from the flags: link before once before continuous.
pub open spec fn mode_of(link: bool, once: bool) -> Mode {
    if link {
        Mode::Link
    } else if once {
        Mode::Once
    } else {
        Mode::Continuous
    }
}

/// What follows a report attempt in a reporting mode.
pub open spec fn action_after_report(mode: Mode, succeeded: bool) -> Action {
    if mode == Mode::Continuous {
        Action::Sleep { seconds: REPORT_INTERVAL_SECS }
    } else {
        Action::Exit { success: succeeded }
    }
}

/// Chooses the run mode from the link and once flags.
pub fn select_mode(link: bool, once: bool) -> (m: Mode)
    ensures
        m == mode_of(link, once),
{
    if link {
        Mode::Link
    } else if once {
        Mode::Once
    } else {
        Mode::Continuous
    }
}

/// What to do after a report attempt: in continuous mode wait the interval
/// whatever the result; otherwise exit with the result as the status.
pub fn after_report(mode: Mode, succeeded: bool) -> (a: Action)
    ensures
        a == action_after_report(mode, succeeded),
{
    if mode == Mode::Continuous {
        Action::Sleep { seconds: REPORT_INTERVAL_SECS }
    } else {
        Action::Exit { success: succeeded }
    }
}

/// What to do after a link lookup: exit, successfully exactly when a link was found.
pub fn after_link(found: bool) -> (a: Action)
    ensures
        a == (Action::Exit { success: found }),
{
    Action::Exit { success: found }
}

/// The status line printed after a report attempt made at `timestamp`.
pub fn status_line(succeeded: bool, timestamp: &str) -> (r: String)
    ensures
        succeeded ==> r@ == SUCCESS_PREFIX@ + timestamp@,
        !succeeded ==> r@ == FAILURE_PREFIX@ + timestamp@,
{
    let mut line = if succeeded {
        String::from_str(SUCCESS_PREFIX)
    } else {
        String::from_str(FAILURE_PREFIX)
    };
    line.append(timestamp);
    line
}

/// The line printed after a link lookup.
pub fn link_line(link: &Option<String>) -> (r: String)
    ensures
        link is Some ==> r@ == LINK_PREFIX@ + link->Some_0@,
        link is None ==> r@ == LINK_MISSING@,
{
    match link {
        Some(l) => {
            let mut line = String::from_str(LINK_PREFIX);
            line.append(l.as_str());
            line
        },
        None => String::from_str(LINK_MISSING),
    }
}

/// Continuous mode never ends on its own: whatever results a run of reports
/// has, each attempt is followed by a wait of the fixed interval, never by an exit.
pub proof fn lemma_continuous_never_exits(results: Seq<bool>)
    ensures
        forall|i: int|
            0 <= i < results.len() ==> action_after_report(Mode::Continuous, #[trigger] results[i])
                == (Action::Sleep { seconds: REPORT_INTERVAL_SECS }),
{
}

/// The link flag wins over the once flag, and the once flag over the default.
pub proof fn lemma_mode_priority(link: bool, once: bool)
    ensures
        link ==> mode_of(link, once) == Mode::Link,
        !link && once ==> mode_of(link, once) == Mode::Once,
        !link && !once ==> mode_of(link, once) == Mode::Continuous,
{
}

} // verus!
