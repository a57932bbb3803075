//! The decisions of the program around its I/O: which command the arguments ask for,
//! which log level a setting names, the start-up check, and what each poll leads to.

use vstd::prelude::*;
use vstd::string::*;
use crate::config::config::Config;
use crate::ra_api::UserSummary;
use crate::state::AppState;
use crate::text::join_strings;
use crate::text::joined;
use crate::text::same_text;

verus! {

/// What the command line asks for.
#[derive(Debug, Clone, Copy, PartialEq, Eq)]
pub enum Command {
    Help,
    Version,
    ConfigPath,
    Setup,
    Run,
}

/// Some argument is exactly `a`.
pub open spec fn has_arg(args: Seq<String>, a: Seq<char>) -> bool {
    exists|i: int| 0 <= i < args.len() && (#[trigger] args[i])@ == a
}

/// The command the arguments ask for; the first that applies of: help (`--help`,
/// `-h`), version (`--version`, `-v`), configuration path (`--config-path`), setup
/// (`--setup`); otherwise run. Every argument counts, the program name included.
pub open spec fn command_for(args: Seq<String>) -> Command {
    if has_arg(args, "--help"@) || has_arg(args, "-h"@) {
        Command::Help
    } else if has_arg(args, "--version"@) || has_arg(args, "-v"@) {
        Command::Version
    } else if has_arg(args, "--config-path"@) {
        Command::ConfigPath
    } else if has_arg(args, "--setup"@) {
        Command::Setup
    } else {
        Command::Run
    }
}

/// Whether some argument is exactly `a`.
pub fn contains_arg(args: &Vec<String>, a: &str) -> (r: bool)
    ensures
        r == has_arg(args@, a@),
{
    let n = args.len();
    let mut i: usize = 0;
    while i < n
        invariant
            n == args@.len(),
            i <= n,
            forall|j: int| 0 <= j < i ==> (#[trigger] args@[j])@ != a@,
        decreases n - i,
    {
        if same_text(args[i].as_str(), a) {
            return true;
        }
        i = i + 1;
    }
    false
}

/// The command the program's arguments ask for.
pub fn parse_command(args: &Vec<String>) -> (r: Command)
    ensures
        r == command_for(args@),
{
    if contains_arg(args, "--help") || contains_arg(args, "-h") {
        Command::Help
    } else if contains_arg(args, "--version") || contains_arg(args, "-v") {
        Command::Version
    } else if contains_arg(args, "--config-path") {
        Command::ConfigPath
    } else if contains_arg(args, "--setup") {
        Command::Setup
    } else {
        Command::Run
    }
}

/// How much the program logs.
#[derive(Debug, Clone, Copy, PartialEq, Eq)]
pub enum LogLevel {
    Trace,
    Debug,
    Info,
    Warn,
    Error,
}

/// The log level a setting names: `debug`, `trace`, `warn`, `error`; any other text
/// means info.
pub open spec fn log_level_named(name: Seq<char>) -> LogLevel {
    if name == "debug"@ {
        LogLevel::Debug
    } else if name == "trace"@ {
        LogLevel::Trace
    } else if name == "warn"@ {
        LogLevel::Warn
    } else if name == "error"@ {
        LogLevel::Error
    } else {
        LogLevel::Info
    }
}

/// The log level that the setting `name` names.
pub fn log_level_for(name: &str) -> (r: LogLevel)
    ensures
        r == log_level_named(name@),
{
    if same_text(name, "debug") {
        LogLevel::Debug
    } else if same_text(name, "trace") {
        LogLevel::Trace
    } else if same_text(name, "warn") {
        LogLevel::Warn
    } else if same_text(name, "error") {
        LogLevel::Error
    } else {
        LogLevel::Info
    }
}

/// The check before the polling loop starts: the configuration's problems, one per
/// line, when it has any.
pub fn startup_check(config: &Config) -> (r: Result<(), String>)
    ensures
        r is Ok <==> config.spec_problems().len() == 0,
        r matches Err(m) ==> m@ == joined(config.spec_problems(), "\n"@),
{
    match config.validate() {
        Ok(()) => Ok(()),
        Err(errors) => Err(join_strings(&errors, "\n")),
    }
}

/// What the program does after a poll.
#[derive(Debug, Clone, Copy, PartialEq, Eq)]
pub enum PollAction {
    /// The summary could not be fetched: report it, change nothing.
    ReportFetchError,
    /// The user is playing: show the presence for the summary.
    ShowPresence,
    /// The idle timeout has passed: clear the presence.
    ClearPresence,
    /// Nothing to do.
    Wait,
}

/// The action and the timer after a poll at time `now` that fetched `fetched` (`None`
/// when fetching failed).
pub open spec fn poll_outcome(state: AppState, fetched: Option<UserSummary>, now: u128) -> (
    PollAction,
    AppState,
) {
    match fetched {
        None => (PollAction::ReportFetchError, state),
        Some(s) => {
            let playing = s.spec_is_playing();
            let mid = state.after_poll(playing, now);
            if playing {
                (PollAction::ShowPresence, mid)
            } else if mid.spec_should_clear(now) {
                (PollAction::ClearPresence, mid.after_reset())
            } else {
                (PollAction::Wait, mid)
            }
        },
    }
}

/// Handles one poll at time `now`: a failed fetch is reported; a summary updates the
/// timer, and then the presence is shown when the user plays, or cleared (and the timer
/// reset) when the idle timeout has passed.
pub fn on_poll(state: &mut AppState, fetched: Option<&UserSummary>, now: u128) -> (r: PollAction)
    ensures
        (r, *final(state)) == poll_outcome(
            *old(state),
            match fetched {
                Some(s) => Some(*s),
                None => None,
            },
            now,
        ),
{
    match fetched {
        None => PollAction::ReportFetchError,
        Some(s) => {
            let playing = s.is_playing();
            state.update_playing(playing, now);
            if playing {
                PollAction::ShowPresence
            } else if state.should_clear(now) {
                state.reset();
                PollAction::ClearPresence
            } else {
                PollAction::Wait
            }
        },
    }
}

/// The title logged while the user plays: the most recent game's, or `Unknown`.
pub fn playing_title(summary: &UserSummary) -> (r: String)
    ensures
        r@ == (if summary.recently_played@.len() > 0 {
            summary.recently_played@[0].title@
        } else {
            "Unknown"@
        }),
{
    match summary.get_current_game() {
        Some(g) => g.title.clone(),
        None => String::from_str("Unknown"),
    }
}

/// A presence is cleared once per idle period: after a poll that cleared it, polls that
/// do not see the user playing only wait.
pub proof fn clear_happens_once(state: AppState, s1: UserSummary, t1: u128, s2: UserSummary, t2: u128)
    requires
        poll_outcome(state, Some(s1), t1).0 == PollAction::ClearPresence,
        !s2.spec_is_playing(),
    ensures
        poll_outcome(poll_outcome(state, Some(s1), t1).1, Some(s2), t2).0 == PollAction::Wait,
{
}

/// While the user plays, every poll shows the presence and none clears it.
pub proof fn playing_shows_presence(state: AppState, s: UserSummary, now: u128)
    requires
        s.spec_is_playing(),
    ensures
        poll_outcome(state, Some(s), now).0 == PollAction::ShowPresence,
        poll_outcome(state, Some(s), now).1.last_play_time == Some(now),
{
}

/// The presence is cleared only when the user was seen playing and the idle timeout
/// has passed since that play.
pub proof fn clear_only_after_timeout(state: AppState, s: UserSummary, now: u128)
    requires
        poll_outcome(state, Some(s), now).0 == PollAction::ClearPresence,
    ensures
        state.last_play_time is Some,
        crate::state::elapsed(state.last_play_time->0, now) >= state.idle_timeout,
{
}

/// A failed fetch changes nothing.
pub proof fn fetch_error_changes_nothing(state: AppState, now: u128)
    ensures
        poll_outcome(state, None, now) == (PollAction::ReportFetchError, state),
{
}

/// The actions and the final timer of a run of polls from `state`: each poll is what
/// was fetched (`None` for a failed fetch) and the time it was made.
pub open spec fn run_polls(state: AppState, polls: Seq<(Option<UserSummary>, u128)>) -> (
    Seq<PollAction>,
    AppState,
)
    decreases polls.len(),
{
    if polls.len() == 0 {
        (Seq::empty(), state)
    } else {
        let before = run_polls(state, polls.drop_last());
        let step = poll_outcome(before.1, polls.last().0, polls.last().1);
        (before.0.push(step.0), step.1)
    }
}

/// Poll `m` showed the presence, and no poll after it and before `j` showed or cleared
/// it: the play of poll `m` is the one the idle time at poll `j` counts from.
pub open spec fn open_play(actions: Seq<PollAction>, j: int, m: int) -> bool {
    &&& 0 <= m < j
    &&& actions[m] == PollAction::ShowPresence
    &&& forall|l: int|
        m < l < j ==> #[trigger] actions[l] != PollAction::ShowPresence && actions[l]
            != PollAction::ClearPresence
}

proof fn lemma_run_prefix(state: AppState, polls: Seq<(Option<UserSummary>, u128)>, k: int)
    requires
        0 <= k <= polls.len(),
    ensures
        run_polls(state, polls).0.len() == polls.len(),
        run_polls(state, polls.take(k)).0 == run_polls(state, polls).0.take(k),
    decreases polls.len(),
{
    if polls.len() == 0 {
        assert(polls.take(k) =~= polls);
    } else if k == polls.len() {
        lemma_run_prefix(state, polls.drop_last(), 0);
        assert(polls.take(k) =~= polls);
        assert(run_polls(state, polls).0.take(k) =~= run_polls(state, polls).0);
    } else {
        lemma_run_prefix(state, polls.drop_last(), k);
        assert(polls.take(k) =~= polls.drop_last().take(k));
        assert(run_polls(state, polls).0.take(k) =~= run_polls(state, polls.drop_last()).0.take(k));
    }
}

proof fn lemma_run_timer(state: AppState, polls: Seq<(Option<UserSummary>, u128)>)
    requires
        state.last_play_time is None,
    ensures
        run_polls(state, polls).0.len() == polls.len(),
        run_polls(state, polls).1.idle_timeout == state.idle_timeout,
        run_polls(state, polls).1.last_play_time is None <==> !exists|m: int|
            open_play(run_polls(state, polls).0, polls.len() as int, m),
        forall|m: int|
            open_play(run_polls(state, polls).0, polls.len() as int, m)
                ==> run_polls(state, polls).1.last_play_time == Some(polls[m].1),
    decreases polls.len(),
{
    if polls.len() > 0 {
        let prev = polls.drop_last();
        lemma_run_timer(state, prev);
        let n = polls.len() as int;
        let before = run_polls(state, prev);
        let step = poll_outcome(before.1, polls.last().0, polls.last().1);
        let acts = before.0.push(step.0);
        assert(run_polls(state, polls).0 == acts);
        assert forall|m: int| open_play(acts, n, m) implies open_play(before.0, n - 1, m) || (m
            == n - 1) by {
            if m < n - 1 {
                assert forall|l: int| m < l < n - 1 implies #[trigger] before.0[l]
                    != PollAction::ShowPresence && before.0[l] != PollAction::ClearPresence by {
                    assert(acts[l] == before.0[l]);
                }
                assert(acts[m] == before.0[m]);
            }
        }
        if step.0 == PollAction::ShowPresence {
            assert(open_play(acts, n, n - 1));
            assert forall|m: int| open_play(acts, n, m) implies m == n - 1 by {
                if m < n - 1 {
                    assert(acts[n - 1] == PollAction::ShowPresence);
                }
            }
        } else if step.0 == PollAction::ClearPresence {
            assert forall|m: int| !open_play(acts, n, m) by {
                if 0 <= m < n - 1 {
                    assert(acts[n - 1] == PollAction::ClearPresence);
                }
            }
        } else {
            assert forall|m: int| open_play(before.0, n - 1, m) implies open_play(acts, n, m) by {
                assert forall|l: int| m < l < n implies #[trigger] acts[l]
                    != PollAction::ShowPresence && acts[l] != PollAction::ClearPresence by {
                    if l < n - 1 {
                        assert(acts[l] == before.0[l]);
                    }
                }
            }
            assert(step.1.last_play_time == before.1.last_play_time);
            assert forall|m: int| open_play(acts, n, m) implies open_play(before.0, n - 1, m) by {
                if m == n - 1 {
                    assert(acts[n - 1] == step.0);
                }
            }
            assert forall|m: int| open_play(before.0, n - 1, m) implies prev[m] == polls[m] by {}
            if before.1.last_play_time is Some {
                let k = n - 1;
                let w = choose|m: int| open_play(before.0, k, m);
                assert(open_play(acts, n, w));
            }
        }
    }
}

/// Over any run of polls from a timer that has seen no play (as `AppState::new` makes
/// it), poll `j`:
/// - shows the presence exactly when it fetched a summary in which the user plays;
/// - reports an error exactly when the fetch failed;
/// - clears the presence only if some earlier poll showed it with no show or clear
///   since, and the idle timeout has passed since that poll;
/// - waits, when a poll since the last show or clear showed it, only while the idle
///   timeout has not yet passed since then;
/// so a clear comes exactly once per idle period.
pub proof fn polls_follow_idle_rule(
    state: AppState,
    polls: Seq<(Option<UserSummary>, u128)>,
    j: int,
)
    requires
        state.last_play_time is None,
        0 <= j < polls.len(),
    ensures
        ({
            let actions = run_polls(state, polls).0;
            &&& actions.len() == polls.len()
            &&& (actions[j] == PollAction::ShowPresence <==> (polls[j].0 matches Some(s)
                && s.spec_is_playing()))
            &&& (actions[j] == PollAction::ReportFetchError <==> polls[j].0 is None)
            &&& (actions[j] == PollAction::ClearPresence ==> exists|m: int|
                open_play(actions, j, m) && crate::state::elapsed(polls[m].1, polls[j].1)
                    >= state.idle_timeout)
            &&& (polls[j].0 matches Some(s) && !s.spec_is_playing() ==> (actions[j]
                == PollAction::ClearPresence <==> exists|m: int|
                open_play(actions, j, m) && crate::state::elapsed(polls[m].1, polls[j].1)
                    >= state.idle_timeout))
        }),
{
    let actions = run_polls(state, polls).0;
    lemma_run_prefix(state, polls, j + 1);
    lemma_run_prefix(state, polls, j);
    let pre = polls.take(j);
    assert(polls.take(j + 1).drop_last() =~= pre);
    assert(polls.take(j + 1).last() == polls[j]);
    lemma_run_timer(state, pre);
    let before = run_polls(state, pre);
    let step = poll_outcome(before.1, polls[j].0, polls[j].1);
    assert(run_polls(state, polls.take(j + 1)).0 == before.0.push(step.0));
    assert(actions.take(j + 1)[j] == actions[j]);
    assert(actions[j] == step.0);
    assert(before.0 =~= actions.take(j));
    assert forall|m: int| open_play(actions, j, m) <==> open_play(before.0, j, m) by {
        if 0 <= m < j {
            assert(before.0[m] == actions[m]);
            assert forall|l: int| m < l < j implies before.0[l] == actions[l] by {}
        }
    }
    assert forall|m: int| 0 <= m < j implies pre[m] == polls[m] by {}
    if before.1.last_play_time is Some {
        let m = choose|m: int| open_play(before.0, j, m);
        assert(open_play(before.0, j, m));
        assert(before.1.last_play_time == Some(pre[m].1));
        assert(open_play(actions, j, m));
        assert forall|m2: int| open_play(actions, j, m2) implies m2 == m by {
            if m2 < m {
                assert(actions[m] == PollAction::ShowPresence);
            } else if m < m2 {
                assert(actions[m2] == PollAction::ShowPresence);
            }
        }
    } else {
        assert forall|m: int| !open_play(actions, j, m) by {
            if open_play(actions, j, m) {
                assert(open_play(before.0, j, m));
            }
        }
    }
}

/// Between two polls that clear the presence there is a poll that showed it: the
/// presence is cleared once per idle period.
pub proof fn clears_once_per_idle_period(
    state: AppState,
    polls: Seq<(Option<UserSummary>, u128)>,
    i: int,
    j: int,
)
    requires
        state.last_play_time is None,
        0 <= i < j < polls.len(),
        run_polls(state, polls).0[i] == PollAction::ClearPresence,
        run_polls(state, polls).0[j] == PollAction::ClearPresence,
    ensures
        exists|m: int| i < m < j && run_polls(state, polls).0[m] == PollAction::ShowPresence,
{
    polls_follow_idle_rule(state, polls, j);
    let actions = run_polls(state, polls).0;
    let m = choose|m: int|
        open_play(actions, j, m) && crate::state::elapsed(polls[m].1, polls[j].1)
            >= state.idle_timeout;
    if m < i {
        assert(actions[i] != PollAction::ClearPresence);
    }
    assert(i < m < j);
}

/// Help wins: whenever some argument is `--help` or `-h` the command is help, whatever
/// else is given; version is chosen only when help is not asked for; the configuration
/// path only when neither help nor version is; setup only when none of those is; and the
/// program runs only when no recognised flag is present.
pub proof fn command_priority(args: Seq<String>)
    ensures
        has_arg(args, "--help"@) || has_arg(args, "-h"@) ==> command_for(args) == Command::Help,
        command_for(args) == Command::Help ==> has_arg(args, "--help"@) || has_arg(args, "-h"@),
        command_for(args) == Command::Version <==> (!(has_arg(args, "--help"@) || has_arg(
            args,
            "-h"@,
        )) && (has_arg(args, "--version"@) || has_arg(args, "-v"@))),
        command_for(args) == Command::ConfigPath ==> has_arg(args, "--config-path"@),
        command_for(args) == Command::Setup ==> has_arg(args, "--setup"@),
        command_for(args) == Command::Run <==> !has_arg(args, "--help"@) && !has_arg(args, "-h"@)
            && !has_arg(args, "--version"@) && !has_arg(args, "-v"@) && !has_arg(
            args,
            "--config-path"@,
        ) && !has_arg(args, "--setup"@),
{
}

} // verus!
