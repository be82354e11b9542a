//! Opening a database: the pragmas, and the switch to write-ahead logging.

use vstd::prelude::*;

use crate::text::eq_ignoring_case;

verus! {

/// For how long the switch is tried, in milliseconds.
pub const WAL_BUDGET_MS: u64 = 10_000;

/// The longest pause between two tries, in milliseconds.
pub const WAL_LONGEST_PAUSE_MS: u64 = 250;

/// What a try to switch came to.
#[derive(Clone, Debug, PartialEq, Eq)]
pub enum WalOutcome {
    /// The database answered with its journal mode.
    Mode(String),
    /// Another connection holds a lock.
    Busy,
    /// Something else went wrong.
    Failed,
}

/// What to do after a try.
#[derive(Clone, Copy, Debug, PartialEq, Eq)]
pub enum WalStep {
    /// The switch is done.
    Done,
    /// The error of the try is final.
    Fail,
    /// Go on without write-ahead logging, and say so.
    Degrade,
    /// Pause for this many milliseconds and try again.
    Pause(u64),
}

/// The tries to switch a database to write-ahead logging.
#[derive(Clone, Copy, Debug, PartialEq, Eq)]
pub struct WalRetry {
    /// How long the tries have paused so far.
    pub waited_ms: u64,
    /// How long the next pause is.
    pub pause_ms: u64,
}

/// The next pause: twice as long, up to the longest.
pub open spec fn longer(pause_ms: u64) -> u64 {
    if pause_ms * 2 < WAL_LONGEST_PAUSE_MS {
        (pause_ms * 2) as u64
    } else {
        WAL_LONGEST_PAUSE_MS
    }
}

impl WalRetry {
    /// Tries stay within their bounds.
    pub open spec fn wf(self) -> bool {
        &&& self.waited_ms < WAL_BUDGET_MS + WAL_LONGEST_PAUSE_MS
        &&& 2 <= self.pause_ms <= WAL_LONGEST_PAUSE_MS
    }

    /// What to do after a try.
    pub open spec fn step(self, outcome: WalOutcome) -> WalStep {
        let spent = self.waited_ms >= WAL_BUDGET_MS;
        match outcome {
            WalOutcome::Mode(mode) => if crate::text::same_but_case(mode@, "wal"@) {
                WalStep::Done
            } else if spent {
                WalStep::Degrade
            } else {
                WalStep::Pause(self.pause_ms)
            },
            WalOutcome::Busy => if spent {
                WalStep::Fail
            } else {
                WalStep::Pause(self.pause_ms)
            },
            WalOutcome::Failed => WalStep::Fail,
        }
    }

    /// The tries after a step.
    pub open spec fn after(self, step: WalStep) -> WalRetry {
        match step {
            WalStep::Pause(ms) => WalRetry {
                waited_ms: (self.waited_ms + ms) as u64,
                pause_ms: longer(self.pause_ms),
            },
            _ => self,
        }
    }

    /// No try was made yet.
    pub fn start() -> (retry: WalRetry)
        ensures
            retry == (WalRetry { waited_ms: 0, pause_ms: 2 }),
            retry.wf(),
    {
        WalRetry { waited_ms: 0, pause_ms: 2 }
    }

    /// Takes in what a try came to, and says what to do. A busy database is tried
    /// again until the time is used up, and so is one that answers with another mode;
    /// any other error is final at once.
    pub fn set_wal_with_retry(&mut self, outcome: &WalOutcome) -> (step: WalStep)
        requires
            old(self).wf(),
        ensures
            step == old(self).step(*outcome),
            *final(self) == old(self).after(step),
            final(self).wf(),
    {
        match outcome {
            WalOutcome::Mode(mode) => {
                if eq_ignoring_case(mode.as_str(), "wal") {
                    return WalStep::Done;
                }
                if self.waited_ms >= WAL_BUDGET_MS {
                    return WalStep::Degrade;
                }
            },
            WalOutcome::Busy => {
                if self.waited_ms >= WAL_BUDGET_MS {
                    return WalStep::Fail;
                }
            },
            WalOutcome::Failed => {
                return WalStep::Fail;
            },
        }
        let pause = self.pause_ms;
        self.waited_ms = self.waited_ms + pause;
        self.pause_ms = if pause * 2 < WAL_LONGEST_PAUSE_MS {
            pause * 2
        } else {
            WAL_LONGEST_PAUSE_MS
        };
        WalStep::Pause(pause)
    }
}

/// The tries end: every pause uses up time, no pause begins after the time is used up,
/// and so the tries never wait longer than the time and one pause.
pub proof fn law_tries_end(retry: WalRetry, outcome: WalOutcome)
    requires
        retry.wf(),
    ensures
        retry.step(outcome) is Pause ==> {
            &&& retry.waited_ms < WAL_BUDGET_MS
            &&& retry.waited_ms < retry.after(retry.step(outcome)).waited_ms
        },
        retry.after(retry.step(outcome)).waited_ms < WAL_BUDGET_MS + WAL_LONGEST_PAUSE_MS,
{
}

/// An error that is no lock is never waited for.
pub proof fn law_other_errors_are_final(retry: WalRetry)
    ensures
        retry.step(WalOutcome::Failed) is Fail,
{
}

/// The pragmas before the switch. The page size has to come before any table.
pub fn pragmas_before_wal() -> (sql: &'static str)
    ensures
        sql@ == "PRAGMA busy_timeout=30000; PRAGMA page_size=4096;"@,
{
    "PRAGMA busy_timeout=30000; PRAGMA page_size=4096;"
}

/// The pragma that asks for the switch and answers with the journal mode.
pub fn pragma_wal() -> (sql: &'static str)
    ensures
        sql@ == "PRAGMA journal_mode=WAL"@,
{
    "PRAGMA journal_mode=WAL"
}

/// The pragmas after the switch.
pub fn pragmas_after_wal() -> (sql: &'static str)
    ensures
        sql@
            == "PRAGMA synchronous=NORMAL; PRAGMA foreign_keys=ON; PRAGMA temp_store=MEMORY; PRAGMA cache_size=-262144; PRAGMA mmap_size=268435456; PRAGMA recursive_triggers=ON;"@,
{
    "PRAGMA synchronous=NORMAL; PRAGMA foreign_keys=ON; PRAGMA temp_store=MEMORY; PRAGMA cache_size=-262144; PRAGMA mmap_size=268435456; PRAGMA recursive_triggers=ON;"
}

/// What is done after a try: an answer that is the mode, in any case of its letters, ends the
/// tries; another answer and a lock are tried again while there is time; and then the database is
/// used without the mode, or the lock is the error. Any other error is final.
pub proof fn law_tries_go_on_while_there_is_time(
    retry: &mut WalRetry,
    outcome: WalOutcome,
    step: WalStep,
    is_wal: bool,
)
    requires
        call_ensures(WalRetry::set_wal_with_retry, (retry, &outcome), step),
        outcome matches WalOutcome::Mode(mode) ==> (is_wal <==> mode@.len() == 3 && (mode@[0] == 'w'
            || mode@[0] == 'W') && (mode@[1] == 'a' || mode@[1] == 'A') && (mode@[2] == 'l'
            || mode@[2] == 'L')),
    ensures
        step is Done <==> outcome is Mode && is_wal,
        outcome is Failed ==> step is Fail,
        outcome is Busy && old(retry).waited_ms >= WAL_BUDGET_MS ==> step is Fail,
        outcome is Mode && !is_wal && old(retry).waited_ms >= WAL_BUDGET_MS ==> step is Degrade,
        (outcome is Busy || outcome is Mode && !is_wal) && old(retry).waited_ms < WAL_BUDGET_MS
            ==> step == WalStep::Pause(old(retry).pause_ms),
        step matches WalStep::Pause(ms) ==> {
            &&& old(retry).waited_ms + ms <= u64::MAX ==> final(retry).waited_ms
                == old(retry).waited_ms + ms
            &&& final(retry).pause_ms <= WAL_LONGEST_PAUSE_MS
            &&& final(retry).pause_ms == 2 * old(retry).pause_ms || (final(retry).pause_ms
                == WAL_LONGEST_PAUSE_MS && 2 * old(retry).pause_ms >= WAL_LONGEST_PAUSE_MS)
        },
        step !is Pause ==> *final(retry) == *old(retry),
{
    reveal_strlit("wal");
    if let WalOutcome::Mode(mode) = outcome {
        let wal = "wal"@;
        assert(wal[0] == 'w' && wal[1] == 'a' && wal[2] == 'l');
        if is_wal {
            assert forall|i: int| 0 <= i < 3 implies crate::text::ascii_folded(mode@[i])
                == crate::text::ascii_folded(wal[i]) by {
                assert(i == 0 || i == 1 || i == 2);
            }
        }
    }
}

/// The tries begin with a short pause and none behind them, and go on for ten seconds with pauses
/// of a quarter of a second at most.
pub proof fn law_tries_take_ten_seconds(retry: WalRetry)
    requires
        call_ensures(WalRetry::start, (), retry),
    ensures
        retry.waited_ms == 0,
        retry.pause_ms == 2,
        WAL_BUDGET_MS == 10 * 1000,
        4 * WAL_LONGEST_PAUSE_MS == 1000,
{
}

/// `text` holds `part`.
pub open spec fn has(text: Seq<char>, part: Seq<char>) -> bool {
    exists|before: Seq<char>, after: Seq<char>| text == #[trigger] (before + part + after)
}

/// Before the switch a connection is told to wait for locks, and the size of the pages; after it,
/// among other things, to keep to foreign keys and to fire the triggers of replaced rows.
pub proof fn law_connections_are_set_up(
    before: &'static str,
    switch: &'static str,
    after: &'static str,
)
    requires
        call_ensures(pragmas_before_wal, (), before),
        call_ensures(pragma_wal, (), switch),
        call_ensures(pragmas_after_wal, (), after),
    ensures
        has(before@, "busy_timeout=30000;"@),
        has(before@, "page_size=4096;"@),
        has(switch@, "journal_mode=WAL"@),
        has(after@, "foreign_keys=ON;"@),
        has(after@, "recursive_triggers=ON;"@),
        has(after@, "synchronous=NORMAL;"@),
{
    reveal_strlit("PRAGMA busy_timeout=30000; PRAGMA page_size=4096;");
    reveal_strlit("PRAGMA journal_mode=WAL");
    reveal_strlit(
        "PRAGMA synchronous=NORMAL; PRAGMA foreign_keys=ON; PRAGMA temp_store=MEMORY; PRAGMA cache_size=-262144; PRAGMA mmap_size=268435456; PRAGMA recursive_triggers=ON;",
    );
    reveal_strlit("busy_timeout=30000;");
    reveal_strlit("page_size=4096;");
    reveal_strlit("journal_mode=WAL");
    reveal_strlit("foreign_keys=ON;");
    reveal_strlit("recursive_triggers=ON;");
    reveal_strlit("synchronous=NORMAL;");
    let none = Seq::<char>::empty();
    assert(before@ =~= before@.take(7) + "busy_timeout=30000;"@ + before@.skip(26));
    assert(before@ =~= before@.take(34) + "page_size=4096;"@ + none);
    assert(switch@ =~= switch@.take(7) + "journal_mode=WAL"@ + none);
    assert(after@ =~= after@.take(7) + "synchronous=NORMAL;"@ + after@.skip(26));
    assert(after@ =~= after@.take(34) + "foreign_keys=ON;"@ + after@.skip(50));
    let n = after@.len();
    assert(after@ =~= after@.take(n - 22) + "recursive_triggers=ON;"@ + none);
}

} // verus!
