//! When a long-running writer prunes the archive, and for how long events are kept.

use vstd::prelude::*;

use crate::archive::{prune_older_than_capped, retention_cutoff, PruneRun,
    ARCHIVE_RETENTION_HOURS_DEFAULT};
use crate::keyed::Keyed;
use crate::text::to_lowercase;

verus! {

/// The least time between two prunes of one database, in milliseconds.
pub const ARCHIVE_PRUNE_THROTTLE_MS: i64 = 300_000;

/// The time after which a prune that came to nothing is tried again, in
/// milliseconds.
pub const ARCHIVE_PRUNE_RETRY_MS: i64 = 30_000;

/// How many batches a prune of a long-running writer runs at most.
pub const ARCHIVE_PRUNE_THROTTLED_BATCHES: usize = 10;

/// What became of reading the configuration file.
#[derive(Clone, Copy, Debug, PartialEq, Eq)]
pub enum ConfigLoad {
    /// It was read, and keeps events for this many hours.
    Loaded { archive_retention_hours: u32 },
    /// There is no such file.
    FileNotFound,
    /// There is one, but it cannot be read, parsed or validated.
    Unreadable,
}

/// The retention that a configuration gives. No file means the default; a file that
/// cannot be understood gives none, because a guess could delete what its owner wants
/// to keep.
pub open spec fn retention(load: ConfigLoad) -> Option<u32> {
    match load {
        ConfigLoad::Loaded { archive_retention_hours } => Some(archive_retention_hours),
        ConfigLoad::FileNotFound => Some(ARCHIVE_RETENTION_HOURS_DEFAULT),
        ConfigLoad::Unreadable => None,
    }
}

/// The retention that a configuration gives.
pub fn retention_hours_of(load: &ConfigLoad) -> (hours: Option<u32>)
    ensures
        hours == retention(*load),
{
    match load {
        ConfigLoad::Loaded { archive_retention_hours } => Some(*archive_retention_hours),
        ConfigLoad::FileNotFound => Some(ARCHIVE_RETENTION_HOURS_DEFAULT),
        ConfigLoad::Unreadable => None,
    }
}

/// The place where another configuration file can be put in effect.
pub struct ConfigPath {
    replaced_by: Option<String>,
}

impl View for ConfigPath {
    type V = Option<Seq<char>>;

    /// The file that is in effect in place of the default one.
    closed spec fn view(&self) -> Option<Seq<char>> {
        match self.replaced_by {
            Some(path) => Some(path@),
            None => None,
        }
    }
}

impl ConfigPath {
    /// The default file is in effect.
    pub fn new() -> (config: ConfigPath)
        ensures
            config@ is None,
    {
        ConfigPath { replaced_by: None }
    }
}

/// The word that another configuration file is in effect. There is one at most: it is given out
/// only while the default file is in effect, and it takes handing it back to get there again.
pub struct TestConfigPathGuard {
    path: String,
}

impl TestConfigPathGuard {
    /// The file that is in effect.
    pub closed spec fn path(&self) -> Seq<char> {
        self.path@
    }

    /// Puts the default file in effect again.
    pub fn restore(self, config: &mut ConfigPath)
        requires
            old(config)@ == Some(self.path()),
        ensures
            final(config)@ is None,
    {
        config.replaced_by = None;
    }
}

/// Puts another configuration file in effect until the guard is handed back. Another guard has
/// to be handed back first.
#[must_use]
pub fn config_path_for_test(config: &mut ConfigPath, path: &str) -> (guard: TestConfigPathGuard)
    requires
        old(config)@ is None,
    ensures
        final(config)@ == Some(path@),
        guard.path() == path@,
{
    config.replaced_by = Some(path.to_owned());
    TestConfigPathGuard { path: path.to_owned() }
}

/// The configuration file in effect.
pub open spec fn path_in_effect(
    replaced_by: Option<Seq<char>>,
    default_path: Seq<char>,
) -> Seq<char> {
    match replaced_by {
        Some(path) => path,
        None => default_path,
    }
}

/// What is done to the place of the configuration file.
pub enum ConfigOp {
    /// Another file is put in effect, and a guard is given out.
    Replace(Seq<char>),
    /// The guard is handed back.
    Restore,
}

impl ConfigOp {
    /// It can be done in this state.
    pub open spec fn is_allowed(self, replaced_by: Option<Seq<char>>) -> bool {
        match self {
            ConfigOp::Replace(_) => replaced_by is None,
            ConfigOp::Restore => replaced_by is Some,
        }
    }

    /// The state afterwards.
    pub open spec fn apply(self) -> Option<Seq<char>> {
        match self {
            ConfigOp::Replace(path) => Some(path),
            ConfigOp::Restore => None,
        }
    }

    /// How many guards it adds to those that are alive.
    pub open spec fn guards(self) -> int {
        match self {
            ConfigOp::Replace(_) => 1,
            ConfigOp::Restore => -1,
        }
    }
}

/// The state after a history that began with the default file in effect.
pub open spec fn config_after(history: Seq<ConfigOp>) -> Option<Seq<char>> {
    if history.len() == 0 {
        None
    } else {
        history.last().apply()
    }
}

/// Every step of a history was allowed when it was taken.
pub open spec fn is_config_history(history: Seq<ConfigOp>) -> bool {
    forall|i: int|
        0 <= i < history.len() ==> (#[trigger] history[i]).is_allowed(config_after(history.take(i)))
}

/// How many guards are alive after a history.
pub open spec fn guards_alive(history: Seq<ConfigOp>) -> int
    decreases history.len(),
{
    if history.len() == 0 {
        0
    } else {
        guards_alive(history.drop_last()) + history.last().guards()
    }
}

/// At most one guard is alive at any time. While one is, its file is in effect; while none is,
/// the default file is.
pub proof fn law_one_guard_at_most(history: Seq<ConfigOp>, default_path: Seq<char>)
    requires
        is_config_history(history),
    ensures
        guards_alive(history) == if config_after(history) is Some {
            1int
        } else {
            0
        },
        guards_alive(history) == 0 ==> path_in_effect(config_after(history), default_path)
            == default_path,
        history.len() > 0 ==> (history.last() matches ConfigOp::Replace(path) ==> path_in_effect(
            config_after(history),
            default_path,
        ) == path),
    decreases history.len(),
{
    if history.len() > 0 {
        let before = history.drop_last();
        assert forall|i: int| 0 <= i < before.len() implies (#[trigger] before[i]).is_allowed(
            config_after(before.take(i)),
        ) by {
            assert(history[i].is_allowed(config_after(history.take(i))));
            assert(history.take(i) =~= before.take(i));
        }
        law_one_guard_at_most(before, default_path);
        assert(history.take(history.len() - 1) =~= before);
        assert(history[history.len() - 1].is_allowed(config_after(before)));
    }
}

/// The configuration file in effect.
pub fn production_config_path(config: &ConfigPath, default_path: &str) -> (path: String)
    ensures
        path@ == path_in_effect(config@, default_path@),
{
    match &config.replaced_by {
        Some(path) => path.clone(),
        None => default_path.to_owned(),
    }
}

/// The retention that the file in effect gives, read by `load`.
pub fn configured_retention_hours<F>(
    config: &ConfigPath,
    default_path: &str,
    load: F,
) -> (hours: Option<u32>) where F: FnOnce(String) -> ConfigLoad
    requires
        forall|path: String|
            path@ == path_in_effect(config@, default_path@) ==> #[trigger] call_requires(
                load,
                (path,),
            ),
    ensures
        exists|path: String, loaded: ConfigLoad|
            {
                &&& path@ == path_in_effect(config@, default_path@)
                &&& #[trigger] call_ensures(load, (path,), loaded)
                &&& hours == retention(loaded)
            },
{
    let path = production_config_path(config, default_path);
    configured_retention_hours_at(path, load)
}

/// The retention that the file at `path` gives, read by `load`.
#[must_use]
pub fn configured_retention_hours_at<F>(path: String, load: F) -> (hours: Option<u32>) where
    F: FnOnce(String) -> ConfigLoad,

    requires
        call_requires(load, (path,)),
    ensures
        exists|loaded: ConfigLoad|
            #[trigger] call_ensures(load, (path,), loaded) && hours == retention(loaded),
{
    let loaded = load(path);
    retention_hours_of(&loaded)
}

/// The name of a database's slot: a fixed one for a database in memory, and one name
/// for one file where file names differ only in case.
pub open spec fn slot_name(path: Seq<char>, case_insensitive: bool) -> Seq<char> {
    if path.len() == 0 {
        ":memory:"@
    } else if case_insensitive {
        crate::text::lowercase(path)
    } else {
        path
    }
}

/// The name of a database's slot.
pub fn throttle_key(path: &str, case_insensitive: bool) -> (key: String)
    ensures
        key@ == slot_name(path@, case_insensitive),
{
    if path.is_empty() {
        ":memory:".to_owned()
    } else if case_insensitive {
        to_lowercase(path)
    } else {
        path.to_owned()
    }
}

/// When each database was last pruned.
pub struct PruneThrottle {
    slots: Keyed<i64>,
}

impl View for PruneThrottle {
    type V = Map<Seq<char>, i64>;

    closed spec fn view(&self) -> Map<Seq<char>, i64> {
        self.slots@
    }
}

/// It is too soon to prune: less than the interval has passed since the last prune.
pub open spec fn too_soon(
    slots: Map<Seq<char>, i64>,
    key: Seq<char>,
    now_ms: int,
    min_interval_ms: int,
) -> bool {
    slots.contains_key(key) && now_ms - slots[key] < min_interval_ms
}

/// The mark from which the interval ends `ARCHIVE_PRUNE_RETRY_MS` after `now_ms`.
pub open spec fn retry_mark(now_ms: int, min_interval_ms: int) -> int {
    now_ms - min_interval_ms + ARCHIVE_PRUNE_RETRY_MS
}

/// The retry mark can be computed.
pub open spec fn retry_mark_fits(now_ms: int, min_interval_ms: int) -> bool {
    &&& i64::MIN <= now_ms - min_interval_ms <= i64::MAX
    &&& i64::MIN <= retry_mark(now_ms, min_interval_ms) <= i64::MAX
}

/// The slots after a prune at `now_ms` came to nothing. A later mark was put there by
/// another prune, and stays.
pub open spec fn after_back_off(
    slots: Map<Seq<char>, i64>,
    key: Seq<char>,
    now_ms: int,
    min_interval_ms: int,
) -> Map<Seq<char>, i64> {
    if slots.contains_key(key) && slots[key] > now_ms {
        slots
    } else {
        slots.insert(key, retry_mark(now_ms, min_interval_ms) as i64)
    }
}

impl PruneThrottle {
    /// No database was pruned yet.
    pub fn new() -> (throttle: PruneThrottle)
        ensures
            throttle@ == Map::<Seq<char>, i64>::empty(),
    {
        PruneThrottle { slots: Keyed::new() }
    }

    /// Whether a prune may run now. It is marked as run before it runs, so that no
    /// second one starts meanwhile.
    pub fn may_prune(&mut self, key: &str, now_ms: i64, min_interval_ms: i64) -> (admitted: bool)
        ensures
            admitted == !too_soon(old(self)@, key@, now_ms as int, min_interval_ms as int),
            final(self)@ == if admitted {
                old(self)@.insert(key@, now_ms)
            } else {
                old(self)@
            },
    {
        if let Some(last) = self.slots.get(key) {
            let passed: i128 = now_ms as i128 - *last as i128;
            if passed < min_interval_ms as i128 {
                return false;
            }
        }
        self.slots.set(key.to_owned(), now_ms);
        true
    }

    /// Marks a prune that came to nothing: it may be tried again soon, and neither at
    /// once nor only after a full interval.
    pub fn back_off_throttle(&mut self, key: &str, now_ms: i64, min_interval_ms: i64)
        requires
            retry_mark_fits(now_ms as int, min_interval_ms as int),
        ensures
            final(self)@ == after_back_off(
                old(self)@,
                key@,
                now_ms as int,
                min_interval_ms as int,
            ),
    {
        if let Some(last) = self.slots.get(key) {
            if *last > now_ms {
                return ;
            }
        }
        let mark: i64 = now_ms - min_interval_ms + ARCHIVE_PRUNE_RETRY_MS;
        self.slots.set(key.to_owned(), mark);
    }
}

/// The slots after a prune at `now_ms` has ended: one that failed is marked like one that came
/// to nothing.
pub open spec fn after_prune(
    slots: Map<Seq<char>, i64>,
    key: Seq<char>,
    now_ms: int,
    min_interval_ms: int,
    failed: bool,
) -> Map<Seq<char>, i64> {
    if failed {
        after_back_off(slots, key, now_ms, min_interval_ms)
    } else {
        slots
    }
}

/// Takes in how a prune has ended. One whose batches failed is tried again soon.
pub fn prune_ended(
    throttle: &mut PruneThrottle,
    key: &str,
    now_ms: i64,
    min_interval_ms: i64,
    failed: bool,
)
    requires
        failed ==> retry_mark_fits(now_ms as int, min_interval_ms as int),
    ensures
        final(throttle)@ == after_prune(
            old(throttle)@,
            key@,
            now_ms as int,
            min_interval_ms as int,
            failed,
        ),
{
    if failed {
        throttle.back_off_throttle(key, now_ms, min_interval_ms);
    }
}

/// The prune of a long-running writer.
pub open spec fn throttled_run(now_ms: int, retention_hours: int) -> PruneRun {
    PruneRun {
        cutoff: crate::archive::window_start(now_ms, retention_hours) as i64,
        batches_left: ARCHIVE_PRUNE_THROTTLED_BATCHES,
        deleted: 0,
        exhausted: false,
    }
}

/// What an admitted prune comes to once the retention is known: without one it backs
/// off and does not run.
pub open spec fn admitted_outcome(
    slots: Map<Seq<char>, i64>,
    key: Seq<char>,
    now_ms: i64,
    min_interval_ms: int,
    hours: Option<u32>,
) -> (Map<Seq<char>, i64>, Option<PruneRun>) {
    let marked = slots.insert(key, now_ms);
    match hours {
        Some(h) => (marked, Some(throttled_run(now_ms as int, h as int))),
        None => (after_back_off(marked, key, now_ms as int, min_interval_ms), None),
    }
}

/// Goes on with an admitted prune once the retention is known.
fn with_retention(
    throttle: &mut PruneThrottle,
    key: &str,
    now_ms: i64,
    min_interval_ms: i64,
    hours: Option<u32>,
) -> (run: Option<PruneRun>)
    requires
        hours is None ==> retry_mark_fits(now_ms as int, min_interval_ms as int),
        hours matches Some(h) ==> crate::archive::window_start(now_ms as int, h as int)
            >= i64::MIN,
    ensures
        match hours {
            Some(h) => final(throttle)@ == old(throttle)@ && run == Some(
                throttled_run(now_ms as int, h as int),
            ),
            None => run is None && final(throttle)@ == after_back_off(
                old(throttle)@,
                key@,
                now_ms as int,
                min_interval_ms as int,
            ),
        },
{
    match hours {
        Some(h) => Some(
            prune_older_than_capped(
                retention_cutoff(now_ms, h),
                ARCHIVE_PRUNE_THROTTLED_BATCHES,
            ),
        ),
        None => {
            throttle.back_off_throttle(key, now_ms, min_interval_ms);
            None
        },
    }
}

/// The prune to run now; none where it is too soon or the retention is not known. The
/// retention is asked for only once the prune is admitted: where it is too soon, `retention`
/// need not be ready to be called.
pub fn prune_archive_throttled_with<F>(
    throttle: &mut PruneThrottle,
    key: &str,
    now_ms: i64,
    min_interval_ms: i64,
    retention: F,
) -> (run: Option<PruneRun>) where F: FnOnce() -> Option<u32>
    requires
        !too_soon(old(throttle)@, key@, now_ms as int, min_interval_ms as int) ==> {
            &&& call_requires(retention, ())
            &&& forall|hours: u32|
                call_ensures(retention, (), Some(hours)) ==> crate::archive::window_start(
                    now_ms as int,
                    hours as int,
                ) >= i64::MIN
            &&& call_ensures(retention, (), None::<u32>) ==> retry_mark_fits(
                now_ms as int,
                min_interval_ms as int,
            )
        },
    ensures
        too_soon(old(throttle)@, key@, now_ms as int, min_interval_ms as int) ==> run is None
            && final(throttle)@ == old(throttle)@,
        !too_soon(old(throttle)@, key@, now_ms as int, min_interval_ms as int) ==> exists|
            hours: Option<u32>,
        |
            {
                &&& #[trigger] call_ensures(retention, (), hours)
                &&& (final(throttle)@, run) == admitted_outcome(
                    old(throttle)@,
                    key@,
                    now_ms,
                    min_interval_ms as int,
                    hours,
                )
            },
{
    if !throttle.may_prune(key, now_ms, min_interval_ms) {
        return None;
    }
    let hours = retention();
    with_retention(throttle, key, now_ms, min_interval_ms, hours)
}

/// The prune to run now for a known retention; none where it is too soon.
pub fn prune_archive_throttled_at(
    throttle: &mut PruneThrottle,
    key: &str,
    now_ms: i64,
    min_interval_ms: i64,
    retention_hours: u32,
) -> (run: Option<PruneRun>)
    requires
        crate::archive::window_start(now_ms as int, retention_hours as int) >= i64::MIN,
    ensures
        (final(throttle)@, run) == if too_soon(
            old(throttle)@,
            key@,
            now_ms as int,
            min_interval_ms as int,
        ) {
            (old(throttle)@, None)
        } else {
            admitted_outcome(
                old(throttle)@,
                key@,
                now_ms,
                min_interval_ms as int,
                Some(retention_hours),
            )
        },
{
    if !throttle.may_prune(key, now_ms, min_interval_ms) {
        return None;
    }
    with_retention(throttle, key, now_ms, min_interval_ms, Some(retention_hours))
}

/// What a look at the configuration comes to can be computed: the start of the window, or the
/// mark of the next try where there is no retention.
pub open spec fn outcome_fits(now_ms: int, hours: Option<u32>) -> bool {
    match hours {
        Some(h) => crate::archive::window_start(now_ms, h as int) >= i64::MIN,
        None => retry_mark_fits(now_ms, ARCHIVE_PRUNE_THROTTLE_MS as int),
    }
}

/// The prune to run now with the retention of the file at `config_path`.
pub fn prune_archive_throttled_from<F>(
    throttle: &mut PruneThrottle,
    key: &str,
    now_ms: i64,
    config_path: String,
    load: F,
) -> (run: Option<PruneRun>) where F: FnOnce(String) -> ConfigLoad
    requires
        !too_soon(old(throttle)@, key@, now_ms as int, ARCHIVE_PRUNE_THROTTLE_MS as int) ==> {
            &&& call_requires(load, (config_path,))
            &&& forall|loaded: ConfigLoad| #[trigger]
                call_ensures(load, (config_path,), loaded) ==> outcome_fits(
                    now_ms as int,
                    retention(loaded),
                )
        },
    ensures
        too_soon(old(throttle)@, key@, now_ms as int, ARCHIVE_PRUNE_THROTTLE_MS as int) ==> run
            is None && final(throttle)@ == old(throttle)@,
        !too_soon(old(throttle)@, key@, now_ms as int, ARCHIVE_PRUNE_THROTTLE_MS as int)
            ==> exists|loaded: ConfigLoad|
            {
                &&& #[trigger] call_ensures(load, (config_path,), loaded)
                &&& (final(throttle)@, run) == admitted_outcome(
                    old(throttle)@,
                    key@,
                    now_ms,
                    ARCHIVE_PRUNE_THROTTLE_MS as int,
                    retention(loaded),
                )
            },
{
    if !throttle.may_prune(key, now_ms, ARCHIVE_PRUNE_THROTTLE_MS) {
        return None;
    }
    let hours = configured_retention_hours_at(config_path, load);
    with_retention(throttle, key, now_ms, ARCHIVE_PRUNE_THROTTLE_MS, hours)
}

/// The prune to run now with the retention of the file in effect.
pub fn prune_archive_throttled<F>(
    throttle: &mut PruneThrottle,
    key: &str,
    now_ms: i64,
    config: &ConfigPath,
    default_path: &str,
    load: F,
) -> (run: Option<PruneRun>) where F: FnOnce(String) -> ConfigLoad
    requires
        forall|path: String|
            !too_soon(old(throttle)@, key@, now_ms as int, ARCHIVE_PRUNE_THROTTLE_MS as int)
                && path@ == path_in_effect(config@, default_path@) ==> #[trigger] call_requires(
                load,
                (path,),
            ),
        forall|path: String, loaded: ConfigLoad|
            !too_soon(old(throttle)@, key@, now_ms as int, ARCHIVE_PRUNE_THROTTLE_MS as int)
                && path@ == path_in_effect(config@, default_path@) && #[trigger] call_ensures(
                load,
                (path,),
                loaded,
            ) ==> outcome_fits(now_ms as int, retention(loaded)),
    ensures
        too_soon(old(throttle)@, key@, now_ms as int, ARCHIVE_PRUNE_THROTTLE_MS as int) ==> run
            is None && final(throttle)@ == old(throttle)@,
        !too_soon(old(throttle)@, key@, now_ms as int, ARCHIVE_PRUNE_THROTTLE_MS as int)
            ==> exists|path: String, loaded: ConfigLoad|
            {
                &&& path@ == path_in_effect(config@, default_path@)
                &&& #[trigger] call_ensures(load, (path,), loaded)
                &&& (final(throttle)@, run) == admitted_outcome(
                    old(throttle)@,
                    key@,
                    now_ms,
                    ARCHIVE_PRUNE_THROTTLE_MS as int,
                    retention(loaded),
                )
            },
{
    let path = production_config_path(config, default_path);
    prune_archive_throttled_from(throttle, key, now_ms, path, load)
}

/// One prune per interval: after an admitted prune the next one is refused for as
/// long as less than the interval has passed, and admitted from then on.
pub proof fn law_one_prune_per_interval(
    slots: Map<Seq<char>, i64>,
    key: Seq<char>,
    now_ms: i64,
    later_ms: int,
    min_interval_ms: int,
)
    ensures
        too_soon(slots.insert(key, now_ms), key, later_ms, min_interval_ms) <==> later_ms
            < now_ms + min_interval_ms,
{
}

/// A prune that came to nothing neither burns its slot nor hogs it: the next one is
/// refused until the retry time has passed, and admitted from then on.
pub proof fn law_failed_prune_is_retried(
    slots: Map<Seq<char>, i64>,
    key: Seq<char>,
    now_ms: i64,
    later_ms: int,
    min_interval_ms: int,
)
    requires
        retry_mark_fits(now_ms as int, min_interval_ms),
    ensures
        too_soon(
            after_back_off(slots.insert(key, now_ms), key, now_ms as int, min_interval_ms),
            key,
            later_ms,
            min_interval_ms,
        ) <==> later_ms < now_ms + ARCHIVE_PRUNE_RETRY_MS,
{
}

/// A failed delete is retried just as a failed look at the configuration is: a prune that was
/// admitted and whose batches failed is refused until the retry time has passed, and admitted
/// from then on.
pub proof fn law_failed_delete_is_retried(
    slots: Map<Seq<char>, i64>,
    key: Seq<char>,
    now_ms: i64,
    hours: u32,
    later_ms: int,
    min_interval_ms: int,
)
    requires
        retry_mark_fits(now_ms as int, min_interval_ms),
    ensures
        ({
            let admitted = admitted_outcome(slots, key, now_ms, min_interval_ms, Some(hours));
            let left = after_prune(admitted.0, key, now_ms as int, min_interval_ms, true);
            &&& admitted.1 is Some
            &&& too_soon(left, key, later_ms, min_interval_ms) <==> later_ms < now_ms
                + ARCHIVE_PRUNE_RETRY_MS
            &&& left == admitted_outcome(slots, key, now_ms, min_interval_ms, None).0
        }),
{
}

/// A back-off never takes away the mark of a later prune.
pub proof fn law_back_off_keeps_later_marks(
    slots: Map<Seq<char>, i64>,
    key: Seq<char>,
    now_ms: int,
    min_interval_ms: int,
)
    requires
        slots.contains_key(key),
        slots[key] > now_ms,
    ensures
        after_back_off(slots, key, now_ms, min_interval_ms) == slots,
{
}

/// Databases do not hold each other up: what is marked for one changes nothing for
/// another.
pub proof fn law_databases_are_throttled_apart(
    slots: Map<Seq<char>, i64>,
    key: Seq<char>,
    mark: i64,
    other: Seq<char>,
    now_ms: int,
    min_interval_ms: int,
)
    requires
        other != key,
    ensures
        too_soon(slots.insert(key, mark), other, now_ms, min_interval_ms) == too_soon(
            slots,
            other,
            now_ms,
            min_interval_ms,
        ),
{
}

/// Only a file that does not exist stands for the default: one that cannot be
/// understood gives no retention, and a prune without a retention does not run.
pub proof fn law_unreadable_config_prunes_nothing(
    slots: Map<Seq<char>, i64>,
    key: Seq<char>,
    now_ms: i64,
    min_interval_ms: int,
)
    ensures
        admitted_outcome(
            slots,
            key,
            now_ms,
            min_interval_ms,
            retention(ConfigLoad::Unreadable),
        ).1 is None,
        retention(ConfigLoad::FileNotFound) == Some(ARCHIVE_RETENTION_HOURS_DEFAULT),
{
}

/// A prune at one time holds back the next one of the same database for as long as its interval
/// has not passed, and no other database.
pub proof fn law_admitted_prune_holds_back_the_next(
    first: &mut PruneThrottle,
    second: &mut PruneThrottle,
    key: &str,
    now_ms: i64,
    interval_ms: i64,
    other: &str,
    later_ms: i64,
    later_interval_ms: i64,
    admitted: bool,
)
    requires
        call_ensures(PruneThrottle::may_prune, (first, key, now_ms, interval_ms), true),
        old(second)@ == final(first)@,
        call_ensures(
            PruneThrottle::may_prune,
            (second, other, later_ms, later_interval_ms),
            admitted,
        ),
    ensures
        other@ == key@ ==> (admitted <==> later_ms - now_ms >= later_interval_ms),
        !admitted ==> final(second)@ == old(second)@,
{
}

/// A database that was never pruned is pruned at once.
pub proof fn law_first_prune_is_admitted(
    throttle: &mut PruneThrottle,
    key: &str,
    now_ms: i64,
    interval_ms: i64,
    admitted: bool,
)
    requires
        call_ensures(PruneThrottle::new, (), *old(throttle)),
        call_ensures(PruneThrottle::may_prune, (throttle, key, now_ms, interval_ms), admitted),
    ensures
        admitted,
{
}

/// A prune that failed is admitted again after the retry time, not before and not later, and one
/// that did not fail holds back the next one for its full interval.
pub proof fn law_ended_prune_is_admitted_again(
    first: &mut PruneThrottle,
    second: &mut PruneThrottle,
    third: &mut PruneThrottle,
    key: &str,
    now_ms: i64,
    interval_ms: i64,
    failed: bool,
    later_ms: i64,
    admitted: bool,
)
    requires
        call_ensures(PruneThrottle::may_prune, (first, key, now_ms, interval_ms), true),
        old(second)@ == final(first)@,
        retry_mark_fits(now_ms as int, interval_ms as int),
        call_ensures(prune_ended, (second, key, now_ms, interval_ms, failed), ()),
        old(third)@ == final(second)@,
        call_ensures(PruneThrottle::may_prune, (third, key, later_ms, interval_ms), admitted),
    ensures
        admitted <==> later_ms - now_ms >= if failed {
            ARCHIVE_PRUNE_RETRY_MS
        } else {
            interval_ms
        },
{
}

/// A back-off leaves the mark of a later prune alone.
pub proof fn law_back_off_does_not_undo_a_later_prune(
    first: &mut PruneThrottle,
    second: &mut PruneThrottle,
    key: &str,
    now_ms: i64,
    interval_ms: i64,
    earlier_ms: i64,
)
    requires
        call_ensures(PruneThrottle::may_prune, (first, key, now_ms, interval_ms), true),
        old(second)@ == final(first)@,
        earlier_ms < now_ms,
        call_ensures(
            PruneThrottle::back_off_throttle,
            (second, key, earlier_ms, interval_ms),
            (),
        ),
    ensures
        final(second)@ == old(second)@,
{
}

/// A throttled prune runs exactly when the throttle admits one, keeps the events of the window
/// that it was given and no others, and is capped.
pub proof fn law_throttled_prune_keeps_its_window(
    asked: &mut PruneThrottle,
    throttle: &mut PruneThrottle,
    key: &str,
    now_ms: i64,
    interval_ms: i64,
    hours: u32,
    admitted: bool,
    run: Option<PruneRun>,
    t: int,
)
    requires
        old(asked)@ == old(throttle)@,
        call_ensures(PruneThrottle::may_prune, (asked, key, now_ms, interval_ms), admitted),
        now_ms - hours * 3_600_000 >= i64::MIN,
        call_ensures(
            prune_archive_throttled_at,
            (throttle, key, now_ms, interval_ms, hours),
            run,
        ),
    ensures
        run is Some <==> admitted,
        final(throttle)@ == final(asked)@,
        run matches Some(r) ==> {
            &&& t >= r.cutoff <==> now_ms - t <= hours * 3_600_000
            &&& r.batches_left == ARCHIVE_PRUNE_THROTTLED_BATCHES
            &&& r.deleted == 0
            &&& !r.exhausted
        },
{
}

/// The same where the retention is looked up: the prune keeps the events of the window that the
/// lookup gave, and without one it does not run.
pub proof fn law_looked_up_window_is_kept<F>(
    throttle: &mut PruneThrottle,
    key: &str,
    now_ms: i64,
    interval_ms: i64,
    lookup: F,
    run: Option<PruneRun>,
) where F: FnOnce() -> Option<u32>
    requires
        forall|hours: u32|
            call_ensures(lookup, (), Some(hours)) ==> now_ms - hours * 3_600_000 >= i64::MIN,
        call_ensures(
            prune_archive_throttled_with::<F>,
            (throttle, key, now_ms, interval_ms, lookup),
            run,
        ),
    ensures
        run matches Some(r) ==> exists|hours: u32|
            {
                &&& call_ensures(lookup, (), Some(hours))
                &&& now_ms - r.cutoff == hours * 3_600_000
            },
        (forall|hours: Option<u32>| #[trigger] call_ensures(lookup, (), hours) ==> hours is None)
            ==> run is None,
{
    if run is Some {
        let hours = choose|hours: Option<u32>|
            {
                &&& #[trigger] call_ensures(lookup, (), hours)
                &&& (final(throttle)@, run) == admitted_outcome(
                    old(throttle)@,
                    key@,
                    now_ms,
                    interval_ms as int,
                    hours,
                )
            };
        assert(hours is Some);
        assert(call_ensures(lookup, (), Some(hours->0)));
    }
}

/// The same where the retention stands in a file: the hours of the file, the default where there
/// is no file, and no prune where the file cannot be understood.
pub proof fn law_window_of_the_file_is_kept<F>(
    throttle: &mut PruneThrottle,
    key: &str,
    now_ms: i64,
    path: String,
    load: F,
    loaded: ConfigLoad,
    run: Option<PruneRun>,
    t: int,
) where F: FnOnce(String) -> ConfigLoad
    requires
        forall|other: ConfigLoad| #[trigger] call_ensures(load, (path,), other) ==> other == loaded,
        loaded matches ConfigLoad::Loaded { archive_retention_hours } ==> now_ms
            - archive_retention_hours * 3_600_000 >= i64::MIN,
        now_ms - ARCHIVE_RETENTION_HOURS_DEFAULT * 3_600_000 >= i64::MIN,
        call_ensures(
            prune_archive_throttled_from::<F>,
            (throttle, key, now_ms, path, load),
            run,
        ),
    ensures
        loaded is Unreadable ==> run is None,
        loaded matches ConfigLoad::Loaded { archive_retention_hours } ==> (run matches Some(r)
            ==> (t >= r.cutoff <==> now_ms - t <= archive_retention_hours * 3_600_000)),
        loaded is FileNotFound ==> (run matches Some(r) ==> (t >= r.cutoff <==> now_ms - t
            <= ARCHIVE_RETENTION_HOURS_DEFAULT * 3_600_000)),
{
}

/// The retention that a file gives is the one that stands in it.
pub proof fn law_configured_hours_are_kept(loaded: ConfigLoad, hours: Option<u32>)
    requires
        call_ensures(retention_hours_of, (&loaded,), hours),
    ensures
        loaded matches ConfigLoad::Loaded { archive_retention_hours } ==> hours == Some(
            archive_retention_hours,
        ),
        hours is None <==> loaded is Unreadable,
{
}

/// A file that was put in effect is in effect until its guard is handed back, and the default one
/// otherwise.
pub proof fn law_replaced_file_is_in_effect(
    config: &mut ConfigPath,
    restored: &mut ConfigPath,
    path: &str,
    guard: TestConfigPathGuard,
    default_path: &str,
    meanwhile: String,
    afterwards: String,
)
    requires
        call_ensures(config_path_for_test, (config, path), guard),
        call_ensures(production_config_path, (&*final(config), default_path), meanwhile),
        old(restored)@ == final(config)@,
        call_ensures(TestConfigPathGuard::restore, (guard, restored), ()),
        call_ensures(production_config_path, (&*final(restored), default_path), afterwards),
    ensures
        meanwhile@ == path@,
        afterwards@ == default_path@,
{
}

/// A file has one slot, and different files have different ones: where the case of names counts,
/// and where it does not, up to case. A database in memory has a slot too.
pub proof fn law_file_has_one_slot(a: &str, b: &str, ignore_case: bool, slot_a: String, slot_b: String)
    requires
        a@.len() > 0,
        b@.len() > 0,
        call_ensures(throttle_key, (a, ignore_case), slot_a),
        call_ensures(throttle_key, (b, ignore_case), slot_b),
    ensures
        !ignore_case ==> (slot_a@ == slot_b@ <==> a@ == b@),
        ignore_case ==> (slot_a@ == slot_b@ <==> crate::text::lowercase(a@)
            == crate::text::lowercase(b@)),
{
}

/// Five minutes lie between two prunes, half a minute between a failed one and the next, and a
/// throttled prune runs ten batches; events are kept for a day where nothing is configured.
pub proof fn law_prunes_are_minutes_apart()
    ensures
        ARCHIVE_PRUNE_THROTTLE_MS == 5 * 60 * 1000,
        ARCHIVE_PRUNE_RETRY_MS == 30 * 1000,
        ARCHIVE_PRUNE_RETRY_MS < ARCHIVE_PRUNE_THROTTLE_MS,
        ARCHIVE_PRUNE_THROTTLED_BATCHES == 10,
        ARCHIVE_RETENTION_HOURS_DEFAULT == 24,
{
}

/// The hours that are configured are those of the file in effect: the one that stands in for it,
/// or the default one.
pub proof fn law_hours_are_those_of_the_file_in_effect<F>(
    config: &ConfigPath,
    default_path: &str,
    load: F,
    hours: Option<u32>,
) where F: FnOnce(String) -> ConfigLoad
    requires
        call_ensures(configured_retention_hours::<F>, (config, default_path, load), hours),
    ensures
        exists|path: String, loaded: ConfigLoad|
            {
                &&& config@ matches Some(replaced) ==> path@ == replaced
                &&& config@ is None ==> path@ == default_path@
                &&& #[trigger] call_ensures(load, (path,), loaded)
                &&& loaded matches ConfigLoad::Loaded { archive_retention_hours } ==> hours == Some(
                    archive_retention_hours,
                )
                &&& loaded is FileNotFound ==> hours == Some(24u32)
                &&& loaded is Unreadable ==> hours is None
            },
{
    let (path, loaded) = choose|path: String, loaded: ConfigLoad|
        {
            &&& path@ == path_in_effect(config@, default_path@)
            &&& #[trigger] call_ensures(load, (path,), loaded)
            &&& hours == retention(loaded)
        };
    assert(call_ensures(load, (path,), loaded));
}

/// The same of a file that is given.
pub proof fn law_hours_are_those_of_the_given_file<F>(path: String, load: F, hours: Option<u32>) where
    F: FnOnce(String) -> ConfigLoad,

    requires
        call_ensures(configured_retention_hours_at::<F>, (path, load), hours),
    ensures
        exists|loaded: ConfigLoad|
            {
                &&& #[trigger] call_ensures(load, (path,), loaded)
                &&& loaded matches ConfigLoad::Loaded { archive_retention_hours } ==> hours == Some(
                    archive_retention_hours,
                )
                &&& loaded is FileNotFound ==> hours == Some(24u32)
                &&& loaded is Unreadable ==> hours is None
            },
{
    let loaded = choose|loaded: ConfigLoad|
        #[trigger] call_ensures(load, (path,), loaded) && hours == retention(loaded);
    assert(call_ensures(load, (path,), loaded));
}

/// A throttled prune of an archive runs exactly if enough time has gone by and the file in effect
/// can be understood, and then over the window of that file.
pub proof fn law_throttled_prune_goes_by_the_file_in_effect<F>(
    asked: &mut PruneThrottle,
    throttle: &mut PruneThrottle,
    key: &str,
    now_ms: i64,
    config: &ConfigPath,
    default_path: &str,
    load: F,
    loaded: ConfigLoad,
    admitted: bool,
    run: Option<PruneRun>,
    t: int,
) where F: FnOnce(String) -> ConfigLoad
    requires
        old(asked)@ == old(throttle)@,
        call_ensures(PruneThrottle::may_prune, (asked, key, now_ms, 300_000i64), admitted),
        forall|path: String, other: ConfigLoad| #[trigger]
            call_ensures(load, (path,), other) && (config@ matches Some(replaced) ==> path@
                == replaced) && (config@ is None ==> path@ == default_path@) ==> other == loaded,
        loaded matches ConfigLoad::Loaded { archive_retention_hours } ==> now_ms
            - archive_retention_hours * 3_600_000 >= i64::MIN,
        now_ms - 24 * 3_600_000 >= i64::MIN,
        call_ensures(
            prune_archive_throttled::<F>,
            (throttle, key, now_ms, config, default_path, load),
            run,
        ),
    ensures
        run is Some <==> admitted && !(loaded is Unreadable),
        loaded matches ConfigLoad::Loaded { archive_retention_hours } ==> (run matches Some(r)
            ==> (t >= r.cutoff <==> now_ms - t <= archive_retention_hours * 3_600_000)),
        loaded is FileNotFound ==> (run matches Some(r) ==> (t >= r.cutoff <==> now_ms - t <= 24
            * 3_600_000)),
        run matches Some(r) ==> r.batches_left == 10 && r.deleted == 0 && !r.exhausted,
{
    if admitted {
        let (path, other) = choose|path: String, other: ConfigLoad|
            {
                &&& path@ == path_in_effect(config@, default_path@)
                &&& #[trigger] call_ensures(load, (path,), other)
                &&& (final(throttle)@, run) == admitted_outcome(
                    old(throttle)@,
                    key@,
                    now_ms,
                    ARCHIVE_PRUNE_THROTTLE_MS as int,
                    retention(other),
                )
            };
        assert(call_ensures(load, (path,), other));
        assert(other == loaded);
    }
}

} // verus!
