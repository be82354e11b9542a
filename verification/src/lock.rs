//! The lock that lets one process at a time maintain the index of a database.

use vstd::prelude::*;
use vstd::string::*;

use crate::text::{concat, push_numeral};

verus! {

/// What the name of a lock file has behind the name of the archive.
pub const WATCH_LOCK_SUFFIX: &'static str = ".live-index.lock";

/// The path that a lock belongs to: the resolved one, so that one file is not locked
/// under two names, and the given one where it could not be resolved.
pub open spec fn lock_base(l1_path: Seq<char>, resolved: Option<String>) -> Seq<char> {
    match resolved {
        Some(r) => r@,
        None => l1_path,
    }
}

/// The path that a lock belongs to.
pub fn watch_lock_base(l1_path: &str, resolved: &Option<String>) -> (base: String)
    ensures
        base@ == lock_base(l1_path@, *resolved),
{
    match resolved {
        Some(r) => r.clone(),
        None => l1_path.to_owned(),
    }
}

/// The file that stands for the lock.
pub open spec fn lock_file(base: Seq<char>) -> Seq<char> {
    base + WATCH_LOCK_SUFFIX@
}

/// The file that stands for the lock.
pub fn watch_lock_path(base: &str) -> (path: String)
    ensures
        path@ == lock_file(base@),
{
    concat(base, WATCH_LOCK_SUFFIX)
}

/// What became of taking the lock.
#[derive(Clone, Debug, PartialEq, Eq)]
pub enum LockAttempt {
    /// It is taken.
    Taken,
    /// The lock file was there already.
    FileExists,
    /// The lock file could not be made, for this reason.
    Io(String),
    /// Another process has the lock file open for itself alone.
    SharingViolation,
    /// The lock file could not be opened, with this error number.
    OsError(u32),
}

/// The message for a lock that was not taken.
pub open spec fn lock_message(path: Seq<char>, attempt: LockAttempt) -> Option<Seq<char>> {
    match attempt {
        LockAttempt::Taken => None,
        LockAttempt::FileExists => Some(
            "另一索引维护者在写此 L1 (锁 "@ + path
                + "); 若确无其它 watch/serve 在跑 (崩溃残留), 删该文件再试"@,
        ),
        LockAttempt::Io(reason) => Some("取索引锁失败: "@ + reason@),
        LockAttempt::SharingViolation => Some(
            "另一索引维护者正独占此 L1 (锁 "@ + path
                + "); 同时只允许一个 watch/serve full 写。等它退出或换库"@,
        ),
        LockAttempt::OsError(code) => Some(
            "取索引锁失败 (CreateFileW 错误码 "@ + crate::text::numeral(code as int) + "): "@
                + path,
        ),
    }
}

/// Whether the lock is taken; otherwise the message that says why not.
pub fn acquire_watch_lock(path: &str, attempt: &LockAttempt) -> (taken: Result<(), String>)
    ensures
        match taken {
            Ok(_) => lock_message(path@, *attempt) is None,
            Err(message) => lock_message(path@, *attempt) == Some(message@),
        },
{
    let mut message = String::new();
    match attempt {
        LockAttempt::Taken => {
            return Ok(());
        },
        LockAttempt::FileExists => {
            message.append("另一索引维护者在写此 L1 (锁 ");
            message.append(path);
            message.append("); 若确无其它 watch/serve 在跑 (崩溃残留), 删该文件再试");
        },
        LockAttempt::Io(reason) => {
            message.append("取索引锁失败: ");
            message.append(reason.as_str());
        },
        LockAttempt::SharingViolation => {
            message.append("另一索引维护者正独占此 L1 (锁 ");
            message.append(path);
            message.append("); 同时只允许一个 watch/serve full 写。等它退出或换库");
        },
        LockAttempt::OsError(code) => {
            message.append("取索引锁失败 (CreateFileW 错误码 ");
            push_numeral(&mut message, *code as i64);
            message.append("): ");
            message.append(path);
        },
    }
    assert(Some(message@) =~~= lock_message(path@, *attempt));
    Err(message)
}

/// What a system that makes a lock file for one holder at a time may answer while some lock
/// files are held: a held one is not given away, and only a held one is refused as held.
pub open spec fn may_answer(held: Set<Seq<char>>, path: Seq<char>, attempt: LockAttempt) -> bool {
    match attempt {
        LockAttempt::Taken => !held.contains(path),
        LockAttempt::FileExists | LockAttempt::SharingViolation => held.contains(path),
        LockAttempt::Io(_) | LockAttempt::OsError(_) => true,
    }
}

/// The lock files that are held after an attempt.
pub open spec fn held_after(
    held: Set<Seq<char>>,
    path: Seq<char>,
    attempt: LockAttempt,
) -> Set<Seq<char>> {
    if attempt is Taken {
        held.insert(path)
    } else {
        held
    }
}

/// One holder at a time: on such a system, while the lock of an archive is held, every attempt to
/// take it under any of its names is refused with a message and leaves it held.
pub proof fn law_held_lock_is_refused(
    held: Set<Seq<char>>,
    l1_path: Seq<char>,
    resolved: Option<String>,
    other_path: Seq<char>,
    other_resolved: Option<String>,
    attempt: LockAttempt,
)
    requires
        lock_base(l1_path, resolved) == lock_base(other_path, other_resolved),
        held.contains(lock_file(lock_base(l1_path, resolved))),
        may_answer(held, lock_file(lock_base(other_path, other_resolved)), attempt),
    ensures
        lock_message(lock_file(lock_base(other_path, other_resolved)), attempt) is Some,
        held_after(held, lock_file(lock_base(other_path, other_resolved)), attempt) == held,
{
}

/// A lock that was given back can be taken: on such a system the attempt succeeds unless the
/// system fails in another way.
pub proof fn law_released_lock_is_taken(
    held: Set<Seq<char>>,
    l1_path: Seq<char>,
    resolved: Option<String>,
    attempt: LockAttempt,
)
    requires
        may_answer(
            held.remove(lock_file(lock_base(l1_path, resolved))),
            lock_file(lock_base(l1_path, resolved)),
            attempt,
        ),
        !(attempt is Io || attempt is OsError),
    ensures
        lock_message(lock_file(lock_base(l1_path, resolved)), attempt) is None,
        held_after(
            held.remove(lock_file(lock_base(l1_path, resolved))),
            lock_file(lock_base(l1_path, resolved)),
            attempt,
        ).contains(lock_file(lock_base(l1_path, resolved))),
{
}

/// The lock is taken exactly if the attempt took it; every other attempt is refused with a message
/// that names the lock file, or gives the reason.
pub proof fn law_only_a_taken_lock_is_taken(
    path: &str,
    attempt: LockAttempt,
    taken: Result<(), String>,
)
    requires
        call_ensures(acquire_watch_lock, (path, &attempt), taken),
    ensures
        taken is Ok <==> attempt is Taken,
        taken matches Err(message) ==> {
            ||| exists|before: Seq<char>, after: Seq<char>| message@ == #[trigger] (before + path@
                + after)
            ||| attempt matches LockAttempt::Io(reason) && exists|before: Seq<char>| message@
                == #[trigger] (before + reason@)
        },
        attempt matches LockAttempt::OsError(code) ==> exists|before: Seq<char>, after: Seq<char>|
            taken->Err_0@ == #[trigger] (before + crate::text::numeral(code as int) + after),
{
    if let Err(message) = taken {
        match attempt {
            LockAttempt::Taken => {},
            LockAttempt::FileExists => {
                let before = "另一索引维护者在写此 L1 (锁 "@;
                let after = "); 若确无其它 watch/serve 在跑 (崩溃残留), 删该文件再试"@;
                assert(message@ == (before + path@) + after);
            },
            LockAttempt::Io(reason) => {
                assert(message@ == "取索引锁失败: "@ + reason@);
            },
            LockAttempt::SharingViolation => {
                let before = "另一索引维护者正独占此 L1 (锁 "@;
                let after = "); 同时只允许一个 watch/serve full 写。等它退出或换库"@;
                assert(message@ == (before + path@) + after);
            },
            LockAttempt::OsError(code) => {
                let number = crate::text::numeral(code as int);
                let before = "取索引锁失败 (CreateFileW 错误码 "@ + number + "): "@;
                assert(message@ == (before + path@) + Seq::<char>::empty()) by {
                    assert((before + path@) + Seq::<char>::empty() =~= before + path@);
                }
                assert(message@ =~= ("取索引锁失败 (CreateFileW 错误码 "@ + number) + ("): "@ + path@));
            },
        }
    }
}

/// The lock of an archive is a file beside it: different archives have different locks, and one
/// archive has one, whatever it is called.
pub proof fn law_archives_have_locks_of_their_own(
    a: &str,
    resolved_a: Option<String>,
    b: &str,
    resolved_b: Option<String>,
    base_a: String,
    base_b: String,
    text_a: &str,
    text_b: &str,
    lock_a: String,
    lock_b: String,
)
    requires
        call_ensures(watch_lock_base, (a, &resolved_a), base_a),
        call_ensures(watch_lock_base, (b, &resolved_b), base_b),
        text_a@ == base_a@,
        text_b@ == base_b@,
        call_ensures(watch_lock_path, (text_a,), lock_a),
        call_ensures(watch_lock_path, (text_b,), lock_b),
    ensures
        resolved_a matches Some(r) ==> base_a@ == r@,
        resolved_a is None ==> base_a@ == a@,
        lock_a@ == lock_b@ <==> base_a@ == base_b@,
        lock_a@.take(base_a@.len() as int) == base_a@,
        lock_a@.len() > base_a@.len(),
{
    reveal_strlit(".live-index.lock");
    let n = WATCH_LOCK_SUFFIX@.len();
    assert(n == 16);
    assert(lock_a@.take(lock_a@.len() - n) =~= base_a@);
    assert(lock_b@.take(lock_b@.len() - n) =~= base_b@);
    assert(lock_a@.take(base_a@.len() as int) =~= base_a@);
}

} // verus!
