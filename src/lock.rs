//! Stale-lock recovery: reading the process id in a lock file, and deciding
//! whether the lock may be removed.
use vstd::prelude::*;
use vstd::string::StrSliceExecFns;
use crate::text::{trim_bounds, trimmed};

verus! {

/// The value of a sequence of decimal digits.
pub open spec fn decimal_value(ds: Seq<char>) -> nat
    decreases ds.len(),
{
    if ds.len() == 0 {
        0
    } else {
        decimal_value(ds.drop_last()) * 10 + ((ds.last() as u32) - ('0' as u32)) as nat
    }
}

/// Every character is a decimal digit.
pub open spec fn all_digits(ds: Seq<char>) -> bool {
    forall|i: int| 0 <= i < ds.len() ==> '0' <= #[trigger] ds[i] && ds[i] <= '9'
}

/// The unsigned 32-bit number that `s` spells in decimal, with an optional
/// leading `+`, as `u32`'s `from_str` reads it.
pub open spec fn u32_of(s: Seq<char>) -> Option<u32> {
    if s.len() > 0 && s[0] == '+' {
        digits_u32(s.drop_first())
    } else {
        digits_u32(s)
    }
}

/// The unsigned 32-bit number that a non-empty run of decimal digits spells.
pub open spec fn digits_u32(ds: Seq<char>) -> Option<u32> {
    if ds.len() > 0 && all_digits(ds) && decimal_value(ds) <= u32::MAX {
        Some(decimal_value(ds) as u32)
    } else {
        None
    }
}

/// The process id held by a lock file's text, if it holds one.
pub open spec fn lock_owner(text: Seq<char>) -> Option<u32> {
    u32_of(trimmed(text))
}

/// The process id held by a lock file's text: the text without surrounding
/// white space, read as an unsigned decimal number.
pub fn parse_lock_owner(text: &str) -> (r: Option<u32>)
    ensures
        r == lock_owner(text@),
{
    let n = text.unicode_len();
    let (a, e) = trim_bounds(text);
    // The digits run from `start` to `e`.
    let mut start = a;
    if start < e && text.get_char(start) == '+' {
        start = start + 1;
    }
    let ghost s = text@.subrange(a as int, e as int);
    let ghost ds = text@.subrange(start as int, e as int);
    proof {
        if s.len() > 0 && s[0] == '+' {
            assert(ds =~= s.drop_first());
        } else {
            assert(ds =~= s);
        }
    }
    if start == e {
        return None;
    }
    let mut value: u64 = 0;
    let mut k: usize = start;
    while k < e
        invariant
            n == text@.len(),
            start <= k <= e <= n,
            ds == text@.subrange(start as int, e as int),
            lock_owner(text@) == digits_u32(ds),
            value == decimal_value(text@.subrange(start as int, k as int)),
            value <= u32::MAX,
            forall|i: int| start <= i < k ==> '0' <= #[trigger] text@[i] && text@[i] <= '9',
        decreases e - k,
    {
        let c = text.get_char(k);
        if !(c >= '0' && c <= '9') {
            proof {
                assert(ds[k - start] == c);
                assert(!all_digits(ds));
            }
            return None;
        }
        let digit = (c as u32 - '0' as u32) as u64;
        proof {
            let p = text@.subrange(start as int, k + 1);
            assert(p.drop_last() =~= text@.subrange(start as int, k as int));
            assert(p.last() == c);
        }
        value = value * 10 + digit;
        proof {
            let p = text@.subrange(start as int, k + 1);
            assert(value == decimal_value(p));
            assert(ds.subrange(0, (k + 1 - start) as int) =~= p);
        }
        if value > 4294967295u64 {
            proof {
                lemma_decimal_grows(ds, (k + 1 - start) as int);
            }
            return None;
        }
        k = k + 1;
    }
    proof {
        assert(text@.subrange(start as int, k as int) =~= ds);
        assert(all_digits(ds)) by {
            assert forall|i: int| 0 <= i < ds.len() implies '0' <= #[trigger] ds[i] && ds[i] <= '9' by {
                assert(ds[i] == text@[start + i]);
            }
        }
    }
    Some(value as u32)
}

proof fn lemma_decimal_grows(ds: Seq<char>, k: int)
    requires
        0 <= k <= ds.len(),
    ensures
        decimal_value(ds) >= decimal_value(ds.subrange(0, k)),
    decreases ds.len(),
{
    if k < ds.len() {
        assert(ds.drop_last().subrange(0, k) =~= ds.subrange(0, k));
        lemma_decimal_grows(ds.drop_last(), k);
    } else {
        assert(ds.subrange(0, k) =~= ds);
    }
}

/// A lock may be removed unless it names a process that is running now.
pub open spec fn stale(owner: Option<u32>, owner_running: bool) -> bool {
    !(owner is Some && owner_running)
}

/// Whether a lock file with text `text` is stale, given whether the process
/// that it names is running (`owner_running` is not consulted when the text
/// names no process).
pub fn lock_is_stale(text: &str, owner_running: bool) -> (r: bool)
    ensures
        r == stale(lock_owner(text@), owner_running),
{
    match parse_lock_owner(text) {
        Some(_) => !owner_running,
        None => true,
    }
}

/// Relies on sysinfo's `System::refresh_processes` and `System::process`:
/// whether a process with id `pid` is running on this host at the moment of
/// the call. Nothing is promised of the answer.
#[verifier::external_body]
pub fn is_process_running(pid: u32) -> bool {
    let mut sys = sysinfo::System::new();
    sys.refresh_processes(sysinfo::ProcessesToUpdate::All, true);
    sys.process(sysinfo::Pid::from_u32(pid)).is_some()
}

} // verus!
