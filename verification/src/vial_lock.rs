//! Vial unlock gate.
//!
//! Security-sensitive Vial features (such as the matrix tester) need the
//! keyboard unlocked: the host starts an unlock, then polls while the user
//! holds all unlock keys; when all are held the keyboard unlocks. An unlock
//! in progress lapses when the host stops polling for more than 100 ms.
//! Times are milliseconds of a monotonic clock.

use vstd::prelude::*;

verus! {

/// Poll interval after which an unlock in progress lapses, in ms.
pub const UNLOCK_POLL_TIMEOUT_MS: u64 = 100;

/// Vial unlock state.
#[derive(Clone, Debug)]
pub struct VialLock {
    pub unlocked: bool,
    pub unlocking: bool,
    /// Time of the last unlock poll.
    pub last_poll: u64,
    /// Matrix positions (row, col) of the unlock keys.
    pub unlock_keys: Vec<(u8, u8)>,
}

/// Number of unlock keys not held, per the key states `held`.
pub open spec fn keys_not_held(held: Seq<bool>, n: int) -> int
    decreases n,
{
    if n <= 0 {
        0
    } else {
        keys_not_held(held, n - 1) + if held[n - 1] {
            0int
        } else {
            1int
        }
    }
}

proof fn lemma_keys_not_held_bound(held: Seq<bool>, n: int)
    requires
        0 <= n,
    ensures
        0 <= keys_not_held(held, n) <= n,
    decreases n,
{
    if n > 0 {
        lemma_keys_not_held_bound(held, n - 1);
    }
}

impl VialLock {
    /// Locked, not unlocking, with these unlock keys.
    pub fn new(unlock_keys: Vec<(u8, u8)>) -> (r: Self)
        ensures
            !r.unlocked,
            !r.unlocking,
            r.last_poll == 0,
            r.unlock_keys@ == unlock_keys@,
    {
        VialLock { unlocked: false, unlocking: false, last_poll: 0, unlock_keys }
    }

    /// Whether an unlock is in progress at `now`: it lapses more than
    /// `UNLOCK_POLL_TIMEOUT_MS` after the last poll.
    pub fn is_unlocking(&mut self, now: u64) -> (r: bool)
        requires
            now >= old(self).last_poll,
        ensures
            r == (old(self).unlocking && now - old(self).last_poll <= UNLOCK_POLL_TIMEOUT_MS),
            final(self).unlocking == r,
            final(self).unlocked == old(self).unlocked,
            final(self).last_poll == old(self).last_poll,
            final(self).unlock_keys@ == old(self).unlock_keys@,
    {
        if now - self.last_poll > UNLOCK_POLL_TIMEOUT_MS {
            self.unlocking = false;
        }
        self.unlocking
    }

    /// Whether the keyboard is unlocked.
    pub fn is_unlocked(&self) -> (r: bool)
        ensures
            r == self.unlocked,
    {
        self.unlocked
    }

    /// Starts (or keeps going) an unlock, polled at `now`.
    pub fn unlocking(&mut self, now: u64)
        ensures
            final(self).unlocking,
            final(self).last_poll == now,
            final(self).unlocked == old(self).unlocked,
            final(self).unlock_keys@ == old(self).unlock_keys@,
    {
        self.unlocking = true;
        self.last_poll = now;
    }

    /// Unlocks, when an unlock is in progress.
    pub fn unlock(&mut self)
        ensures
            final(self).unlocked == (old(self).unlocked || old(self).unlocking),
            !final(self).unlocking,
            final(self).last_poll == old(self).last_poll,
            final(self).unlock_keys@ == old(self).unlock_keys@,
    {
        if self.unlocking {
            self.unlocked = true;
            self.unlocking = false;
        }
    }

    /// Counts the unlock keys not held (`held[i]` tells whether unlock key
    /// `i` is held) and unlocks when all are held. Without unlock keys it
    /// reports 1 and never unlocks.
    pub fn check_unlock(&mut self, held: &Vec<bool>) -> (r: u8)
        requires
            held@.len() == old(self).unlock_keys@.len(),
            old(self).unlock_keys@.len() <= 255,
        ensures
            old(self).unlock_keys@.len() == 0 ==> r == 1 && *final(self) == *old(self),
            old(self).unlock_keys@.len() > 0 ==> r == keys_not_held(held@, held@.len() as int),
            old(self).unlock_keys@.len() > 0 && r == 0 ==> final(self).unlocked == (old(self).unlocked
                || old(self).unlocking) && !final(self).unlocking,
            r != 0 ==> final(self).unlocked == old(self).unlocked && final(self).unlocking
                == old(self).unlocking,
            final(self).last_poll == old(self).last_poll,
            final(self).unlock_keys@ == old(self).unlock_keys@,
    {
        let n = self.unlock_keys.len();
        if n == 0 {
            return 1;
        }
        let mut counter: u8 = 0;
        let mut i: usize = 0;
        while i < n
            invariant
                n == held@.len(),
                n <= 255,
                i <= n,
                counter == keys_not_held(held@, i as int),
            decreases n - i,
        {
            proof {
                lemma_keys_not_held_bound(held@, i as int);
            }
            if !held[i] {
                counter = counter + 1;
            }
            i = i + 1;
        }
        if counter == 0 {
            self.unlock();
        }
        counter
    }

    /// Locks the keyboard.
    pub fn lock(&mut self)
        ensures
            !final(self).unlocked,
            final(self).unlocking == old(self).unlocking,
            final(self).last_poll == old(self).last_poll,
            final(self).unlock_keys@ == old(self).unlock_keys@,
    {
        self.unlocked = false;
    }
}

} // verus!
