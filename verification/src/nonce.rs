//! A slot that yields a nonce exactly once.

use vstd::prelude::*;

verus! {

/// Length in bytes of the nonces the supported AEAD algorithms use.
pub const NONCE_LEN: usize = 12;

/// Error returned when a `SingleUseNonceSource` is asked for a second nonce.
///
/// This signals a logic error: the consuming operation must never request
/// two nonces from one source. It is surfaced as an error value rather than
/// masked with a default nonce, since silently handing out a fallback nonce
/// would reopen the reuse vulnerability the source exists to prevent.
#[derive(Clone, Copy, Debug, PartialEq, Eq, Structural)]
pub struct ExhaustedError;

/// Supplies exactly one caller-chosen nonce, then permanently refuses.
///
/// The slot starts loaded with the nonce it was constructed from. The first
/// `take` yields that nonce and irreversibly clears the slot; every later
/// `take` fails with [`ExhaustedError`]. The stored value is reachable only
/// through `take`, so it cannot be observed again after it has been yielded.
pub struct SingleUseNonceSource {
    value: Option<[u8; NONCE_LEN]>,
}

impl View for SingleUseNonceSource {
    type V = Option<Seq<u8>>;

    closed spec fn view(&self) -> Option<Seq<u8>> {
        match self.value {
            Some(n) => Some(n@),
            None => None,
        }
    }
}

/// One step of the source's state machine: from a state, the next state and
/// the nonce yielded by that step, if any. A loaded slot yields its nonce and
/// empties; an empty slot stays empty and yields nothing.
pub open spec fn take_step(state: Option<Seq<u8>>) -> (Option<Seq<u8>>, Option<Seq<u8>>) {
    match state {
        Some(n) => (None, Some(n)),
        None => (None, None),
    }
}

/// The nonce a `take` call handed out, if it succeeded.
pub open spec fn yielded(result: Result<[u8; NONCE_LEN], ExhaustedError>) -> Option<Seq<u8>> {
    match result {
        Ok(v) => Some(v@),
        Err(_) => None,
    }
}

impl SingleUseNonceSource {
    /// Creates a source loaded with `nonce`. No judgement of the nonce's
    /// quality is made here: generating a fresh, unique nonce per operation
    /// is the caller's responsibility.
    pub fn new(nonce: [u8; NONCE_LEN]) -> (source: Self)
        ensures
            source@ == Some(nonce@),
    {
        SingleUseNonceSource { value: Some(nonce) }
    }

    /// Yields the stored nonce and clears the slot, or fails with
    /// [`ExhaustedError`] if the nonce has already been taken. After the
    /// call the slot is empty either way.
    pub fn take(&mut self) -> (result: Result<[u8; NONCE_LEN], ExhaustedError>)
        ensures
            final(self)@ == take_step(old(self)@).0,
            yielded(result) == take_step(old(self)@).1,
            old(self)@ matches Some(n) ==> result matches Ok(v) && v@ == n,
            old(self)@ is None ==> result == Err::<[u8; NONCE_LEN], ExhaustedError>(ExhaustedError),
    {
        match self.value.take() {
            Some(n) => Ok(n),
            None => Err(ExhaustedError),
        }
    }
}

/// The state a source is left in after `count` further `take` calls.
pub open spec fn state_after(state: Option<Seq<u8>>, count: nat) -> Option<Seq<u8>>
    decreases count,
{
    if count == 0 {
        state
    } else {
        take_step(state_after(state, (count - 1) as nat)).0
    }
}

/// Law: a source loaded with nonce `n` yields exactly `n` on its first take,
/// and is empty afterwards.
pub proof fn lemma_first_take_yields_nonce(n: Seq<u8>)
    ensures
        take_step(Some(n)).1 == Some(n),
        take_step(Some(n)).0 is None,
{
}

/// Law: once at least one take has happened, the source is empty, and every
/// further take fails to yield a nonce, no matter how many are attempted.
pub proof fn lemma_exhausted_forever(state: Option<Seq<u8>>, count: nat)
    requires
        count >= 1,
    ensures
        state_after(state, count) is None,
        take_step(state_after(state, count)).1 is None,
    decreases count,
{
    if count > 1 {
        lemma_exhausted_forever(state, (count - 1) as nat);
    }
}

} // verus!
