use vstd::prelude::*;

use crate::channel::{decrypt, encrypt, opens_to, sealed_frame, LoginKeychain, MIN_SEALED_FRAME};
use crate::error::CoreError;
use crate::handshake::{
    app_key_of,
    begin_handshake,
    derive_session_keys,
    dev_key_of,
    handshake_step,
    login_material,
    login_response,
    output_model,
    HandshakeOutput,
    KeyExchangeContext,
    TOKEN_LEN,
};
use crate::primitives::{public_point_of, scalar_is_valid, MAX_SEALED_LEN};

verus! {

/// Whether handle `h` names a slot that holds a value. Handle `h` names
/// slot `h - 1`; handle 0 names none.
pub open spec fn handle_live<T>(slots: Seq<Option<T>>, h: u64) -> bool {
    1 <= h <= slots.len() && slots[h - 1] is Some
}

/// The value that a live handle names.
pub open spec fn handle_value<T>(slots: Seq<Option<T>>, h: u64) -> T {
    slots[h - 1]->Some_0
}

/// The slots after freeing `h`: a live handle's slot empties, anything else
/// is left as it was.
pub open spec fn slots_after_free<T>(slots: Seq<Option<T>>, h: u64) -> Seq<Option<T>> {
    if handle_live(slots, h) {
        slots.update(h - 1, None)
    } else {
        slots
    }
}

/// A freed handle is dead, and freeing it again changes nothing.
pub proof fn lemma_free_then_invalid<T>(slots: Seq<Option<T>>, h: u64)
    ensures
        !handle_live(slots_after_free(slots, h), h),
        slots_after_free(slots_after_free(slots, h), h) == slots_after_free(slots, h),
{
}

/// Issuing a new handle never brings an old dead one back.
pub proof fn lemma_issue_keeps_dead<T>(slots: Seq<Option<T>>, v: T, h: u64)
    requires
        h <= slots.len(),
        !handle_live(slots, h),
    ensures
        !handle_live(slots.push(Some(v)), h),
{
}

/// A table of owned values, addressed by handles that are never reused.
#[derive(Debug)]
pub struct HandleTable<T> {
    slots: Vec<Option<T>>,
}

impl<T> View for HandleTable<T> {
    type V = Seq<Option<T>>;

    closed spec fn view(&self) -> Seq<Option<T>> {
        self.slots@
    }
}

impl<T> HandleTable<T> {
    pub fn new() -> (r: HandleTable<T>)
        ensures
            r@ == Seq::<Option<T>>::empty(),
    {
        HandleTable { slots: Vec::new() }
    }

    /// Stores `v` under a fresh handle; fails only when every handle that a
    /// `u64` can number has been issued.
    pub fn insert(&mut self, v: T) -> (r: Result<u64, CoreError>)
        ensures
            r is Err <==> old(self)@.len() >= u64::MAX,
            match r {
                Ok(h) => h == old(self)@.len() + 1 && final(self)@ == old(self)@.push(Some(v)),
                Err(e) => e == CoreError::HandlesExhausted && final(self)@ == old(self)@,
            },
    {
        let n: usize = self.slots.len();
        if n as u64 >= u64::MAX {
            return Err(CoreError::HandlesExhausted);
        }
        self.slots.push(Some(v));
        Ok(n as u64 + 1)
    }

    /// The value under `h`, if `h` is live.
    pub fn get(&self, h: u64) -> (r: Option<&T>)
        ensures
            match r {
                Some(v) => handle_live(self@, h) && *v == handle_value(self@, h),
                None => !handle_live(self@, h),
            },
    {
        if h == 0 || h - 1 >= self.slots.len() as u64 {
            return None;
        }
        let i: usize = (h - 1) as usize;
        match &self.slots[i] {
            Some(v) => Some(v),
            None => None,
        }
    }

    /// Takes the value under `h` out, which frees `h`; a dead handle is left
    /// alone.
    pub fn remove(&mut self, h: u64) -> (r: Option<T>)
        ensures
            final(self)@ == slots_after_free(old(self)@, h),
            match r {
                Some(v) => handle_live(old(self)@, h) && v == handle_value(old(self)@, h),
                None => !handle_live(old(self)@, h),
            },
    {
        if h == 0 || h - 1 >= self.slots.len() as u64 {
            return None;
        }
        let i: usize = (h - 1) as usize;
        let mut taken: Option<T> = None;
        self.slots.set_and_swap(i, &mut taken);
        taken
    }

    /// Puts a value back under an issued handle.
    fn restore(&mut self, h: u64, v: T)
        requires
            1 <= h <= old(self)@.len(),
        ensures
            final(self)@ == old(self)@.update(h - 1, Some(v)),
    {
        let n: usize = self.slots.len();
        assert(h - 1 < n);
        let i: usize = (h - 1) as usize;
        self.slots.set(i, Some(v));
    }
}

/// What a handle stands for: a key exchange context or a session. Both
/// kinds share one table, so no number names one of each.
#[derive(Debug)]
pub enum Entry {
    Handshake(KeyExchangeContext),
    Session(LoginKeychain),
}

pub open spec fn entry_wf(e: Entry) -> bool {
    match e {
        Entry::Handshake(c) => c.wf(),
        Entry::Session(k) => k.wf(),
    }
}

/// Whether `h` is live and names a key exchange context.
pub open spec fn is_handshake(slots: Seq<Option<Entry>>, h: u64) -> bool {
    handle_live(slots, h) && handle_value(slots, h) is Handshake
}

/// Whether `h` is live and names a session.
pub open spec fn is_session(slots: Seq<Option<Entry>>, h: u64) -> bool {
    handle_live(slots, h) && handle_value(slots, h) is Session
}

pub open spec fn context_at(slots: Seq<Option<Entry>>, h: u64) -> KeyExchangeContext {
    handle_value(slots, h)->Handshake_0
}

pub open spec fn session_at(slots: Seq<Option<Entry>>, h: u64) -> LoginKeychain {
    handle_value(slots, h)->Session_0
}

/// No handle names both a context and a session.
pub proof fn lemma_handle_kinds_disjoint(slots: Seq<Option<Entry>>, h: u64)
    ensures
        !(is_handshake(slots, h) && is_session(slots, h)),
{
}

/// The state behind the handles that a host holds: key exchange contexts
/// and sessions.
#[derive(Debug)]
pub struct Registry {
    entries: HandleTable<Entry>,
}

impl Registry {
    /// The slots of the table; handle `h` names slot `h - 1`.
    pub closed spec fn entries(&self) -> Seq<Option<Entry>> {
        self.entries@
    }

    /// Every context and every session that the table holds is well formed.
    pub closed spec fn wf(&self) -> bool {
        forall|i: int|
            0 <= i < self.entries@.len() && #[trigger] self.entries@[i] is Some ==> entry_wf(
                self.entries@[i]->Some_0,
            )
    }

    pub fn new() -> (r: Registry)
        ensures
            r.wf(),
            r.entries() == Seq::<Option<Entry>>::empty(),
    {
        Registry { entries: HandleTable::new() }
    }

    /// Starts a handshake; returns its handle and the public key to send.
    pub fn begin_handshake(&mut self) -> (r: Result<(u64, Vec<u8>), CoreError>)
        requires
            old(self).wf(),
        ensures
            final(self).wf(),
            match r {
                Ok((h, pk)) => h == old(self).entries().len() + 1 && final(self).entries().len() == h
                    && final(self).entries().subrange(0, h - 1) == old(self).entries()
                    && is_handshake(final(self).entries(), h)
                    && (context_at(final(self).entries(), h)@ matches Some(sk) && scalar_is_valid(sk) && pk@ == public_point_of(sk)
                    && pk@.len() == 65 && pk@[0] == 0x04),
                Err(e) => final(self).entries() == old(self).entries() && (e
                    == CoreError::EntropyUnavailable || e == CoreError::HandlesExhausted) && (e
                    == CoreError::HandlesExhausted ==> old(self).entries().len() >= u64::MAX),
            },
    {
        let (ctx, pk) = match begin_handshake() {
            Ok(pair) => pair,
            Err(e) => return Err(e),
        };
        let ghost old_slots = self.entries@;
        match self.entries.insert(Entry::Handshake(ctx)) {
            Ok(h) => {
                assert(self.entries@.subrange(0, h - 1) =~= old_slots);
                assert(self.entries@[h - 1] == Some(Entry::Handshake(ctx)));
                Ok((h, pk))
            },
            Err(e) => Err(e),
        }
    }

    /// Completes the handshake under `h`. The context stays under its handle,
    /// spent, until it is freed; no other slot changes.
    pub fn complete_handshake(&mut self, h: u64, peer_key: &[u8], peer_info: &[u8]) -> (r: Result<
        HandshakeOutput,
        CoreError,
    >)
        requires
            old(self).wf(),
        ensures
            final(self).wf(),
            final(self).entries().len() == old(self).entries().len(),
            forall|i: int|
                0 <= i < old(self).entries().len() && i != h - 1
                    ==> #[trigger] final(self).entries()[i] == old(self).entries()[i],
            !is_handshake(old(self).entries(), h) ==> r == Err::<HandshakeOutput, CoreError>(
                CoreError::InvalidHandle,
            ) && final(self).entries() == old(self).entries(),
            is_handshake(old(self).entries(), h) ==> output_model(r) == handshake_step(
                context_at(old(self).entries(), h)@,
                peer_key@,
                peer_info@,
            ).1 && is_handshake(final(self).entries(), h) && context_at(final(self).entries(), h)@ is None,
            r matches Ok(o) ==> o.token@.len() == TOKEN_LEN && o.device_id@.len() == peer_info@.len()
                + 4,
    {
        match self.entries.get(h) {
            Some(Entry::Handshake(_)) => {},
            _ => return Err(CoreError::InvalidHandle),
        }
        let mut ctx = match self.entries.remove(h) {
            Some(Entry::Handshake(c)) => c,
            _ => return Err(CoreError::InvalidHandle),
        };
        let r = ctx.complete_handshake(peer_key, peer_info);
        self.entries.restore(h, Entry::Handshake(ctx));
        proof {
            assert forall|i: int|
                0 <= i < self.entries@.len() && #[trigger] self.entries@[i] is Some implies entry_wf(
                    self.entries@[i]->Some_0,
                ) by {
                if i != h - 1 {
                    assert(old(self).entries@[i] == self.entries@[i]);
                }
            }
        }
        r
    }

    /// Frees a key exchange context; any other handle is left alone.
    pub fn free_handshake(&mut self, h: u64)
        requires
            old(self).wf(),
        ensures
            final(self).wf(),
            !is_handshake(final(self).entries(), h),
            final(self).entries() == if is_handshake(old(self).entries(), h) {
                slots_after_free(old(self).entries(), h)
            } else {
                old(self).entries()
            },
    {
        match self.entries.get(h) {
            Some(Entry::Handshake(_)) => {
                let _ = self.entries.remove(h);
            },
            _ => {},
        }
        proof {
            assert forall|i: int|
                0 <= i < self.entries@.len() && #[trigger] self.entries@[i] is Some implies entry_wf(
                    self.entries@[i]->Some_0,
                ) by {
                assert(old(self).entries@[i] == self.entries@[i]);
            }
        }
    }

    /// Derives a session from the token and the two randoms; returns its
    /// handle and the confirmation bytes for the peer.
    pub fn login(&mut self, token: &[u8], local_random: &[u8], peer_random: &[u8]) -> (r: Result<
        (u64, Vec<u8>),
        CoreError,
    >)
        requires
            old(self).wf(),
        ensures
            final(self).wf(),
            token@.len() != TOKEN_LEN ==> r == Err::<(u64, Vec<u8>), CoreError>(
                CoreError::InvalidTokenLength,
            ),
            token@.len() == TOKEN_LEN && old(self).entries().len() < u64::MAX ==> r is Ok,
            match r {
                Ok((h, info)) => token@.len() == TOKEN_LEN && h == old(self).entries().len() + 1
                    && final(self).entries().len() == h
                    && final(self).entries().subrange(0, h - 1) == old(self).entries()
                    && info@ == login_response(local_random@, peer_random@, token@)
                    && is_session(final(self).entries(), h)
                    && session_at(final(self).entries(), h).dev@ == dev_key_of(
                    login_material(local_random@, peer_random@, token@),
                ) && session_at(final(self).entries(), h).app@ == app_key_of(
                    login_material(local_random@, peer_random@, token@),
                ),
                Err(e) => final(self).entries() == old(self).entries() && (e
                    == CoreError::InvalidTokenLength <==> token@.len() != TOKEN_LEN) && (e
                    == CoreError::HandlesExhausted <==> (token@.len() == TOKEN_LEN
                    && old(self).entries().len() >= u64::MAX)),
            },
    {
        let (info, keys) = match derive_session_keys(local_random, peer_random, token) {
            Ok(pair) => pair,
            Err(e) => return Err(e),
        };
        let ghost old_slots = self.entries@;
        match self.entries.insert(Entry::Session(keys)) {
            Ok(h) => {
                assert(self.entries@.subrange(0, h - 1) =~= old_slots);
                assert(self.entries@[h - 1] == Some(Entry::Session(keys)));
                Ok((h, info))
            },
            Err(e) => Err(e),
        }
    }

    /// Protects a payload for the device under the session's
    /// controller-to-device key.
    pub fn encrypt(&self, h: u64, payload: &[u8], counter: u32) -> (r: Result<Vec<u8>, CoreError>)
        requires
            self.wf(),
        ensures
            !is_session(self.entries(), h) ==> r == Err::<Vec<u8>, CoreError>(
                CoreError::InvalidHandle,
            ),
            is_session(self.entries(), h) ==> match r {
                Ok(c) => payload@.len() <= MAX_SEALED_LEN && c@ == sealed_frame(
                    session_at(self.entries(), h).app@,
                    payload@,
                    counter,
                ) && c@.len() == payload@.len() + MIN_SEALED_FRAME && opens_to(
                    session_at(self.entries(), h).app@,
                    c@,
                    payload@,
                ),
                Err(e) => e == CoreError::PayloadTooLarge && payload@.len() > MAX_SEALED_LEN,
            },
    {
        let keys = match self.entries.get(h) {
            Some(Entry::Session(k)) => k,
            _ => return Err(CoreError::InvalidHandle),
        };
        if payload.len() > MAX_SEALED_LEN {
            return Err(CoreError::PayloadTooLarge);
        }
        Ok(encrypt(&keys.app, payload, counter))
    }

    /// Opens a frame from the device under the session's
    /// device-to-controller key.
    pub fn decrypt(&self, h: u64, data: &[u8]) -> (r: Result<Vec<u8>, CoreError>)
        requires
            self.wf(),
        ensures
            !is_session(self.entries(), h) ==> r == Err::<Vec<u8>, CoreError>(
                CoreError::InvalidHandle,
            ),
            is_session(self.entries(), h) ==> {
                let k = session_at(self.entries(), h).dev@;
                &&& data@.len() < MIN_SEALED_FRAME <==> r == Err::<Vec<u8>, CoreError>(
                    CoreError::MalformedCiphertext,
                )
                &&& r matches Ok(p) ==> opens_to(k, data@, p@)
                &&& data@.len() >= MIN_SEALED_FRAME ==> match r {
                    Ok(p) => forall|q: Seq<u8>| #[trigger] opens_to(k, data@, q) ==> q == p@,
                    Err(e) => e == CoreError::AuthenticationFailed && forall|q: Seq<u8>|
                        !#[trigger] opens_to(k, data@, q),
                }
            },
    {
        let keys = match self.entries.get(h) {
            Some(Entry::Session(k)) => k,
            _ => return Err(CoreError::InvalidHandle),
        };
        decrypt(&keys.dev, data)
    }

    /// Frees a session; any other handle is left alone.
    pub fn free_session(&mut self, h: u64)
        requires
            old(self).wf(),
        ensures
            final(self).wf(),
            !is_session(final(self).entries(), h),
            final(self).entries() == if is_session(old(self).entries(), h) {
                slots_after_free(old(self).entries(), h)
            } else {
                old(self).entries()
            },
    {
        match self.entries.get(h) {
            Some(Entry::Session(_)) => {
                let _ = self.entries.remove(h);
            },
            _ => {},
        }
        proof {
            assert forall|i: int|
                0 <= i < self.entries@.len() && #[trigger] self.entries@[i] is Some implies entry_wf(
                    self.entries@[i]->Some_0,
                ) by {
                assert(old(self).entries@[i] == self.entries@[i]);
            }
        }
    }
}

} // verus!
