use vstd::prelude::*;

use crate::claims::{
    build_claims, claims_for, JwtClaims, User, UserOrganization, DEFAULT_VALIDITY_SECS,
};
use crate::secret::{
    base64, base64_of, base64url, base64url_of, padded_base64_len, secure_random,
    RandomnessFailure, REFRESH_TOKEN_BYTES, REMEMBER_TOKEN_BYTES,
};
use crate::store::{opt_view, owned_by, removed, stored, DeviceStore};
use crate::time::{now, Timestamp};

verus! {

/// One client installation's session state for one user.
#[derive(Debug, PartialEq, Eq)]
pub struct Device {
    pub uuid: String,
    pub created_at: Timestamp,
    pub updated_at: Timestamp,
    pub user_uuid: String,
    pub name: String,
    /// Client platform, opaque here.
    pub type_: i32,
    pub push_token: Option<String>,
    /// Empty until the first refresh token is issued.
    pub refresh_token: String,
    pub twofactor_remember: Option<String>,
}

impl Clone for Device {
    fn clone(&self) -> (r: Self)
        ensures
            r == *self,
            r@ == self@,
    {
        Device {
            uuid: self.uuid.clone(),
            created_at: self.created_at,
            updated_at: self.updated_at,
            user_uuid: self.user_uuid.clone(),
            name: self.name.clone(),
            type_: self.type_,
            push_token: match &self.push_token {
                Some(p) => Some(p.clone()),
                None => None,
            },
            refresh_token: self.refresh_token.clone(),
            twofactor_remember: match &self.twofactor_remember {
                Some(t) => Some(t.clone()),
                None => None,
            },
        }
    }
}

/// A device as plain values.
pub struct DeviceView {
    pub uuid: Seq<char>,
    pub created_at: Timestamp,
    pub updated_at: Timestamp,
    pub user_uuid: Seq<char>,
    pub name: Seq<char>,
    pub type_: i32,
    pub push_token: Option<Seq<char>>,
    pub refresh_token: Seq<char>,
    pub twofactor_remember: Option<Seq<char>>,
}

/// The view of an optional string.
pub open spec fn opt_text(o: Option<String>) -> Option<Seq<char>> {
    match o {
        Some(s) => Some(s@),
        None => None,
    }
}

impl View for Device {
    type V = DeviceView;

    open spec fn view(&self) -> DeviceView {
        DeviceView {
            uuid: self.uuid@,
            created_at: self.created_at,
            updated_at: self.updated_at,
            user_uuid: self.user_uuid@,
            name: self.name@,
            type_: self.type_,
            push_token: opt_text(self.push_token),
            refresh_token: self.refresh_token@,
            twofactor_remember: opt_text(self.twofactor_remember),
        }
    }
}

impl DeviceView {
    /// The device was never updated before it was created.
    pub open spec fn wf(self) -> bool {
        self.created_at.spec_le(self.updated_at)
    }

    /// A freshly created device with both timestamps at `now`.
    pub open spec fn created(
        uuid: Seq<char>,
        user_uuid: Seq<char>,
        name: Seq<char>,
        type_: i32,
        now: Timestamp,
    ) -> DeviceView {
        DeviceView {
            uuid,
            created_at: now,
            updated_at: now,
            user_uuid,
            name,
            type_,
            push_token: None,
            refresh_token: Seq::empty(),
            twofactor_remember: None,
        }
    }

    /// The device after activity at `now`: `updated_at` moves forward to
    /// `now` and never back.
    pub open spec fn touched(self, now: Timestamp) -> DeviceView {
        let later = if self.updated_at.spec_le(now) {
            now
        } else {
            self.updated_at
        };
        DeviceView { updated_at: later, ..self }
    }

    /// The device after refresh-token issuance from the given random bytes:
    /// a token is set only where none was issued yet.
    pub open spec fn with_refresh_token(self, random: Seq<u8>) -> DeviceView {
        if self.refresh_token.len() == 0 {
            DeviceView { refresh_token: base64url_of(random), ..self }
        } else {
            self
        }
    }

    /// The device with a new remember token.
    pub open spec fn with_remember(self, token: Seq<char>) -> DeviceView {
        DeviceView { twofactor_remember: Some(token), ..self }
    }

    /// `new` holds a refresh token that is the one of `self` where `self` had
    /// one, and otherwise one made from fresh random bytes; apart from that it
    /// differs from `self` at most in a later `updated_at`.
    pub open spec fn refresh_token_ensured(self, new: DeviceView) -> bool {
        &&& new.refresh_token.len() > 0
        &&& self.refresh_token.len() > 0 ==> new.refresh_token == self.refresh_token
        &&& self.refresh_token.len() == 0 ==> exists|b: Seq<u8>|
            b.len() == REFRESH_TOKEN_BYTES && new.refresh_token == #[trigger] base64url_of(b)
        &&& self.same_but_session(new)
        &&& self.updated_at.spec_le(new.updated_at)
    }

    /// `other` differs from `self` at most in its refresh token and `updated_at`.
    pub open spec fn same_but_session(self, other: DeviceView) -> bool {
        other == (DeviceView {
            refresh_token: other.refresh_token,
            updated_at: other.updated_at,
            ..self
        })
    }
}

impl Device {
    /// Creates a device at the instant `now`, with no refresh token, push
    /// token or remember token.
    pub fn new_at(uuid: String, user_uuid: String, name: String, type_: i32, now: Timestamp) -> (r:
        Device)
        ensures
            r@ == DeviceView::created(uuid@, user_uuid@, name@, type_, now),
            r@.wf(),
    {
        Device {
            uuid,
            created_at: now,
            updated_at: now,
            user_uuid,
            name,
            type_,
            push_token: None,
            refresh_token: String::new(),
            twofactor_remember: None,
        }
    }

    /// Creates a device now, with no refresh token, push token or remember
    /// token.
    pub fn new(uuid: String, user_uuid: String, name: String, type_: i32) -> (r: Device)
        ensures
            r@ == DeviceView::created(uuid@, user_uuid@, name@, type_, r.created_at),
            r@.wf(),
    {
        Device::new_at(uuid, user_uuid, name, type_, now())
    }

    /// Records activity at `now`: `updated_at` becomes `now` unless it is
    /// already later.
    pub fn touch(&mut self, now: Timestamp)
        ensures
            final(self)@ == old(self)@.touched(now),
            old(self)@.wf() ==> final(self)@.wf(),
    {
        self.updated_at = Timestamp::later_of(self.updated_at, now);
    }

    /// Stores a remember token made from the given random bytes, replacing any
    /// earlier one, and returns it.
    pub fn set_twofactor_remember(&mut self, random: &[u8]) -> (r: String)
        requires
            random@.len() <= usize::MAX / 512,
        ensures
            r@ == base64_of(random@),
            r@.len() == padded_base64_len(random@.len()),
            final(self)@ == old(self)@.with_remember(r@),
    {
        let token = base64(random);
        self.twofactor_remember = Some(token.clone());
        token
    }

    /// Issues a new remember token from fresh random bytes, replacing any
    /// earlier one, and returns it.
    pub fn refresh_twofactor_remember(&mut self) -> (r: Result<String, RandomnessFailure>)
        ensures
            r matches Ok(t) ==> {
                &&& final(self)@ == old(self)@.with_remember(t@)
                &&& t@.len() == padded_base64_len(REMEMBER_TOKEN_BYTES as nat)
                &&& exists|b: Seq<u8>| b.len() == REMEMBER_TOKEN_BYTES && t@ == #[trigger] base64_of(b)
            },
            r is Err ==> final(self)@ == old(self)@,
    {
        match secure_random(REMEMBER_TOKEN_BYTES) {
            Some(bytes) => {
                let random = bytes.as_slice();
                let t = self.set_twofactor_remember(random);
                assert(t@ == base64_of(random@));
                Ok(t)
            },
            None => Err(RandomnessFailure),
        }
    }

    /// Sets a refresh token made from the given random bytes, unless one was
    /// already issued: an existing refresh token is never replaced.
    pub fn install_refresh_token(&mut self, random: &[u8])
        requires
            random@.len() <= usize::MAX / 512,
        ensures
            final(self)@ == old(self)@.with_refresh_token(random@),
            old(self)@.refresh_token.len() == 0 ==> final(self)@.refresh_token.len()
                == padded_base64_len(random@.len()),
    {
        if self.refresh_token.as_str().is_empty() {
            self.refresh_token = base64url(random);
        }
    }

    /// Draws random bytes and installs a refresh token from them where none
    /// was issued yet.
    fn issue_missing_refresh_token(&mut self) -> (r: Result<(), RandomnessFailure>)
        ensures
            old(self)@.refresh_token.len() > 0 ==> r is Ok && final(self)@ == old(self)@,
            r is Ok ==> final(self)@.refresh_token.len() > 0,
            r is Ok && old(self)@.refresh_token.len() == 0 ==> exists|b: Seq<u8>|
                b.len() == REFRESH_TOKEN_BYTES && final(self)@ == #[trigger] old(
                    self,
                )@.with_refresh_token(b),
            r is Err ==> final(self)@ == old(self)@,
    {
        if self.refresh_token.as_str().is_empty() {
            match secure_random(REFRESH_TOKEN_BYTES) {
                Some(bytes) => {
                    let random = bytes.as_slice();
                    self.install_refresh_token(random);
                    assert(self@ == old(self)@.with_refresh_token(random@));
                    Ok(())
                },
                None => Err(RandomnessFailure),
            }
        } else {
            Ok(())
        }
    }

    /// Makes sure the device has a refresh token, issuing one only where none
    /// exists, records the activity, and returns the token.
    pub fn ensure_refresh_token(&mut self) -> (r: Result<String, RandomnessFailure>)
        ensures
            old(self)@.refresh_token.len() > 0 ==> r is Ok,
            r matches Ok(t) ==> t@ == final(self)@.refresh_token && old(self)@.refresh_token_ensured(
                final(self)@,
            ),
            r is Err ==> final(self)@ == old(self)@,
            old(self)@.wf() ==> final(self)@.wf(),
    {
        match self.issue_missing_refresh_token() {
            Ok(()) => {
                self.touch(now());
                Ok(self.refresh_token.clone())
            },
            Err(e) => Err(e),
        }
    }

    /// Records activity at `now` and assembles the claim set of an access
    /// token issued at that instant, with its validity in seconds.
    pub fn issue_at(&mut self, now: Timestamp, user: &User, orgs: &Vec<UserOrganization>) -> (r: (
        JwtClaims,
        i64,
    ))
        requires
            now.secs <= i64::MAX - DEFAULT_VALIDITY_SECS,
        ensures
            final(self)@ == old(self)@.touched(now),
            claims_for(old(self)@.uuid, *user, orgs@, now.secs, r.0),
            r.1 == DEFAULT_VALIDITY_SECS,
            r.1 == r.0.exp - r.0.nbf,
            old(self)@.wf() ==> final(self)@.wf(),
    {
        self.touch(now);
        let claims = build_claims(&self.uuid, user, orgs, now.secs);
        (claims, DEFAULT_VALIDITY_SECS)
    }

    /// Issues an access token's claim set for `user` on this device, with its
    /// validity in seconds. A refresh token is issued first where none exists;
    /// an existing one is kept.
    pub fn refresh_tokens(&mut self, user: &User, orgs: Vec<UserOrganization>) -> (r: Result<
        (JwtClaims, i64),
        RandomnessFailure,
    >)
        ensures
            old(self)@.refresh_token.len() > 0 ==> r is Ok,
            r matches Ok((c, v)) ==> {
                &&& claims_for(old(self)@.uuid, *user, orgs@, c.nbf, c)
                &&& v == DEFAULT_VALIDITY_SECS
                &&& v == c.exp - c.nbf
                &&& old(self)@.refresh_token_ensured(final(self)@)
                &&& c.nbf <= final(self).updated_at.secs
            },
            r is Err ==> final(self)@ == old(self)@,
            old(self)@.wf() ==> final(self)@.wf(),
    {
        match self.issue_missing_refresh_token() {
            Ok(()) => {
                let t = now();
                Ok(self.issue_at(t, user, &orgs))
            },
            Err(e) => Err(e),
        }
    }

    /// Forgets the remember token: two-factor verification is needed again.
    pub fn delete_twofactor_remember(&mut self)
        ensures
            final(self)@ == (DeviceView { twofactor_remember: None, ..old(self)@ }),
    {
        self.twofactor_remember = None;
    }
}

impl Device {
    /// Stamps `updated_at` with `now` and writes the device to the store,
    /// replacing the record with its id. Reports whether exactly one record
    /// was written.
    pub fn save_at(&mut self, store: &mut DeviceStore, now: Timestamp) -> (r: bool)
        requires
            old(store).wf(),
        ensures
            final(self)@ == old(self)@.touched(now),
            final(store)@ == stored(old(store)@, final(self)@),
            final(store).wf(),
            r,
    {
        self.touch(now);
        store.upsert(self) == 1
    }

    /// Stamps `updated_at` with the current time and writes the device to the
    /// store, replacing the record with its id. Reports whether exactly one
    /// record was written.
    pub fn save(&mut self, store: &mut DeviceStore) -> (r: bool)
        requires
            old(store).wf(),
        ensures
            old(self)@.same_but_session(final(self)@),
            final(self)@.refresh_token == old(self)@.refresh_token,
            old(self)@.updated_at.spec_le(final(self)@.updated_at),
            old(self)@.wf() ==> final(self)@.wf(),
            final(store)@ == stored(old(store)@, final(self)@),
            final(store).wf(),
            r,
    {
        self.save_at(store, now())
    }

    /// Removes the device's record from the store, consuming the device.
    /// Reports whether exactly one record was removed.
    pub fn delete(self, store: &mut DeviceStore) -> (r: bool)
        requires
            old(store).wf(),
        ensures
            final(store)@ == removed(old(store)@, self@.uuid),
            final(store).wf(),
            r == old(store).record(self@.uuid) is Some,
    {
        store.remove(&self.uuid) == 1
    }

    /// The stored device with the given id.
    pub fn find_by_uuid(uuid: &str, store: &DeviceStore) -> (r: Option<Device>)
        requires
            store.wf(),
        ensures
            opt_view(r) == store.record(uuid@),
    {
        store.find_by_uuid(uuid)
    }

    /// A stored device holding the given refresh token.
    pub fn find_by_refresh_token(refresh_token: &str, store: &DeviceStore) -> (r: Option<Device>)
        ensures
            r matches Some(d) ==> exists|i: int|
                0 <= i < store@.len() && #[trigger] store@[i] == d@ && d@.refresh_token
                    == refresh_token@,
            r is None ==> forall|i: int|
                0 <= i < store@.len() ==> #[trigger] store@[i].refresh_token != refresh_token@,
    {
        store.find_by_refresh_token(refresh_token)
    }

    /// All stored devices of the given user, in store order.
    pub fn find_by_user(user_uuid: &str, store: &DeviceStore) -> (r: Vec<Device>)
        ensures
            r@.map_values(|d: Device| d@) == owned_by(store@, user_uuid@),
    {
        store.find_by_user(user_uuid)
    }
}

/// Refresh-token issuance is idempotent: on a device without a token the
/// first issuance yields a non-empty token, and the next issuance yields that
/// same token again.
pub proof fn lemma_refresh_token_idempotent(d0: DeviceView, d1: DeviceView, d2: DeviceView)
    requires
        d0.refresh_token.len() == 0,
        d0.refresh_token_ensured(d1),
        d1.refresh_token_ensured(d2),
    ensures
        d1.refresh_token.len() > 0,
        d2.refresh_token == d1.refresh_token,
{
}

/// Installing a refresh token twice keeps the first one, whatever random
/// bytes the second installation is given.
pub proof fn lemma_install_refresh_token_once(d: DeviceView, b1: Seq<u8>, b2: Seq<u8>)
    requires
        d.refresh_token.len() == 0,
        base64url_of(b1).len() > 0,
    ensures
        d.with_refresh_token(b1).with_refresh_token(b2) == d.with_refresh_token(b1),
        d.with_refresh_token(b1).refresh_token == base64url_of(b1),
{
}

} // verus!
