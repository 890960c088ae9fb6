//! The record lifecycle: timestamps assigned at creation, the state derived
//! from them on every read, and the visibility rules of listing and fetch.
//!
//! No state is stored: a record's state is a pure function of its stored
//! timestamps and the current time, recomputed on each access.

use vstd::prelude::*;

use crate::errors::JwkError;
use crate::models::{spec_to_public, Jwk, JwkData, JwkDataView, JwkView, Jwks};

verus! {

/// The two configured retention windows, in seconds.
#[derive(Debug, Clone, Copy, PartialEq, Eq, Structural)]
pub struct Config {
    /// How long after creation the private key stays usable.
    pub private_key_seconds: i64,
    /// For how much longer after private expiry the public key stays listed.
    pub key_seconds: i64,
}

impl Config {
    /// Both windows last at least a second, so the creation, private-expiry
    /// and public-expiry times are strictly ordered.
    pub open spec fn wf(self) -> bool {
        0 < self.private_key_seconds && 0 < self.key_seconds
    }
}

impl Default for Config {
    /// The default windows: one day of private-key use, then two more days
    /// of public listing.
    fn default() -> (r: Config)
        ensures
            r.wf(),
            r.private_key_seconds == 86400,
            r.key_seconds == 172800,
    {
        Config { private_key_seconds: 86400, key_seconds: 172800 }
    }
}

/// The four lifecycle states. None is stored; each is derived from the
/// record's timestamps and the current time on every read.
#[derive(Debug, Clone, Copy, PartialEq, Eq, Structural)]
pub enum LifecycleState {
    /// Listed, and the private key may still be handed out.
    Active,
    /// Still listed, but the private key may no longer be used.
    PrivateExpired,
    /// Past its public expiry: gone from every view.
    FullyExpired,
    /// Soft-deleted; terminal, and it overrides every other state.
    Deleted,
}

/// The record appears in listings and can be fetched: not deleted, and its
/// public expiry lies strictly in the future. A record without a public
/// expiry is never visible.
pub open spec fn publicly_visible(r: JwkDataView, now: i64) -> bool {
    &&& r.deleted_at is None
    &&& r.key_expires_at matches Some(t) && now < t
}

/// The private key may still be handed out: the record is visible and its
/// private expiry, if it has one, has not yet passed.
pub open spec fn private_key_usable(r: JwkDataView, now: i64) -> bool {
    &&& publicly_visible(r, now)
    &&& (r.private_key_expires_at matches Some(t) ==> now <= t)
}

/// Both expiry timestamps have been assigned, as creation always does.
pub open spec fn has_expiries(r: JwkDataView) -> bool {
    r.private_key_expires_at is Some && r.key_expires_at is Some
}

/// The state derived from a record's timestamps at time `now`. Deletion
/// overrides everything; then full expiry; then private expiry.
pub open spec fn spec_state(r: JwkDataView, now: i64) -> LifecycleState
    recommends
        has_expiries(r),
{
    if r.deleted_at is Some {
        LifecycleState::Deleted
    } else if !(r.key_expires_at matches Some(t) && now < t) {
        LifecycleState::FullyExpired
    } else if r.private_key_expires_at matches Some(t) && now > t {
        LifecycleState::PrivateExpired
    } else {
        LifecycleState::Active
    }
}

/// Derives the record's state at time `now` from its stored timestamps.
pub fn current_state(r: &JwkData, now: i64) -> (s: LifecycleState)
    ensures
        s == spec_state(r@, now),
{
    if r.deleted_at.is_some() {
        LifecycleState::Deleted
    } else {
        let expired = match r.key_expires_at {
            Some(t) => now >= t,
            None => true,
        };
        if expired {
            LifecycleState::FullyExpired
        } else {
            let private_expired = match r.private_key_expires_at {
                Some(t) => now > t,
                None => false,
            };
            if private_expired {
                LifecycleState::PrivateExpired
            } else {
                LifecycleState::Active
            }
        }
    }
}

/// Whether the record appears in listings and can be fetched at time `now`.
pub fn is_publicly_visible(r: &JwkData, now: i64) -> (b: bool)
    ensures
        b == publicly_visible(r@, now),
{
    if r.deleted_at.is_some() {
        false
    } else {
        match r.key_expires_at {
            Some(t) => now < t,
            None => false,
        }
    }
}

/// Whether the private key may still be handed out at time `now`.
pub fn is_private_key_usable(r: &JwkData, now: i64) -> (b: bool)
    ensures
        b == private_key_usable(r@, now),
{
    if !is_publicly_visible(r, now) {
        false
    } else {
        match r.private_key_expires_at {
            Some(t) => now <= t,
            None => true,
        }
    }
}

/// Relies on uuid's `Uuid::new_v4` / `Uuid::as_u128`: a fresh random record
/// identifier. The value is random, so nothing is promised of it.
#[verifier::external_body]
fn fresh_record_id() -> u128 {
    uuid::Uuid::new_v4().as_u128()
}

/// How a managed record relates to the generator's output `fields`: the JOSE
/// fields are kept as they were, a fresh identifier is assigned, creation is
/// stamped `now`, and the two expiries follow at `now + P` and `now + P + K`.
pub open spec fn created_from(k: JwkDataView, fields: JwkDataView, now: i64, c: Config) -> bool {
    k == JwkDataView {
        id: k.id,
        created_at: now,
        deleted_at: None,
        private_key_expires_at: Some((now + c.private_key_seconds) as i64),
        key_expires_at: Some((now + c.private_key_seconds + c.key_seconds) as i64),
        ..fields
    }
}

/// Assigns a fresh identifier and the lifecycle timestamps to a generated
/// record: created now, private key usable for `P` seconds, publicly listed
/// for `P + K` seconds.
pub fn create_record(fields: JwkData, now: i64, config: &Config) -> (r: JwkData)
    requires
        config.wf(),
        now + config.private_key_seconds + config.key_seconds <= i64::MAX,
    ensures
        created_from(r@, fields@, now, *config),
        r@.timestamps_ordered(),
        has_expiries(r@),
        spec_state(r@, now) == LifecycleState::Active,
        private_key_usable(r@, now),
{
    let private_key_expires_at = now + config.private_key_seconds;
    let key_expires_at = private_key_expires_at + config.key_seconds;
    JwkData {
        id: fresh_record_id(),
        created_at: now,
        deleted_at: None,
        private_key_expires_at: Some(private_key_expires_at),
        key_expires_at: Some(key_expires_at),
        ..fields
    }
}

/// Law: the windows of a record created at time `t` under configuration `c`.
/// Until `t + P` it is Active, its private key usable, and fetch returns it
/// whole; strictly between `t + P` and `t + P + K` it is PrivateExpired,
/// still listed, and fetch answers `PrivateKeyGone`; from `t + P + K` on it
/// is FullyExpired, gone from every view, and fetch answers `NotFound`.
pub proof fn lemma_created_record_states(
    k: JwkDataView,
    fields: JwkDataView,
    t: i64,
    c: Config,
    now: i64,
)
    requires
        c.wf(),
        t + c.private_key_seconds + c.key_seconds <= i64::MAX,
        created_from(k, fields, t, c),
    ensures
        now <= t + c.private_key_seconds ==> spec_state(k, now) == LifecycleState::Active
            && private_key_usable(k, now) && spec_fetch(Some(k), now) == Ok::<
            JwkDataView,
            JwkError,
        >(k),
        t + c.private_key_seconds < now < t + c.private_key_seconds + c.key_seconds ==> spec_state(
            k,
            now,
        ) == LifecycleState::PrivateExpired && publicly_visible(k, now) && !private_key_usable(
            k,
            now,
        ) && spec_fetch(Some(k), now) == Err::<JwkDataView, JwkError>(JwkError::PrivateKeyGone),
        now >= t + c.private_key_seconds + c.key_seconds ==> spec_state(k, now)
            == LifecycleState::FullyExpired && !publicly_visible(k, now) && spec_fetch(Some(k), now)
            == Err::<JwkDataView, JwkError>(JwkError::NotFound),
{
}

/// What fetch-by-id answers for a looked-up record at time `now`: absent or
/// invisible records are `NotFound`; visible ones whose private window has
/// passed are `PrivateKeyGone`; otherwise the whole record, private key
/// included.
pub open spec fn spec_fetch(record: Option<JwkDataView>, now: i64) -> Result<
    JwkDataView,
    JwkError,
> {
    match record {
        None => Err(JwkError::NotFound),
        Some(k) => if !publicly_visible(k, now) {
            Err(JwkError::NotFound)
        } else if !private_key_usable(k, now) {
            Err(JwkError::PrivateKeyGone)
        } else {
            Ok(k)
        },
    }
}

/// Applies the fetch rules to a looked-up record: the same inclusion filter
/// as listing, then `PrivateKeyGone` once the private window has passed.
pub fn fetch_record<'a>(record: Option<&'a JwkData>, now: i64) -> (r: Result<&'a JwkData, JwkError>)
    ensures
        r matches Ok(k) ==> spec_fetch(record.deep_view(), now) == Ok::<JwkDataView, JwkError>(k@),
        r matches Err(e) ==> spec_fetch(record.deep_view(), now) == Err::<JwkDataView, JwkError>(e),
{
    match record {
        None => Err(JwkError::NotFound),
        Some(k) => {
            if !is_publicly_visible(k, now) {
                Err(JwkError::NotFound)
            } else if !is_private_key_usable(k, now) {
                Err(JwkError::PrivateKeyGone)
            } else {
                Ok(k)
            }
        },
    }
}

/// The public listing of a sequence of records at time `now`: the public
/// projection of every visible record, in store order.
pub open spec fn spec_public_listing(rs: Seq<JwkDataView>, now: i64) -> Seq<JwkView>
    decreases rs.len(),
{
    if rs.len() == 0 {
        Seq::empty()
    } else {
        let rest = spec_public_listing(rs.drop_last(), now);
        if publicly_visible(rs.last(), now) {
            rest.push(spec_to_public(rs.last()))
        } else {
            rest
        }
    }
}

/// Law: the listing is exactly the visible records, projected: filter by
/// `publicly_visible`, then map every record to its public fields.
pub proof fn lemma_listing_is_filter_projection(rs: Seq<JwkDataView>, now: i64)
    ensures
        spec_public_listing(rs, now) == rs.filter(|r: JwkDataView| publicly_visible(r, now)).map_values(
            |r: JwkDataView| spec_to_public(r),
        ),
    decreases rs.len(),
{
    reveal(Seq::filter);
    let pred = |r: JwkDataView| publicly_visible(r, now);
    let proj = |r: JwkDataView| spec_to_public(r);
    if rs.len() == 0 {
        assert(spec_public_listing(rs, now) =~= rs.filter(pred).map_values(proj));
    } else {
        lemma_listing_is_filter_projection(rs.drop_last(), now);
        if publicly_visible(rs.last(), now) {
            assert(rs.filter(pred).map_values(proj) =~= rs.drop_last().filter(pred).map_values(
                proj,
            ).push(spec_to_public(rs.last())));
        }
    }
}

/// Law: a record that is not publicly visible contributes nothing to the
/// listing; with it removed, the listing is unchanged.
pub proof fn lemma_listing_skips_invisible(rs: Seq<JwkDataView>, i: int, now: i64)
    requires
        0 <= i < rs.len(),
        !publicly_visible(rs[i], now),
    ensures
        spec_public_listing(rs, now) == spec_public_listing(rs.remove(i), now),
    decreases rs.len(),
{
    if i == rs.len() - 1 {
        assert(rs.remove(i) =~= rs.drop_last());
    } else {
        let s = rs.drop_last();
        lemma_listing_skips_invisible(s, i, now);
        assert(rs.remove(i).drop_last() =~= s.remove(i));
        assert(rs.remove(i).last() == rs.last());
    }
}

/// Lists the public fields of every visible record: not deleted and not past
/// public expiry, covering the Active and PrivateExpired states. Neither a
/// private key nor any timestamp passes through this path.
pub fn list_public_jwks(records: &Vec<JwkData>, now: i64) -> (r: Jwks)
    ensures
        r@ == spec_public_listing(records.deep_view(), now),
{
    let mut keys: Vec<Jwk> = Vec::new();
    let mut i: usize = 0;
    while i < records.len()
        invariant
            i <= records.len(),
            keys.deep_view() == spec_public_listing(records.deep_view().take(i as int), now),
        decreases records.len() - i,
    {
        let ghost prev = keys.deep_view();
        let rec = &records[i];
        if is_publicly_visible(rec, now) {
            keys.push(rec.to_public());
        }
        proof {
            let rs = records.deep_view();
            assert(rs.take(i + 1 as int).drop_last() =~= rs.take(i as int));
            assert(rs.take(i + 1 as int).last() == rs[i as int]);
            if publicly_visible(rs[i as int], now) {
                assert(keys.deep_view() =~= prev.push(spec_to_public(rs[i as int])));
            }
        }
        i = i + 1;
    }
    proof {
        assert(records.deep_view().take(records.deep_view().len() as int)
            =~= records.deep_view());
    }
    Jwks { keys }
}

} // verus!
