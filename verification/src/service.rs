//! The four operations the service offers over a record store: create a key
//! for a requested algorithm, list the public set, fetch one record by
//! identifier, and soft-delete one record.
//!
//! Each operation is the decision core of one endpoint: it takes the current
//! time and a store, and leaves every I/O concern to its caller.

use vstd::prelude::*;

use crate::algs::{alg_from_name, parse_alg, KeyFamily};
use crate::crypto::{
    generate_ec_jwk_data, generate_eddsa_jwk_data, generate_rsa_jwk_data, jose_fields_ok,
};
use crate::errors::JwkError;
use crate::lifecycle::{
    create_record, fetch_record, lemma_listing_skips_invisible, list_public_jwks, publicly_visible,
    spec_fetch, spec_public_listing, spec_state, Config, LifecycleState,
};
use crate::models::{AlgorithmInput, JwkData, JwkDataView, Jwks};
use crate::store::{deletable, idx_of, mark_deleted, spec_lookup, unique_ids, KeyStore};

verus! {

/// Everything `add_jwk` promises of the record it returns and stores: the
/// JOSE field content of the requested algorithm, creation stamped `now`,
/// no deletion mark, and the two expiries at `now + P` and `now + P + K`.
pub open spec fn added_record_ok(
    k: JwkDataView,
    alg_name: Seq<char>,
    bits: u32,
    now: i64,
    c: Config,
) -> bool {
    &&& alg_from_name(alg_name) matches Some(a) && jose_fields_ok(k, a, alg_name, bits)
    &&& k.created_at == now
    &&& k.deleted_at is None
    &&& k.private_key_expires_at == Some((now + c.private_key_seconds) as i64)
    &&& k.key_expires_at == Some((now + c.private_key_seconds + c.key_seconds) as i64)
    &&& k.timestamps_ordered()
}

/// Generates a key for the requested algorithm, stamps it with lifecycle
/// timestamps, stores it, and returns it (private key included).
///
/// An identifier outside the closed set is `UnsupportedAlgorithm` and the
/// store is left untouched; so is it on an engine failure
/// (`GenerationError`) or an identifier collision (`StoreError`). RSA keys
/// are `key_size` bits.
pub fn add_jwk(
    store: &mut KeyStore,
    input: &AlgorithmInput,
    key_size: u32,
    now: i64,
    config: &Config,
) -> (r: Result<JwkData, JwkError>)
    requires
        old(store).inv(),
        config.wf(),
        now + config.private_key_seconds + config.key_seconds <= i64::MAX,
    ensures
        final(store).inv(),
        r == Err::<JwkData, JwkError>(JwkError::UnsupportedAlgorithm) <==> alg_from_name(
            input.alg@,
        ) is None,
        r matches Err(e) ==> final(store)@ == old(store)@ && (e == JwkError::UnsupportedAlgorithm
            || e == JwkError::GenerationError || e == JwkError::StoreError),
        r matches Ok(k) ==> {
            &&& final(store)@ == old(store)@.push(k@)
            &&& added_record_ok(k@, input.alg@, key_size, now, *config)
            &&& spec_state(k@, now) == LifecycleState::Active
        },
{
    let alg_str: &str = input.alg.as_str();
    let a = match parse_alg(alg_str) {
        Some(a) => a,
        None => { return Err(JwkError::UnsupportedAlgorithm) },
    };
    let generated = match a.family() {
        KeyFamily::Rsa => generate_rsa_jwk_data(key_size, alg_str),
        KeyFamily::Ec => generate_ec_jwk_data(alg_str),
        KeyFamily::Okp => generate_eddsa_jwk_data(alg_str),
    };
    let fields = match generated {
        Ok(f) => f,
        Err(e) => { return Err(e) },
    };
    let record = create_record(fields, now, config);
    let returned = record.duplicate();
    match store.insert(record) {
        Ok(()) => Ok(returned),
        Err(e) => Err(e),
    }
}

/// Law: whatever the requested algorithm, a record the service adds carries
/// exactly the optional fields of that algorithm's family, the key type the
/// family fixes, and the algorithm's JOSE label.
pub proof fn lemma_added_record_shape(
    k: JwkDataView,
    alg_name: Seq<char>,
    bits: u32,
    now: i64,
    c: Config,
)
    requires
        added_record_ok(k, alg_name, bits, now, c),
    ensures
        alg_from_name(alg_name) matches Some(a) && {
            &&& k.fields_match_family(a.spec_family())
            &&& k.kty == a.spec_kty()
            &&& k.alg == a.spec_label()
        },
{
}

/// The public JWK set at time `now`: every record that is neither deleted
/// nor past its public expiry, projected to its public fields.
pub fn list_jwks(store: &KeyStore, now: i64) -> (r: Jwks)
    ensures
        r@ == spec_public_listing(store@, now),
{
    list_public_jwks(store.list(), now)
}

/// Fetches one record, private key included: `NotFound` for an absent,
/// deleted or fully expired record, `PrivateKeyGone` for one that is still
/// listed but past its private window.
pub fn get_jwk_by_id<'a>(store: &'a KeyStore, id: u128, now: i64) -> (r: Result<
    &'a JwkData,
    JwkError,
>)
    requires
        store.inv(),
    ensures
        r matches Ok(k) ==> spec_fetch(spec_lookup(store@, id), now) == Ok::<
            JwkDataView,
            JwkError,
        >(k@),
        r matches Err(e) ==> spec_fetch(spec_lookup(store@, id), now) == Err::<
            JwkDataView,
            JwkError,
        >(e),
{
    fetch_record(store.get(id), now)
}

/// Soft-deletes one record: marks it deleted at `now`. Deleting an absent or
/// already-deleted record is `NotFound`, and nothing changes.
pub fn delete_jwk(store: &mut KeyStore, id: u128, now: i64) -> (r: Result<(), JwkError>)
    requires
        old(store).inv(),
    ensures
        final(store).inv(),
        deletable(old(store)@, id) ==> r == Ok::<(), JwkError>(()) && final(store)@
            == old(store)@.update(
            idx_of(old(store)@, id),
            mark_deleted(old(store)@[idx_of(old(store)@, id)], now),
        ),
        !deletable(old(store)@, id) ==> r == Err::<(), JwkError>(JwkError::NotFound)
            && final(store)@ == old(store)@,
{
    let rows = store.soft_delete(id, now);
    if rows == 0 {
        Err(JwkError::NotFound)
    } else {
        Ok(())
    }
}

/// Law: soft deletion is terminal and immediate. Once a record is marked
/// deleted, fetch answers `NotFound` at every time, the listing at every
/// time is as if the record were absent, a second delete of the same
/// identifier no longer finds anything to do, and every other record is
/// untouched.
pub proof fn lemma_soft_delete_terminal(s0: Seq<JwkDataView>, id: u128, t: i64, now: i64)
    requires
        unique_ids(s0),
        deletable(s0, id),
    ensures
        ({
            let ix = idx_of(s0, id);
            let s1 = s0.update(ix, mark_deleted(s0[ix], t));
            &&& spec_fetch(spec_lookup(s1, id), now) == Err::<JwkDataView, JwkError>(
                JwkError::NotFound,
            )
            &&& spec_state(s1[ix], now) == LifecycleState::Deleted
            &&& spec_public_listing(s1, now) == spec_public_listing(s1.remove(ix), now)
            &&& !deletable(s1, id)
            &&& forall|j: int| 0 <= j < s1.len() && j != ix ==> s1[j] == s0[j]
        }),
{
    let ix = idx_of(s0, id);
    let s1 = s0.update(ix, mark_deleted(s0[ix], t));
    assert(unique_ids(s1)) by {
        assert forall|p: int, q: int| 0 <= p < q < s1.len() implies s1[p].id != s1[q].id by {
            assert(s1[p].id == s0[p].id);
            assert(s1[q].id == s0[q].id);
        }
    }
    crate::store::lemma_idx_of_unique(s1, id, ix);
    assert(!publicly_visible(s1[ix], now));
    lemma_listing_skips_invisible(s1, ix, now);
}

} // verus!
