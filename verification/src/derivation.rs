//! Authority derivation.
//!
//! Every custodial identity of the engine — the registry record's address,
//! each escrow record's address, the vault accounts and the authorities
//! that control them — is derived deterministically from public seeds and
//! the engine's program identity. The derived value is an opaque capability
//! token: it is reproducible by anyone from public inputs, is not a valid
//! signing key by construction, and custody actions succeed only when the
//! recomputed token matches the authority recorded on the vault.

use vstd::prelude::*;

use crate::account::clone_bytes;

verus! {

/// The address that the derivation produces from the given seeds under the
/// given program identity, or `None` when no viable address exists for
/// these seeds. The value depends on the seeds and the program identity
/// alone.
pub uninterp spec fn derived_address(seeds: Seq<Seq<u8>>, program_id: Seq<u8>) -> Option<Seq<u8>>;

/// Relies on `Pubkey::try_find_program_address` (solana-pubkey, re-exported
/// by anchor-lang): a pure search over bump seeds that depends only on the
/// seed slices and the program id, returns a 32-byte off-curve address, and
/// returns `None` when a seed exceeds the seed-length bound or no bump
/// yields an off-curve point.
#[verifier::external_body]
pub(crate) fn find_derived_address(seeds: &Vec<Vec<u8>>, program_id: &Vec<u8>) -> (r: Option<
    Vec<u8>,
>)
    requires
        program_id@.len() == 32,
    ensures
        match r {
            Some(v) => derived_address(seeds.deep_view(), program_id@) == Some(v@) && v@.len()
                == 32,
            None => derived_address(seeds.deep_view(), program_id@) is None,
        },
{
    let seed_slices: Vec<&[u8]> = seeds.iter().map(|s: &Vec<u8>| s.as_slice()).collect();
    let pid = anchor_lang::solana_program::pubkey::Pubkey::new_from_array(
        program_id.as_slice().try_into().unwrap(),
    );
    anchor_lang::solana_program::pubkey::Pubkey::try_find_program_address(&seed_slices, &pid).map(
        |(address, _bump)| address.to_bytes().to_vec(),
    )
}

/// The domain separator under which vault-controlling authorities are
/// derived.
pub open spec fn spec_authority_tag() -> Seq<u8> {
    seq![101u8, 115u8, 99u8, 114u8, 111u8, 119u8]
}

/// The domain separator under which fee registry records are addressed.
pub open spec fn spec_registry_tag() -> Seq<u8> {
    seq![115u8, 101u8, 114u8, 45u8, 101u8, 115u8, 99u8, 114u8, 111u8, 119u8]
}

/// Builds the authority domain separator.
pub fn authority_tag() -> (r: Vec<u8>)
    ensures
        r@ == spec_authority_tag(),
{
    let mut v: Vec<u8> = Vec::new();
    v.push(101u8);
    v.push(115u8);
    v.push(99u8);
    v.push(114u8);
    v.push(111u8);
    v.push(119u8);
    proof {
        assert(v@ =~= spec_authority_tag());
    }
    v
}

/// Builds the registry domain separator.
pub fn registry_tag() -> (r: Vec<u8>)
    ensures
        r@ == spec_registry_tag(),
{
    let mut v: Vec<u8> = Vec::new();
    v.push(115u8);
    v.push(101u8);
    v.push(114u8);
    v.push(45u8);
    v.push(101u8);
    v.push(115u8);
    v.push(99u8);
    v.push(114u8);
    v.push(111u8);
    v.push(119u8);
    proof {
        assert(v@ =~= spec_registry_tag());
    }
    v
}

/// Where the fee registry for `fee_token` lives.
pub open spec fn registry_addr_for(pid: Seq<u8>, fee_token: Seq<u8>) -> Option<Seq<u8>> {
    derived_address(seq![pid, fee_token, spec_registry_tag()], pid)
}

/// Where the escrow record for this uniqueness triple lives.
pub open spec fn escrow_addr_for(
    pid: Seq<u8>,
    initializer: Seq<u8>,
    deposit_token: Seq<u8>,
    receive_token: Seq<u8>,
) -> Option<Seq<u8>> {
    derived_address(seq![initializer, deposit_token, receive_token], pid)
}

/// Where the vault owned by the record at `record_addr` lives.
pub open spec fn vault_addr_for(pid: Seq<u8>, record_addr: Seq<u8>) -> Option<Seq<u8>> {
    derived_address(seq![record_addr], pid)
}

/// The capability controlling the principal vault of the escrow at
/// `escrow_addr`.
pub open spec fn vault_authority_for(pid: Seq<u8>, escrow_addr: Seq<u8>) -> Option<Seq<u8>> {
    derived_address(seq![spec_authority_tag(), escrow_addr], pid)
}

/// The capability controlling the fee vault of the registry at
/// `registry_addr`.
pub open spec fn fee_vault_authority_for(pid: Seq<u8>, registry_addr: Seq<u8>) -> Option<Seq<u8>> {
    derived_address(seq![registry_addr, spec_authority_tag()], pid)
}

/// Derives [`registry_addr_for`].
pub fn derive_registry_addr(pid: &Vec<u8>, fee_token: &Vec<u8>) -> (r: Option<Vec<u8>>)
    requires
        pid@.len() == 32,
    ensures
        match r {
            Some(v) => registry_addr_for(pid@, fee_token@) == Some(v@) && v@.len() == 32,
            None => registry_addr_for(pid@, fee_token@) is None,
        },
{
    let mut seeds: Vec<Vec<u8>> = Vec::new();
    seeds.push(clone_bytes(pid));
    seeds.push(clone_bytes(fee_token));
    seeds.push(registry_tag());
    proof {
        assert(seeds.deep_view() =~~= seq![pid@, fee_token@, spec_registry_tag()]);
    }
    find_derived_address(&seeds, pid)
}

/// Derives [`escrow_addr_for`].
pub fn derive_escrow_addr(
    pid: &Vec<u8>,
    initializer: &Vec<u8>,
    deposit_token: &Vec<u8>,
    receive_token: &Vec<u8>,
) -> (r: Option<Vec<u8>>)
    requires
        pid@.len() == 32,
    ensures
        match r {
            Some(v) => escrow_addr_for(pid@, initializer@, deposit_token@, receive_token@) == Some(
                v@,
            ) && v@.len() == 32,
            None => escrow_addr_for(pid@, initializer@, deposit_token@, receive_token@) is None,
        },
{
    let mut seeds: Vec<Vec<u8>> = Vec::new();
    seeds.push(clone_bytes(initializer));
    seeds.push(clone_bytes(deposit_token));
    seeds.push(clone_bytes(receive_token));
    proof {
        assert(seeds.deep_view() =~~= seq![initializer@, deposit_token@, receive_token@]);
    }
    find_derived_address(&seeds, pid)
}

/// Derives [`vault_addr_for`].
pub fn derive_vault_addr(pid: &Vec<u8>, record_addr: &Vec<u8>) -> (r: Option<Vec<u8>>)
    requires
        pid@.len() == 32,
    ensures
        match r {
            Some(v) => vault_addr_for(pid@, record_addr@) == Some(v@) && v@.len() == 32,
            None => vault_addr_for(pid@, record_addr@) is None,
        },
{
    let mut seeds: Vec<Vec<u8>> = Vec::new();
    seeds.push(clone_bytes(record_addr));
    proof {
        assert(seeds.deep_view() =~~= seq![record_addr@]);
    }
    find_derived_address(&seeds, pid)
}

/// Derives [`vault_authority_for`].
pub fn derive_vault_authority(pid: &Vec<u8>, escrow_addr: &Vec<u8>) -> (r: Option<Vec<u8>>)
    requires
        pid@.len() == 32,
    ensures
        match r {
            Some(v) => vault_authority_for(pid@, escrow_addr@) == Some(v@) && v@.len() == 32,
            None => vault_authority_for(pid@, escrow_addr@) is None,
        },
{
    let mut seeds: Vec<Vec<u8>> = Vec::new();
    seeds.push(authority_tag());
    seeds.push(clone_bytes(escrow_addr));
    proof {
        assert(seeds.deep_view() =~~= seq![spec_authority_tag(), escrow_addr@]);
    }
    find_derived_address(&seeds, pid)
}

/// Derives [`fee_vault_authority_for`].
pub fn derive_fee_vault_authority(pid: &Vec<u8>, registry_addr: &Vec<u8>) -> (r: Option<Vec<u8>>)
    requires
        pid@.len() == 32,
    ensures
        match r {
            Some(v) => fee_vault_authority_for(pid@, registry_addr@) == Some(v@) && v@.len() == 32,
            None => fee_vault_authority_for(pid@, registry_addr@) is None,
        },
{
    let mut seeds: Vec<Vec<u8>> = Vec::new();
    seeds.push(clone_bytes(registry_addr));
    seeds.push(authority_tag());
    proof {
        assert(seeds.deep_view() =~~= seq![registry_addr@, spec_authority_tag()]);
    }
    find_derived_address(&seeds, pid)
}

} // verus!
