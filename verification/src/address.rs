use vstd::prelude::*;
use vstd::bytes::{spec_u64_to_le_bytes, u64_to_le_bytes};
use crate::ids::{id_bytes, AccountId};

verus! {

/// The fixed domain tag addressing the singleton configuration record:
/// the bytes of `"config"`.
pub open spec fn config_tag() -> Seq<u8> {
    seq![99u8, 111u8, 110u8, 102u8, 105u8, 103u8]
}

/// The fixed domain tag addressing revenue snapshot records: the bytes of
/// `"revenue"`.
pub open spec fn revenue_tag() -> Seq<u8> {
    seq![114u8, 101u8, 118u8, 101u8, 110u8, 117u8, 101u8]
}

/// The seeds addressing the singleton configuration record: the domain tag
/// alone, with no discriminating fields, so every derivation for one
/// deployment lands on the same storage address.
pub open spec fn config_seeds() -> Seq<Seq<u8>> {
    seq![config_tag()]
}

/// The seeds addressing one revenue snapshot: the domain tag, the wallet's
/// 32 bytes, and the timestamp's 8 bytes (little-endian, two's complement).
/// The pair `(wallet, timestamp)` is thereby the uniqueness key of the
/// ledger.
pub open spec fn snapshot_seeds(wallet: AccountId, timestamp: i64) -> Seq<Seq<u8>> {
    seq![revenue_tag(), id_bytes(wallet), spec_u64_to_le_bytes(timestamp as u64)]
}

/// What `Pubkey::try_find_program_address` returns for given seeds and
/// program: a function of its arguments alone, so identical inputs always
/// yield the same address and nonce, in any process and on any machine.
pub uninterp spec fn pda_of(seeds: Seq<Seq<u8>>, program_id: Seq<u8>) -> Option<(Seq<u8>, u8)>;

/// Relies on `Pubkey::try_find_program_address` (re-exported by
/// anchor_lang): a deterministic, collision-resistant mapping from seeds
/// and program id to a 32-byte derived address plus the bump nonce that
/// made it acceptable to the storage subsystem, or `None` in the
/// statistically improbable event that no nonce works.
#[verifier::external_body]
fn find_pda(seeds: &Vec<Vec<u8>>, program_id: &Vec<u8>) -> (r: Option<(Vec<u8>, u8)>)
    requires
        program_id@.len() == 32,
    ensures
        (r is Some) <==> (pda_of(seeds.deep_view(), program_id@) is Some),
        r matches Some(p) ==> Some((p.0@, p.1)) == pda_of(seeds.deep_view(), program_id@)
            && p.0@.len() == 32,
{
    let seed_refs: Vec<&[u8]> = seeds.iter().map(|s| s.as_slice()).collect();
    let mut id = [0u8; 32];
    id.copy_from_slice(program_id.as_slice());
    let program = anchor_lang::prelude::Pubkey::new_from_array(id);
    anchor_lang::prelude::Pubkey::try_find_program_address(&seed_refs, &program)
        .map(|(address, bump)| (address.to_bytes().to_vec(), bump))
}

/// The byte vector `"config"`.
fn config_tag_vec() -> (r: Vec<u8>)
    ensures
        r@ == config_tag(),
{
    let mut v: Vec<u8> = Vec::new();
    v.push(99);
    v.push(111);
    v.push(110);
    v.push(102);
    v.push(105);
    v.push(103);
    proof {
        assert(v@ =~= config_tag());
    }
    v
}

/// The byte vector `"revenue"`.
fn revenue_tag_vec() -> (r: Vec<u8>)
    ensures
        r@ == revenue_tag(),
{
    let mut v: Vec<u8> = Vec::new();
    v.push(114);
    v.push(101);
    v.push(118);
    v.push(101);
    v.push(110);
    v.push(117);
    v.push(101);
    proof {
        assert(v@ =~= revenue_tag());
    }
    v
}

/// The storage location of the singleton configuration record of the
/// deployment at `program_id`: the address derived from the fixed domain
/// tag alone, and the nonce that disambiguates it. Reproducible by any
/// party from the program id, with no lookup table.
pub fn config_address(program_id: &AccountId) -> (r: Option<(Vec<u8>, u8)>)
    ensures
        (r is Some) <==> (pda_of(config_seeds(), id_bytes(*program_id)) is Some),
        r matches Some(p) ==> Some((p.0@, p.1)) == pda_of(config_seeds(), id_bytes(*program_id))
            && p.0@.len() == 32,
{
    let mut seeds: Vec<Vec<u8>> = Vec::new();
    seeds.push(config_tag_vec());
    proof {
        assert(seeds.deep_view() =~~= config_seeds());
    }
    let pid = program_id.to_bytes();
    find_pda(&seeds, &pid)
}

/// The storage location of the snapshot for `wallet` at `timestamp` in the
/// deployment at `program_id`: the address derived from the `"revenue"`
/// domain tag plus the two discriminating fields, and its nonce. Identical
/// pairs always land on the same address, which is what makes a repeated
/// recording collide.
pub fn snapshot_address(program_id: &AccountId, wallet: &AccountId, timestamp: i64) -> (r: Option<
    (Vec<u8>, u8),
>)
    ensures
        (r is Some) <==> (pda_of(snapshot_seeds(*wallet, timestamp), id_bytes(*program_id))
            is Some),
        r matches Some(p) ==> Some((p.0@, p.1)) == pda_of(
            snapshot_seeds(*wallet, timestamp),
            id_bytes(*program_id),
        ) && p.0@.len() == 32,
{
    let mut seeds: Vec<Vec<u8>> = Vec::new();
    seeds.push(revenue_tag_vec());
    seeds.push(wallet.to_bytes());
    seeds.push(u64_to_le_bytes(timestamp as u64));
    proof {
        assert(seeds.deep_view() =~~= snapshot_seeds(*wallet, timestamp));
    }
    let pid = program_id.to_bytes();
    find_pda(&seeds, &pid)
}

/// The seed material of a snapshot determines the wallet and the timestamp
/// exactly: two distinct `(wallet, timestamp)` pairs never share seeds, so
/// distinct pairs can only collide if the derivation itself collides.
pub proof fn lemma_snapshot_seeds_injective(
    w1: AccountId,
    t1: i64,
    w2: AccountId,
    t2: i64,
)
    ensures
        snapshot_seeds(w1, t1) == snapshot_seeds(w2, t2) ==> w1 == w2 && t1 == t2,
{
    if snapshot_seeds(w1, t1) == snapshot_seeds(w2, t2) {
        assert(id_bytes(w1) == snapshot_seeds(w1, t1)[1]);
        assert(id_bytes(w2) == snapshot_seeds(w2, t2)[1]);
        crate::ids::lemma_id_bytes_injective(w1, w2);
        assert(spec_u64_to_le_bytes(t1 as u64) == snapshot_seeds(w1, t1)[2]);
        assert(spec_u64_to_le_bytes(t2 as u64) == snapshot_seeds(w2, t2)[2]);
        vstd::bytes::lemma_auto_spec_u64_to_from_le_bytes();
        assert(vstd::bytes::spec_u64_from_le_bytes(spec_u64_to_le_bytes(t1 as u64)) == t1 as u64);
        assert(vstd::bytes::spec_u64_from_le_bytes(spec_u64_to_le_bytes(t2 as u64)) == t2 as u64);
        assert(t1 as u64 == t2 as u64);
        assert(t1 == t2) by (bit_vector)
            requires
                t1 as u64 == t2 as u64,
        ;
    }
}

/// The two entity kinds never share an address by seed reuse: the config
/// seeds and any snapshot's seeds differ.
pub proof fn lemma_domain_tags_distinct(wallet: AccountId, timestamp: i64)
    ensures
        config_seeds() != snapshot_seeds(wallet, timestamp),
{
    assert(config_seeds().len() == 1);
    assert(snapshot_seeds(wallet, timestamp).len() == 3);
}

} // verus!
