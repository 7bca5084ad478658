use vstd::prelude::*;
use crate::pubkey::Pubkey;

verus! {

/// The address that a program derives from a list of seeds, with the bump
/// seed that was found for it; `None` where the seeds are refused or no bump
/// seed gives an address.
pub uninterp spec fn program_address(seeds: Seq<Seq<u8>>, program_id: Seq<u8>) -> Option<
    (Seq<u8>, u8),
>;

/// What a derived address and its bump seed hold.
pub open spec fn found_view(found: Option<(Pubkey, u8)>) -> Option<(Seq<u8>, u8)> {
    match found {
        Some((address, bump)) => Some((address@, bump)),
        None => None,
    }
}

/// Calls `Pubkey::try_find_program_address` of `anchor_lang`, which hashes
/// the seeds, a bump seed and the program id, and tries bump seeds from 255
/// down until the hash is no point of the curve. Trusted: the result is a
/// function of the seeds and the program id alone. Nothing else is claimed of
/// it; two lists of seeds may share an address.
#[verifier::external_body]
fn find_program_address(seeds: &Vec<Vec<u8>>, program_id: &Pubkey) -> (found: Option<(Pubkey, u8)>)
    ensures
        found_view(found) == program_address(seeds.deep_view(), program_id@),
{
    let slices: Vec<&[u8]> = seeds.iter().map(|seed| seed.as_slice()).collect();
    let program = anchor_lang::prelude::Pubkey::new_from_array(program_id.bytes);
    match anchor_lang::prelude::Pubkey::try_find_program_address(&slices, &program) {
        Some((address, bump)) => Some((Pubkey { bytes: address.to_bytes() }, bump)),
        None => None,
    }
}

/// The seed of the catalog: the text `event_dao`.
pub open spec fn catalog_tag() -> Seq<u8> {
    seq![101u8, 118, 101, 110, 116, 95, 100, 97, 111]
}

/// The first seed of an event: the text `event`.
pub open spec fn event_tag() -> Seq<u8> {
    seq![101u8, 118, 101, 110, 116]
}

/// The first seed of a ticket: the text `ticket`.
pub open spec fn ticket_tag() -> Seq<u8> {
    seq![116u8, 105, 99, 107, 101, 116]
}

/// The four bytes of an id, lowest first.
pub open spec fn id_bytes(id: u32) -> Seq<u8> {
    seq![
        (id % 256) as u8,
        (id / 256 % 256) as u8,
        (id / 65536 % 256) as u8,
        (id / 16777216) as u8,
    ]
}

/// The seeds of the catalog.
pub open spec fn catalog_seeds() -> Seq<Seq<u8>> {
    seq![catalog_tag()]
}

/// The seeds of the event with the given id.
pub open spec fn event_seeds(id: u32) -> Seq<Seq<u8>> {
    seq![event_tag(), id_bytes(id)]
}

/// The seeds of the ticket that a buyer holds for the event at an address.
pub open spec fn ticket_seeds(event: Seq<u8>, buyer: Seq<u8>) -> Seq<Seq<u8>> {
    seq![ticket_tag(), event, buyer]
}

/// The bytes of a key, as a seed.
fn key_seed(key: &Pubkey) -> (seed: Vec<u8>)
    ensures
        seed@ == key@,
{
    let mut seed: Vec<u8> = Vec::new();
    let mut i: usize = 0;
    while i < 32
        invariant
            i <= 32,
            seed@ == key@.subrange(0, i as int),
        decreases 32 - i,
    {
        seed.push(key.bytes[i]);
        i = i + 1;
    }
    seed
}

/// The bytes of an id, as a seed.
fn id_seed(id: u32) -> (seed: Vec<u8>)
    ensures
        seed@ == id_bytes(id),
{
    let seed: Vec<u8> = vec![
        (id % 256) as u8,
        (id / 256 % 256) as u8,
        (id / 65536 % 256) as u8,
        (id / 16777216) as u8,
    ];
    assert(seed@ =~= id_bytes(id));
    seed
}

/// Where the catalog of a program stands.
pub fn catalog_address(program_id: &Pubkey) -> (found: Option<(Pubkey, u8)>)
    ensures
        found_view(found) == program_address(catalog_seeds(), program_id@),
{
    let tag: Vec<u8> = vec![101u8, 118, 101, 110, 116, 95, 100, 97, 111];
    let seeds: Vec<Vec<u8>> = vec![tag];
    assert(seeds.deep_view() =~~= catalog_seeds());
    find_program_address(&seeds, program_id)
}

/// Where the event with the given id stands.
pub fn event_address(program_id: &Pubkey, id: u32) -> (found: Option<(Pubkey, u8)>)
    ensures
        found_view(found) == program_address(event_seeds(id), program_id@),
{
    let tag: Vec<u8> = vec![101u8, 118, 101, 110, 116];
    let seeds: Vec<Vec<u8>> = vec![tag, id_seed(id)];
    assert(seeds.deep_view() =~~= event_seeds(id));
    find_program_address(&seeds, program_id)
}

/// Where the ticket stands that a buyer holds for the event at an address.
pub fn ticket_address(program_id: &Pubkey, event: &Pubkey, buyer: &Pubkey) -> (found: Option<
    (Pubkey, u8),
>)
    ensures
        found_view(found) == program_address(ticket_seeds(event@, buyer@), program_id@),
{
    let tag: Vec<u8> = vec![116u8, 105, 99, 107, 101, 116];
    let seeds: Vec<Vec<u8>> = vec![tag, key_seed(event), key_seed(buyer)];
    assert(seeds.deep_view() =~~= ticket_seeds(event@, buyer@));
    find_program_address(&seeds, program_id)
}

} // verus!
