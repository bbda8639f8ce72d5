use anchor_lang::prelude::Pubkey;
use vstd::prelude::*;

verus! {

/// A 32-byte account address (a public key or a program-derived address).
#[derive(Clone, Copy, Debug)]
pub struct Address {
    pub bytes: [u8; 32],
}

impl View for Address {
    type V = Seq<u8>;

    open spec fn view(&self) -> Seq<u8> {
        self.bytes@
    }
}

impl PartialEq for Address {
    fn eq(&self, other: &Address) -> (r: bool) {
        let mut i: usize = 0;
        while i < 32
            invariant
                0 <= i <= 32,
                forall|j: int| 0 <= j < i ==> self.bytes@[j] == other.bytes@[j],
            decreases 32 - i,
        {
            if self.bytes[i] != other.bytes[i] {
                return false;
            }
            i += 1;
        }
        assert(self.bytes@ =~= other.bytes@);
        true
    }
}

impl vstd::std_specs::cmp::PartialEqSpecImpl for Address {
    open spec fn obeys_eq_spec() -> bool {
        true
    }

    open spec fn eq_spec(&self, other: &Address) -> bool {
        self.bytes@ == other.bytes@
    }
}

impl Eq for Address {
}

/// The program-derived address for `seeds` under `program_id`, with its bump
/// seed; `None` where no bump seed yields an address off the curve, or where the
/// seeds exceed the host's limits.
pub uninterp spec fn program_address(seeds: Seq<Seq<u8>>, program_id: Seq<u8>) -> Option<(Seq<u8>, u8)>;

pub open spec fn seeds_view(seeds: Seq<Vec<u8>>) -> Seq<Seq<u8>> {
    seeds.map_values(|s: Vec<u8>| s@)
}

/// Relies on `Pubkey::try_find_program_address` (solana-program, through
/// anchor-lang): the derived address and bump depend on the seeds and the
/// program id alone.
#[verifier::external_body]
pub(crate) fn try_find_program_address(seeds: &Vec<Vec<u8>>, program_id: &Address) -> (r: Option<(Address, u8)>)
    ensures
        match r {
            Some((a, bump)) => program_address(seeds_view(seeds@), program_id@) == Some(
                (a@, bump),
            ),
            None => program_address(seeds_view(seeds@), program_id@) is None,
        },
{
    let refs: Vec<&[u8]> = seeds.iter().map(|s| s.as_slice()).collect();
    let program = Pubkey::new_from_array(program_id.bytes);
    Pubkey::try_find_program_address(&refs, &program).map(|(k, bump)| (Address { bytes: k.to_bytes() }, bump))
}

/// The program under which records of this registry are addressed.
pub fn program_id() -> (r: Address)
    ensures
        r@ == program_id_bytes(),
{
    let r = Address {
        bytes: [
            75, 33, 16, 185, 179, 179, 190, 102, 186, 196, 182, 119, 102, 195, 115, 165, 133, 241,
            183, 241, 15, 240, 113, 69, 114, 85, 222, 115, 1, 197, 32, 71,
        ],
    };
    assert(r.bytes@ =~= program_id_bytes());
    r
}

pub open spec fn program_id_bytes() -> Seq<u8> {
    seq![
        75u8, 33, 16, 185, 179, 179, 190, 102, 186, 196, 182, 119, 102, 195, 115, 165, 133, 241,
        183, 241, 15, 240, 113, 69, 114, 85, 222, 115, 1, 197, 32, 71,
    ]
}

/// Seed tag of the adoption record of one (adopter, agreement) pair: "adoption_v2".
pub open spec fn adoption_entry_tag() -> Seq<u8> {
    seq![97u8, 100, 111, 112, 116, 105, 111, 110, 95, 118, 50]
}

/// Seed tag of the record holding an adopter's current agreement: "adoption_head".
pub open spec fn adoption_head_tag() -> Seq<u8> {
    seq![97u8, 100, 111, 112, 116, 105, 111, 110, 95, 104, 101, 97, 100]
}

/// Where the record of `adopter`'s current agreement lives, if derivable.
pub open spec fn adoption_head_address(adopter: Seq<u8>) -> Option<Seq<u8>> {
    match program_address(seq![adoption_head_tag(), adopter], program_id_bytes()) {
        Some((a, _)) => Some(a),
        None => None,
    }
}

/// Where the record of the pair (`adopter`, `agreement`) lives, if derivable.
pub open spec fn adoption_entry_address(adopter: Seq<u8>, agreement: Seq<u8>) -> Option<Seq<u8>> {
    match program_address(seq![adoption_entry_tag(), adopter, agreement], program_id_bytes()) {
        Some((a, _)) => Some(a),
        None => None,
    }
}

pub(crate) fn bytes_to_vec(b: &[u8; 32]) -> (r: Vec<u8>)
    ensures
        r@ == b@,
{
    let mut r: Vec<u8> = Vec::new();
    let mut i: usize = 0;
    while i < 32
        invariant
            0 <= i <= 32,
            r@ == b@.subrange(0, i as int),
        decreases 32 - i,
    {
        r.push(b[i]);
        i += 1;
    }
    assert(r@ =~= b@);
    r
}

/// Derives the address of the record holding `adopter`'s current agreement.
pub fn derive_adoption_head_address(adopter: &Address) -> (r: Option<Address>)
    ensures
        match r {
            Some(a) => adoption_head_address(adopter@) == Some(a@),
            None => adoption_head_address(adopter@) is None,
        },
{
    let tag: Vec<u8> = vec![97u8, 100, 111, 112, 116, 105, 111, 110, 95, 104, 101, 97, 100];
    let seeds: Vec<Vec<u8>> = vec![tag, bytes_to_vec(&adopter.bytes)];
    let program = program_id();
    proof {
        assert(seeds_view(seeds@) =~= seq![adoption_head_tag(), adopter@]);
    }
    match try_find_program_address(&seeds, &program) {
        Some((a, _)) => Some(a),
        None => None,
    }
}

/// Derives the address of the record of the pair (`adopter`, `agreement`).
pub fn derive_adoption_entry_address(adopter: &Address, agreement: &Address) -> (r: Option<Address>)
    ensures
        match r {
            Some(a) => adoption_entry_address(adopter@, agreement@) == Some(a@),
            None => adoption_entry_address(adopter@, agreement@) is None,
        },
{
    let tag: Vec<u8> = vec![97u8, 100, 111, 112, 116, 105, 111, 110, 95, 118, 50];
    let seeds: Vec<Vec<u8>> = vec![tag, bytes_to_vec(&adopter.bytes), bytes_to_vec(&agreement.bytes)];
    let program = program_id();
    proof {
        assert(seeds_view(seeds@) =~= seq![adoption_entry_tag(), adopter@, agreement@]);
    }
    match try_find_program_address(&seeds, &program) {
        Some((a, _)) => Some(a),
        None => None,
    }
}

} // verus!
