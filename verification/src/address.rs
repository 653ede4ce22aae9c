use anchor_lang::prelude::Pubkey;
use vstd::prelude::*;

verus! {

/// The seed tag under which a depositor's vault is addressed.
pub const VAULT_SEED: &'static str = "locked-tokens";

/// The seed tag under which a depositor's ledger record is addressed.
pub const LEDGER_SEED: &'static str = "locked-balance";

/// The address of an account: 32 bytes. Its view is the sequence of its bytes.
#[derive(Clone, Copy, Debug)]
pub struct Address {
    pub bytes: [u8; 32],
}

impl View for Address {
    type V = Seq<u8>;

    open spec fn view(&self) -> Seq<u8> {
        self.bytes@
    }
}

impl PartialEq for Address {
    fn eq(&self, other: &Address) -> (same: bool) {
        let mut i: usize = 0;
        while i < 32
            invariant
                i <= 32,
                forall|k: int| 0 <= k < i ==> self.bytes@[k] == other.bytes@[k],
            decreases 32 - i,
        {
            if self.bytes[i] != other.bytes[i] {
                return false;
            }
            i += 1;
        }
        assert(self.bytes@ =~= other.bytes@);
        true
    }
}

impl Eq for Address {

}

impl vstd::std_specs::cmp::PartialEqSpecImpl for Address {
    open spec fn obeys_eq_spec() -> bool {
        true
    }

    open spec fn eq_spec(&self, other: &Address) -> bool {
        self@ == other@
    }
}

impl Address {
    /// The address made of the given bytes.
    pub fn new(bytes: [u8; 32]) -> (address: Address)
        ensures
            address.bytes == bytes,
    {
        Address { bytes }
    }

    /// Two addresses with the same bytes are the same address.
    pub proof fn lemma_view_decides_equality(self, other: Address)
        ensures
            (self@ == other@) <==> (self == other),
    {
        if self@ == other@ {
            assert(self.bytes =~= other.bytes);
        }
    }
}

/// The program address that the platform derives from a seed tag, an identity
/// and a program, each given by its bytes, or `None` where it derives none.
pub uninterp spec fn derived_address(seed_tag: Seq<char>, identity: Seq<u8>, program: Seq<u8>) -> Option<Seq<u8>>;

/// Calls `Pubkey::try_find_program_address` with the seeds `seed_tag` and
/// `identity`, in this order, under the program `program_id`.
///
/// Trusted: the address found, if any, is `derived_address` of the arguments.
/// Off chain the search hashes the seeds, a bump seed and the program's bytes,
/// so the same arguments always give the same answer.
#[verifier::external_body]
fn find_program_address(seed_tag: &str, identity: &Address, program_id: &Address) -> (found: Option<Address>)
    ensures
        found matches Some(address) ==> derived_address(seed_tag@, identity@, program_id@) == Some(address@),
        found is None ==> derived_address(seed_tag@, identity@, program_id@) is None,
{
    let program = Pubkey::new_from_array(program_id.bytes);
    match Pubkey::try_find_program_address(&[seed_tag.as_bytes(), &identity.bytes], &program) {
        Some((address, _)) => Some(Address { bytes: address.to_bytes() }),
        None => None,
    }
}

/// The bytes of an address that may be missing.
pub open spec fn address_bytes(found: Option<Address>) -> Option<Seq<u8>> {
    match found {
        Some(address) => Some(address@),
        None => None,
    }
}

/// Where the vault of the depositor `user` is, under the program `program_id`.
pub fn vault_address(user: &Address, program_id: &Address) -> (found: Option<Address>)
    ensures
        address_bytes(found) == derived_address(VAULT_SEED@, user@, program_id@),
{
    find_program_address(VAULT_SEED, user, program_id)
}

/// Where the ledger record of the depositor `user` is, under the program
/// `program_id`.
pub fn ledger_address(user: &Address, program_id: &Address) -> (found: Option<Address>)
    ensures
        address_bytes(found) == derived_address(LEDGER_SEED@, user@, program_id@),
{
    find_program_address(LEDGER_SEED, user, program_id)
}

/// Deriving twice from the same seed tag, identity and program gives the same
/// address.
pub proof fn lemma_derivation_repeats(
    seed_tag: Seq<char>,
    identity: Address,
    program_id: Address,
    again_tag: Seq<char>,
    again_identity: Address,
    again_program_id: Address,
)
    requires
        seed_tag == again_tag,
        identity == again_identity,
        program_id == again_program_id,
    ensures
        derived_address(seed_tag, identity@, program_id@) == derived_address(
            again_tag,
            again_identity@,
            again_program_id@,
        ),
{
}

} // verus!
