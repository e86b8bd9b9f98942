use anchor_lang::solana_program::pubkey::Pubkey;
use crate::error::ErrorCode;
use vstd::prelude::*;

verus! {

/// A 32-byte public identifier: a wallet, a program, a mint or an account.
#[derive(Clone, Copy, Debug)]
pub struct Address {
    pub bytes: [u8; 32],
}

impl View for Address {
    type V = Seq<u8>;

    open spec fn view(&self) -> Seq<u8> {
        self.bytes@
    }
}

impl PartialEq for Address {
    fn eq(&self, o: &Address) -> (r: bool) {
        let mut i: usize = 0;
        while i < 32
            invariant
                i <= 32,
                self.bytes@.len() == 32,
                o.bytes@.len() == 32,
                forall|j: int| 0 <= j < i ==> self.bytes@[j] == o.bytes@[j],
            decreases 32 - i,
        {
            if self.bytes[i] != o.bytes[i] {
                return false;
            }
            i = i + 1;
        }
        assert(self.bytes@ =~= o.bytes@);
        true
    }
}

impl vstd::std_specs::cmp::PartialEqSpecImpl for Address {
    open spec fn obeys_eq_spec() -> bool {
        true
    }

    open spec fn eq_spec(&self, o: &Address) -> bool {
        self.bytes@ == o.bytes@
    }
}

impl Eq for Address {
}

/// What `Pubkey::create_program_address` yields for the seeds and the program
/// id: the derived address, or none where the seeds give no address off the
/// curve.
pub uninterp spec fn program_address(seeds: Seq<Seq<u8>>, program_id: Seq<u8>) -> Option<Seq<u8>>;

/// The bytes of the string "escrow", the first seed of every escrow address.
pub open spec fn escrow_prefix() -> Seq<u8> {
    seq![101u8, 115u8, 99u8, 114u8, 111u8, 119u8]
}

/// The seeds of an escrow address: "escrow", the owner, the one-byte tag.
pub open spec fn escrow_seeds(owner: Seq<u8>, tag: u8) -> Seq<Seq<u8>> {
    seq![escrow_prefix(), owner, seq![tag]]
}

/// The escrow address of `owner` under `tag`, if that tag derives one.
pub open spec fn escrow_address(owner: Seq<u8>, tag: u8, program_id: Seq<u8>) -> Option<Seq<u8>> {
    program_address(escrow_seeds(owner, tag), program_id)
}

/// `tag` is the tag that the derivation picks for `owner`: the largest one,
/// from 255 down to 1, that derives an address.
pub open spec fn is_canonical_tag(owner: Seq<u8>, tag: u8, program_id: Seq<u8>) -> bool {
    &&& 1 <= tag
    &&& escrow_address(owner, tag, program_id) is Some
    &&& forall|b: u8| tag < b ==> (#[trigger] escrow_address(owner, b, program_id)) is None
}

/// Relies on solana_program's `Pubkey::create_program_address` for the escrow
/// seeds. The three seeds are 6, 32 and 1 bytes long, within its limits, so its
/// only error is that the hash lies on the curve.
#[verifier::external_body]
fn create_escrow_address(owner: &Address, tag: u8, program_id: &Address) -> (r: Option<Address>)
    ensures
        r is Some <==> program_address(escrow_seeds(owner@, tag), program_id@) is Some,
        r is Some ==> program_address(escrow_seeds(owner@, tag), program_id@) == Some(r->0@),
{
    let bump = [tag];
    let seeds: [&[u8]; 3] = [b"escrow", &owner.bytes, &bump];
    match Pubkey::create_program_address(&seeds, &Pubkey::new_from_array(program_id.bytes)) {
        Ok(k) => Some(Address { bytes: k.to_bytes() }),
        Err(_) => None,
    }
}

/// Relies on solana_program's `Pubkey::try_find_program_address` for the escrow
/// seeds: it tries the tags from 255 down to 1 with `create_program_address`
/// and returns the first address found with its tag.
#[verifier::external_body]
fn find_escrow_address(owner: &Address, program_id: &Address) -> (r: Option<(Address, u8)>)
    ensures
        match r {
            Some((a, tag)) => is_canonical_tag(owner@, tag, program_id@)
                && program_address(escrow_seeds(owner@, tag), program_id@) == Some(a@),
            None => forall|b: u8|
                1 <= b ==> (#[trigger] program_address(escrow_seeds(owner@, b), program_id@)) is None,
        },
{
    let seeds: [&[u8]; 2] = [b"escrow", &owner.bytes];
    Pubkey::try_find_program_address(&seeds, &Pubkey::new_from_array(program_id.bytes))
        .map(|(k, tag)| (Address { bytes: k.to_bytes() }, tag))
}

/// The escrow address of `owner` and the tag that derives it, or
/// `NoViableBump` where no tag from 1 to 255 derives one.
pub fn derive_escrow(owner: &Address, program_id: &Address) -> (r: Result<(Address, u8), ErrorCode>)
    ensures
        match r {
            Ok((a, tag)) => is_canonical_tag(owner@, tag, program_id@)
                && escrow_address(owner@, tag, program_id@) == Some(a@),
            Err(e) => e == ErrorCode::NoViableBump
                && forall|b: u8| 1 <= b ==> (#[trigger] escrow_address(owner@, b, program_id@)) is None,
        },
{
    match find_escrow_address(owner, program_id) {
        Some((a, tag)) => Ok((a, tag)),
        None => Err(ErrorCode::NoViableBump),
    }
}

/// Whether `key` is the escrow address of `owner` under `tag`.
pub fn is_escrow_address(key: &Address, owner: &Address, tag: u8, program_id: &Address) -> (r: bool)
    ensures
        r == (escrow_address(owner@, tag, program_id@) == Some(key@)),
{
    match create_escrow_address(owner, tag, program_id) {
        Some(a) => a == *key,
        None => false,
    }
}

} // verus!
