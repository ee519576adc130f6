use vstd::prelude::*;

verus! {

use crate::address::ata_program_id_spec;
use crate::address::ata_seeds;
use crate::address::derive_associated_account;
use crate::address::derive_spec;
use crate::address::token_program_id;
use crate::address::token_program_id_spec;
use crate::codec::is_key_text;
use crate::codec::key_of_text;
use crate::codec::parse_public_key;
use crate::error::CoreError;
use crate::error::Field;
use crate::keys::PublicKey;
use crate::keys::copy_bytes;

/// How one instruction touches one account: its key, whether it must sign, and
/// whether its data may change. The position in an instruction's account list
/// is significant and fixed per operation.
#[derive(Debug)]
pub struct AccountRef {
    pub key: PublicKey,
    pub is_signer: bool,
    pub is_writable: bool,
}

/// An unsigned description of one call into a program: the target program, the
/// ordered account list, and the opaque payload bytes. Not a transaction: no
/// nonce, no fee payer, no blockhash.
#[derive(Debug)]
pub struct InstructionDescriptor {
    pub program_id: PublicKey,
    pub accounts: Vec<AccountRef>,
    pub payload: Vec<u8>,
}

impl InstructionDescriptor {
    /// The program id and every account key are 32 bytes.
    pub open spec fn wf(&self) -> bool {
        &&& self.program_id.wf()
        &&& forall|i: int|
            0 <= i < self.accounts@.len() ==> (#[trigger] self.accounts@[i]).key.wf()
    }
}

/// The eight bytes of a 64-bit value, least significant first.
pub open spec fn u64_le(v: u64) -> Seq<u8> {
    seq![
        (v & 0xff) as u8,
        ((v >> 8) & 0xff) as u8,
        ((v >> 16) & 0xff) as u8,
        ((v >> 24) & 0xff) as u8,
        ((v >> 32) & 0xff) as u8,
        ((v >> 40) & 0xff) as u8,
        ((v >> 48) & 0xff) as u8,
        ((v >> 56) & 0xff) as u8,
    ]
}

/// Recombining the eight little-endian bytes of `u64_le(v)` gives back `v`:
/// the amount carried in a payload decodes to the amount requested.
pub proof fn lemma_u64_le_recombines(v: u64)
    ensures
        v == (u64_le(v)[0] as u64) | ((u64_le(v)[1] as u64) << 8) | ((u64_le(v)[2] as u64) << 16)
            | ((u64_le(v)[3] as u64) << 24) | ((u64_le(v)[4] as u64) << 32) | ((u64_le(
            v,
        )[5] as u64) << 40) | ((u64_le(v)[6] as u64) << 48) | ((u64_le(v)[7] as u64) << 56),
{
    assert(v == ((v & 0xff) as u8 as u64) | (((v >> 8) & 0xff) as u8 as u64) << 8 | (((v >> 16)
        & 0xff) as u8 as u64) << 16 | (((v >> 24) & 0xff) as u8 as u64) << 24 | (((v >> 32)
        & 0xff) as u8 as u64) << 32 | (((v >> 40) & 0xff) as u8 as u64) << 40 | (((v >> 48)
        & 0xff) as u8 as u64) << 48 | (((v >> 56) & 0xff) as u8 as u64) << 56) by (bit_vector);
}

/// A 64-bit value as eight little-endian bytes.
pub fn u64_to_le_bytes(v: u64) -> (r: Vec<u8>)
    ensures
        r@ == u64_le(v),
        r@.len() == 8,
{
    proof {
        assert(v & 0xff < 256 && (v >> 8) & 0xff < 256 && (v >> 16) & 0xff < 256 && (v >> 24)
            & 0xff < 256 && (v >> 32) & 0xff < 256 && (v >> 40) & 0xff < 256 && (v >> 48) & 0xff
            < 256 && (v >> 56) & 0xff < 256) by (bit_vector);
    }
    let mut r: Vec<u8> = Vec::new();
    r.push((v & 0xff) as u8);
    r.push(((v >> 8) & 0xff) as u8);
    r.push(((v >> 16) & 0xff) as u8);
    r.push(((v >> 24) & 0xff) as u8);
    r.push(((v >> 32) & 0xff) as u8);
    r.push(((v >> 40) & 0xff) as u8);
    r.push(((v >> 48) & 0xff) as u8);
    r.push(((v >> 56) & 0xff) as u8);
    proof {
        assert(r@ =~= u64_le(v));
    }
    r
}

/// The native-transfer payload: the system program's transfer opcode (2, as a
/// little-endian 32-bit tag) followed by the little-endian amount.
pub open spec fn native_transfer_payload(amount: u64) -> Seq<u8> {
    seq![2u8, 0u8, 0u8, 0u8] + u64_le(amount)
}

/// The asset-class initialization payload: opcode 0, the decimal count, the
/// authority's key bytes, then a set flag and the same key as the freeze
/// authority.
pub open spec fn initialize_asset_payload(decimals: u8, authority: Seq<u8>) -> Seq<u8> {
    seq![0u8, decimals] + authority + seq![1u8] + authority
}

/// The asset-issuance payload: opcode 7 followed by the little-endian amount.
pub open spec fn issue_asset_payload(amount: u64) -> Seq<u8> {
    seq![7u8] + u64_le(amount)
}

/// The asset-transfer payload: opcode 3 followed by the little-endian amount.
pub open spec fn asset_transfer_payload(amount: u64) -> Seq<u8> {
    seq![3u8] + u64_le(amount)
}

/// The raw bytes of the native system program id (32 zero bytes), whose base58
/// text form is "11111111111111111111111111111111".
pub open spec fn system_program_id_spec() -> Seq<u8> {
    Seq::new(32, |i: int| 0u8)
}

/// The raw bytes of the rent sysvar account, whose base58 text form is
/// "SysvarRent111111111111111111111111111111111".
pub open spec fn rent_sysvar_id_spec() -> Seq<u8> {
    seq![
        6u8, 167u8, 213u8, 23u8, 25u8, 44u8, 92u8, 81u8, 33u8, 140u8, 201u8, 76u8, 61u8, 74u8,
        241u8, 127u8, 88u8, 218u8, 238u8, 8u8, 155u8, 161u8, 253u8, 68u8, 227u8, 219u8, 217u8,
        138u8, 0u8, 0u8, 0u8, 0u8,
    ]
}

/// The native system program id as a public key.
pub fn system_program_id() -> (r: PublicKey)
    ensures
        r.wf(),
        r@ == system_program_id_spec(),
{
    let bytes: Vec<u8> = vec![
        0u8, 0u8, 0u8, 0u8, 0u8, 0u8, 0u8, 0u8, 0u8, 0u8, 0u8, 0u8, 0u8, 0u8, 0u8, 0u8, 0u8, 0u8,
        0u8, 0u8, 0u8, 0u8, 0u8, 0u8, 0u8, 0u8, 0u8, 0u8, 0u8, 0u8, 0u8, 0u8,
    ];
    proof {
        assert(bytes@ =~= system_program_id_spec());
    }
    PublicKey { bytes }
}

/// The rent sysvar account id as a public key.
pub fn rent_sysvar_id() -> (r: PublicKey)
    ensures
        r.wf(),
        r@ == rent_sysvar_id_spec(),
{
    let bytes: Vec<u8> = vec![
        6u8, 167u8, 213u8, 23u8, 25u8, 44u8, 92u8, 81u8, 33u8, 140u8, 201u8, 76u8, 61u8, 74u8,
        241u8, 127u8, 88u8, 218u8, 238u8, 8u8, 155u8, 161u8, 253u8, 68u8, 227u8, 219u8, 217u8,
        138u8, 0u8, 0u8, 0u8, 0u8,
    ];
    proof {
        assert(bytes@ =~= rent_sysvar_id_spec());
    }
    PublicKey { bytes }
}

/// Builds the native-asset transfer instruction: `from` pays and must sign,
/// `to` receives; both accounts are writable; the payload carries the opcode
/// and the little-endian amount. The amount must be positive.
pub fn build_transfer(from: &str, to: &str, amount: u64) -> (r: Result<
    InstructionDescriptor,
    CoreError,
>)
    ensures
        r is Ok <==> is_key_text(from@) && is_key_text(to@) && amount > 0,
        !is_key_text(from@) ==> r == Err::<InstructionDescriptor, CoreError>(
            CoreError::InvalidAddress(Field::From),
        ),
        is_key_text(from@) && !is_key_text(to@) ==> r == Err::<InstructionDescriptor, CoreError>(
            CoreError::InvalidAddress(Field::To),
        ),
        is_key_text(from@) && is_key_text(to@) && amount == 0 ==> r == Err::<
            InstructionDescriptor,
            CoreError,
        >(CoreError::InvalidAmount),
        r matches Ok(ins) ==> {
            &&& ins.wf()
            &&& ins.program_id@ == system_program_id_spec()
            &&& ins.accounts@.len() == 2
            &&& ins.accounts@[0].key@ == key_of_text(from@)
            &&& ins.accounts@[0].is_signer
            &&& ins.accounts@[0].is_writable
            &&& ins.accounts@[1].key@ == key_of_text(to@)
            &&& !ins.accounts@[1].is_signer
            &&& ins.accounts@[1].is_writable
            &&& ins.payload@ == native_transfer_payload(amount)
        },
{
    let from_key = match parse_public_key(from) {
        Ok(k) => k,
        Err(_) => {
            return Err(CoreError::InvalidAddress(Field::From));
        },
    };
    let to_key = match parse_public_key(to) {
        Ok(k) => k,
        Err(_) => {
            return Err(CoreError::InvalidAddress(Field::To));
        },
    };
    if amount == 0 {
        return Err(CoreError::InvalidAmount);
    }
    let mut payload: Vec<u8> = vec![2u8, 0u8, 0u8, 0u8];
    let mut amount_bytes = u64_to_le_bytes(amount);
    payload.append(&mut amount_bytes);
    proof {
        assert(payload@ =~= native_transfer_payload(amount));
    }
    let mut accounts: Vec<AccountRef> = Vec::new();
    accounts.push(AccountRef { key: from_key, is_signer: true, is_writable: true });
    accounts.push(AccountRef { key: to_key, is_signer: false, is_writable: true });
    Ok(InstructionDescriptor { program_id: system_program_id(), accounts, payload })
}

/// Builds the asset-class initialization instruction: the new class (mint)
/// signs and is written; the rent sysvar is read; the payload fixes the
/// decimal precision and makes the authority both mint and freeze authority.
/// At most 9 decimal places.
pub fn build_initialize_asset(authority: &str, mint: &str, decimals: u8) -> (r: Result<
    InstructionDescriptor,
    CoreError,
>)
    ensures
        r is Ok <==> is_key_text(authority@) && is_key_text(mint@) && decimals <= 9,
        !is_key_text(authority@) ==> r == Err::<InstructionDescriptor, CoreError>(
            CoreError::InvalidAddress(Field::MintAuthority),
        ),
        is_key_text(authority@) && !is_key_text(mint@) ==> r == Err::<
            InstructionDescriptor,
            CoreError,
        >(CoreError::InvalidAddress(Field::Mint)),
        is_key_text(authority@) && is_key_text(mint@) && decimals > 9 ==> r == Err::<
            InstructionDescriptor,
            CoreError,
        >(CoreError::InvalidDecimals),
        r matches Ok(ins) ==> {
            &&& ins.wf()
            &&& ins.program_id@ == token_program_id_spec()
            &&& ins.accounts@.len() == 2
            &&& ins.accounts@[0].key@ == key_of_text(mint@)
            &&& ins.accounts@[0].is_signer
            &&& ins.accounts@[0].is_writable
            &&& ins.accounts@[1].key@ == rent_sysvar_id_spec()
            &&& !ins.accounts@[1].is_signer
            &&& !ins.accounts@[1].is_writable
            &&& ins.payload@ == initialize_asset_payload(decimals, key_of_text(authority@))
        },
{
    let authority_key = match parse_public_key(authority) {
        Ok(k) => k,
        Err(_) => {
            return Err(CoreError::InvalidAddress(Field::MintAuthority));
        },
    };
    let mint_key = match parse_public_key(mint) {
        Ok(k) => k,
        Err(_) => {
            return Err(CoreError::InvalidAddress(Field::Mint));
        },
    };
    if decimals > 9 {
        return Err(CoreError::InvalidDecimals);
    }
    let mut payload: Vec<u8> = vec![0u8, decimals];
    let mut authority_bytes = copy_bytes(&authority_key.bytes);
    payload.append(&mut authority_bytes);
    payload.push(1u8);
    let mut freeze_bytes = copy_bytes(&authority_key.bytes);
    payload.append(&mut freeze_bytes);
    proof {
        assert(payload@ =~= initialize_asset_payload(decimals, key_of_text(authority@)));
    }
    let mut accounts: Vec<AccountRef> = Vec::new();
    accounts.push(AccountRef { key: mint_key, is_signer: true, is_writable: true });
    accounts.push(AccountRef { key: rent_sysvar_id(), is_signer: false, is_writable: false });
    Ok(InstructionDescriptor { program_id: token_program_id(), accounts, payload })
}

/// Builds the asset-issuance ("mint") instruction: the asset class and the
/// destination account are written, the authority signs; the payload carries
/// the opcode and the little-endian amount. The amount must be positive.
pub fn build_issue_asset(mint: &str, destination: &str, authority: &str, amount: u64) -> (r: Result<
    InstructionDescriptor,
    CoreError,
>)
    ensures
        r is Ok <==> is_key_text(mint@) && is_key_text(destination@) && is_key_text(authority@)
            && amount > 0,
        !is_key_text(mint@) ==> r == Err::<InstructionDescriptor, CoreError>(
            CoreError::InvalidAddress(Field::Mint),
        ),
        is_key_text(mint@) && !is_key_text(destination@) ==> r == Err::<
            InstructionDescriptor,
            CoreError,
        >(CoreError::InvalidAddress(Field::Destination)),
        is_key_text(mint@) && is_key_text(destination@) && !is_key_text(authority@) ==> r == Err::<
            InstructionDescriptor,
            CoreError,
        >(CoreError::InvalidAddress(Field::Authority)),
        is_key_text(mint@) && is_key_text(destination@) && is_key_text(authority@) && amount == 0
            ==> r == Err::<InstructionDescriptor, CoreError>(CoreError::InvalidAmount),
        r matches Ok(ins) ==> {
            &&& ins.wf()
            &&& ins.program_id@ == token_program_id_spec()
            &&& ins.accounts@.len() == 3
            &&& ins.accounts@[0].key@ == key_of_text(mint@)
            &&& !ins.accounts@[0].is_signer
            &&& ins.accounts@[0].is_writable
            &&& ins.accounts@[1].key@ == key_of_text(destination@)
            &&& !ins.accounts@[1].is_signer
            &&& ins.accounts@[1].is_writable
            &&& ins.accounts@[2].key@ == key_of_text(authority@)
            &&& ins.accounts@[2].is_signer
            &&& !ins.accounts@[2].is_writable
            &&& ins.payload@ == issue_asset_payload(amount)
        },
{
    let mint_key = match parse_public_key(mint) {
        Ok(k) => k,
        Err(_) => {
            return Err(CoreError::InvalidAddress(Field::Mint));
        },
    };
    let destination_key = match parse_public_key(destination) {
        Ok(k) => k,
        Err(_) => {
            return Err(CoreError::InvalidAddress(Field::Destination));
        },
    };
    let authority_key = match parse_public_key(authority) {
        Ok(k) => k,
        Err(_) => {
            return Err(CoreError::InvalidAddress(Field::Authority));
        },
    };
    if amount == 0 {
        return Err(CoreError::InvalidAmount);
    }
    let mut payload: Vec<u8> = vec![7u8];
    let mut amount_bytes = u64_to_le_bytes(amount);
    payload.append(&mut amount_bytes);
    proof {
        assert(payload@ =~= issue_asset_payload(amount));
    }
    let mut accounts: Vec<AccountRef> = Vec::new();
    accounts.push(AccountRef { key: mint_key, is_signer: false, is_writable: true });
    accounts.push(AccountRef { key: destination_key, is_signer: false, is_writable: true });
    accounts.push(AccountRef { key: authority_key, is_signer: true, is_writable: false });
    Ok(InstructionDescriptor { program_id: token_program_id(), accounts, payload })
}

/// The derived (address, bump) of the associated asset account for the owner
/// and asset class given by their text forms.
pub open spec fn ata_of_text(owner: Seq<char>, mint: Seq<char>) -> Option<(Seq<u8>, u8)> {
    derive_spec(ata_seeds(key_of_text(owner), key_of_text(mint)), ata_program_id_spec(), 255)
}

/// Builds the asset transfer instruction between the associated accounts of
/// two owners: the source and destination derived accounts are written, the
/// current owner signs; the payload carries the opcode and the little-endian
/// amount. The amount must be positive and both derivations must succeed.
pub fn build_asset_transfer(
    owner: &str,
    mint: &str,
    destination_owner: &str,
    amount: u64,
) -> (r: Result<InstructionDescriptor, CoreError>)
    ensures
        r is Ok <==> is_key_text(destination_owner@) && is_key_text(mint@) && is_key_text(owner@)
            && amount > 0 && ata_of_text(owner@, mint@) is Some && ata_of_text(
            destination_owner@,
            mint@,
        ) is Some,
        !is_key_text(destination_owner@) ==> r == Err::<InstructionDescriptor, CoreError>(
            CoreError::InvalidAddress(Field::Destination),
        ),
        is_key_text(destination_owner@) && !is_key_text(mint@) ==> r == Err::<
            InstructionDescriptor,
            CoreError,
        >(CoreError::InvalidAddress(Field::Mint)),
        is_key_text(destination_owner@) && is_key_text(mint@) && !is_key_text(owner@) ==> r
            == Err::<InstructionDescriptor, CoreError>(CoreError::InvalidAddress(Field::Owner)),
        is_key_text(destination_owner@) && is_key_text(mint@) && is_key_text(owner@) && amount == 0
            ==> r == Err::<InstructionDescriptor, CoreError>(CoreError::InvalidAmount),
        is_key_text(destination_owner@) && is_key_text(mint@) && is_key_text(owner@) && amount > 0
            && !(ata_of_text(owner@, mint@) is Some && ata_of_text(destination_owner@, mint@)
            is Some) ==> r == Err::<InstructionDescriptor, CoreError>(CoreError::NoValidAddress),
        r matches Ok(ins) ==> {
            &&& ins.wf()
            &&& ins.program_id@ == token_program_id_spec()
            &&& ins.accounts@.len() == 3
            &&& ins.accounts@[0].key@ == ata_of_text(owner@, mint@)->Some_0.0
            &&& !ins.accounts@[0].is_signer
            &&& ins.accounts@[0].is_writable
            &&& ins.accounts@[1].key@ == ata_of_text(destination_owner@, mint@)->Some_0.0
            &&& !ins.accounts@[1].is_signer
            &&& ins.accounts@[1].is_writable
            &&& ins.accounts@[2].key@ == key_of_text(owner@)
            &&& ins.accounts@[2].is_signer
            &&& !ins.accounts@[2].is_writable
            &&& ins.payload@ == asset_transfer_payload(amount)
        },
{
    let destination_key = match parse_public_key(destination_owner) {
        Ok(k) => k,
        Err(_) => {
            return Err(CoreError::InvalidAddress(Field::Destination));
        },
    };
    let mint_key = match parse_public_key(mint) {
        Ok(k) => k,
        Err(_) => {
            return Err(CoreError::InvalidAddress(Field::Mint));
        },
    };
    let owner_key = match parse_public_key(owner) {
        Ok(k) => k,
        Err(_) => {
            return Err(CoreError::InvalidAddress(Field::Owner));
        },
    };
    if amount == 0 {
        return Err(CoreError::InvalidAmount);
    }
    let source_account = match derive_associated_account(&owner_key, &mint_key) {
        Ok(ab) => ab.0,
        Err(_) => {
            return Err(CoreError::NoValidAddress);
        },
    };
    let destination_account = match derive_associated_account(&destination_key, &mint_key) {
        Ok(ab) => ab.0,
        Err(_) => {
            return Err(CoreError::NoValidAddress);
        },
    };
    let mut payload: Vec<u8> = vec![3u8];
    let mut amount_bytes = u64_to_le_bytes(amount);
    payload.append(&mut amount_bytes);
    proof {
        assert(payload@ =~= asset_transfer_payload(amount));
    }
    let mut accounts: Vec<AccountRef> = Vec::new();
    accounts.push(AccountRef { key: source_account, is_signer: false, is_writable: true });
    accounts.push(AccountRef { key: destination_account, is_signer: false, is_writable: true });
    accounts.push(AccountRef { key: owner_key, is_signer: true, is_writable: false });
    Ok(InstructionDescriptor { program_id: token_program_id(), accounts, payload })
}

} // verus!
