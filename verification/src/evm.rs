//! Admission of EVM contract code.
//!
//! Code comes in two forms: init code, which runs once to deploy a
//! contract and is never stored, and runtime code, which is stored under its
//! hash. Both are held to a size limit and to the bytecode formats that the
//! interpreter knows.

use vstd::prelude::*;
use revm::bytecode::{Bytecode, BytecodeDecodeError};
use revm::primitives::Bytes;

verus! {

#[verifier::external_type_specification]
#[verifier::external_body]
pub struct ExBytecodeDecodeError(BytecodeDecodeError);

/// The kind of machine that a contract blob is written for.
#[derive(Clone, Copy, Debug, PartialEq, Eq, Structural)]
pub enum BytecodeType {
    /// Code of the PolkaVM.
    Pvm,
    /// Code of the EVM.
    Evm,
}

/// What is recorded about a contract blob besides its code.
#[derive(Clone, Debug)]
pub struct CodeInfo<AccountId> {
    /// The account that uploaded the code and holds the deposit for it.
    pub owner: AccountId,
    /// The deposit held for storing the code.
    pub deposit: u128,
    /// How many contracts use the code.
    pub refcount: u64,
    /// Length of the code in bytes.
    pub code_len: u32,
    /// The machine that the code is written for.
    pub code_type: BytecodeType,
    /// The behaviour of the runtime that the code was deployed under.
    pub behaviour_version: u32,
}

/// Contract code that has passed admission.
#[derive(Clone, Debug)]
pub struct ContractBlob<AccountId> {
    /// The code itself.
    pub code: Vec<u8>,
    /// What is recorded about the code.
    pub code_info: CodeInfo<AccountId>,
    /// The hash under which the code is stored.
    pub code_hash: [u8; 32],
}

/// Why code is not admitted.
#[derive(Clone, Copy, Debug, PartialEq, Eq, Structural)]
pub enum CodeError {
    /// The code is larger than the limit for its form.
    BlobTooLarge,
    /// The code is in no format that may be deployed.
    CodeRejected,
}

/// The first byte of every format that is reserved for later versions of
/// the EVM. No new contract may start with it.
pub const RESERVED_PREFIX: u8 = 0xEF;

/// Whether `code` starts with the two magic bytes of a delegation
/// designator.
pub open spec fn has_delegation_magic(code: Seq<u8>) -> bool {
    code.len() >= 2 && code[0] == 0xEF && code[1] == 0x01
}

/// Whether raw bytes are bytecode of a known format: anything that does not
/// start with the magic bytes of a delegation designator is legacy
/// bytecode, and a delegation designator has 23 bytes, the third of which,
/// its version, is zero.
pub open spec fn raw_bytecode_accepted(code: Seq<u8>) -> bool {
    has_delegation_magic(code) ==> code.len() == 23 && code[2] == 0
}

/// The Keccak-256 hash of `data`.
pub uninterp spec fn keccak_256_of(data: Seq<u8>) -> Seq<u8>;

/// `revm::primitives::eip3860::MAX_INITCODE_SIZE`: the most bytes that init
/// code may have, twice the limit for runtime code.
#[verifier::external_body]
fn max_initcode_size() -> (limit: usize)
    ensures
        limit == 0xC000,
{
    revm::primitives::eip3860::MAX_INITCODE_SIZE
}

/// `revm::primitives::eip170::MAX_CODE_SIZE`: the most bytes that runtime
/// code may have.
#[verifier::external_body]
fn max_code_size() -> (limit: usize)
    ensures
        limit == 0x6000,
{
    revm::primitives::eip170::MAX_CODE_SIZE
}

/// `revm::bytecode::Bytecode::new_raw_checked` on a copy of `code`, without
/// the bytecode that it builds. It fails on bytes that start with the
/// magic of a delegation designator and are not one, and on nothing else;
/// legacy bytecode is analysed and padded, which cannot fail.
#[verifier::external_body]
fn new_raw_checked(code: &Vec<u8>) -> (checked: Result<(), BytecodeDecodeError>)
    ensures
        checked is Ok <==> raw_bytecode_accepted(code@),
{
    match Bytecode::new_raw_checked(Bytes::from(code.to_vec())) {
        Ok(_) => Ok(()),
        Err(error) => Err(error),
    }
}

/// `revm::primitives::keccak256`: the Keccak-256 hash of `data`, as its 32
/// bytes.
#[verifier::external_body]
fn keccak_256(data: &Vec<u8>) -> (hash: [u8; 32])
    ensures
        hash@ == keccak_256_of(data@),
{
    revm::primitives::keccak256(data).0
}

/// The blob that [`ContractBlob::from_evm_init_code`] makes of admitted
/// code: nothing is deposited for it and its hash is left at zero, since
/// init code is never stored.
pub open spec fn is_init_code_blob<AccountId>(
    blob: ContractBlob<AccountId>,
    code: Seq<u8>,
    owner: AccountId,
) -> bool {
    &&& blob.code@ == code
    &&& blob.code_info.owner == owner
    &&& blob.code_info.deposit == 0
    &&& blob.code_info.refcount == 0
    &&& blob.code_info.code_len == code.len()
    &&& blob.code_info.code_type == BytecodeType::Evm
    &&& blob.code_info.behaviour_version == 0
    &&& blob.code_hash@ == Seq::new(32, |i: int| 0u8)
}

/// The blob that [`ContractBlob::from_evm_runtime_code`] makes of admitted
/// code: it is stored under its Keccak-256 hash.
pub open spec fn is_runtime_code_blob<AccountId>(
    blob: ContractBlob<AccountId>,
    code: Seq<u8>,
    owner: AccountId,
    deposit: u128,
) -> bool {
    &&& blob.code@ == code
    &&& blob.code_info.owner == owner
    &&& blob.code_info.deposit == deposit
    &&& blob.code_info.refcount == 0
    &&& blob.code_info.code_len == code.len()
    &&& blob.code_info.code_type == BytecodeType::Evm
    &&& blob.code_info.behaviour_version == 0
    &&& blob.code_hash@ == keccak_256_of(code)
}

impl<AccountId> ContractBlob<AccountId> {
    /// Creates a contract from EVM init code.
    ///
    /// Init code of more than 49152 bytes is too large. Init code that
    /// starts with the reserved byte `0xEF` is rejected. All other code is
    /// admitted.
    pub fn from_evm_init_code(code: Vec<u8>, owner: AccountId) -> (blob: Result<Self, CodeError>)
        ensures
            match blob {
                Ok(blob) => {
                    &&& code@.len() <= 0xC000
                    &&& !(code@.len() > 0 && code@[0] == RESERVED_PREFIX)
                    &&& is_init_code_blob(blob, code@, owner)
                },
                Err(CodeError::BlobTooLarge) => code@.len() > 0xC000,
                Err(CodeError::CodeRejected) => code@.len() <= 0xC000 && code@.len() > 0 && code@[0]
                    == RESERVED_PREFIX,
            },
    {
        if code.len() > max_initcode_size() {
            return Err(CodeError::BlobTooLarge);
        }
        // No new contract code starts with the reserved byte.

        if code.len() > 0 && code[0] == RESERVED_PREFIX {
            return Err(CodeError::CodeRejected);
        }
        let code_len: u32 = code.len() as u32;
        let code_info = CodeInfo {
            owner,
            deposit: 0,
            refcount: 0,
            code_len,
            code_type: BytecodeType::Evm,
            behaviour_version: 0,
        };

        match new_raw_checked(&code) {
            Ok(_) => {},
            Err(_) => {
                return Err(CodeError::CodeRejected);
            },
        }

        // Init code is not stored, so its hash is of no interest.
        let code_hash: [u8; 32] = [0u8;32];
        assert(code_hash@ =~= Seq::new(32, |i: int| 0u8));
        Ok(ContractBlob { code, code_info, code_hash })
    }

    /// Creates a contract from EVM runtime code, for which `deposit` is
    /// held.
    ///
    /// Runtime code of more than 24576 bytes is too large. Code that starts
    /// with the magic bytes of a delegation designator and is not one is
    /// rejected. All other code is admitted.
    pub fn from_evm_runtime_code(code: Vec<u8>, owner: AccountId, deposit: u128) -> (blob: Result<
        Self,
        CodeError,
    >)
        ensures
            match blob {
                Ok(blob) => {
                    &&& code@.len() <= 0x6000
                    &&& raw_bytecode_accepted(code@)
                    &&& is_runtime_code_blob(blob, code@, owner, deposit)
                },
                Err(CodeError::BlobTooLarge) => code@.len() > 0x6000,
                Err(CodeError::CodeRejected) => code@.len() <= 0x6000 && !raw_bytecode_accepted(
                    code@,
                ),
            },
    {
        if code.len() > max_code_size() {
            return Err(CodeError::BlobTooLarge);
        }
        let code_len: u32 = code.len() as u32;

        let code_info = CodeInfo {
            owner,
            deposit,
            refcount: 0,
            code_len,
            code_type: BytecodeType::Evm,
            behaviour_version: 0,
        };

        match new_raw_checked(&code) {
            Ok(_) => {},
            Err(_) => {
                return Err(CodeError::CodeRejected);
            },
        }

        let code_hash = keccak_256(&code);
        Ok(ContractBlob { code, code_info, code_hash })
    }
}

} // verus!
