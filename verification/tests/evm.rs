use parachain_blocks::evm::{BytecodeType, CodeError, ContractBlob};

fn designator(version: u8, len: usize) -> Vec<u8> {
    let mut code = vec![0xEF, 0x01, version];
    code.resize(len, 0x11);
    code
}

#[test]
fn init_code_is_admitted_without_hash_and_deposit() {
    let code = vec![0x60, 0x01, 0x60, 0x02, 0x01, 0x00];
    let blob = ContractBlob::from_evm_init_code(code.clone(), 7u64).unwrap();
    assert_eq!(blob.code, code);
    assert_eq!(blob.code_info.owner, 7);
    assert_eq!(blob.code_info.deposit, 0);
    assert_eq!(blob.code_info.refcount, 0);
    assert_eq!(blob.code_info.code_len, 6);
    assert_eq!(blob.code_info.code_type, BytecodeType::Evm);
    assert_eq!(blob.code_info.behaviour_version, 0);
    assert_eq!(blob.code_hash, [0u8; 32]);

    let empty = ContractBlob::from_evm_init_code(Vec::new(), 7u64).unwrap();
    assert_eq!(empty.code_info.code_len, 0);
}

#[test]
fn init_code_is_held_to_its_size_limit() {
    let largest = vec![0u8; 49152];
    assert_eq!(ContractBlob::from_evm_init_code(largest, ()).unwrap().code_info.code_len, 49152);
    let too_large = vec![0u8; 49153];
    assert_eq!(ContractBlob::from_evm_init_code(too_large, ()).err(), Some(CodeError::BlobTooLarge));
    // The size is looked at first.
    let mut reserved = vec![0u8; 49153];
    reserved[0] = 0xEF;
    assert_eq!(ContractBlob::from_evm_init_code(reserved, ()).err(), Some(CodeError::BlobTooLarge));
}

#[test]
fn init_code_with_the_reserved_prefix_is_rejected() {
    assert_eq!(
        ContractBlob::from_evm_init_code(vec![0xEF], ()).err(),
        Some(CodeError::CodeRejected)
    );
    assert_eq!(
        ContractBlob::from_evm_init_code(vec![0xEF, 0x00, 0x01], ()).err(),
        Some(CodeError::CodeRejected)
    );
    // Even a well-formed delegation designator.
    assert_eq!(
        ContractBlob::from_evm_init_code(designator(0, 23), ()).err(),
        Some(CodeError::CodeRejected)
    );
    assert!(ContractBlob::from_evm_init_code(vec![0x00, 0xEF], ()).is_ok());
}

#[test]
fn runtime_code_is_stored_under_its_keccak_hash() {
    let empty = ContractBlob::from_evm_runtime_code(Vec::new(), 1u8, 5).unwrap();
    assert_eq!(
        empty.code_hash,
        [
            0xc5, 0xd2, 0x46, 0x01, 0x86, 0xf7, 0x23, 0x3c, 0x92, 0x7e, 0x7d, 0xb2, 0xdc, 0xc7,
            0x03, 0xc0, 0xe5, 0x00, 0xb6, 0x53, 0xca, 0x82, 0x27, 0x3b, 0x7b, 0xfa, 0xd8, 0x04,
            0x5d, 0x85, 0xa4, 0x70
        ]
    );
    assert_eq!(empty.code_info.deposit, 5);
    assert_eq!(empty.code_info.owner, 1);

    // "abc"
    let blob = ContractBlob::from_evm_runtime_code(vec![0x61, 0x62, 0x63], 1u8, 9).unwrap();
    assert_eq!(
        blob.code_hash,
        [
            0x4e, 0x03, 0x65, 0x7a, 0xea, 0x45, 0xa9, 0x4f, 0xc7, 0xd4, 0x7b, 0xa8, 0x26, 0xc8,
            0xd6, 0x67, 0xc0, 0xd1, 0xe6, 0xe3, 0x3a, 0x64, 0xa0, 0x36, 0xec, 0x44, 0xf5, 0x8f,
            0xa1, 0x2d, 0x6c, 0x45
        ]
    );
    assert_eq!(blob.code, vec![0x61, 0x62, 0x63]);
    assert_eq!(blob.code_info.code_len, 3);
    assert_eq!(blob.code_info.refcount, 0);
    assert_eq!(blob.code_info.code_type, BytecodeType::Evm);
    assert_eq!(blob.code_info.behaviour_version, 0);
    assert_ne!(blob.code_hash, empty.code_hash);
}

#[test]
fn runtime_code_is_held_to_its_size_limit() {
    assert!(ContractBlob::from_evm_runtime_code(vec![0u8; 24576], (), 0).is_ok());
    assert_eq!(
        ContractBlob::from_evm_runtime_code(vec![0u8; 24577], (), 0).err(),
        Some(CodeError::BlobTooLarge)
    );
    assert_eq!(
        ContractBlob::from_evm_runtime_code(designator(1, 24577), (), 0).err(),
        Some(CodeError::BlobTooLarge)
    );
}

#[test]
fn runtime_code_with_delegation_magic_must_be_a_designator() {
    assert!(ContractBlob::from_evm_runtime_code(designator(0, 23), (), 0).is_ok());
    assert_eq!(
        ContractBlob::from_evm_runtime_code(designator(1, 23), (), 0).err(),
        Some(CodeError::CodeRejected)
    );
    assert_eq!(
        ContractBlob::from_evm_runtime_code(designator(0, 22), (), 0).err(),
        Some(CodeError::CodeRejected)
    );
    assert_eq!(
        ContractBlob::from_evm_runtime_code(designator(0, 24), (), 0).err(),
        Some(CodeError::CodeRejected)
    );
    assert_eq!(
        ContractBlob::from_evm_runtime_code(vec![0xEF, 0x01], (), 0).err(),
        Some(CodeError::CodeRejected)
    );
    // The reserved byte alone, or with another second byte, is legacy code.
    assert!(ContractBlob::from_evm_runtime_code(vec![0xEF], (), 0).is_ok());
    assert!(ContractBlob::from_evm_runtime_code(vec![0xEF, 0x00, 0x05], (), 0).is_ok());
}
