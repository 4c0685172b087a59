use queued_job_processor::contracts::{
    abi_from_artifact, bootloader_code_path, bytecode_from_artifact, bytecode_from_field, default_erc20_bytecode,
    get_loadnext_test_contract_bytecode, get_loadnext_test_contract_path, read_bootloader_bytecode,
    read_bootloader_code, read_bytecode, read_contract_abi, read_playground_block_bootloader_bytecode,
    read_proved_block_bootloader_bytecode, read_sys_contract_bytecode, read_zbin_bytecode,
    read_bootloader_test_code, sys_contract_artifact_path, ArtifactError,
};
use queued_job_processor::words::Word256;

#[test]
fn loadnext_paths() {
    assert_eq!(
        get_loadnext_test_contract_path("loadnext_contract", "LoadnextContract"),
        "core/tests/loadnext/test-contracts/loadnext_contract/artifacts/loadnext_contract.sol/loadnext_contract.sol:LoadnextContract.abi"
    );
    assert_eq!(
        get_loadnext_test_contract_bytecode("loadnext_contract", "Foo"),
        "core/tests/loadnext/test-contracts/loadnext_contract/artifacts/loadnext_contract.sol/loadnext_contract.sol:Foo.zbin"
    );
}

#[test]
fn system_contract_paths() {
    assert_eq!(
        sys_contract_artifact_path("precompiles/", "Keccak256"),
        "etc/system-contracts/artifacts-zk/cache-zk/solpp-generated-contracts/precompiles/Keccak256.sol/Keccak256.json"
    );
    assert_eq!(
        sys_contract_artifact_path("", "NonceHolder"),
        "etc/system-contracts/artifacts-zk/cache-zk/solpp-generated-contracts/NonceHolder.sol/NonceHolder.json"
    );
    assert_eq!(
        bootloader_code_path("fee_estimate"),
        "etc/system-contracts/bootloader/build/artifacts/fee_estimate.yul/fee_estimate.yul.zbin"
    );
}

#[test]
fn bytecode_is_decoded_from_hex() {
    let text = r#"{"abi": [], "bytecode": "0x00aBff10"}"#;
    assert_eq!(bytecode_from_artifact(text), Ok(vec![0x00, 0xab, 0xff, 0x10]));
    assert_eq!(bytecode_from_artifact(r#"{"bytecode": "0x"}"#), Ok(vec![]));
}

#[test]
fn bytecode_errors() {
    assert_eq!(bytecode_from_artifact(r#"{"bytecode": "00ab"}"#), Err(ArtifactError::NotHexPrefixed));
    assert_eq!(bytecode_from_artifact(r#"{"bytecode": "0xabc"}"#), Err(ArtifactError::InvalidHex));
    assert_eq!(bytecode_from_artifact(r#"{"bytecode": "0xzz"}"#), Err(ArtifactError::InvalidHex));
    assert_eq!(bytecode_from_artifact(r#"{"bytecode": 12}"#), Err(ArtifactError::NoBytecode));
    assert_eq!(bytecode_from_artifact(r#"{"abi": "x"}"#), Err(ArtifactError::NoBytecode));
    assert_eq!(bytecode_from_artifact("not json"), Err(ArtifactError::NoBytecode));
}

#[test]
fn abi_is_read_as_string() {
    assert_eq!(abi_from_artifact(r#"{"abi": "[1,2]"}"#), Ok("[1,2]".to_string()));
    assert_eq!(abi_from_artifact(r#"{"abi": []}"#), Err(ArtifactError::NoAbi));
    assert_eq!(abi_from_artifact("{"), Err(ArtifactError::NoAbi));
}

fn artifacts(path: String) -> Option<String> {
    match path.as_str() {
        "etc/system-contracts/artifacts-zk/cache-zk/solpp-generated-contracts/EmptyContract.sol/EmptyContract.json" => {
            Some(r#"{"bytecode": "0x0102"}"#.to_string())
        }
        "etc/ERC20/artifacts-zk/contracts/ZkSyncERC20.sol/ZkSyncERC20.json" => {
            Some(r#"{"bytecode": "0x0a0b0c", "abi": "erc20"}"#.to_string())
        }
        _ => None,
    }
}

fn zbins(path: String) -> Option<Vec<u8>> {
    match path.as_str() {
        "etc/system-contracts/bootloader/build/artifacts/proved_block.yul/proved_block.yul.zbin" => {
            Some(vec![1; 32])
        }
        "etc/system-contracts/bootloader/build/artifacts/playground_block.yul/playground_block.yul.zbin" => {
            Some(vec![2; 32])
        }
        "etc/system-contracts/bootloader/artifacts/bootloader/bootloader.yul.zbin" => Some(vec![3; 64]),
        _ => None,
    }
}

#[test]
fn reading_through_a_loader() {
    assert_eq!(read_sys_contract_bytecode("", "EmptyContract", &artifacts), Ok(vec![1, 2]));
    assert_eq!(
        read_sys_contract_bytecode("precompiles/", "SHA256", &artifacts),
        Err(ArtifactError::Unreadable)
    );
    assert_eq!(default_erc20_bytecode(&artifacts), Ok(vec![10, 11, 12]));
    assert_eq!(
        read_contract_abi(
            "etc/ERC20/artifacts-zk/contracts/ZkSyncERC20.sol/ZkSyncERC20.json".to_string(),
            &artifacts
        ),
        Ok("erc20".to_string())
    );
    assert_eq!(read_contract_abi("missing".to_string(), &artifacts), Err(ArtifactError::Unreadable));
    assert_eq!(read_bytecode("missing".to_string(), &artifacts), Err(ArtifactError::Unreadable));
}

#[test]
fn reading_bootloaders() {
    assert_eq!(read_proved_block_bootloader_bytecode(&zbins), Ok(vec![1; 32]));
    assert_eq!(read_playground_block_bootloader_bytecode(&zbins), Ok(vec![2; 32]));
    assert_eq!(read_bootloader_bytecode(&zbins), Ok(vec![3; 64]));
    assert_eq!(read_bootloader_code("fee_estimate", &zbins), Err(ArtifactError::Unreadable));
    assert_eq!(read_zbin_bytecode("x".to_string(), &zbins), Err(ArtifactError::Unreadable));
}

#[test]
fn bootloader_test_code_as_words() {
    let files = |path: String| match path.as_str() {
        "etc/system-contracts/bootloader/tests/artifacts/dummy.yul/dummy.yul.zbin" => {
            let mut b = vec![0u8; 64];
            b[31] = 7;
            b[32] = 1;
            Some(b)
        }
        "etc/system-contracts/bootloader/tests/artifacts/odd.yul/odd.yul.zbin" => Some(vec![0u8; 33]),
        _ => None,
    };
    let words = read_bootloader_test_code("dummy", &files).unwrap();
    assert_eq!(words, vec![Word256::from_limbs([7, 0, 0, 0]), Word256::from_limbs([0, 0, 0, 1 << 56])]);
    assert_eq!(read_bootloader_test_code("odd", &files), Err(ArtifactError::NotWordAligned));
    assert_eq!(read_bootloader_test_code("none", &files), Err(ArtifactError::Unreadable));
}

#[test]
fn bytecode_field_decoding() {
    assert_eq!(bytecode_from_field(Some("0x0aFf")), Ok(vec![10, 255]));
    assert_eq!(bytecode_from_field(Some("0X0a")), Err(ArtifactError::NotHexPrefixed));
    assert_eq!(bytecode_from_field(Some("0")), Err(ArtifactError::NotHexPrefixed));
    assert_eq!(bytecode_from_field(Some("0x0g")), Err(ArtifactError::InvalidHex));
    assert_eq!(bytecode_from_field(None), Err(ArtifactError::NoBytecode));
}
