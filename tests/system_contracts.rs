use queued_job_processor::contracts::ArtifactError;
use queued_job_processor::system_contracts::{get_system_smart_contracts, SystemAddress};

const DIR: &str = "etc/system-contracts/artifacts-zk/cache-zk/solpp-generated-contracts/";

/// Every artifact holds one byte: the length of its file name.
fn all_artifacts(path: String) -> Option<String> {
    let rest = path.strip_prefix(DIR)?;
    let file = rest.rsplit('/').next()?;
    Some(format!("{{\"bytecode\": \"0x{:02x}\"}}", file.len()))
}

#[test]
fn genesis_contracts_in_order() {
    let contracts = get_system_smart_contracts(&all_artifacts).unwrap();
    assert_eq!(contracts.len(), 16);
    assert_eq!(contracts[0].address, SystemAddress(0x8002));
    assert_eq!(contracts[0].bytecode, vec!["AccountCodeStorage.json".len() as u8]);
    assert_eq!(contracts[9].address, SystemAddress(0x0002));
    assert_eq!(contracts[9].bytecode, vec!["SHA256.json".len() as u8]);
    assert_eq!(contracts[13].address, SystemAddress(0x800c));
    assert_eq!(contracts[14].address, SystemAddress(0));
    assert_eq!(contracts[15].address, SystemAddress(0x8001));
    assert_eq!(contracts[14].bytecode, vec!["EmptyContract.json".len() as u8]);
    assert_eq!(contracts[14].bytecode, contracts[15].bytecode);
}

#[test]
fn genesis_fails_on_a_missing_artifact() {
    let without_empty = |path: String| {
        if path.ends_with("EmptyContract.json") {
            None
        } else {
            all_artifacts(path)
        }
    };
    assert_eq!(get_system_smart_contracts(&without_empty), Err(ArtifactError::Unreadable));
    let bad_hex = |path: String| {
        if path.ends_with("Keccak256.json") {
            Some("{\"bytecode\": \"0x1\"}".to_string())
        } else {
            all_artifacts(path)
        }
    };
    assert_eq!(get_system_smart_contracts(&bad_hex), Err(ArtifactError::InvalidHex));
}
