use vstd::prelude::*;

use crate::contracts::{
    bytes_view, loaded_bytecode, read_sys_contract_bytecode, sys_contract_path_of, ArtifactError,
};

verus! {

/// An address of the reserved system range: the 20-byte address whose value
/// is this number.
#[derive(Clone, Copy, Debug, PartialEq, Eq, Structural)]
pub struct SystemAddress(pub u16);

/// The bootloader's address.
pub const BOOTLOADER_ADDRESS: u16 = 0x8001;

/// A contract deployed at genesis: its address and its bytecode.
#[derive(Clone, Debug, PartialEq, Eq)]
pub struct DeployedContract {
    pub address: SystemAddress,
    pub bytecode: Vec<u8>,
}

/// The system contracts that carry code, in deployment order: the artifact's
/// subdirectory, the contract's name, and its address.
pub open spec fn system_contract_table() -> Seq<(Seq<char>, Seq<char>, u16)> {
    seq![
        (""@, "AccountCodeStorage"@, 0x8002u16),
        (""@, "NonceHolder"@, 0x8003u16),
        (""@, "KnownCodesStorage"@, 0x8004u16),
        (""@, "ImmutableSimulator"@, 0x8005u16),
        (""@, "ContractDeployer"@, 0x8006u16),
        (""@, "L1Messenger"@, 0x8008u16),
        (""@, "MsgValueSimulator"@, 0x8009u16),
        (""@, "L2EthToken"@, 0x800au16),
        ("precompiles/"@, "Keccak256"@, 0x8010u16),
        ("precompiles/"@, "SHA256"@, 0x0002u16),
        ("precompiles/"@, "Ecrecover"@, 0x0001u16),
        (""@, "SystemContext"@, 0x800bu16),
        (""@, "EventWriter"@, 0x800du16),
        (""@, "BootloaderUtilities"@, 0x800cu16),
    ]
}

/// The artifact that genesis reads at step `i`: the system contracts of the
/// table, then the empty contract.
pub open spec fn genesis_artifact_path(i: int) -> Seq<char> {
    if i < system_contract_table().len() {
        sys_contract_path_of(system_contract_table()[i].0, system_contract_table()[i].1)
    } else {
        sys_contract_path_of(""@, "EmptyContract"@)
    }
}

/// `read_file` may give, for the artifact at `path`, the result `b`.
pub open spec fn loads_to<F: Fn(String) -> Option<String>>(
    read_file: F,
    path: Seq<char>,
    b: Result<Seq<u8>, ArtifactError>,
) -> bool {
    exists|p: String, t: Option<String>|
        p@ == path && read_file.ensures((p,), t) && loaded_bytecode(t) == b
}

fn system_contract_sources() -> (r: Vec<(&'static str, &'static str, u16)>)
    ensures
        r@.len() == system_contract_table().len(),
        forall|i: int|
            0 <= i < r@.len() ==> (#[trigger] r@[i]).0@ == system_contract_table()[i].0 && r@[i].1@
                == system_contract_table()[i].1 && r@[i].2 == system_contract_table()[i].2,
{
    let r = vec![
        ("", "AccountCodeStorage", 0x8002u16),
        ("", "NonceHolder", 0x8003u16),
        ("", "KnownCodesStorage", 0x8004u16),
        ("", "ImmutableSimulator", 0x8005u16),
        ("", "ContractDeployer", 0x8006u16),
        ("", "L1Messenger", 0x8008u16),
        ("", "MsgValueSimulator", 0x8009u16),
        ("", "L2EthToken", 0x800au16),
        ("precompiles/", "Keccak256", 0x8010u16),
        ("precompiles/", "SHA256", 0x0002u16),
        ("precompiles/", "Ecrecover", 0x0001u16),
        ("", "SystemContext", 0x800bu16),
        ("", "EventWriter", 0x800du16),
        ("", "BootloaderUtilities", 0x800cu16),
    ];
    r
}

/// The contracts deployed at genesis: each system contract of the table at its
/// address, then the empty contract at the zero address and at the
/// bootloader's address. Fails with the first artifact that cannot be loaded.
pub fn get_system_smart_contracts<F: Fn(String) -> Option<String>>(read_file: &F) -> (r: Result<
    Vec<DeployedContract>,
    ArtifactError,
>)
    requires
        forall|p: String| read_file.requires((p,)),
    ensures
        match r {
            Ok(v) => {
                &&& v@.len() == system_contract_table().len() + 2
                &&& forall|i: int|
                    0 <= i < system_contract_table().len() ==> (#[trigger] v@[i]).address.0
                        == system_contract_table()[i].2 && loads_to(
                        *read_file,
                        sys_contract_path_of(
                            system_contract_table()[i].0,
                            system_contract_table()[i].1,
                        ),
                        Ok(v@[i].bytecode@),
                    )
                &&& v@[14].address.0 == 0
                &&& v@[15].address.0 == BOOTLOADER_ADDRESS
                &&& v@[14].bytecode@ == v@[15].bytecode@
                &&& loads_to(*read_file, sys_contract_path_of(""@, "EmptyContract"@), Ok(v@[14].bytecode@))
            },
            Err(e) => exists|i: int|
                0 <= i <= system_contract_table().len() && #[trigger] loads_to(
                    *read_file,
                    genesis_artifact_path(i),
                    Err(e),
                ),
        },
{
    let sources = system_contract_sources();
    let mut contracts: Vec<DeployedContract> = Vec::new();
    let mut i: usize = 0;
    while i < sources.len()
        invariant
            forall|p: String| read_file.requires((p,)),
            sources@.len() == system_contract_table().len(),
            forall|k: int|
                0 <= k < sources@.len() ==> (#[trigger] sources@[k]).0@ == system_contract_table()[k].0
                    && sources@[k].1@ == system_contract_table()[k].1 && sources@[k].2
                    == system_contract_table()[k].2,
            i <= sources@.len(),
            contracts@.len() == i,
            forall|k: int|
                0 <= k < i ==> (#[trigger] contracts@[k]).address.0 == system_contract_table()[k].2
                    && loads_to(
                    *read_file,
                    sys_contract_path_of(system_contract_table()[k].0, system_contract_table()[k].1),
                    Ok(contracts@[k].bytecode@),
                ),
        decreases sources@.len() - i,
    {
        let (directory, name, address) = sources[i];
        let loaded = read_sys_contract_bytecode(directory, name, read_file);
        match loaded {
            Ok(bytecode) => {
                contracts.push(DeployedContract { address: SystemAddress(address), bytecode });
            },
            Err(e) => {
                assert(loads_to(*read_file, genesis_artifact_path(i as int), Err(e)));
                return Err(e);
            },
        }
        i = i + 1;
    }
    let empty = read_sys_contract_bytecode("", "EmptyContract", read_file);
    match empty {
        Ok(bytecode) => {
            let ghost before = contracts@;
            let copy = bytecode.clone();
            assert(copy@ == bytecode@);
            contracts.push(DeployedContract { address: SystemAddress(0), bytecode: copy });
            contracts.push(DeployedContract { address: SystemAddress(BOOTLOADER_ADDRESS), bytecode });
            assert(system_contract_table().len() == 14);
            assert forall|k: int| 0 <= k < system_contract_table().len() implies (
            #[trigger] contracts@[k]).address.0 == system_contract_table()[k].2 && loads_to(
                *read_file,
                sys_contract_path_of(system_contract_table()[k].0, system_contract_table()[k].1),
                Ok(contracts@[k].bytecode@),
            ) by {
                assert(contracts@[k] == before[k]);
            }
            assert(loads_to(*read_file, sys_contract_path_of(""@, "EmptyContract"@), Ok(contracts@[14].bytecode@)));
            Ok(contracts)
        },
        Err(e) => {
            assert(loads_to(*read_file, genesis_artifact_path(14), Err(e)));
            Err(e)
        },
    }
}

} // verus!
