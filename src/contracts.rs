use vstd::prelude::*;

use crate::words::{be_byte, bytes_to_be_words, Word256};

verus! {

/// Why an artifact could not give what was asked of it.
#[derive(Clone, Copy, Debug, PartialEq, Eq, Structural)]
pub enum ArtifactError {
    /// The file could not be read.
    Unreadable,
    /// The artifact is not JSON, or has no string field `bytecode`.
    NoBytecode,
    /// The bytecode does not start with `0x`.
    NotHexPrefixed,
    /// The bytecode after `0x` is not an even number of hex digits.
    InvalidHex,
    /// The artifact is not JSON, or has no string field `abi`.
    NoAbi,
    /// The code's length is not a multiple of 32 bytes.
    NotWordAligned,
}

/// The text of string field `key` of the JSON object `text`, if `text` parses as
/// JSON and has such a field.
pub uninterp spec fn json_string_field(text: Seq<char>, key: Seq<char>) -> Option<Seq<char>>;

/// Relies on serde_json::from_str, Value::get and Value::as_str: parses `text`
/// and looks up the string field `key`; the result depends on the two texts alone.
#[verifier::external_body]
fn json_str_field(text: &str, key: &str) -> (r: Option<String>)
    ensures
        match r {
            Some(s) => json_string_field(text@, key@) == Some(s@),
            None => json_string_field(text@, key@) is None,
        },
{
    let value: serde_json::Value = serde_json::from_str(text).ok()?;
    let field = value.get(key)?.as_str()?;
    Some(field.to_string())
}

/// The value of a hex digit, either case.
pub open spec fn hex_digit(c: char) -> Option<u8> {
    if '0' <= c && c <= '9' {
        Some((c as u32 - '0' as u32) as u8)
    } else if 'a' <= c && c <= 'f' {
        Some((c as u32 - 'a' as u32 + 10) as u8)
    } else if 'A' <= c && c <= 'F' {
        Some((c as u32 - 'A' as u32 + 10) as u8)
    } else {
        None
    }
}

/// The bytes that a string of hex digit pairs spells, high digit first; `None`
/// for an odd length or a character that is not a hex digit.
pub open spec fn hex_decoded(s: Seq<char>) -> Option<Seq<u8>>
    decreases s.len(),
{
    if s.len() == 0 {
        Some(Seq::empty())
    } else if s.len() == 1 {
        None
    } else {
        match (hex_digit(s[0]), hex_digit(s[1]), hex_decoded(s.subrange(2, s.len() as int))) {
            (Some(hi), Some(lo), Some(rest)) => Some(seq![(hi * 16 + lo) as u8] + rest),
            _ => None,
        }
    }
}

/// Relies on hex::decode, which accepts exactly the strings of hex digit pairs
/// of either case and decodes each pair high digit first.
#[verifier::external_body]
fn decode_hex(s: &str) -> (r: Option<Vec<u8>>)
    ensures
        match r {
            Some(v) => hex_decoded(s@) == Some(v@),
            None => hex_decoded(s@) is None,
        },
{
    hex::decode(s).ok()
}

/// The bytecode that a `bytecode` field gives: a `0x`-prefixed string of hex
/// digit pairs.
pub open spec fn field_bytecode(field: Option<Seq<char>>) -> Result<Seq<u8>, ArtifactError> {
    match field {
        None => Err(ArtifactError::NoBytecode),
        Some(b) => if b.len() >= 2 && b[0] == '0' && b[1] == 'x' {
            match hex_decoded(b.subrange(2, b.len() as int)) {
                Some(v) => Ok(v),
                None => Err(ArtifactError::InvalidHex),
            }
        } else {
            Err(ArtifactError::NotHexPrefixed)
        },
    }
}

/// The bytecode that an artifact's text holds in its field `bytecode`.
pub open spec fn artifact_bytecode(text: Seq<char>) -> Result<Seq<u8>, ArtifactError> {
    field_bytecode(json_string_field(text, "bytecode"@))
}

/// The ABI that an artifact's text holds in its string field `abi`.
pub open spec fn artifact_abi(text: Seq<char>) -> Result<Seq<char>, ArtifactError> {
    match json_string_field(text, "abi"@) {
        None => Err(ArtifactError::NoAbi),
        Some(a) => Ok(a),
    }
}

/// The view of a bytes result.
pub open spec fn bytes_view(r: Result<Vec<u8>, ArtifactError>) -> Result<Seq<u8>, ArtifactError> {
    match r {
        Ok(v) => Ok(v@),
        Err(e) => Err(e),
    }
}

/// The view of a text result.
pub open spec fn text_view(r: Result<String, ArtifactError>) -> Result<Seq<char>, ArtifactError> {
    match r {
        Ok(s) => Ok(s@),
        Err(e) => Err(e),
    }
}

/// What a read artifact gives: its bytecode, or why it gives none.
pub open spec fn loaded_bytecode(t: Option<String>) -> Result<Seq<u8>, ArtifactError> {
    match t {
        None => Err(ArtifactError::Unreadable),
        Some(text) => artifact_bytecode(text@),
    }
}

/// Decodes the `bytecode` field of an artifact, if it has one.
pub fn bytecode_from_field(field: Option<&str>) -> (r: Result<Vec<u8>, ArtifactError>)
    ensures
        bytes_view(r) == field_bytecode(
            match field {
                Some(b) => Some(b@),
                None => None,
            },
        ),
{
    match field {
        None => Err(ArtifactError::NoBytecode),
        Some(s) => {
            let n = s.unicode_len();
            if n >= 2 && s.get_char(0) == '0' && s.get_char(1) == 'x' {
                let digits = s.substring_char(2, n);
                match decode_hex(digits) {
                    Some(v) => Ok(v),
                    None => Err(ArtifactError::InvalidHex),
                }
            } else {
                Err(ArtifactError::NotHexPrefixed)
            }
        },
    }
}

/// Extracts the bytecode from the text of a compiled contract artifact.
pub fn bytecode_from_artifact(text: &str) -> (r: Result<Vec<u8>, ArtifactError>)
    ensures
        bytes_view(r) == artifact_bytecode(text@),
{
    match json_str_field(text, "bytecode") {
        None => bytecode_from_field(None),
        Some(b) => bytecode_from_field(Some(b.as_str())),
    }
}

/// Extracts the ABI string from the text of a compiled contract artifact.
pub fn abi_from_artifact(text: &str) -> (r: Result<String, ArtifactError>)
    ensures
        text_view(r) == artifact_abi(text@),
{
    match json_str_field(text, "abi") {
        None => Err(ArtifactError::NoAbi),
        Some(a) => Ok(a),
    }
}

// Artifact locations, relative to the repository root.

/// The L1 diamond proxy's interface.
pub const ZKSYNC_CONTRACT_FILE: &'static str = "contracts/ethereum/artifacts/cache/solpp-generated-contracts/zksync/interfaces/IZkSync.sol/IZkSync.json";

/// The L1 proof verifier.
pub const VERIFIER_CONTRACT_FILE: &'static str = "contracts/ethereum/artifacts/cache/solpp-generated-contracts/zksync/Verifier.sol/Verifier.json";

/// The ERC-20 interface.
pub const IERC20_CONTRACT_FILE: &'static str = "contracts/ethereum/artifacts/cache/solpp-generated-contracts/common/interfaces/IERC20.sol/IERC20.json";

/// A test contract that rejects every transfer.
pub const FAIL_ON_RECEIVE_CONTRACT_FILE: &'static str = "contracts/ethereum/artifacts/cache/solpp-generated-contracts/zksync/dev-contracts/FailOnReceive.sol/FailOnReceive.json";

/// The L2 side of the token bridge.
pub const L2_BRIDGE_CONTRACT_FILE: &'static str = "contracts/zksync/artifacts-zk/cache-zk/solpp-generated-contracts/bridge/interfaces/IL2Bridge.sol/IL2Bridge.json";

/// The load test contract.
pub const LOADNEXT_CONTRACT_FILE: &'static str = "etc/contracts-test-data/artifacts-zk/contracts/loadnext/loadnext_contract.sol/LoadnextContract.json";

/// The load test contract's factory dependency.
pub const LOADNEXT_SIMPLE_CONTRACT_FILE: &'static str = "etc/contracts-test-data/artifacts-zk/contracts/loadnext/loadnext_contract.sol/Foo.json";

/// The directory of system contract artifacts.
pub const SYS_CONTRACTS_DIR: &'static str = "etc/system-contracts/artifacts-zk/cache-zk/solpp-generated-contracts/";

/// The directory of compiled bootloaders.
pub const BOOTLOADER_BUILD_DIR: &'static str = "etc/system-contracts/bootloader/build/artifacts/";

/// The main compiled bootloader.
pub const BOOTLOADER_FILE: &'static str = "etc/system-contracts/bootloader/artifacts/bootloader/bootloader.yul.zbin";

/// The ERC-20 token deployed by default.
pub const ERC20_ARTIFACT: &'static str = "etc/ERC20/artifacts-zk/contracts/ZkSyncERC20.sol/ZkSyncERC20.json";

/// The directory of loadnext test contract files.
pub const LOADNEXT_TEST_DIR: &'static str =
    "core/tests/loadnext/test-contracts/loadnext_contract/artifacts/loadnext_contract.sol/";

/// Where the artifact of system contract `name`, in the subdirectory
/// `directory` (empty, or ending in `/`), lies under the repository root.
pub open spec fn sys_contract_path_of(directory: Seq<char>, name: Seq<char>) -> Seq<char> {
    SYS_CONTRACTS_DIR@ + directory + name + ".sol/"@ + name + ".json"@
}

/// Where the compiled bootloader of the given kind lies.
pub open spec fn bootloader_code_path_of(kind: Seq<char>) -> Seq<char> {
    BOOTLOADER_BUILD_DIR@ + kind + ".yul/"@ + kind + ".yul.zbin"@
}

/// What a read `.zbin` file gives: its bytes, or `Unreadable`.
pub open spec fn loaded_zbin(t: Option<Vec<u8>>) -> Result<Seq<u8>, ArtifactError> {
    match t {
        None => Err(ArtifactError::Unreadable),
        Some(b) => Ok(b@),
    }
}

/// What a read artifact gives for its ABI.
pub open spec fn loaded_abi(t: Option<String>) -> Result<Seq<char>, ArtifactError> {
    match t {
        None => Err(ArtifactError::Unreadable),
        Some(text) => artifact_abi(text@),
    }
}

/// Path of the ABI file of a loadnext test contract.
pub fn get_loadnext_test_contract_path(file_name: &str, contract_name: &str) -> (r: String)
    ensures
        r@ == LOADNEXT_TEST_DIR@ + file_name@ + ".sol:"@ + contract_name@ + ".abi"@,
{
    let mut s = String::from_str(LOADNEXT_TEST_DIR);
    s.append(file_name);
    s.append(".sol:");
    s.append(contract_name);
    s.append(".abi");
    s
}

/// Path of the bytecode file of a loadnext test contract.
pub fn get_loadnext_test_contract_bytecode(file_name: &str, contract_name: &str) -> (r: String)
    ensures
        r@ == LOADNEXT_TEST_DIR@ + file_name@ + ".sol:"@ + contract_name@ + ".zbin"@,
{
    let mut s = String::from_str(LOADNEXT_TEST_DIR);
    s.append(file_name);
    s.append(".sol:");
    s.append(contract_name);
    s.append(".zbin");
    s
}

/// Path of the artifact of a system contract.
pub fn sys_contract_artifact_path(directory: &str, name: &str) -> (r: String)
    ensures
        r@ == sys_contract_path_of(directory@, name@),
{
    let mut s = String::from_str(SYS_CONTRACTS_DIR);
    s.append(directory);
    s.append(name);
    s.append(".sol/");
    s.append(name);
    s.append(".json");
    s
}

/// Path of a compiled bootloader of the given kind.
pub fn bootloader_code_path(bootloader_type: &str) -> (r: String)
    ensures
        r@ == bootloader_code_path_of(bootloader_type@),
{
    let mut s = String::from_str(BOOTLOADER_BUILD_DIR);
    s.append(bootloader_type);
    s.append(".yul/");
    s.append(bootloader_type);
    s.append(".yul.zbin");
    s
}

/// Reads the artifact at `path` with `read_file` and extracts its bytecode.
pub fn read_bytecode<F: Fn(String) -> Option<String>>(path: String, read_file: &F) -> (r: Result<
    Vec<u8>,
    ArtifactError,
>)
    requires
        forall|p: String| read_file.requires((p,)),
    ensures
        exists|t: Option<String>| read_file.ensures((path,), t) && bytes_view(r) == loaded_bytecode(t),
{
    let ghost p = path;
    let t = read_file(path);
    let r = match &t {
        None => Err(ArtifactError::Unreadable),
        Some(text) => bytecode_from_artifact(text.as_str()),
    };
    assert(read_file.ensures((p,), t) && bytes_view(r) == loaded_bytecode(t));
    r
}

/// Reads the `.zbin` file at `path` with `read_file`.
pub fn read_zbin_bytecode<F: Fn(String) -> Option<Vec<u8>>>(path: String, read_file: &F) -> (r:
    Result<Vec<u8>, ArtifactError>)
    requires
        forall|p: String| read_file.requires((p,)),
    ensures
        exists|t: Option<Vec<u8>>| read_file.ensures((path,), t) && bytes_view(r) == loaded_zbin(t),
{
    let ghost p = path;
    let t = read_file(path);
    let ghost loaded = t;
    let r = match t {
        None => Err(ArtifactError::Unreadable),
        Some(b) => Ok(b),
    };
    assert(read_file.ensures((p,), loaded) && bytes_view(r) == loaded_zbin(loaded));
    r
}

/// Reads the artifact at `path` with `read_file` and extracts its ABI string.
pub fn read_contract_abi<F: Fn(String) -> Option<String>>(path: String, read_file: &F) -> (r:
    Result<String, ArtifactError>)
    requires
        forall|p: String| read_file.requires((p,)),
    ensures
        exists|t: Option<String>| read_file.ensures((path,), t) && text_view(r) == loaded_abi(t),
{
    let ghost p = path;
    let t = read_file(path);
    let r = match &t {
        None => Err(ArtifactError::Unreadable),
        Some(text) => abi_from_artifact(text.as_str()),
    };
    assert(read_file.ensures((p,), t) && text_view(r) == loaded_abi(t));
    r
}

/// Reads the bytecode of a system contract.
pub fn read_sys_contract_bytecode<F: Fn(String) -> Option<String>>(
    directory: &str,
    name: &str,
    read_file: &F,
) -> (r: Result<Vec<u8>, ArtifactError>)
    requires
        forall|p: String| read_file.requires((p,)),
    ensures
        exists|p: String, t: Option<String>|
            p@ == sys_contract_path_of(directory@, name@) && read_file.ensures((p,), t) && bytes_view(r)
                == loaded_bytecode(t),
{
    let path = sys_contract_artifact_path(directory, name);
    let ghost p = path;
    read_bytecode(path, read_file)
}

/// Reads the bytecode of the ERC-20 token contract deployed by default.
pub fn default_erc20_bytecode<F: Fn(String) -> Option<String>>(read_file: &F) -> (r: Result<
    Vec<u8>,
    ArtifactError,
>)
    requires
        forall|p: String| read_file.requires((p,)),
    ensures
        exists|p: String, t: Option<String>|
            p@ == ERC20_ARTIFACT@ && read_file.ensures((p,), t) && bytes_view(r) == loaded_bytecode(t),
{
    let path = String::from_str(ERC20_ARTIFACT);
    let ghost p = path;
    read_bytecode(path, read_file)
}

/// Reads a compiled bootloader of the given kind.
pub fn read_bootloader_code<F: Fn(String) -> Option<Vec<u8>>>(
    bootloader_type: &str,
    read_file: &F,
) -> (r: Result<Vec<u8>, ArtifactError>)
    requires
        forall|p: String| read_file.requires((p,)),
    ensures
        exists|p: String, t: Option<Vec<u8>>|
            p@ == bootloader_code_path_of(bootloader_type@) && read_file.ensures((p,), t) && bytes_view(
                r,
            ) == loaded_zbin(t),
{
    let path = bootloader_code_path(bootloader_type);
    let ghost p = path;
    read_zbin_bytecode(path, read_file)
}

/// Reads the bootloader that proves blocks.
pub fn read_proved_block_bootloader_bytecode<F: Fn(String) -> Option<Vec<u8>>>(read_file: &F) -> (r:
    Result<Vec<u8>, ArtifactError>)
    requires
        forall|p: String| read_file.requires((p,)),
    ensures
        exists|p: String, t: Option<Vec<u8>>|
            p@ == bootloader_code_path_of("proved_block"@) && read_file.ensures((p,), t) && bytes_view(
                r,
            ) == loaded_zbin(t),
{
    read_bootloader_code("proved_block", read_file)
}

/// Reads the bootloader that runs playground blocks.
pub fn read_playground_block_bootloader_bytecode<F: Fn(String) -> Option<Vec<u8>>>(
    read_file: &F,
) -> (r: Result<Vec<u8>, ArtifactError>)
    requires
        forall|p: String| read_file.requires((p,)),
    ensures
        exists|p: String, t: Option<Vec<u8>>|
            p@ == bootloader_code_path_of("playground_block"@) && read_file.ensures((p,), t)
                && bytes_view(r) == loaded_zbin(t),
{
    read_bootloader_code("playground_block", read_file)
}

/// Reads the main bootloader.
pub fn read_bootloader_bytecode<F: Fn(String) -> Option<Vec<u8>>>(read_file: &F) -> (r: Result<
    Vec<u8>,
    ArtifactError,
>)
    requires
        forall|p: String| read_file.requires((p,)),
    ensures
        exists|p: String, t: Option<Vec<u8>>|
            p@ == BOOTLOADER_FILE@ && read_file.ensures((p,), t) && bytes_view(r) == loaded_zbin(t),
{
    let path = String::from_str(BOOTLOADER_FILE);
    let ghost p = path;
    read_zbin_bytecode(path, read_file)
}

/// The directory of compiled bootloader tests.
pub const BOOTLOADER_TESTS_DIR: &'static str = "etc/system-contracts/bootloader/tests/artifacts/";

/// Where the compiled bootloader test of the given name lies.
pub open spec fn bootloader_test_path_of(test: Seq<char>) -> Seq<char> {
    BOOTLOADER_TESTS_DIR@ + test + ".yul/"@ + test + ".yul.zbin"@
}

/// `r` is what a read `.zbin` file gives as code: its bytes cut into 32-byte
/// words, most significant byte first.
pub open spec fn loaded_words(t: Option<Vec<u8>>, r: Result<Vec<Word256>, ArtifactError>) -> bool {
    match t {
        None => r == Err::<Vec<Word256>, ArtifactError>(ArtifactError::Unreadable),
        Some(b) => if b@.len() % 32 != 0 {
            r == Err::<Vec<Word256>, ArtifactError>(ArtifactError::NotWordAligned)
        } else {
            match r {
                Ok(words) => words@.len() == b@.len() / 32 && forall|k: int, j: int|
                    0 <= k < words@.len() && 0 <= j < 32 ==> #[trigger] be_byte(words@[k], j)
                        == b@[32 * k + j],
                Err(_) => false,
            }
        },
    }
}

/// Reads the code of a bootloader test as 32-byte words.
pub fn read_bootloader_test_code<F: Fn(String) -> Option<Vec<u8>>>(test: &str, read_file: &F) -> (r:
    Result<Vec<Word256>, ArtifactError>)
    requires
        forall|p: String| read_file.requires((p,)),
    ensures
        exists|p: String, t: Option<Vec<u8>>|
            p@ == bootloader_test_path_of(test@) && read_file.ensures((p,), t) && loaded_words(t, r),
{
    let mut path = String::from_str(BOOTLOADER_TESTS_DIR);
    path.append(test);
    path.append(".yul/");
    path.append(test);
    path.append(".yul.zbin");
    let ghost p = path;
    let t = read_file(path);
    let ghost loaded = t;
    let r = match t {
        None => Err(ArtifactError::Unreadable),
        Some(b) => if b.len() % 32 != 0 {
            Err(ArtifactError::NotWordAligned)
        } else {
            Ok(bytes_to_be_words(&b))
        },
    };
    assert(read_file.ensures((p,), loaded) && loaded_words(loaded, r));
    r
}

} // verus!
