use std::str::FromStr;

use cambrian_rust_sdk::address::{Address, AddressError, DeriveError};
use cambrian_rust_sdk::builder::{
    build_instruction, build_response, le_bytes_u32, Input, OracleConfig, AUTHORITY_PROGRAM_ID,
    INSTRUCTIONS_SYSVAR_ID, ORACLE_PROGRAM_ID, STORAGE_SPACE,
};
use cambrian_rust_sdk::instruction::{
    AccountMeta, Instruction, InstructionAccount, ProposalInstruction, Response,
};
use cambrian_rust_sdk::role::AccountRole;
use solana_program::pubkey::Pubkey;

fn input(name: &str, key: &str) -> Input {
    Input { poa_name: name.to_string(), proposal_storage_key: key.to_string() }
}

fn config() -> OracleConfig {
    OracleConfig::standard().expect("well-known addresses parse")
}

fn pubkey_of(a: &Address) -> Pubkey {
    Pubkey::new_from_array(a.bytes)
}

#[test]
fn role_codes_follow_bit_layout() {
    assert_eq!(AccountRole::from_flags(false, false), AccountRole::Readonly);
    assert_eq!(AccountRole::from_flags(true, false), AccountRole::Writable);
    assert_eq!(AccountRole::from_flags(false, true), AccountRole::ReadonlySigner);
    assert_eq!(AccountRole::from_flags(true, true), AccountRole::WritableSigner);
    assert_eq!(AccountRole::Readonly.code(), 0b00);
    assert_eq!(AccountRole::Writable.code(), 0b01);
    assert_eq!(AccountRole::ReadonlySigner.code(), 0b10);
    assert_eq!(AccountRole::WritableSigner.code(), 0b11);
}

#[test]
fn role_from_flag_pair_is_a_bijection() {
    let mut codes = Vec::new();
    for w in [false, true] {
        for s in [false, true] {
            let role: AccountRole = (w, s).into();
            assert_eq!(role, AccountRole::from_flags(w, s));
            assert_eq!(role.is_writable(), w);
            assert_eq!(role.is_signer(), s);
            assert_eq!(role.code(), (s as u8) * 2 + (w as u8));
            codes.push(role.code());
        }
    }
    codes.sort();
    assert_eq!(codes, vec![0, 1, 2, 3]);
}

#[test]
fn le_bytes_of_storage_space() {
    assert_eq!(STORAGE_SPACE, 75);
    assert_eq!(le_bytes_u32(STORAGE_SPACE), vec![75, 0, 0, 0]);
    assert_eq!(le_bytes_u32(0x0102_0304), vec![4, 3, 2, 1]);
    assert_eq!(le_bytes_u32(u32::MAX), vec![255, 255, 255, 255]);
}

#[test]
fn seeds_for_alpha_slot1() {
    let inp = input("alpha", "slot1");
    assert_eq!(
        inp.storage_seeds(),
        vec![b"STORAGE".to_vec(), b"alpha".to_vec(), b"slot1".to_vec(), vec![75, 0, 0, 0]]
    );
    assert_eq!(inp.state_seeds(), vec![b"STATE".to_vec(), b"alpha".to_vec()]);
}

#[test]
fn well_known_addresses_parse_and_print_back() {
    let c = config();
    assert_eq!(c.authority_program.to_text(), AUTHORITY_PROGRAM_ID);
    assert_eq!(c.oracle_program.to_text(), ORACLE_PROGRAM_ID);
    assert_eq!(c.instructions_sysvar.to_text(), INSTRUCTIONS_SYSVAR_ID);
    assert_eq!(
        pubkey_of(&c.instructions_sysvar),
        Pubkey::from_str("Sysvar1nstructions1111111111111111111111111").unwrap()
    );
}

#[test]
fn parse_rejects_bad_text() {
    assert_eq!(Address::parse("not-base58!").unwrap_err(), AddressError::Invalid);
    assert_eq!(Address::parse("").unwrap_err(), AddressError::Invalid);
    assert_eq!(Address::parse("abc").unwrap_err(), AddressError::Invalid);
}

#[test]
fn address_text_is_base58() {
    assert_eq!(Address::new([0u8; 32]).to_text(), "11111111111111111111111111111111");
    let mut bytes = [0u8; 32];
    bytes[31] = 1;
    assert_eq!(Address::new(bytes).to_text(), "11111111111111111111111111111112");
}

#[test]
fn derive_matches_program_address_search() {
    let c = config();
    let seeds = vec![b"STATE".to_vec(), b"alpha".to_vec()];
    let derived = Address::derive(&seeds, &c.authority_program).unwrap();
    let (expected, _) =
        Pubkey::find_program_address(&[b"STATE", b"alpha"], &pubkey_of(&c.authority_program));
    assert_eq!(pubkey_of(&derived), expected);
}

#[test]
fn derive_rejects_long_seed() {
    let c = config();
    let seeds = vec![vec![7u8; 33]];
    assert_eq!(
        Address::derive(&seeds, &c.authority_program).unwrap_err(),
        DeriveError::SeedLimitExceeded
    );
    let seeds = vec![vec![7u8; 32]];
    assert!(Address::derive(&seeds, &c.authority_program).is_ok());
}

#[test]
fn derive_rejects_too_many_seeds() {
    let c = config();
    let seeds = vec![vec![1u8]; 16];
    assert_eq!(
        Address::derive(&seeds, &c.authority_program).unwrap_err(),
        DeriveError::SeedLimitExceeded
    );
    let seeds = vec![vec![1u8]; 15];
    assert!(Address::derive(&seeds, &c.authority_program).is_ok());
}

#[test]
fn build_alpha_slot1() {
    let c = config();
    let ix = build_instruction(&input("alpha", "slot1"), &c).unwrap();
    let owner = pubkey_of(&c.authority_program);
    let (storage, _) = Pubkey::find_program_address(
        &[b"STORAGE", b"alpha", b"slot1", &75u32.to_le_bytes()],
        &owner,
    );
    let (state, _) = Pubkey::find_program_address(&[b"STATE", b"alpha"], &owner);
    assert_eq!(pubkey_of(&ix.program_id), pubkey_of(&c.oracle_program));
    assert_eq!(ix.accounts.len(), 4);
    let expected = [
        (storage, false, true),
        (state, false, false),
        (pubkey_of(&c.instructions_sysvar), false, false),
        (pubkey_of(&c.oracle_program), false, false),
    ];
    for (acc, (key, signer, writable)) in ix.accounts.iter().zip(expected.iter()) {
        assert_eq!(pubkey_of(&acc.pubkey), *key);
        assert_eq!(acc.is_signer, *signer);
        assert_eq!(acc.is_writable, *writable);
    }
    assert_eq!(ix.data, vec![97, 108, 112, 104, 97]);
}

#[test]
fn build_is_deterministic() {
    let c = config();
    let a = build_instruction(&input("alpha", "slot1"), &c).unwrap();
    let b = build_instruction(&input("alpha", "slot1"), &c).unwrap();
    assert_eq!(a.data, b.data);
    assert_eq!(a.accounts.len(), b.accounts.len());
    for (x, y) in a.accounts.iter().zip(b.accounts.iter()) {
        assert_eq!(x.pubkey.bytes, y.pubkey.bytes);
        assert_eq!(x.is_signer, y.is_signer);
        assert_eq!(x.is_writable, y.is_writable);
    }
    let ra = build_response(&input("alpha", "slot1"), &c).unwrap().to_output_ix();
    let rb = build_response(&input("alpha", "slot1"), &c).unwrap().to_output_ix();
    assert_eq!(ra, rb);
}

#[test]
fn build_keeps_payload_bytes() {
    let c = config();
    let ix = build_instruction(&input("zé", "k"), &c).unwrap();
    assert_eq!(ix.data, "zé".as_bytes().to_vec());
    let ix = build_instruction(&input("", "k"), &c).unwrap();
    assert!(ix.data.is_empty());
}

#[test]
fn build_rejects_oversized_storage_key() {
    let c = config();
    let key = "k".repeat(33);
    assert_eq!(
        build_instruction(&input("alpha", &key), &c).unwrap_err(),
        DeriveError::SeedLimitExceeded
    );
    assert_eq!(
        build_response(&input("alpha", &key), &c).unwrap_err(),
        DeriveError::SeedLimitExceeded
    );
}

#[test]
fn build_response_describes_instruction() {
    let c = config();
    let resp = build_response(&input("alpha", "slot1"), &c).unwrap();
    assert_eq!(resp.proposal_instructions.len(), 1);
    let p = &resp.proposal_instructions[0];
    assert_eq!(p.program_address, ORACLE_PROGRAM_ID);
    let roles: Vec<u8> = p.accounts.iter().map(|a| a.role.code()).collect();
    assert_eq!(roles, vec![1, 0, 0, 0]);
    assert_eq!(p.accounts[2].address, INSTRUCTIONS_SYSVAR_ID);
    assert_eq!(p.accounts[3].address, ORACLE_PROGRAM_ID);
    assert_eq!(p.data, vec![97, 108, 112, 104, 97]);
}

fn sample_instruction() -> Instruction {
    let mut key = [0u8; 32];
    key[31] = 1;
    Instruction {
        program_id: Address::new([0u8; 32]),
        accounts: vec![
            InstructionAccount { pubkey: Address::new(key), is_signer: true, is_writable: false },
            InstructionAccount { pubkey: Address::new([0u8; 32]), is_signer: true, is_writable: true },
        ],
        data: vec![0, 9, 10, 255],
    }
}

#[test]
fn proposal_instruction_from_instruction() {
    let p = ProposalInstruction::from_instruction(&sample_instruction());
    assert_eq!(p.program_address, "11111111111111111111111111111111");
    assert_eq!(p.accounts.len(), 2);
    assert_eq!(p.accounts[0].address, "11111111111111111111111111111112");
    assert_eq!(p.accounts[0].role, AccountRole::ReadonlySigner);
    assert_eq!(p.accounts[1].role, AccountRole::WritableSigner);
    assert_eq!(p.data, vec![0, 9, 10, 255]);
}

#[test]
fn response_from_instructions_keeps_order() {
    let mut second = sample_instruction();
    second.data = vec![1];
    let r = Response::from_instructions(&[sample_instruction(), second]);
    assert_eq!(r.proposal_instructions.len(), 2);
    assert_eq!(r.proposal_instructions[0].data, vec![0, 9, 10, 255]);
    assert_eq!(r.proposal_instructions[1].data, vec![1]);
    let single = Response::from_instruction(&sample_instruction());
    assert_eq!(single.proposal_instructions.len(), 1);
    assert_eq!(Response::from_instructions(&[]).proposal_instructions.len(), 0);
}

#[test]
fn output_text_exact() {
    let r = Response::from_instruction(&sample_instruction());
    let expected = "{\n  \"proposalInstructions\": [\n    {\n      \"programAddress\": \"11111111111111111111111111111111\",\n      \"accounts\": [\n        {\n          \"address\": \"11111111111111111111111111111112\",\n          \"role\": 2\n        },\n        {\n          \"address\": \"11111111111111111111111111111111\",\n          \"role\": 3\n        }\n      ],\n      \"data\": [\n        0,\n        9,\n        10,\n        255\n      ]\n    }\n  ]\n}";
    assert_eq!(r.to_output_ix(), expected);
}

#[test]
fn output_text_empty_collections() {
    let r = Response::from_instructions(&[]);
    assert_eq!(r.to_output_ix(), "{\n  \"proposalInstructions\": []\n}");
    let r = Response {
        proposal_instructions: vec![ProposalInstruction {
            program_address: "p".to_string(),
            accounts: vec![],
            data: vec![],
        }],
    };
    assert_eq!(
        r.to_output_ix(),
        "{\n  \"proposalInstructions\": [\n    {\n      \"programAddress\": \"p\",\n      \"accounts\": [],\n      \"data\": []\n    }\n  ]\n}"
    );
}

#[test]
fn output_text_escapes_strings() {
    let r = Response {
        proposal_instructions: vec![ProposalInstruction {
            program_address: "a\"b\\c\nd\te\u{1}é".to_string(),
            accounts: vec![AccountMeta { address: "\r\u{8}\u{c}\u{1f}".to_string(), role: AccountRole::Writable }],
            data: vec![100],
        }],
    };
    let text = r.to_output_ix();
    assert!(text.contains("\"programAddress\": \"a\\\"b\\\\c\\nd\\te\\u0001é\""));
    assert!(text.contains("\"address\": \"\\r\\b\\f\\u001f\""));
    let parsed: serde_json::Value = serde_json::from_str(&text).unwrap();
    let p = &parsed["proposalInstructions"][0];
    assert_eq!(p["programAddress"].as_str(), Some("a\"b\\c\nd\te\u{1}é"));
    assert_eq!(p["accounts"][0]["address"].as_str(), Some("\r\u{8}\u{c}\u{1f}"));
}

#[test]
fn output_round_trips_through_json_parser() {
    let c = config();
    let resp = build_response(&input("alpha", "slot1"), &c).unwrap();
    let text = resp.to_output_ix();
    let parsed: serde_json::Value = serde_json::from_str(&text).unwrap();
    let list = parsed["proposalInstructions"].as_array().unwrap();
    assert_eq!(list.len(), resp.proposal_instructions.len());
    for (v, p) in list.iter().zip(resp.proposal_instructions.iter()) {
        assert_eq!(v.as_object().unwrap().len(), 3);
        assert_eq!(v["programAddress"].as_str(), Some(p.program_address.as_str()));
        let accounts = v["accounts"].as_array().unwrap();
        assert_eq!(accounts.len(), p.accounts.len());
        for (a, m) in accounts.iter().zip(p.accounts.iter()) {
            assert_eq!(a["address"].as_str(), Some(m.address.as_str()));
            assert_eq!(a["role"].as_u64(), Some(m.role.code() as u64));
        }
        let data: Vec<u8> =
            v["data"].as_array().unwrap().iter().map(|b| b.as_u64().unwrap() as u8).collect();
        assert_eq!(data, p.data);
        assert_eq!(data, vec![97, 108, 112, 104, 97]);
    }
}
