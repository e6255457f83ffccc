use onchain_account::{
    find_program_address, process_create_onchain_account, process_initialize_mint,
    process_instruction, AccountRef, Action, Address, KnownPrograms, OnchainAccountError,
    OnchainAccountInstruction, OnchainAccountState,
};
use solana_program::pubkey::Pubkey;

fn addr(k: &Pubkey) -> Address {
    Address::new(k.to_bytes())
}

fn signer(k: &Pubkey) -> AccountRef {
    AccountRef { key: addr(k), is_signer: true }
}

fn plain(k: &Pubkey) -> AccountRef {
    AccountRef { key: addr(k), is_signer: false }
}

fn record_pda(creator: &Pubkey, id: u8, program: &Pubkey) -> (Pubkey, u8) {
    Pubkey::find_program_address(&[creator.as_ref(), &[id]], program)
}

fn create_payload(id: u8, name: &str) -> Vec<u8> {
    let mut data = vec![1u8, id];
    data.extend_from_slice(&(name.len() as u32).to_le_bytes());
    data.extend_from_slice(name.as_bytes());
    data
}

fn known() -> KnownPrograms {
    KnownPrograms {
        system_program: Address::new([0u8; 32]),
        token_program: Address::new([6u8; 32]),
        rent_sysvar: Address::new([7u8; 32]),
    }
}

fn mint_accounts(program: &Pubkey) -> Vec<AccountRef> {
    let (mint, _) = Pubkey::find_program_address(&[b"token_mint"], program);
    let (auth, _) = Pubkey::find_program_address(&[b"token_auth"], program);
    let k = known();
    vec![
        signer(&Pubkey::new_unique()),
        plain(&mint),
        plain(&auth),
        AccountRef { key: k.system_program, is_signer: false },
        AccountRef { key: k.token_program, is_signer: false },
        AccountRef { key: k.rent_sysvar, is_signer: false },
    ]
}

#[test]
fn test_create_onchain_account_instruction() {
    let program_id = Pubkey::new_unique();
    let payer = Pubkey::new_unique();
    let id: u8 = 3;
    let name: String = "Test".to_owned();
    let (onchain_account_pda, _bump_seed) = record_pda(&payer, id, &program_id);

    let mut data_vec = vec![0];
    data_vec.append(&mut (id.to_string().len() as u32).to_le_bytes().to_vec());
    data_vec.append(&mut id.to_string().into_bytes());
    data_vec.push(id);
    data_vec.append(&mut (name.len() as u32).to_le_bytes().to_vec());
    data_vec.append(&mut name.into_bytes());

    let accounts = vec![signer(&payer), plain(&onchain_account_pda), plain(&Pubkey::default())];
    let r = process_instruction(&addr(&program_id), &accounts, &data_vec, &known());
    assert!(matches!(r, Ok(_)));
}

#[test]
fn record_encodes_to_exact_layout() {
    let rec = OnchainAccountState {
        is_initialized: true,
        id: 3,
        name: "Test".to_string(),
        creator: Address::new([9u8; 32]),
    };
    let bytes = rec.pack().unwrap();
    let mut expected = vec![1u8, 3, 4, 0, 0, 0, b'T', b'e', b's', b't'];
    expected.extend_from_slice(&[9u8; 32]);
    assert_eq!(bytes, expected);
}

#[test]
fn record_round_trip() {
    let rec = OnchainAccountState {
        is_initialized: false,
        id: 15,
        name: "héllo wörld".to_string(),
        creator: Address::new([42u8; 32]),
    };
    let mut bytes = rec.pack().unwrap();
    bytes.resize(1000, 0);
    let back = OnchainAccountState::unpack(&bytes).unwrap();
    assert_eq!(back.is_initialized, false);
    assert!(!back.is_initialized());
    assert_eq!(back.id, 15);
    assert_eq!(back.name, "héllo wörld");
    assert_eq!(back.creator, Address::new([42u8; 32]));
}

#[test]
fn record_of_largest_name_fits() {
    let rec = OnchainAccountState {
        is_initialized: true,
        id: 0,
        name: "a".repeat(962),
        creator: Address::new([1u8; 32]),
    };
    assert_eq!(rec.pack().unwrap().len(), 1000);
    let over = OnchainAccountState { name: "a".repeat(963), ..rec };
    assert_eq!(over.pack().err(), Some(OnchainAccountError::OversizedRecord));
}

#[test]
fn zeroed_storage_reads_as_empty_record() {
    let data = vec![0u8; 1000];
    let rec = OnchainAccountState::unpack(&data).unwrap();
    assert!(!rec.is_initialized);
    assert_eq!(rec.id, 0);
    assert_eq!(rec.name, "");
    assert_eq!(rec.creator, Address::new([0u8; 32]));
}

#[test]
fn record_unpack_rejects_bad_data() {
    let mut bad_flag = vec![2u8, 0, 0, 0, 0, 0];
    bad_flag.extend_from_slice(&[0u8; 32]);
    assert_eq!(OnchainAccountState::unpack(&bad_flag).err(), Some(OnchainAccountError::InvalidAccountData));
    let short = vec![1u8, 0, 0, 0, 0, 0, 1, 2];
    assert_eq!(OnchainAccountState::unpack(&short).err(), Some(OnchainAccountError::InvalidAccountData));
    let mut bad_utf8 = vec![1u8, 0, 1, 0, 0, 0, 0xff];
    bad_utf8.extend_from_slice(&[0u8; 32]);
    assert_eq!(OnchainAccountState::unpack(&bad_utf8).err(), Some(OnchainAccountError::InvalidAccountData));
}

#[test]
fn unpack_empty_is_malformed() {
    assert!(matches!(
        OnchainAccountInstruction::unpack(&[]),
        Err(OnchainAccountError::MalformedInstruction)
    ));
}

#[test]
fn unpack_unknown_opcode() {
    assert!(matches!(
        OnchainAccountInstruction::unpack(&[7]),
        Err(OnchainAccountError::UnknownOpcode)
    ));
}

#[test]
fn unpack_hello_and_mint() {
    assert!(matches!(OnchainAccountInstruction::unpack(&[0]), Ok(OnchainAccountInstruction::Hello)));
    assert!(matches!(
        OnchainAccountInstruction::unpack(&[2]),
        Ok(OnchainAccountInstruction::InitializeMint)
    ));
}

#[test]
fn unpack_create_record() {
    match OnchainAccountInstruction::unpack(&create_payload(3, "Test")) {
        Ok(OnchainAccountInstruction::CreateOnchainAccount { id, name }) => {
            assert_eq!(id, 3);
            assert_eq!(name, "Test");
        }
        _ => panic!("expected a record creation"),
    }
}

#[test]
fn unpack_rejects_partial_payloads() {
    let full = create_payload(3, "Test");
    for cut in 1..full.len() {
        assert!(matches!(
            OnchainAccountInstruction::unpack(&full[..cut]),
            Err(OnchainAccountError::MalformedInstruction)
        ));
    }
    let mut extra = full.clone();
    extra.push(0);
    assert!(matches!(
        OnchainAccountInstruction::unpack(&extra),
        Err(OnchainAccountError::MalformedInstruction)
    ));
    let bad_utf8 = vec![1u8, 3, 1, 0, 0, 0, 0xc3];
    assert!(matches!(
        OnchainAccountInstruction::unpack(&bad_utf8),
        Err(OnchainAccountError::MalformedInstruction)
    ));
}

#[test]
fn derivation_is_deterministic_and_matches_runtime() {
    let program = Pubkey::new_unique();
    let creator = Pubkey::new_unique();
    let seeds = vec![creator.to_bytes().to_vec(), vec![3u8]];
    let a = find_program_address(&seeds, &addr(&program)).unwrap();
    let b = find_program_address(&seeds, &addr(&program)).unwrap();
    assert_eq!(a.0, b.0);
    assert_eq!(a.1, b.1);
    let (expected, bump) = record_pda(&creator, 3, &program);
    assert_eq!(a.0, addr(&expected));
    assert_eq!(a.1, bump);
    assert_ne!(a.0, addr(&program));
}

#[test]
fn create_record_end_to_end() {
    let program = Pubkey::new_unique();
    let creator = Pubkey::new_unique();
    let (pda, bump) = record_pda(&creator, 3, &program);
    let accounts = vec![signer(&creator), plain(&pda), plain(&Pubkey::default())];
    let r = process_instruction(&addr(&program), &accounts, &create_payload(3, "Test"), &known());
    let c = match r {
        Ok(Action::CreateRecord(c)) => c,
        _ => panic!("expected a record creation"),
    };
    assert_eq!(c.create.new_account, addr(&pda));
    assert_eq!(c.create.payer, addr(&creator));
    assert_eq!(c.create.owner, addr(&program));
    assert_eq!(c.create.space, 1000);
    assert_eq!(c.create.signer_seeds, vec![creator.to_bytes().to_vec(), vec![3u8], vec![bump]]);
    let mut storage = vec![0u8; 1000];
    storage[..c.record_data.len()].copy_from_slice(&c.record_data);
    let rec = OnchainAccountState::unpack(&storage).unwrap();
    assert!(rec.is_initialized);
    assert_eq!(rec.id, 3);
    assert_eq!(rec.name, "Test");
    assert_eq!(rec.creator, addr(&creator));
}

#[test]
fn create_record_requires_signature() {
    let program = Pubkey::new_unique();
    let creator = Pubkey::new_unique();
    let (pda, _) = record_pda(&creator, 3, &program);
    let accounts = vec![plain(&creator), plain(&pda), plain(&Pubkey::default())];
    let r = process_create_onchain_account(&addr(&program), &accounts, 3, "Test".to_string());
    assert_eq!(r.err(), Some(OnchainAccountError::MissingSignature));
}

#[test]
fn create_record_rejects_wrong_address() {
    let program = Pubkey::new_unique();
    let creator = Pubkey::new_unique();
    let (other, _) = record_pda(&creator, 4, &program);
    let accounts = vec![signer(&creator), plain(&other), plain(&Pubkey::default())];
    let r = process_create_onchain_account(&addr(&program), &accounts, 3, "Test".to_string());
    assert_eq!(r.err(), Some(OnchainAccountError::InvalidDerivedAddress));
}

#[test]
fn create_record_rejects_id_sixteen() {
    let program = Pubkey::new_unique();
    let creator = Pubkey::new_unique();
    let (pda, _) = record_pda(&creator, 16, &program);
    let accounts = vec![signer(&creator), plain(&pda), plain(&Pubkey::default())];
    let r = process_create_onchain_account(&addr(&program), &accounts, 16, "Test".to_string());
    assert_eq!(r.err(), Some(OnchainAccountError::InvalidId));
}

#[test]
fn create_record_rejects_oversized_name() {
    let program = Pubkey::new_unique();
    let creator = Pubkey::new_unique();
    let (pda, _) = record_pda(&creator, 5, &program);
    let accounts = vec![signer(&creator), plain(&pda), plain(&Pubkey::default())];
    let r = process_create_onchain_account(&addr(&program), &accounts, 5, "x".repeat(963));
    assert_eq!(r.err(), Some(OnchainAccountError::OversizedRecord));
    let ok = process_create_onchain_account(&addr(&program), &accounts, 5, "x".repeat(962));
    assert_eq!(ok.unwrap().record_data.len(), 1000);
}

#[test]
fn create_record_needs_three_accounts() {
    let program = Pubkey::new_unique();
    let creator = Pubkey::new_unique();
    let accounts = vec![signer(&creator)];
    let r = process_create_onchain_account(&addr(&program), &accounts, 3, "Test".to_string());
    assert_eq!(r.err(), Some(OnchainAccountError::NotEnoughAccounts));
}

#[test]
fn initialize_mint_with_matching_accounts() {
    let program = Pubkey::new_unique();
    let accounts = mint_accounts(&program);
    let (mint, mint_bump) = Pubkey::find_program_address(&[b"token_mint"], &program);
    let (auth, _) = Pubkey::find_program_address(&[b"token_auth"], &program);
    let c = process_initialize_mint(&addr(&program), &accounts, &known()).unwrap();
    assert_eq!(c.create.new_account, addr(&mint));
    assert_eq!(c.create.payer, accounts[0].key);
    assert_eq!(c.create.space, 82);
    assert_eq!(c.create.owner, known().token_program);
    assert_eq!(c.create.signer_seeds, vec![b"token_mint".to_vec(), vec![mint_bump]]);
    assert_eq!(c.mint_authority, addr(&auth));
    let mut data = vec![0u8, 9];
    data.extend_from_slice(auth.as_ref());
    data.push(0);
    assert_eq!(c.initialize_data, data);
    let again = process_initialize_mint(&addr(&program), &accounts, &known()).unwrap();
    assert_eq!(again.create.new_account, c.create.new_account);
}

#[test]
fn initialize_mint_rejects_any_substitution() {
    let program = Pubkey::new_unique();
    for i in 1..6 {
        let mut accounts = mint_accounts(&program);
        accounts[i] = plain(&Pubkey::new_unique());
        let r = process_instruction(&addr(&program), &accounts, &[2], &known());
        assert!(matches!(r, Err(OnchainAccountError::AccountMismatch)));
    }
}

#[test]
fn error_codes_are_distinct() {
    let all = [
        OnchainAccountError::MissingSignature,
        OnchainAccountError::InvalidDerivedAddress,
        OnchainAccountError::InvalidId,
        OnchainAccountError::OversizedRecord,
        OnchainAccountError::MalformedInstruction,
        OnchainAccountError::UnknownOpcode,
        OnchainAccountError::AccountMismatch,
        OnchainAccountError::NoValidAddress,
        OnchainAccountError::NotEnoughAccounts,
        OnchainAccountError::InvalidAccountData,
    ];
    for (i, a) in all.iter().enumerate() {
        assert_eq!(a.code(), i as u32);
    }
}
