use vstd::prelude::*;
use vstd::utf8::encode_utf8;
use crate::address::{find_program_address, program_address, seeds_view, Address};
use crate::error::OnchainAccountError;
use crate::instruction::{decode_instruction, InstructionModel, OnchainAccountInstruction};
use crate::state::{
    decode_record, encode_record, lemma_decode_ignores_trailing, record_len, string_bytes,
    OnchainAccountState, RecordModel, MAX_RECORD_ID, RECORD_ACCOUNT_LEN, RECORD_OVERHEAD,
};

verus! {

/// Size in bytes of a token mint account, fixed by the token program.
pub const MINT_ACCOUNT_LEN: u64 = 82;

/// Decimals of the program's token mint.
pub const MINT_DECIMALS: u8 = 9;

/// An account named by the transaction: its address and whether its key
/// co-signed.
#[derive(Debug, Clone, Copy)]
pub struct AccountRef {
    pub key: Address,
    pub is_signer: bool,
}

/// A request to the storage-creation service: `payer` funds a new account
/// of `space` bytes at `new_account`, owned by `owner`, and the program
/// authorizes it by presenting `signer_seeds` (seeds and bump) as its
/// program-derived signature.
pub struct CreateAccountRequest {
    pub payer: Address,
    pub new_account: Address,
    pub space: u64,
    pub owner: Address,
    pub signer_seeds: Vec<Vec<u8>>,
}

/// Everything a validated record creation does: create the account, then
/// write `record_data` (the encoding of `record`) at the start of it.
pub struct RecordCreation {
    pub create: CreateAccountRequest,
    pub record: OnchainAccountState,
    pub record_data: Vec<u8>,
}

/// The addresses of the outside programs and sysvar that mint
/// initialization checks its accounts against.
#[derive(Debug, Clone, Copy)]
pub struct KnownPrograms {
    pub system_program: Address,
    pub token_program: Address,
    pub rent_sysvar: Address,
}

/// Everything a validated mint initialization does: create the mint's
/// account, then send `initialize_data` to the token program, signed with
/// the same seeds.
pub struct MintCreation {
    pub create: CreateAccountRequest,
    pub mint_authority: Address,
    pub initialize_data: Vec<u8>,
}

/// What the host must carry out for a decoded and validated instruction.
pub enum Action {
    Hello,
    CreateRecord(RecordCreation),
    InitializeMint(MintCreation),
}

/// Seeds of a record's address: the creator's key and the id byte.
pub open spec fn record_seeds(creator: Seq<u8>, id: u8) -> Seq<Seq<u8>> {
    seq![creator, seq![id]]
}

/// The ASCII bytes of `token_mint`.
pub open spec fn mint_seed() -> Seq<u8> {
    seq![116u8, 111, 107, 101, 110, 95, 109, 105, 110, 116]
}

/// The ASCII bytes of `token_auth`.
pub open spec fn mint_authority_seed() -> Seq<u8> {
    seq![116u8, 111, 107, 101, 110, 95, 97, 117, 116, 104]
}

/// The token program's mint-initialization instruction: tag 0, the
/// decimals, the mint authority, and 0 for "no freeze authority".
pub open spec fn initialize_mint_data(decimals: u8, authority: Seq<u8>) -> Seq<u8> {
    seq![0u8, decimals] + authority + seq![0u8]
}

/// The outcome of the checks of a record creation, in order: enough
/// accounts, a co-signing initializer, a derivable address that equals the
/// record account, an id in range, and a record that fits. On success, the
/// derived address and bump.
pub open spec fn create_record_outcome(
    program: Seq<u8>,
    accounts: Seq<AccountRef>,
    id: u8,
    name: Seq<char>,
) -> Result<(Seq<u8>, u8), OnchainAccountError> {
    if accounts.len() < 3 {
        Err(OnchainAccountError::NotEnoughAccounts)
    } else if !accounts[0].is_signer {
        Err(OnchainAccountError::MissingSignature)
    } else {
        match program_address(record_seeds(accounts[0].key@, id), program) {
            None => Err(OnchainAccountError::NoValidAddress),
            Some((addr, bump)) => {
                if accounts[1].key@ != addr {
                    Err(OnchainAccountError::InvalidDerivedAddress)
                } else if id > MAX_RECORD_ID {
                    Err(OnchainAccountError::InvalidId)
                } else if record_len(encode_utf8(name).len() as int) > RECORD_ACCOUNT_LEN {
                    Err(OnchainAccountError::OversizedRecord)
                } else {
                    Ok((addr, bump))
                }
            },
        }
    }
}

/// A record creation for `creator` at `addr` with `bump`: a 1000-byte
/// account owned by the program, paid by the creator, signed with
/// `[creator, id, bump]`, holding the initialized record.
pub open spec fn record_creation_matches(
    c: RecordCreation,
    program: Seq<u8>,
    creator: Seq<u8>,
    addr: Seq<u8>,
    bump: u8,
    id: u8,
    name: Seq<char>,
) -> bool {
    let m = RecordModel { is_initialized: true, id, name, creator };
    &&& c.create.payer@ == creator
    &&& c.create.new_account@ == addr
    &&& c.create.space == RECORD_ACCOUNT_LEN
    &&& c.create.owner@ == program
    &&& seeds_view(c.create.signer_seeds@) == seq![creator, seq![id], seq![bump]]
    &&& c.record@ == m
    &&& c.record_data@ == encode_record(m)
}

/// `r` is what record creation owes for these inputs.
pub open spec fn create_record_result(
    program: Seq<u8>,
    accounts: Seq<AccountRef>,
    id: u8,
    name: Seq<char>,
    r: Result<RecordCreation, OnchainAccountError>,
) -> bool {
    match create_record_outcome(program, accounts, id, name) {
        Err(e) => r == Err::<RecordCreation, _>(e),
        Ok((addr, bump)) => r matches Ok(c) && record_creation_matches(
            c,
            program,
            accounts[0].key@,
            addr,
            bump,
            id,
            name,
        ),
    }
}

/// A successful record creation writes bytes that, followed by whatever the
/// rest of the account holds, read back as the initialized record of the
/// signing creator with the requested id and name.
pub proof fn lemma_created_record_reads_back(
    program: Seq<u8>,
    accounts: Seq<AccountRef>,
    id: u8,
    name: Seq<char>,
    c: RecordCreation,
    rest: Seq<u8>,
)
    requires
        create_record_result(program, accounts, id, name, Ok(c)),
    ensures
        decode_record(c.record_data@ + rest) == Some(
            RecordModel { is_initialized: true, id, name, creator: accounts[0].key@ },
        ),
{
    let m = RecordModel { is_initialized: true, id, name, creator: accounts[0].key@ };
    lemma_decode_ignores_trailing(m, rest);
}

/// A seed of one byte.
fn byte_seed(b: u8) -> (r: Vec<u8>)
    ensures
        r@ == seq![b],
{
    let mut v: Vec<u8> = Vec::new();
    v.push(b);
    assert(v@ =~= seq![b]);
    v
}

/// Validates a record creation for accounts `[initializer, record,
/// storage service]` and says what to create and write. Nothing is created
/// on an error.
pub fn process_create_onchain_account(
    program_id: &Address,
    accounts: &[AccountRef],
    id: u8,
    name: String,
) -> (r: Result<RecordCreation, OnchainAccountError>)
    ensures
        create_record_result(program_id@, accounts@, id, name@, r),
{
    if accounts.len() < 3 {
        return Err(OnchainAccountError::NotEnoughAccounts);
    }
    let initializer = accounts[0];
    let record_account = accounts[1];
    if !initializer.is_signer {
        return Err(OnchainAccountError::MissingSignature);
    }
    let mut seeds: Vec<Vec<u8>> = Vec::new();
    seeds.push(initializer.key.to_vec());
    seeds.push(byte_seed(id));
    assert(seeds_view(seeds@) =~= record_seeds(initializer.key@, id));
    let (pda, bump) = find_program_address(&seeds, program_id)?;
    if pda != record_account.key {
        return Err(OnchainAccountError::InvalidDerivedAddress);
    }
    if id > MAX_RECORD_ID {
        return Err(OnchainAccountError::InvalidId);
    }
    let name_len = string_bytes(&name).len();
    if name_len > RECORD_ACCOUNT_LEN - RECORD_OVERHEAD {
        return Err(OnchainAccountError::OversizedRecord);
    }
    let mut signer_seeds: Vec<Vec<u8>> = Vec::new();
    signer_seeds.push(initializer.key.to_vec());
    signer_seeds.push(byte_seed(id));
    signer_seeds.push(byte_seed(bump));
    assert(seeds_view(signer_seeds@) =~= seq![initializer.key@, seq![id], seq![bump]]);
    let record = OnchainAccountState { is_initialized: true, id, name, creator: initializer.key };
    let record_data = match record.pack() {
        Ok(b) => b,
        Err(e) => return Err(e),
    };
    let create = CreateAccountRequest {
        payer: initializer.key,
        new_account: pda,
        space: RECORD_ACCOUNT_LEN as u64,
        owner: *program_id,
        signer_seeds,
    };
    Ok(RecordCreation { create, record, record_data })
}

/// The bytes of the mint's seed.
fn mint_seed_bytes() -> (r: Vec<u8>)
    ensures
        r@ == mint_seed(),
{
    let v: Vec<u8> = vec![116, 111, 107, 101, 110, 95, 109, 105, 110, 116];
    assert(v@ =~= mint_seed());
    v
}

/// The bytes of the mint authority's seed.
fn mint_authority_seed_bytes() -> (r: Vec<u8>)
    ensures
        r@ == mint_authority_seed(),
{
    let v: Vec<u8> = vec![116, 111, 107, 101, 110, 95, 97, 117, 116, 104];
    assert(v@ =~= mint_authority_seed());
    v
}

/// The outcome of the checks of a mint initialization: enough accounts, both
/// addresses derivable, and each of the five checked accounts equal to its
/// derived or known address. On success, the mint's address and bump and the
/// authority's address.
pub open spec fn initialize_mint_outcome(
    program: Seq<u8>,
    accounts: Seq<AccountRef>,
    known: KnownPrograms,
) -> Result<(Seq<u8>, u8, Seq<u8>), OnchainAccountError> {
    if accounts.len() < 6 {
        Err(OnchainAccountError::NotEnoughAccounts)
    } else {
        match (
            program_address(seq![mint_seed()], program),
            program_address(seq![mint_authority_seed()], program),
        ) {
            (Some((mint, bump)), Some((auth, _))) => {
                if accounts[1].key@ != mint || accounts[2].key@ != auth || accounts[3].key@
                    != known.system_program@ || accounts[4].key@ != known.token_program@
                    || accounts[5].key@ != known.rent_sysvar@ {
                    Err(OnchainAccountError::AccountMismatch)
                } else {
                    Ok((mint, bump, auth))
                }
            },
            _ => Err(OnchainAccountError::NoValidAddress),
        }
    }
}

/// The address that mint initialization expects at position `i` (1 to 5)
/// of its account list.
pub open spec fn expected_mint_account(i: int, mint: Seq<u8>, auth: Seq<u8>, known: KnownPrograms) -> Seq<u8> {
    if i == 1 {
        mint
    } else if i == 2 {
        auth
    } else if i == 3 {
        known.system_program@
    } else if i == 4 {
        known.token_program@
    } else {
        known.rent_sysvar@
    }
}

/// Substituting any one of the five checked accounts for another address
/// makes mint initialization fail with `AccountMismatch`, so nothing is
/// created.
pub proof fn lemma_mint_guard(
    program: Seq<u8>,
    accounts: Seq<AccountRef>,
    known: KnownPrograms,
    i: int,
)
    requires
        accounts.len() >= 6,
        1 <= i <= 5,
        program_address(seq![mint_seed()], program) is Some,
        program_address(seq![mint_authority_seed()], program) is Some,
        accounts[i].key@ != expected_mint_account(
            i,
            program_address(seq![mint_seed()], program)->Some_0.0,
            program_address(seq![mint_authority_seed()], program)->Some_0.0,
            known,
        ),
    ensures
        initialize_mint_outcome(program, accounts, known) == Err::<(Seq<u8>, u8, Seq<u8>), _>(
            OnchainAccountError::AccountMismatch,
        ),
{
}

/// `r` is what mint initialization owes for these inputs: on success an
/// 82-byte account at the mint address, owned by the token program, paid by
/// the initializer, signed with `[token_mint, bump]`, then initialized with
/// nine decimals, the derived authority and no freeze authority.
pub open spec fn initialize_mint_result(
    program: Seq<u8>,
    accounts: Seq<AccountRef>,
    known: KnownPrograms,
    r: Result<MintCreation, OnchainAccountError>,
) -> bool {
    match initialize_mint_outcome(program, accounts, known) {
        Err(e) => r == Err::<MintCreation, _>(e),
        Ok((mint, bump, auth)) => r matches Ok(c) && {
            &&& c.create.payer@ == accounts[0].key@
            &&& c.create.new_account@ == mint
            &&& c.create.space == MINT_ACCOUNT_LEN
            &&& c.create.owner@ == known.token_program@
            &&& seeds_view(c.create.signer_seeds@) == seq![mint_seed(), seq![bump]]
            &&& c.mint_authority@ == auth
            &&& c.initialize_data@ == initialize_mint_data(MINT_DECIMALS, auth)
        },
    }
}

/// Validates a mint initialization for accounts `[initializer, mint, mint
/// authority, storage service, token program, rent sysvar]` and says what to
/// create and send. All five checks come before anything is created.
pub fn process_initialize_mint(
    program_id: &Address,
    accounts: &[AccountRef],
    known: &KnownPrograms,
) -> (r: Result<MintCreation, OnchainAccountError>)
    ensures
        initialize_mint_result(program_id@, accounts@, *known, r),
{
    if accounts.len() < 6 {
        return Err(OnchainAccountError::NotEnoughAccounts);
    }
    let mut mint_seeds: Vec<Vec<u8>> = Vec::new();
    mint_seeds.push(mint_seed_bytes());
    assert(seeds_view(mint_seeds@) =~= seq![mint_seed()]);
    let mut auth_seeds: Vec<Vec<u8>> = Vec::new();
    auth_seeds.push(mint_authority_seed_bytes());
    assert(seeds_view(auth_seeds@) =~= seq![mint_authority_seed()]);
    let (mint, bump) = find_program_address(&mint_seeds, program_id)?;
    let (auth, _) = find_program_address(&auth_seeds, program_id)?;
    if accounts[1].key != mint || accounts[2].key != auth || accounts[3].key
        != known.system_program || accounts[4].key != known.token_program || accounts[5].key
        != known.rent_sysvar {
        return Err(OnchainAccountError::AccountMismatch);
    }
    let mut signer_seeds: Vec<Vec<u8>> = Vec::new();
    signer_seeds.push(mint_seed_bytes());
    signer_seeds.push(byte_seed(bump));
    assert(seeds_view(signer_seeds@) =~= seq![mint_seed(), seq![bump]]);
    let mut data: Vec<u8> = Vec::new();
    data.push(0u8);
    data.push(MINT_DECIMALS);
    data.extend_from_slice(auth.bytes.as_slice());
    data.push(0u8);
    assert(data@ =~= initialize_mint_data(MINT_DECIMALS, auth@));
    let create = CreateAccountRequest {
        payer: accounts[0].key,
        new_account: mint,
        space: MINT_ACCOUNT_LEN,
        owner: known.token_program,
        signer_seeds,
    };
    Ok(MintCreation { create, mint_authority: auth, initialize_data: data })
}

/// Decodes an instruction and validates it; on success, says what the host
/// must carry out. Nothing is created on an error.
pub fn process_instruction(
    program_id: &Address,
    accounts: &[AccountRef],
    instruction_data: &[u8],
    known: &KnownPrograms,
) -> (r: Result<Action, OnchainAccountError>)
    ensures
        match decode_instruction(instruction_data@) {
            Err(e) => r == Err::<Action, _>(e),
            Ok(InstructionModel::Hello) => r matches Ok(Action::Hello),
            Ok(InstructionModel::CreateOnchainAccount { id, name }) => match r {
                Ok(Action::CreateRecord(c)) => create_record_result(
                    program_id@,
                    accounts@,
                    id,
                    name,
                    Ok(c),
                ),
                Err(e) => create_record_result(program_id@, accounts@, id, name, Err(e)),
                _ => false,
            },
            Ok(InstructionModel::InitializeMint) => match r {
                Ok(Action::InitializeMint(c)) => initialize_mint_result(
                    program_id@,
                    accounts@,
                    *known,
                    Ok(c),
                ),
                Err(e) => initialize_mint_result(program_id@, accounts@, *known, Err(e)),
                _ => false,
            },
        },
{
    let instruction = OnchainAccountInstruction::unpack(instruction_data)?;
    match instruction {
        OnchainAccountInstruction::Hello => Ok(Action::Hello),
        OnchainAccountInstruction::CreateOnchainAccount { id, name } => {
            match process_create_onchain_account(program_id, accounts, id, name) {
                Ok(c) => Ok(Action::CreateRecord(c)),
                Err(e) => Err(e),
            }
        },
        OnchainAccountInstruction::InitializeMint => {
            match process_initialize_mint(program_id, accounts, known) {
                Ok(c) => Ok(Action::InitializeMint(c)),
                Err(e) => Err(e),
            }
        },
    }
}

} // verus!
