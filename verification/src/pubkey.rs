//! Account addresses: the well-known program addresses, and the derivation
//! of a program's own addresses from seeds.

use vstd::prelude::*;

verus! {

/// The address of an account: 32 bytes.
pub type Pubkey = [u8; 32];

/// The address under which this program is deployed:
/// `CATvuZTNuyeBkoo5Tpeqtxcn51NDLNMExWPZ5vzQxkEg` in base 58.
pub const ID: Pubkey = [
    165, 221, 59, 143, 166, 159, 65, 148, 110, 210, 82, 147, 25, 161, 44, 23,
    253, 8, 190, 251, 207, 128, 113, 104, 123, 61, 250, 97, 64, 43, 225, 13,
];

/// The address of the token program, the asset-transfer provider.
pub const TOKEN_PROGRAM_ID: Pubkey = [
    6, 221, 246, 225, 215, 101, 161, 147, 217, 203, 225, 70, 206, 235, 121, 172,
    28, 180, 133, 237, 95, 91, 55, 145, 58, 140, 245, 133, 126, 255, 0, 169,
];

/// The address of the system program, the address-allocation provider.
pub const SYSTEM_PROGRAM_ID: Pubkey = [
    0, 0, 0, 0, 0, 0, 0, 0, 0, 0, 0, 0, 0, 0, 0, 0,
    0, 0, 0, 0, 0, 0, 0, 0, 0, 0, 0, 0, 0, 0, 0, 0,
];

/// The address of the associated token account program, under which the
/// token account of a wallet for a mint has its address:
/// `ATokenGPvbdGVxr1b2hvZbsiqW5xWH25efTNsLJA8knL` in base 58.
pub const ASSOCIATED_TOKEN_PROGRAM_ID: Pubkey = [
    140, 151, 37, 143, 78, 36, 137, 241, 187, 61, 16, 41, 20, 142, 13, 131,
    11, 90, 19, 153, 218, 255, 16, 132, 4, 142, 123, 216, 219, 233, 248, 89,
];

/// Whether two addresses are the same.
pub fn pubkey_eq(a: &Pubkey, b: &Pubkey) -> (r: bool)
    ensures
        r == (*a == *b),
        r == (a@ == b@),
{
    let mut i: usize = 0;
    while i < 32
        invariant
            i <= 32,
            forall|j: int| 0 <= j < i ==> a@[j] == b@[j],
        decreases 32 - i,
    {
        if a[i] != b[i] {
            return false;
        }
        i += 1;
    }
    assert(a@ =~= b@);
    assert(*a =~= *b);
    true
}

/// The address under which this program is deployed.
pub fn id() -> (r: Pubkey)
    ensures
        r == ID,
{
    ID
}

/// The address that `seeds` derive under the program `program_id`, where
/// they derive one. A list of seeds derives no address where one seed is
/// longer than 32 bytes, where there are more than 16 of them, or where what
/// they hash to is a point of the curve and so could have a private key.
pub uninterp spec fn program_address(seeds: Seq<Seq<u8>>, program_id: Seq<u8>) -> Option<Seq<u8>>;

/// The bytes of an address that may be missing.
pub open spec fn address_bytes(address: Option<Pubkey>) -> Option<Seq<u8>> {
    match address {
        Some(a) => Some(a@),
        None => None,
    }
}

/// `solana_pubkey::Pubkey::create_program_address` on four seeds: the
/// address that the seeds derive under `program_id`, or `None` where the
/// outside function returns an error. Its result is a function of the seeds
/// and the program address alone; the contract gives that function its
/// name, `program_address`, and says nothing else of it. It is believed, not
/// proved.
#[verifier::external_body]
pub(crate) fn derive_program_address(
    seed0: &[u8],
    seed1: &[u8],
    seed2: &[u8],
    seed3: &[u8],
    program_id: &Pubkey,
) -> (r: Option<Pubkey>)
    ensures
        address_bytes(r) == program_address(seq![seed0@, seed1@, seed2@, seed3@], program_id@),
{
    let program = solana_pubkey::Pubkey::new_from_array(*program_id);
    match solana_pubkey::Pubkey::create_program_address(&[seed0, seed1, seed2, seed3], &program) {
        Ok(address) => Some(address.to_bytes()),
        Err(_) => None,
    }
}

/// The address that three seeds and a bump derive under `program_id`: the
/// bump goes last, as a seed of one byte.
pub open spec fn bumped_address(
    seed0: Seq<u8>,
    seed1: Seq<u8>,
    seed2: Seq<u8>,
    bump: u8,
    program_id: Seq<u8>,
) -> Option<Seq<u8>> {
    program_address(seq![seed0, seed1, seed2, seq![bump]], program_id)
}

/// `solana_pubkey::Pubkey::try_find_program_address` on three seeds. The
/// outside function appends one more seed of a single byte, the bump, tries
/// the bumps from 255 down to 1 and returns the first address that the four
/// seeds derive, with its bump; it returns `None` where no bump derives one.
/// The contract says so in terms of `program_address`, and is believed, not
/// proved.
#[verifier::external_body]
fn find_program_address(
    seed0: &[u8],
    seed1: &[u8],
    seed2: &[u8],
    program_id: &Pubkey,
) -> (r: Option<(Pubkey, u8)>)
    ensures
        r matches Some((address, bump)) ==> {
            &&& 1 <= bump
            &&& bumped_address(seed0@, seed1@, seed2@, bump, program_id@) == Some(address@)
            &&& forall|b: u8|
                bump < b ==> #[trigger] bumped_address(seed0@, seed1@, seed2@, b, program_id@)
                    is None
        },
        r is None ==> forall|b: u8|
            1 <= b ==> #[trigger] bumped_address(seed0@, seed1@, seed2@, b, program_id@) is None,
{
    let program = solana_pubkey::Pubkey::new_from_array(*program_id);
    match solana_pubkey::Pubkey::try_find_program_address(&[seed0, seed1, seed2], &program) {
        Some((address, bump)) => Some((address.to_bytes(), bump)),
        None => None,
    }
}

/// Whether `address` and `bump` are what the search for a program address
/// on three seeds finds: the bump is the largest from 255 down to 1 with
/// which the seeds derive an address, and `address` is that address.
pub open spec fn is_found(
    seed0: Seq<u8>,
    seed1: Seq<u8>,
    seed2: Seq<u8>,
    program_id: Seq<u8>,
    address: Pubkey,
    bump: u8,
) -> bool {
    &&& 1 <= bump
    &&& bumped_address(seed0, seed1, seed2, bump, program_id) == Some(address@)
    &&& forall|b: u8| bump < b ==> #[trigger] bumped_address(seed0, seed1, seed2, b, program_id)
        is None
}

/// What the search for a program address on three seeds finds: the address
/// and the bump of `is_found`, or nothing where no bump from 255 down to 1
/// derives an address.
pub open spec fn found_address(
    seed0: Seq<u8>,
    seed1: Seq<u8>,
    seed2: Seq<u8>,
    program_id: Seq<u8>,
) -> Option<(Pubkey, u8)> {
    if exists|found: (Pubkey, u8)| is_found(seed0, seed1, seed2, program_id, found.0, found.1) {
        Some(
            choose|found: (Pubkey, u8)| is_found(seed0, seed1, seed2, program_id, found.0, found.1),
        )
    } else {
        None
    }
}

/// Searches for the program address of three seeds under `program_id`,
/// from bump 255 down to 1.
pub fn find_address(seed0: &[u8], seed1: &[u8], seed2: &[u8], program_id: &Pubkey) -> (r: Option<
    (Pubkey, u8),
>)
    ensures
        r == found_address(seed0@, seed1@, seed2@, program_id@),
        r matches Some((address, bump)) ==> is_found(
            seed0@,
            seed1@,
            seed2@,
            program_id@,
            address,
            bump,
        ),
        r is None ==> forall|b: u8|
            1 <= b ==> #[trigger] bumped_address(seed0@, seed1@, seed2@, b, program_id@) is None,
{
    let r = find_program_address(seed0, seed1, seed2, program_id);
    proof {
        match r {
            Some(pair) => {
                assert(is_found(seed0@, seed1@, seed2@, program_id@, pair.0, pair.1));
                let chosen = choose|found: (Pubkey, u8)|
                    is_found(seed0@, seed1@, seed2@, program_id@, found.0, found.1);
                assert(is_found(seed0@, seed1@, seed2@, program_id@, chosen.0, chosen.1));
                // Two finds have the same bump, since each is the largest
                // that derives, and so the same address.
                assert(chosen.1 == pair.1);
                assert(chosen.0@ == pair.0@);
                assert(chosen.0 =~= pair.0);
                assert(chosen == pair);
            },
            None => {
                assert forall|found: (Pubkey, u8)| !is_found(
                    seed0@,
                    seed1@,
                    seed2@,
                    program_id@,
                    found.0,
                    found.1,
                ) by {
                    if 1 <= found.1 {
                        assert(bumped_address(seed0@, seed1@, seed2@, found.1, program_id@)
                            is None);
                    }
                }
            },
        }
    }
    r
}

/// `pinocchio_token::id`: the address of the token program. The contract
/// says that it is `TOKEN_PROGRAM_ID`, the bytes that the outside crate
/// declares in base 58 as `TokenkegQfeZyiNwAJbNbGKPFXCWuBvf9Ss623VQ5DA`.
#[verifier::external_body]
fn token_program_id() -> (r: Pubkey)
    ensures
        r == TOKEN_PROGRAM_ID,
{
    pinocchio_token::id()
}

/// `pinocchio_system::id`: the address of the system program. The contract
/// says that it is `SYSTEM_PROGRAM_ID`, the bytes that the outside crate
/// declares in base 58 as `11111111111111111111111111111111`: 32 zeros.
#[verifier::external_body]
fn system_program_id() -> (r: Pubkey)
    ensures
        r == SYSTEM_PROGRAM_ID,
{
    pinocchio_system::id()
}

/// The identities that a request is checked against: the program itself
/// and the two capability providers.
#[derive(Clone, Copy, Debug)]
pub struct ProgramIds {
    /// The program that owns the vault records.
    pub program: Pubkey,
    /// The asset-transfer provider.
    pub token_program: Pubkey,
    /// The address-allocation provider.
    pub system_program: Pubkey,
}

impl ProgramIds {
    /// The identities on the ledger: the program under `program`, with the
    /// token program and the system program as providers.
    pub fn canonical(program: Pubkey) -> (r: Self)
        ensures
            r.program == program,
            r.token_program == TOKEN_PROGRAM_ID,
            r.system_program == SYSTEM_PROGRAM_ID,
    {
        ProgramIds {
            program,
            token_program: token_program_id(),
            system_program: system_program_id(),
        }
    }
}

} // verus!
