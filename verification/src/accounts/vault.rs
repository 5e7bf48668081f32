//! The vault record: what is kept of one lock, how its bytes are laid out,
//! how its address is derived, and when it may be emptied.

use crate::accounts::Account;
use crate::errors::refused;
use crate::errors::Check;
use crate::errors::DiamondHandsError;
use crate::errors::Refusal;
use crate::errors::Values;
use crate::errors::VaultError;
use crate::instructions::lock_vault::LockVaultIxData;
use crate::pod::le_bytes;
use crate::pod::lemma_pod_lens;
use crate::pod::zeros;
use crate::pod::Pod;
use crate::pod::PodOption;
use crate::pod::PodU64;
use crate::pubkey::derive_program_address;
use crate::pubkey::program_address;
use crate::pubkey::pubkey_eq;
use crate::pubkey::Pubkey;
use crate::utils::load_account_unchecked;
use crate::utils::load_signer;
use crate::utils::spec_load_account_unchecked;
use crate::utils::spec_load_signer;
use crate::utils::DataLen;
use crate::utils::Discriminator;
use crate::utils::Initialized;
use vstd::prelude::*;

verus! {

/// The record of one lock. It is written once, when the tokens are locked,
/// and wiped when the vault is emptied.
#[derive(Clone, Copy, Debug)]
pub struct Vault {
    /// Absent until the record is written; then the tag of the record type.
    pub discriminator: PodOption<u8>,
    /// The salt that, with admin and mint, derives the record's address.
    pub bump: u8,
    /// Who locked the tokens, and the only one who may take them back.
    pub admin: Pubkey,
    /// The mint of the locked tokens.
    pub mint: Pubkey,
    /// How many decimals the token has.
    pub mint_decimals: u8,
    /// The token account that holds the locked tokens.
    pub vault_token: Pubkey,
    /// The slot in which the record was written.
    pub start_slot: PodU64,
    /// For how many slots from `start_slot` the tokens stay locked.
    pub slots_locked: PodU64,
    /// Kept for later versions; zero.
    pub reserved: [u8; 32],
}

impl DataLen for Vault {
    const LEN: usize = 148;
}

impl Discriminator for Vault {
    const DISCRIMINATOR: u8 = 1;
}

impl Initialized for Vault {
    /// A record is written where its tag is present and is the tag of the
    /// vault record.
    open spec fn initialized(&self) -> bool {
        self.discriminator@ == Some(1u8)
    }

    fn is_initialized(&self) -> (r: bool) {
        match self.discriminator.as_ref() {
            Some(discriminator) => *discriminator == 1,
            None => false,
        }
    }
}

impl Default for Vault {
    fn default() -> (r: Self)
        ensures
            !r.initialized(),
            r.layout() == zeros(148),
    {
        let r = Vault {
            discriminator: PodOption::none(),
            bump: 0,
            admin: [0u8; 32],
            mint: [0u8; 32],
            mint_decimals: 0,
            vault_token: [0u8; 32],
            start_slot: PodU64 { data: [0u8; 8] },
            slots_locked: PodU64 { data: [0u8; 8] },
            reserved: [0u8; 32],
        };
        proof {
            lemma_pod_lens();
            assert(r.layout() =~= zeros(148));
        }
        r
    }
}

impl Pod for Vault {
    open spec fn wf(&self) -> bool {
        self.discriminator.wf()
    }

    /// The fields in their order, with no padding between them.
    open spec fn layout(&self) -> Seq<u8> {
        self.discriminator.layout() + seq![self.bump] + self.admin@ + self.mint@
            + seq![self.mint_decimals] + self.vault_token@ + self.start_slot.layout()
            + self.slots_locked.layout() + self.reserved@
    }

    open spec fn parse(bytes: Seq<u8>) -> Self {
        Vault {
            discriminator: PodOption::<u8>::parse(bytes.subrange(0, 2)),
            bump: bytes[2],
            admin: <[u8; 32]>::parse(bytes.subrange(3, 35)),
            mint: <[u8; 32]>::parse(bytes.subrange(35, 67)),
            mint_decimals: bytes[67],
            vault_token: <[u8; 32]>::parse(bytes.subrange(68, 100)),
            start_slot: PodU64::parse(bytes.subrange(100, 108)),
            slots_locked: PodU64::parse(bytes.subrange(108, 116)),
            reserved: <[u8; 32]>::parse(bytes.subrange(116, 148)),
        }
    }

    proof fn lemma_layout_len(v: Self) {
        lemma_pod_lens();
        PodOption::<u8>::lemma_layout_len(v.discriminator);
    }

    proof fn lemma_parse_layout(v: Self) {
        let bytes = v.layout();
        lemma_pod_lens();
        PodOption::<u8>::lemma_layout_len(v.discriminator);
        assert(bytes.subrange(0, 2) =~= v.discriminator.layout());
        assert(bytes.subrange(3, 35) =~= v.admin@);
        assert(bytes.subrange(35, 67) =~= v.mint@);
        assert(bytes.subrange(68, 100) =~= v.vault_token@);
        assert(bytes.subrange(100, 108) =~= v.start_slot.layout());
        assert(bytes.subrange(108, 116) =~= v.slots_locked.layout());
        assert(bytes.subrange(116, 148) =~= v.reserved@);
        PodOption::<u8>::lemma_parse_layout(v.discriminator);
        <[u8; 32]>::lemma_parse_layout(v.admin);
        <[u8; 32]>::lemma_parse_layout(v.mint);
        <[u8; 32]>::lemma_parse_layout(v.vault_token);
        <[u8; 32]>::lemma_parse_layout(v.reserved);
        PodU64::lemma_parse_layout(v.start_slot);
        PodU64::lemma_parse_layout(v.slots_locked);
    }

    proof fn lemma_parse_wf(bytes: Seq<u8>) {
        lemma_pod_lens();
        PodOption::<u8>::lemma_parse_wf(bytes.subrange(0, 2));
    }

    fn decode(bytes: &[u8]) -> (r: Self) {
        proof {
            lemma_pod_lens();
        }
        Vault {
            discriminator: PodOption::<u8>::decode(vstd::slice::slice_subrange(bytes, 0, 2)),
            bump: bytes[2],
            admin: <[u8; 32]>::decode(vstd::slice::slice_subrange(bytes, 3, 35)),
            mint: <[u8; 32]>::decode(vstd::slice::slice_subrange(bytes, 35, 67)),
            mint_decimals: bytes[67],
            vault_token: <[u8; 32]>::decode(vstd::slice::slice_subrange(bytes, 68, 100)),
            start_slot: PodU64::decode(vstd::slice::slice_subrange(bytes, 100, 108)),
            slots_locked: PodU64::decode(vstd::slice::slice_subrange(bytes, 108, 116)),
            reserved: <[u8; 32]>::decode(vstd::slice::slice_subrange(bytes, 116, 148)),
        }
    }

    fn encode(&self, out: &mut Vec<u8>) {
        self.discriminator.encode(out);
        out.push(self.bump);
        self.admin.encode(out);
        self.mint.encode(out);
        out.push(self.mint_decimals);
        self.vault_token.encode(out);
        self.start_slot.encode(out);
        self.slots_locked.encode(out);
        self.reserved.encode(out);
        assert(out@ =~= old(out)@ + self.layout());
    }
}

/// Whether two byte strings are the same.
fn bytes_eq(a: &[u8], b: &[u8]) -> (r: bool)
    ensures
        r == (a@ == b@),
{
    if a.len() != b.len() {
        return false;
    }
    let mut i: usize = 0;
    while i < a.len()
        invariant
            i <= a@.len(),
            a@.len() == b@.len(),
            forall|j: int| 0 <= j < i ==> a@[j] == b@[j],
        decreases a@.len() - i,
    {
        if a[i] != b[i] {
            return false;
        }
        i += 1;
    }
    assert(a@ =~= b@);
    true
}

/// The seeds of a seed list, each as its bytes.
pub open spec fn seed_list(seeds: &Vec<Vec<u8>>) -> Seq<Seq<u8>> {
    Seq::new(seeds@.len(), |i: int| seeds@[i]@)
}

/// The seeds that derive a vault's address: the label, the admin, the mint
/// and the salt as a seed of one byte.
pub open spec fn vault_seeds(admin: Pubkey, mint: Pubkey, bump: u8) -> Seq<Seq<u8>> {
    seq![Vault::SEED@, admin@, mint@, seq![bump]]
}

/// The address of the vault of `admin` for `mint` with salt `bump` under
/// the program `program_id`, where the seeds derive one.
pub open spec fn derived_vault_address(program_id: Pubkey, admin: Pubkey, mint: Pubkey, bump: u8) -> Option<
    Seq<u8>,
> {
    program_address(vault_seeds(admin, mint, bump), program_id@)
}

/// What deriving a vault's address gives: the address, or the error of
/// seeds that derive none.
pub open spec fn spec_create_program_address(
    program_id: Pubkey,
    admin: Pubkey,
    mint: Pubkey,
    bump: u8,
) -> Result<Pubkey, VaultError> {
    match derived_vault_address(program_id, admin, mint, bump) {
        Some(address) => Ok(<[u8; 32]>::parse(address)),
        None => Err(VaultError::InvalidSeeds),
    }
}

/// The address that the record in `data` derives under `program_id`,
/// where it derives one.
pub open spec fn record_address(program_id: Pubkey, data: Seq<u8>) -> Option<Pubkey> {
    let record = Vault::parse(data);
    match spec_create_program_address(program_id, record.admin, record.mint, record.bump) {
        Ok(address) => Some(address),
        Err(_) => None,
    }
}

/// The slots that have passed since the record was written; none where the
/// current slot lies before it.
pub open spec fn slots_elapsed(record: Vault, current_slot: u64) -> u64 {
    if current_slot >= record.start_slot@ {
        (current_slot - record.start_slot@) as u64
    } else {
        0
    }
}

/// The slots that still have to pass before the vault may be emptied.
pub open spec fn slots_remaining(record: Vault, current_slot: u64) -> u64 {
    if slots_elapsed(record, current_slot) < record.slots_locked@ {
        (record.slots_locked@ - slots_elapsed(record, current_slot)) as u64
    } else {
        0
    }
}

/// The bytes of a record as it is written when tokens are locked: tag
/// present and set, then salt, admin, mint, decimals, token account, the
/// slot of the lock and its duration in little-endian order, and 32 zero
/// bytes.
pub open spec fn vault_record(
    bump: u8,
    admin: Pubkey,
    mint: Pubkey,
    mint_decimals: u8,
    vault_token: Pubkey,
    start_slot: u64,
    slots_locked: u64,
) -> Seq<u8> {
    seq![1u8, 1u8, bump] + admin@ + mint@ + seq![mint_decimals] + vault_token@ + le_bytes(
        start_slot as nat,
        8,
    ) + le_bytes(slots_locked as nat, 8) + zeros(32)
}

/// Why a vault account fails its checks, once the address that its record
/// derives is known; `None` where it passes them all. The checks run in
/// this order, and the first that fails decides: the account is owned by
/// the program; it is writable where that is asked; its data has the size
/// of a record and holds a written one; the record derives an address, and
/// it is the account's own; the admin, where one is given, has signed and
/// is the record's admin; the mint and the token account, where given, are
/// the record's.
pub open spec fn spec_check_refusal(
    program_id: &Pubkey,
    account_info: &Account,
    expect_writable: bool,
    check_admin: Option<&Account>,
    check_mint: Option<&Account>,
    check_token: Option<&Account>,
    address: Option<Pubkey>,
) -> Option<Refusal> {
    let record = Vault::parse(account_info.data@);
    if account_info.owner != *program_id {
        refused(Check::VaultOwner, Values::Keys(account_info.owner, *program_id))
    } else if expect_writable && !account_info.is_writable {
        refused(Check::VaultWritable, Values::Key(account_info.key))
    } else if account_info.data@.len() != Vault::LEN {
        refused(Check::RecordSize, Values::Numbers(account_info.data@.len() as u64, 148))
    } else if !record.initialized() {
        refused(Check::RecordWritten, Values::Key(account_info.key))
    } else if address is None {
        refused(Check::VaultDerivation, Values::Number(record.bump as u64))
    } else if account_info.key != address->0 {
        refused(Check::VaultAddress, Values::Keys(account_info.key, address->0))
    } else if check_admin is Some && spec_load_signer(check_admin->0, false) is Err {
        refused(Check::AdminSignature, Values::Key(check_admin->0.key))
    } else if check_admin is Some && record.admin != check_admin->0.key {
        refused(Check::RecordAdmin, Values::Keys(check_admin->0.key, record.admin))
    } else if check_mint is Some && record.mint != check_mint->0.key {
        refused(Check::RecordMint, Values::Keys(check_mint->0.key, record.mint))
    } else if check_token is Some && record.vault_token != check_token->0.key {
        refused(Check::RecordToken, Values::Keys(check_token->0.key, record.vault_token))
    } else {
        None
    }
}

/// What the checks on a vault account give: the error of the first check
/// that fails, as `spec_check_refusal` names it.
pub open spec fn spec_check(
    program_id: &Pubkey,
    account_info: &Account,
    expect_writable: bool,
    check_admin: Option<&Account>,
    check_mint: Option<&Account>,
    check_token: Option<&Account>,
    address: Option<Pubkey>,
) -> Result<(), VaultError> {
    match spec_check_refusal(
        program_id,
        account_info,
        expect_writable,
        check_admin,
        check_mint,
        check_token,
        address,
    ) {
        Some(refusal) => Err(refusal.check.spec_error()),
        None => Ok(()),
    }
}

/// The vault passes its checks exactly where everything that is asked of
/// it holds: the program owns it, it is writable where asked, its data is a
/// written record whose derived address is its own, the admin has signed
/// and is the record's, and mint and token account are the record's.
/// Nothing else is asked; the admin need not be writable.
pub proof fn lemma_check_accepts(
    program_id: &Pubkey,
    account_info: &Account,
    expect_writable: bool,
    check_admin: Option<&Account>,
    check_mint: Option<&Account>,
    check_token: Option<&Account>,
)
    ensures
        spec_check(
            program_id,
            account_info,
            expect_writable,
            check_admin,
            check_mint,
            check_token,
            record_address(*program_id, account_info.data@),
        ) is Ok <==> {
            let record = Vault::parse(account_info.data@);
            &&& account_info.owner == *program_id
            &&& expect_writable ==> account_info.is_writable
            &&& account_info.data@.len() == 148
            &&& record.initialized()
            &&& spec_create_program_address(*program_id, record.admin, record.mint, record.bump)
                == Ok::<Pubkey, VaultError>(account_info.key)
            &&& check_admin is Some ==> check_admin->0.is_signer && check_admin->0.key
                == record.admin
            &&& check_mint is Some ==> check_mint->0.key == record.mint
            &&& check_token is Some ==> check_token->0.key == record.vault_token
        },
{
}

/// Whether the lock period of a record is over at `current_slot`.
pub open spec fn spec_unlock_allowed(record: Vault, current_slot: u64) -> Result<(), VaultError> {
    if slots_elapsed(record, current_slot) < record.slots_locked@ {
        Err(VaultError::Custom(DiamondHandsError::VaultLocked))
    } else {
        Ok(())
    }
}

/// A record as it is written when tokens are locked has the size of the
/// record and decodes to a written record with the fields that went in.
pub proof fn lemma_vault_record_loads(
    bump: u8,
    admin: Pubkey,
    mint: Pubkey,
    mint_decimals: u8,
    vault_token: Pubkey,
    start_slot: u64,
    slots_locked: u64,
)
    ensures
        vault_record(bump, admin, mint, mint_decimals, vault_token, start_slot, slots_locked).len()
            == 148,
        ({
            let record = Vault::parse(
                vault_record(bump, admin, mint, mint_decimals, vault_token, start_slot, slots_locked),
            );
            &&& record.initialized()
            &&& record.discriminator@ == Some(1u8)
            &&& record.bump == bump
            &&& record.admin == admin
            &&& record.mint == mint
            &&& record.mint_decimals == mint_decimals
            &&& record.vault_token == vault_token
            &&& record.start_slot@ == start_slot
            &&& record.slots_locked@ == slots_locked
            &&& record.reserved@ == zeros(32)
        }),
{
    let written = written_record(
        bump,
        admin,
        mint,
        mint_decimals,
        vault_token,
        start_slot,
        slots_locked,
    );
    lemma_written_record_layout(
        bump,
        admin,
        mint,
        mint_decimals,
        vault_token,
        start_slot,
        slots_locked,
    );
    PodOption::<u8>::lemma_raw(1, 1);
    Vault::lemma_layout_len(written);
    Vault::lemma_parse_layout(written);
    Vault::lemma_len();
    crate::pod::integers::lemma_le_array8(start_slot);
    crate::pod::integers::lemma_le_array8(slots_locked);
    assert(written.reserved@ =~= zeros(32));
}

/// The record that a lock writes, as a value.
pub open spec fn written_record(
    bump: u8,
    admin: Pubkey,
    mint: Pubkey,
    mint_decimals: u8,
    vault_token: Pubkey,
    start_slot: u64,
    slots_locked: u64,
) -> Vault {
    Vault {
        discriminator: PodOption::<u8>::raw(1, 1),
        bump,
        admin,
        mint,
        mint_decimals,
        vault_token,
        start_slot: PodU64 { data: crate::pod::integers::le_array8(start_slot) },
        slots_locked: PodU64 { data: crate::pod::integers::le_array8(slots_locked) },
        reserved: <[u8; 32]>::parse(zeros(32)),
    }
}

/// The layout of the record that a lock writes is `vault_record`.
proof fn lemma_written_record_layout(
    bump: u8,
    admin: Pubkey,
    mint: Pubkey,
    mint_decimals: u8,
    vault_token: Pubkey,
    start_slot: u64,
    slots_locked: u64,
)
    ensures
        written_record(bump, admin, mint, mint_decimals, vault_token, start_slot, slots_locked).wf(),
        written_record(
            bump,
            admin,
            mint,
            mint_decimals,
            vault_token,
            start_slot,
            slots_locked,
        ).layout() == vault_record(
            bump,
            admin,
            mint,
            mint_decimals,
            vault_token,
            start_slot,
            slots_locked,
        ),
{
    let written = written_record(
        bump,
        admin,
        mint,
        mint_decimals,
        vault_token,
        start_slot,
        slots_locked,
    );
    PodOption::<u8>::lemma_raw(1, 1);
    crate::pod::integers::lemma_le_array8(start_slot);
    crate::pod::integers::lemma_le_array8(slots_locked);
    assert(written.discriminator.layout() =~= seq![1u8, 1u8]);
    assert(written.reserved@ =~= zeros(32));
    assert(written.layout() =~= vault_record(
        bump,
        admin,
        mint,
        mint_decimals,
        vault_token,
        start_slot,
        slots_locked,
    ));
}

/// A vault that was locked in slot `start_slot` for `slots_locked` slots
/// may be emptied in exactly the slots that lie at least `slots_locked`
/// after `start_slot`.
pub proof fn lemma_unlock_after_lock(
    bump: u8,
    admin: Pubkey,
    mint: Pubkey,
    mint_decimals: u8,
    vault_token: Pubkey,
    start_slot: u64,
    slots_locked: u64,
    current_slot: u64,
)
    ensures
        spec_unlock_allowed(
            Vault::parse(
                vault_record(bump, admin, mint, mint_decimals, vault_token, start_slot, slots_locked),
            ),
            current_slot,
        ) is Ok <==> (slots_locked == 0 || current_slot - start_slot >= slots_locked),
        spec_unlock_allowed(
            Vault::parse(
                vault_record(bump, admin, mint, mint_decimals, vault_token, start_slot, slots_locked),
            ),
            current_slot,
        ) is Err ==> spec_unlock_allowed(
            Vault::parse(
                vault_record(bump, admin, mint, mint_decimals, vault_token, start_slot, slots_locked),
            ),
            current_slot,
        ) == Err::<(), VaultError>(VaultError::Custom(DiamondHandsError::VaultLocked)),
{
    lemma_vault_record_loads(bump, admin, mint, mint_decimals, vault_token, start_slot, slots_locked);
}

/// Deriving a vault's address is a function of program, admin, mint and
/// salt: two derivations from the same inputs give the same result, be it
/// an address or the refusal of the seeds.
pub proof fn lemma_derivation_repeats(
    program_id: Pubkey,
    admin: Pubkey,
    mint: Pubkey,
    bump: u8,
    first: Result<Pubkey, VaultError>,
    second: Result<Pubkey, VaultError>,
)
    requires
        first == spec_create_program_address(program_id, admin, mint, bump),
        second == spec_create_program_address(program_id, admin, mint, bump),
    ensures
        first == second,
{
}

/// The seed lists that `check_seeds` accepts for an admin, a mint and a
/// salt are exactly those that hold the seeds of the vault's address, and
/// so derive what `create_program_address` derives from the three; every
/// other list is refused.
pub proof fn lemma_accepted_seeds_derive_the_address(
    program_id: Pubkey,
    admin: Pubkey,
    mint: Pubkey,
    bump: u8,
    seeds: Vec<Vec<u8>>,
    verdict: Result<(), VaultError>,
)
    requires
        verdict is Ok <==> seed_list(&seeds) == vault_seeds(admin, mint, bump),
    ensures
        verdict is Ok ==> program_address(seed_list(&seeds), program_id@) == derived_vault_address(
            program_id,
            admin,
            mint,
            bump,
        ),
        verdict is Ok ==> seeds@.len() == 4 && seeds@[0]@ == Vault::SEED@ && seeds@[1]@ == admin@
            && seeds@[2]@ == mint@ && seeds@[3]@ == seq![bump],
        (seeds@.len() != 4 || seeds@[0]@ != Vault::SEED@ || seeds@[1]@ != admin@ || seeds@[2]@
            != mint@ || seeds@[3]@ != seq![bump]) ==> verdict is Err,
{
    let expected = vault_seeds(admin, mint, bump);
    let given = seed_list(&seeds);
    assert(expected.len() == 4 && expected[0] == Vault::SEED@ && expected[1] == admin@
        && expected[2] == mint@ && expected[3] == seq![bump]);
    if seeds@.len() == 4 {
        assert(given[0] == seeds@[0]@ && given[1] == seeds@[1]@ && given[2] == seeds@[2]@
            && given[3] == seeds@[3]@);
    }
}

impl Vault {
    /// The label that starts the seeds of every vault address: `VAULT`.
    pub const SEED: [u8; 5] = [86, 65, 85, 76, 84];

    /// The size of the record and its type tag.
    pub proof fn lemma_len()
        ensures
            Self::LEN == 148,
            Self::DISCRIMINATOR == 1,
    {
    }

    /// The seeds of the vault's address, in the form in which a signature
    /// by the vault is asked for.
    pub fn vault_seed_with_bump(admin: &Pubkey, mint: &Pubkey, bump: u8) -> (r: Vec<Vec<u8>>)
        ensures
            seed_list(&r) == vault_seeds(*admin, *mint, bump),
    {
        let label = Self::SEED;
        let bump_bytes = [bump];
        let mut r: Vec<Vec<u8>> = Vec::new();
        r.push(vstd::slice::slice_to_vec(label.as_slice()));
        r.push(vstd::slice::slice_to_vec(admin.as_slice()));
        r.push(vstd::slice::slice_to_vec(mint.as_slice()));
        r.push(vstd::slice::slice_to_vec(bump_bytes.as_slice()));
        proof {
            assert(bump_bytes@ =~= seq![bump]);
            assert(seed_list(&r) =~= vault_seeds(*admin, *mint, bump));
        }
        r
    }

    /// Derives the address of the vault of `admin` for `mint` with salt
    /// `bump`. The same inputs always give the same address.
    pub fn create_program_address(program_id: &Pubkey, admin: &Pubkey, mint: &Pubkey, bump: u8) -> (r:
        Result<Pubkey, VaultError>)
        ensures
            r == spec_create_program_address(*program_id, *admin, *mint, bump),
            r matches Ok(address) ==> derived_vault_address(*program_id, *admin, *mint, bump) == Some(
                address@,
            ),
    {
        let bump_bytes = [bump];
        let label = Self::SEED;
        proof {
            assert(bump_bytes@ =~= seq![bump]);
        }
        match derive_program_address(
            label.as_slice(),
            admin.as_slice(),
            mint.as_slice(),
            bump_bytes.as_slice(),
            program_id,
        ) {
            Some(address) => {
                proof {
                    <[u8; 32]>::lemma_parse_layout(address);
                }
                Ok(address)
            },
            None => Err(VaultError::InvalidSeeds),
        }
    }

    /// Checks a seed list against the seeds of the vault's address, byte
    /// for byte: it is accepted only if it has exactly the four seeds, each
    /// exactly as derived from admin, mint and salt.
    pub fn check_seeds(admin: &Pubkey, mint: &Pubkey, bump: u8, seeds: &Vec<Vec<u8>>) -> (r: Result<
        (),
        VaultError,
    >)
        ensures
            r is Ok <==> seed_list(seeds) == vault_seeds(*admin, *mint, bump),
            r is Err ==> r == Err::<(), VaultError>(VaultError::SeedMismatch),
    {
        let bump_bytes = [bump];
        let label = Self::SEED;
        proof {
            assert(bump_bytes@ =~= seq![bump]);
        }
        let ghost expected = vault_seeds(*admin, *mint, bump);
        let ghost given = seed_list(seeds);
        proof {
            assert(expected.len() == 4 && given.len() == seeds@.len());
            assert(expected[0] == label@ && expected[1] == admin@ && expected[2] == mint@
                && expected[3] == bump_bytes@);
        }
        if seeds.len() != 4 {
            return Err(VaultError::SeedMismatch);
        }
        proof {
            assert(given[0] == seeds@[0]@ && given[1] == seeds@[1]@ && given[2] == seeds@[2]@
                && given[3] == seeds@[3]@);
        }
        if !bytes_eq(seeds[0].as_slice(), label.as_slice()) {
            return Err(VaultError::SeedMismatch);
        }
        if !bytes_eq(seeds[1].as_slice(), admin.as_slice()) {
            return Err(VaultError::SeedMismatch);
        }
        if !bytes_eq(seeds[2].as_slice(), mint.as_slice()) {
            return Err(VaultError::SeedMismatch);
        }
        if !bytes_eq(seeds[3].as_slice(), bump_bytes.as_slice()) {
            return Err(VaultError::SeedMismatch);
        }
        proof {
            assert(given =~= expected);
        }
        Ok(())
    }

    /// Checks a vault account of a request against its record and against
    /// the other accounts of the request, as `spec_check` says.
    pub fn check(
        program_id: &Pubkey,
        account_info: &Account,
        expect_writable: bool,
        check_admin: Option<&Account>,
        check_mint: Option<&Account>,
        check_token: Option<&Account>,
    ) -> (r: Result<(), VaultError>)
        ensures
            r == spec_check(
                program_id,
                account_info,
                expect_writable,
                check_admin,
                check_mint,
                check_token,
                record_address(*program_id, account_info.data@),
            ),
    {
        let address = Self::derive_record_address(program_id, account_info);
        Self::check_with_address(
            program_id,
            account_info,
            expect_writable,
            check_admin,
            check_mint,
            check_token,
            address,
        )
    }

    /// Derives the address of the record in the account's data, where the
    /// data has the size of a record.
    pub fn derive_record_address(program_id: &Pubkey, account_info: &Account) -> (r: Option<Pubkey>)
        ensures
            account_info.data@.len() == Self::LEN ==> r == record_address(
                *program_id,
                account_info.data@,
            ),
    {
        match load_account_unchecked::<Vault>(account_info.data.as_slice()) {
            Ok(record) => match Self::create_program_address(
                program_id,
                &record.admin,
                &record.mint,
                record.bump,
            ) {
                Ok(address) => Some(address),
                Err(_) => None,
            },
            Err(_) => None,
        }
    }

    /// The checks of `check`, with the address that the record derives
    /// handed in.
    pub fn check_with_address(
        program_id: &Pubkey,
        account_info: &Account,
        expect_writable: bool,
        check_admin: Option<&Account>,
        check_mint: Option<&Account>,
        check_token: Option<&Account>,
        address: Option<Pubkey>,
    ) -> (r: Result<(), VaultError>)
        ensures
            r == spec_check(
                program_id,
                account_info,
                expect_writable,
                check_admin,
                check_mint,
                check_token,
                address,
            ),
    {
        match Self::check_refusal(
            program_id,
            account_info,
            expect_writable,
            check_admin,
            check_mint,
            check_token,
            address,
        ) {
            Some(refusal) => Err(refusal.check.error()),
            None => Ok(()),
        }
    }

    /// Which check of `check` fails first, and on which values; `None`
    /// where the vault passes them all.
    pub fn check_refusal(
        program_id: &Pubkey,
        account_info: &Account,
        expect_writable: bool,
        check_admin: Option<&Account>,
        check_mint: Option<&Account>,
        check_token: Option<&Account>,
        address: Option<Pubkey>,
    ) -> (r: Option<Refusal>)
        ensures
            r == spec_check_refusal(
                program_id,
                account_info,
                expect_writable,
                check_admin,
                check_mint,
                check_token,
                address,
            ),
    {
        if !pubkey_eq(&account_info.owner, program_id) {
            return Some(
                Refusal {
                    check: Check::VaultOwner,
                    values: Values::Keys(account_info.owner, *program_id),
                },
            );
        }
        if expect_writable && !account_info.is_writable {
            return Some(
                Refusal { check: Check::VaultWritable, values: Values::Key(account_info.key) },
            );
        }
        let account = match load_account_unchecked::<Vault>(account_info.data.as_slice()) {
            Ok(account) => account,
            Err(_) => {
                return Some(
                    Refusal {
                        check: Check::RecordSize,
                        values: Values::Numbers(account_info.data.len() as u64, 148),
                    },
                );
            },
        };
        if !account.is_initialized() {
            return Some(
                Refusal { check: Check::RecordWritten, values: Values::Key(account_info.key) },
            );
        }
        let account_key = match address {
            Some(account_key) => account_key,
            None => {
                return Some(
                    Refusal {
                        check: Check::VaultDerivation,
                        values: Values::Number(account.bump as u64),
                    },
                );
            },
        };
        if !pubkey_eq(&account_info.key, &account_key) {
            return Some(
                Refusal {
                    check: Check::VaultAddress,
                    values: Values::Keys(account_info.key, account_key),
                },
            );
        }
        if let Some(admin) = check_admin {
            if load_signer(admin, false).is_err() {
                return Some(
                    Refusal { check: Check::AdminSignature, values: Values::Key(admin.key) },
                );
            }
            if !pubkey_eq(&account.admin, &admin.key) {
                return Some(
                    Refusal {
                        check: Check::RecordAdmin,
                        values: Values::Keys(admin.key, account.admin),
                    },
                );
            }
        }
        if let Some(mint) = check_mint {
            if !pubkey_eq(&account.mint, &mint.key) {
                return Some(
                    Refusal {
                        check: Check::RecordMint,
                        values: Values::Keys(mint.key, account.mint),
                    },
                );
            }
        }
        if let Some(token) = check_token {
            if !pubkey_eq(&account.vault_token, &token.key) {
                return Some(
                    Refusal {
                        check: Check::RecordToken,
                        values: Values::Keys(token.key, account.vault_token),
                    },
                );
            }
        }
        None
    }

    /// Whether the vault may be emptied at `current_slot`: the slots that
    /// have passed since the lock, counted without wrapping, are at least
    /// the slots that were locked.
    pub fn unlock_allowed(&self, current_slot: u64) -> (r: Result<(), VaultError>)
        ensures
            r == spec_unlock_allowed(*self, current_slot),
    {
        let slots_elapsed: u64 = current_slot.saturating_sub(self.start_slot.get());
        if slots_elapsed < self.slots_locked.get() {
            return Err(VaultError::Custom(DiamondHandsError::VaultLocked));
        }
        Ok(())
    }

    /// How many slots still have to pass before the vault may be emptied.
    pub fn remaining_slots(&self, current_slot: u64) -> (r: u64)
        ensures
            r == slots_remaining(*self, current_slot),
    {
        let slots_elapsed: u64 = current_slot.saturating_sub(self.start_slot.get());
        self.slots_locked.get().saturating_sub(slots_elapsed)
    }

    /// Whether the vault in the account may be emptied at `current_slot`.
    /// The record is read whether or not it was written.
    pub fn check_unlock_okay(account_info: &Account, current_slot: u64) -> (r: Result<
        (),
        VaultError,
    >)
        ensures
            r == (match spec_load_account_unchecked::<Vault>(account_info.data@) {
                Ok(record) => spec_unlock_allowed(record, current_slot),
                Err(e) => Err(e),
            }),
    {
        let account = load_account_unchecked::<Vault>(account_info.data.as_slice())?;
        account.unlock_allowed(current_slot)
    }

    /// Writes the record of a new lock into the account's data. The data
    /// must have the size of the record and must not hold a written record
    /// yet; on an error nothing is changed.
    pub fn initialize(
        account_info: &mut Account,
        admin: &Pubkey,
        mint: &Pubkey,
        ix_data: &LockVaultIxData,
        vault_token: &Pubkey,
        mint_decimals: u8,
        now_slot: u64,
    ) -> (r: Result<(), VaultError>)
        ensures
            final(account_info).key == old(account_info).key,
            final(account_info).owner == old(account_info).owner,
            final(account_info).is_signer == old(account_info).is_signer,
            final(account_info).is_writable == old(account_info).is_writable,
            final(account_info).lamports == old(account_info).lamports,
            r is Ok <==> old(account_info).data@.len() == Self::LEN && !Self::parse(
                old(account_info).data@,
            ).initialized(),
            r is Ok ==> final(account_info).data@ == vault_record(
                ix_data.vault_bump,
                *admin,
                *mint,
                mint_decimals,
                *vault_token,
                now_slot,
                ix_data.slots_to_lock@,
            ),
            r is Err ==> final(account_info).data@ == old(account_info).data@,
            final(account_info).data@.len() == old(account_info).data@.len(),
            r matches Err(e) ==> e == (if old(account_info).data@.len() != Self::LEN {
                VaultError::SizeMismatch
            } else {
                VaultError::AlreadyInitialized
            }),
    {
        let account = load_account_unchecked::<Vault>(account_info.data.as_slice())?;
        if account.is_initialized() {
            return Err(VaultError::AlreadyInitialized);
        }
        let record = Vault {
            discriminator: PodOption::some(1),
            bump: ix_data.vault_bump,
            admin: *admin,
            mint: *mint,
            mint_decimals,
            vault_token: *vault_token,
            start_slot: PodU64::from(now_slot),
            slots_locked: ix_data.slots_to_lock,
            reserved: [0u8; 32],
        };
        let bytes = crate::utils::to_bytes::<Vault>(&record);
        proof {
            lemma_pod_lens();
            Vault::lemma_layout_len(record);
            crate::pod::lemma_le_bytes_of_value(ix_data.slots_to_lock.data@);
            crate::pod::lemma_le_value_bound(ix_data.slots_to_lock.data@);
            crate::pod::lemma_pow256_widths();
            assert(record.layout() =~= vault_record(
                ix_data.vault_bump,
                *admin,
                *mint,
                mint_decimals,
                *vault_token,
                now_slot,
                ix_data.slots_to_lock@,
            ));
        }
        account_info.data = bytes;
        Ok(())
    }

    /// Closes the vault's account once its tokens are gone: every byte of
    /// its data is set to zero, and its balance goes to the admin, whose
    /// balance stops at the largest amount that can be held.
    pub fn close(account_info: &mut Account, admin: &mut Account)
        ensures
            final(account_info).key == old(account_info).key,
            final(account_info).owner == old(account_info).owner,
            final(account_info).is_signer == old(account_info).is_signer,
            final(account_info).is_writable == old(account_info).is_writable,
            final(account_info).lamports == 0,
            final(account_info).data@ == zeros(old(account_info).data@.len()),
            final(admin).key == old(admin).key,
            final(admin).owner == old(admin).owner,
            final(admin).is_signer == old(admin).is_signer,
            final(admin).is_writable == old(admin).is_writable,
            final(admin).data@ == old(admin).data@,
            final(admin).lamports == (if old(admin).lamports + old(account_info).lamports
                > u64::MAX {
                u64::MAX
            } else {
                (old(admin).lamports + old(account_info).lamports) as u64
            }),
    {
        admin.lamports = admin.lamports.saturating_add(account_info.lamports);
        account_info.lamports = 0;
        let n: usize = account_info.data.len();
        let mut i: usize = 0;
        while i < n
            invariant
                i <= n,
                n == account_info.data@.len(),
                account_info.key == old(account_info).key,
                account_info.owner == old(account_info).owner,
                account_info.is_signer == old(account_info).is_signer,
                account_info.is_writable == old(account_info).is_writable,
                account_info.lamports == 0,
                forall|j: int| 0 <= j < i ==> account_info.data@[j] == 0,
            decreases n - i,
        {
            account_info.data.set(i, 0);
            i += 1;
        }
        assert(account_info.data@ =~= zeros(old(account_info).data@.len()));
    }

    /// The type tag, where the record has one.
    pub fn discriminator(&self) -> (r: Option<&u8>)
        ensures
            r is Some <==> self.discriminator@ is Some,
            r is Some ==> *r->0 == self.discriminator@->0,
    {
        self.discriminator.as_ref()
    }

    pub fn bump(&self) -> (r: u8)
        ensures
            r == self.bump,
    {
        self.bump
    }

    pub fn admin(&self) -> (r: &Pubkey)
        ensures
            *r == self.admin,
    {
        &self.admin
    }

    pub fn mint(&self) -> (r: &Pubkey)
        ensures
            *r == self.mint,
    {
        &self.mint
    }

    pub fn vault_token(&self) -> (r: &Pubkey)
        ensures
            *r == self.vault_token,
    {
        &self.vault_token
    }

    pub fn start_slot(&self) -> (r: u64)
        ensures
            r == self.start_slot@,
    {
        self.start_slot.get()
    }

    pub fn slots_locked(&self) -> (r: u64)
        ensures
            r == self.slots_locked@,
    {
        self.slots_locked.get()
    }
}

} // verus!
