//! Deterministic addresses of the vault and pool accounts that a quote reads.
use crate::Address;
use vstd::prelude::*;

verus! {

/// Program id of the pool program.
pub const METEORA_DYN_PROGRAM_ID: &'static str = "Eo7WjKq67rjJQSZxS6z3YkapzY3eMj6Xy8X5EQVn5UaB";

/// Program id of the vault program.
pub const METEORA_DYN_VAULT_PROGRAM_ID: &'static str = "24Uqj9JCLxUeoC3hGfh5W3s9FM9uCHDS2SG3LYwBpyTi";

/// Base address in the seeds of every vault.
pub const METEORA_DYN_VAULT_BASE_ID: &'static str = "HWzXGcGHy4tcpYfaRDCyLNzXqBTv3E6BttpCH2vJxArv";

/// The 32 bytes that a base58 text denotes, if it denotes an address.
pub uninterp spec fn base58_address_of(text: Seq<char>) -> Option<Seq<u8>>;

/// The program-derived address of `seeds` under `program_id`, if one exists.
pub uninterp spec fn program_address_of(seeds: Seq<Seq<u8>>, program_id: Seq<u8>) -> Option<Seq<u8>>;

/// Relies on `Pubkey::from_str` (solana-pubkey): decodes base58 text into
/// the 32 bytes of an address, or fails; the result depends on the text alone.
#[verifier::external_body]
fn parse_address(text: &str) -> (r: Option<Address>)
    ensures
        match r {
            Some(a) => base58_address_of(text@) == Some(a@),
            None => base58_address_of(text@) is None,
        },
{
    match <solana_program::pubkey::Pubkey as std::str::FromStr>::from_str(text) {
        Ok(key) => Some(key.to_bytes()),
        Err(_) => None,
    }
}

/// Relies on `Pubkey::try_find_program_address` (solana-pubkey): the first
/// bump seed from 255 down whose hash of `seeds`, bump and program id lies
/// off the curve gives the address; `None` where no bump does, or where the
/// seeds are too many or too long. The result depends on the arguments alone.
#[verifier::external_body]
fn find_program_address(seeds: &[&[u8]], program_id: &Address) -> (r: Option<Address>)
    ensures
        match r {
            Some(a) => program_address_of(seeds.deep_view(), program_id@) == Some(a@),
            None => program_address_of(seeds.deep_view(), program_id@) is None,
        },
{
    let program = solana_program::pubkey::Pubkey::new_from_array(*program_id);
    match solana_program::pubkey::Pubkey::try_find_program_address(seeds, &program) {
        Some((key, _bump)) => Some(key.to_bytes()),
        None => None,
    }
}

/// Seed prefix of a vault's authority: `b"vault"`.
pub open spec fn vault_seed() -> Seq<u8> {
    seq![118u8, 97u8, 117u8, 108u8, 116u8]
}

/// Seed prefix of a vault's reserve token account: `b"token_vault"`.
pub open spec fn token_vault_seed() -> Seq<u8> {
    seq![116u8, 111u8, 107u8, 101u8, 110u8, 95u8, 118u8, 97u8, 117u8, 108u8, 116u8]
}

/// Seed prefix of a vault's share mint: `b"lp_mint"`.
pub open spec fn lp_mint_seed() -> Seq<u8> {
    seq![108u8, 112u8, 95u8, 109u8, 105u8, 110u8, 116u8]
}

/// The views of an optional address.
pub open spec fn opt_view(a: Option<Address>) -> Option<Seq<u8>> {
    match a {
        Some(x) => Some(x@),
        None => None,
    }
}

/// The share mint recorded for `vault_authority` in an override table: the
/// first entry whose key is that authority (the only one, where keys are
/// unique; see `lemma_override_unique_keys`).
pub open spec fn override_of(table: Seq<(Address, Address)>, vault_authority: Seq<u8>) -> Option<Seq<u8>>
    decreases table.len(),
{
    if table.len() == 0 {
        None
    } else if table[0].0@ == vault_authority {
        Some(table[0].1@)
    } else {
        override_of(table.drop_first(), vault_authority)
    }
}

/// In a table whose keys are unique, the override of an entry's key is that
/// entry's value: the first-match lookup is a map lookup.
pub proof fn lemma_override_unique_keys(table: Seq<(Address, Address)>, j: int)
    requires
        0 <= j < table.len(),
        forall|a: int, b: int| 0 <= a < b < table.len() ==> table[a].0@ != table[b].0@,
    ensures
        override_of(table, table[j].0@) == Some(table[j].1@),
    decreases table.len(),
{
    if j > 0 {
        let rest = table.drop_first();
        assert(table[0].0@ != table[j].0@);
        assert(rest[j - 1] == table[j]);
        assert forall|a: int, b: int| 0 <= a < b < rest.len() implies rest[a].0@ != rest[b].0@ by {
            assert(rest[a] == table[a + 1] && rest[b] == table[b + 1]);
        }
        lemma_override_unique_keys(rest, j - 1);
    }
}

/// The vault authority, reserve token account, share mint and the pool's
/// share account for the vault of `token_mint` in `pool`, in that order;
/// `None` if one of them cannot be derived.
pub open spec fn vault_accounts_of(
    token_mint: Seq<u8>,
    pool: Seq<u8>,
    table: Seq<(Address, Address)>,
    pool_program: Seq<u8>,
    vault_program: Seq<u8>,
    vault_base: Seq<u8>,
) -> Option<Seq<Seq<u8>>> {
    match program_address_of(seq![vault_seed(), token_mint, vault_base], vault_program) {
        None => None,
        Some(authority) => {
            let token_vault = program_address_of(seq![token_vault_seed(), authority], vault_program);
            let lp_mint = match override_of(table, authority) {
                Some(m) => Some(m),
                None => program_address_of(seq![lp_mint_seed(), authority], vault_program),
            };
            let pool_lp = program_address_of(seq![authority, pool], pool_program);
            if token_vault is Some && lp_mint is Some && pool_lp is Some {
                Some(seq![authority, token_vault->Some_0, lp_mint->Some_0, pool_lp->Some_0])
            } else {
                None
            }
        },
    }
}

/// Why the accounts of a quote could not be derived.
#[derive(Clone, Copy, Debug, PartialEq, Eq, Structural)]
pub enum DeriveError {
    /// A program id or base constant is not a valid base58 address.
    InvalidProgramId,
    /// No program-derived address exists for some seeds.
    NoViableAddress,
}

/// Addresses of the accounts that a quote reads, for both vaults of a pool.
#[derive(Clone, Copy)]
pub struct MeteoraAccounts {
    pub base_vault_authority: Address,
    pub quote_vault_authority: Address,
    pub base_token_vault: Address,
    pub quote_token_vault: Address,
    pub base_vault_lp_address: Address,
    pub quote_vault_lp_address: Address,
    pub base_vault_lp_mint_address: Address,
    pub quote_vault_lp_mint_address: Address,
}

/// Program ids and the vault base address, as bytes.
#[derive(Clone, Copy)]
pub struct ProgramIds {
    pub pool_program: Address,
    pub vault_program: Address,
    pub vault_base: Address,
}

/// The pool program, vault program and vault base, decoded from their base58 constants.
pub open spec fn program_ids_of() -> Option<(Seq<u8>, Seq<u8>, Seq<u8>)> {
    match (
        base58_address_of(METEORA_DYN_PROGRAM_ID@),
        base58_address_of(METEORA_DYN_VAULT_PROGRAM_ID@),
        base58_address_of(METEORA_DYN_VAULT_BASE_ID@),
    ) {
        (Some(p), Some(v), Some(b)) => Some((p, v, b)),
        _ => None,
    }
}

/// Decode the program ids and the vault base address.
pub fn program_ids() -> (r: Option<ProgramIds>)
    ensures
        match r {
            Some(ids) => program_ids_of() == Some((ids.pool_program@, ids.vault_program@, ids.vault_base@)),
            None => program_ids_of() is None,
        },
{
    let pool_program = parse_address(METEORA_DYN_PROGRAM_ID);
    let vault_program = parse_address(METEORA_DYN_VAULT_PROGRAM_ID);
    let vault_base = parse_address(METEORA_DYN_VAULT_BASE_ID);
    match (pool_program, vault_program, vault_base) {
        (Some(pool_program), Some(vault_program), Some(vault_base)) => Some(
            ProgramIds { pool_program, vault_program, vault_base },
        ),
        _ => None,
    }
}

/// Look `vault_authority` up in an override table of share mints.
pub fn lookup_lp_mint_override(table: &Vec<(Address, Address)>, vault_authority: &Address) -> (r: Option<Address>)
    ensures
        opt_view(r) == override_of(table@, vault_authority@),
{
    let mut i: usize = 0;
    assert(table@.subrange(0, table@.len() as int) =~= table@);
    while i < table.len()
        invariant
            0 <= i <= table@.len(),
            override_of(table@, vault_authority@) == override_of(table@.subrange(i as int, table@.len() as int), vault_authority@),
        decreases table@.len() - i,
    {
        let entry = &table[i];
        let ghost rest = table@.subrange(i as int, table@.len() as int);
        assert(rest[0] == table@[i as int]);
        if crate::same_address(&entry.0, vault_authority) {
            return Some(entry.1);
        }
        assert(rest.drop_first() =~= table@.subrange(i + 1, table@.len() as int));
        i = i + 1;
    }
    None
}

/// The deep view of a list of byte seeds is the list of their views.
proof fn lemma_seeds_deep_view(seeds: &[&[u8]])
    ensures
        seeds.deep_view().len() == seeds@.len(),
        forall|j: int| 0 <= j < seeds@.len() ==> seeds.deep_view()[j] == seeds@[j]@,
{
    assert forall|j: int| 0 <= j < seeds@.len() implies seeds.deep_view()[j] == seeds@[j]@ by {
        assert(seeds@[j].deep_view() =~= seeds@[j]@);
    }
}

/// Derive the four addresses of the vault of `token_mint` in `pool_address`.
fn derive_vault_accounts(
    token_mint: &Address,
    pool_address: &Address,
    table: &Vec<(Address, Address)>,
    ids: &ProgramIds,
) -> (r: Option<(Address, Address, Address, Address)>)
    ensures
        match r {
            Some((authority, token_vault, lp_mint, pool_lp)) => vault_accounts_of(
                token_mint@,
                pool_address@,
                table@,
                ids.pool_program@,
                ids.vault_program@,
                ids.vault_base@,
            ) == Some(seq![authority@, token_vault@, lp_mint@, pool_lp@]),
            None => vault_accounts_of(
                token_mint@,
                pool_address@,
                table@,
                ids.pool_program@,
                ids.vault_program@,
                ids.vault_base@,
            ) is None,
        },
{
    // b"vault"
    let vault_prefix: Vec<u8> = vec![118u8, 97u8, 117u8, 108u8, 116u8];
    let seed_array: [&[u8]; 3] = [vault_prefix.as_slice(), token_mint.as_slice(), ids.vault_base.as_slice()];
    let seeds = seed_array.as_slice();
    proof {
        lemma_seeds_deep_view(seeds);
        assert(seeds@[0]@ =~= vault_seed());
        assert(seeds.deep_view() =~= seq![vault_seed(), token_mint@, ids.vault_base@]);
    }
    let authority = match find_program_address(seeds, &ids.vault_program) {
        Some(a) => a,
        None => return None,
    };
    // b"token_vault"
    let token_vault_prefix: Vec<u8> = vec![116u8, 111u8, 107u8, 101u8, 110u8, 95u8, 118u8, 97u8, 117u8, 108u8, 116u8];
    let seed_array: [&[u8]; 2] = [token_vault_prefix.as_slice(), authority.as_slice()];
    let seeds = seed_array.as_slice();
    proof {
        lemma_seeds_deep_view(seeds);
        assert(seeds@[0]@ =~= token_vault_seed());
        assert(seeds.deep_view() =~= seq![token_vault_seed(), authority@]);
    }
    let token_vault = find_program_address(seeds, &ids.vault_program);
    let lp_mint = match lookup_lp_mint_override(table, &authority) {
        Some(m) => Some(m),
        None => {
            // b"lp_mint"
            let lp_mint_prefix: Vec<u8> = vec![108u8, 112u8, 95u8, 109u8, 105u8, 110u8, 116u8];
            let seed_array: [&[u8]; 2] = [lp_mint_prefix.as_slice(), authority.as_slice()];
            let seeds = seed_array.as_slice();
            proof {
                lemma_seeds_deep_view(seeds);
                assert(seeds@[0]@ =~= lp_mint_seed());
                assert(seeds.deep_view() =~= seq![lp_mint_seed(), authority@]);
            }
            find_program_address(seeds, &ids.vault_program)
        },
    };
    let seed_array: [&[u8]; 2] = [authority.as_slice(), pool_address.as_slice()];
    let seeds = seed_array.as_slice();
    proof {
        lemma_seeds_deep_view(seeds);
        assert(seeds.deep_view() =~= seq![authority@, pool_address@]);
    }
    let pool_lp = find_program_address(seeds, &ids.pool_program);
    match (token_vault, lp_mint, pool_lp) {
        (Some(token_vault), Some(lp_mint), Some(pool_lp)) => Some((authority, token_vault, lp_mint, pool_lp)),
        _ => None,
    }
}

/// Derive the addresses of the accounts that a quote on `pool_address` reads:
/// for each of the pool's mints, its vault's authority, reserve token
/// account, share mint (from `lp_mint_overrides` where the authority is
/// listed there) and the pool's share account.
pub fn get_all_accounts_for_quote(
    token_in: Address,
    token_out: Address,
    pool_address: Address,
    lp_mint_overrides: &Vec<(Address, Address)>,
) -> (r: Result<MeteoraAccounts, DeriveError>)
    ensures
        match program_ids_of() {
            None => r == Err::<MeteoraAccounts, DeriveError>(DeriveError::InvalidProgramId),
            Some((pool_program, vault_program, vault_base)) => {
                let base = vault_accounts_of(token_in@, pool_address@, lp_mint_overrides@, pool_program, vault_program, vault_base);
                let quote = vault_accounts_of(token_out@, pool_address@, lp_mint_overrides@, pool_program, vault_program, vault_base);
                match r {
                    Ok(acc) => base == Some(
                        seq![
                            acc.base_vault_authority@,
                            acc.base_token_vault@,
                            acc.base_vault_lp_mint_address@,
                            acc.base_vault_lp_address@,
                        ],
                    ) && quote == Some(
                        seq![
                            acc.quote_vault_authority@,
                            acc.quote_token_vault@,
                            acc.quote_vault_lp_mint_address@,
                            acc.quote_vault_lp_address@,
                        ],
                    ),
                    Err(e) => e == DeriveError::NoViableAddress && (base is None || quote is None),
                }
            },
        },
{
    let ids = match program_ids() {
        Some(ids) => ids,
        None => return Err(DeriveError::InvalidProgramId),
    };
    let base = derive_vault_accounts(&token_in, &pool_address, lp_mint_overrides, &ids);
    let quote = derive_vault_accounts(&token_out, &pool_address, lp_mint_overrides, &ids);
    match (base, quote) {
        (
            Some((base_vault_authority, base_token_vault, base_vault_lp_mint_address, base_vault_lp_address)),
            Some((quote_vault_authority, quote_token_vault, quote_vault_lp_mint_address, quote_vault_lp_address)),
        ) => Ok(
            MeteoraAccounts {
                base_vault_authority,
                quote_vault_authority,
                base_token_vault,
                quote_token_vault,
                base_vault_lp_address,
                quote_vault_lp_address,
                base_vault_lp_mint_address,
                quote_vault_lp_mint_address,
            },
        ),
        _ => Err(DeriveError::NoViableAddress),
    }
}

} // verus!
