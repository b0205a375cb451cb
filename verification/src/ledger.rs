//! A model of the host ledger: the accounts the gateway touches and the two
//! value-transfer primitives it consumes.
//!
//! Every account is addressed by a `u64` identity and carries a native
//! balance (`lamports`), the program that owns it, and its data: nothing for
//! a plain wallet, the `{mint, authority, balance}` triple of a
//! fungible-token account, or the declared decimal precision of a mint.
//! An identity that is absent from the map reads as an empty wallet, so the
//! native balance is total over identities.
//!
//! The two primitives mirror the host's: a native transfer that enforces
//! payer solvency, and a checked token transfer that additionally enforces
//! decimal-precision matching and the paying account's authority. Both are
//! all-or-nothing: on any error the ledger is unchanged.

use std::collections::HashMap;
use vstd::prelude::*;

use crate::errors::ErrorCode;

verus! {

broadcast use vstd::std_specs::hash::group_hash_axioms;

/// Identity of the host's native program: owner of plain wallet accounts,
/// and — following the host convention — the reserved sentinel asset id that
/// selects the native-currency transfer path.
pub const SYSTEM_PROGRAM_ID: u64 = 0;

/// Identity of the recognized token-standard program. Token accounts and
/// mints are usable only when this program owns them.
pub const TOKEN_PROGRAM_ID: u64 = 1;

/// What an account's data holds.
#[derive(Clone, Copy, Debug, PartialEq, Eq, Structural)]
pub enum AccountData {
    /// No data: a plain wallet, only the native balance is meaningful.
    Wallet,
    /// A fungible-token account: which asset it holds, who may spend from
    /// it, and how many base units it holds.
    Token { mint: u64, authority: u64, balance: u64 },
    /// The metadata record of a fungible-token kind.
    Mint { decimals: u8 },
}

/// One ledger account.
#[derive(Clone, Copy, Debug, PartialEq, Eq, Structural)]
pub struct Account {
    /// The program that owns the account.
    pub owner_program: u64,
    /// Native-currency balance.
    pub lamports: u64,
    /// The account's data.
    pub data: AccountData,
}

/// The accounts of the host ledger, keyed by identity.
pub struct Ledger {
    accounts: HashMap<u64, Account>,
}

impl View for Ledger {
    type V = Map<u64, Account>;

    closed spec fn view(&self) -> Map<u64, Account> {
        self.accounts@
    }
}

/// The account stored under `id`; an absent identity reads as an empty
/// wallet.
pub open spec fn stored_account(m: Map<u64, Account>, id: u64) -> Account {
    if m.contains_key(id) {
        m[id]
    } else {
        Account { owner_program: SYSTEM_PROGRAM_ID, lamports: 0, data: AccountData::Wallet }
    }
}

/// Native balance of `id`; 0 for an absent identity.
pub open spec fn native_balance(m: Map<u64, Account>, id: u64) -> u64 {
    stored_account(m, id).lamports
}

/// `id` is a usable mint record: present, owned by the token program, and
/// shaped as mint metadata.
pub open spec fn is_mint_account(m: Map<u64, Account>, id: u64) -> bool {
    m.contains_key(id) && m[id].owner_program == TOKEN_PROGRAM_ID && m[id].data is Mint
}

/// `id` is a usable token account: present, owned by the token program, and
/// shaped as token-account data.
pub open spec fn is_token_account(m: Map<u64, Account>, id: u64) -> bool {
    m.contains_key(id) && m[id].owner_program == TOKEN_PROGRAM_ID && m[id].data is Token
}

/// The asset a token account declares (0 if `id` is not one).
pub open spec fn token_account_mint(m: Map<u64, Account>, id: u64) -> u64 {
    match stored_account(m, id).data {
        AccountData::Token { mint, .. } => mint,
        _ => 0,
    }
}

/// The authority that may spend from a token account (0 if `id` is not one).
pub open spec fn token_account_authority(m: Map<u64, Account>, id: u64) -> u64 {
    match stored_account(m, id).data {
        AccountData::Token { authority, .. } => authority,
        _ => 0,
    }
}

/// The token balance of a token account (0 if `id` is not one).
pub open spec fn token_account_balance(m: Map<u64, Account>, id: u64) -> u64 {
    match stored_account(m, id).data {
        AccountData::Token { balance, .. } => balance,
        _ => 0,
    }
}

/// The decimal precision a mint declares (0 if `id` is not one).
pub open spec fn mint_decimals(m: Map<u64, Account>, id: u64) -> u8 {
    match stored_account(m, id).data {
        AccountData::Mint { decimals } => decimals,
        _ => 0,
    }
}

/// The ledger after moving `amount` lamports from `from` to `to`: debit
/// first, then credit what is then stored, so a self-transfer nets to the
/// original balance.
pub open spec fn native_transfer_map(
    m: Map<u64, Account>,
    from: u64,
    to: u64,
    amount: u64,
) -> Map<u64, Account> {
    let f0 = stored_account(m, from);
    let m1 = m.insert(
        from,
        Account {
            owner_program: f0.owner_program,
            lamports: (f0.lamports - amount) as u64,
            data: f0.data,
        },
    );
    let t0 = stored_account(m1, to);
    m1.insert(
        to,
        Account {
            owner_program: t0.owner_program,
            lamports: (t0.lamports + amount) as u64,
            data: t0.data,
        },
    )
}

/// What the native value-transfer primitive does: it enforces payer solvency
/// and that the destination can absorb the credit, and moves the amount; any
/// failure leaves the ledger unchanged.
pub open spec fn native_transfer_outcome(
    m: Map<u64, Account>,
    from: u64,
    to: u64,
    amount: u64,
) -> Result<Map<u64, Account>, ErrorCode> {
    if native_balance(m, from) < amount {
        Err(ErrorCode::InsufficientFunds)
    } else if from != to && native_balance(m, to) + amount > u64::MAX {
        Err(ErrorCode::InsufficientFunds)
    } else {
        Ok(native_transfer_map(m, from, to, amount))
    }
}

/// Token-account data after a debit of `amount` (unchanged for other data).
pub open spec fn token_data_debited(d: AccountData, amount: u64) -> AccountData {
    match d {
        AccountData::Token { mint, authority, balance } => AccountData::Token {
            mint,
            authority,
            balance: (balance - amount) as u64,
        },
        _ => d,
    }
}

/// Token-account data after a credit of `amount` (unchanged for other data).
pub open spec fn token_data_credited(d: AccountData, amount: u64) -> AccountData {
    match d {
        AccountData::Token { mint, authority, balance } => AccountData::Token {
            mint,
            authority,
            balance: (balance + amount) as u64,
        },
        _ => d,
    }
}

/// The ledger after moving `amount` token base units from token account
/// `from` to token account `to`: debit first, then credit what is then
/// stored, so a self-transfer nets to the original balance.
pub open spec fn token_transfer_map(
    m: Map<u64, Account>,
    from: u64,
    to: u64,
    amount: u64,
) -> Map<u64, Account> {
    let a0 = stored_account(m, from);
    let m1 = m.insert(
        from,
        Account {
            owner_program: a0.owner_program,
            lamports: a0.lamports,
            data: token_data_debited(a0.data, amount),
        },
    );
    let a1 = stored_account(m1, to);
    m1.insert(
        to,
        Account {
            owner_program: a1.owner_program,
            lamports: a1.lamports,
            data: token_data_credited(a1.data, amount),
        },
    )
}

/// What the checked token-transfer primitive does, given a usable mint and
/// two usable token accounts of that mint: it enforces the declared decimal
/// precision, the paying account's authority, payer solvency, and that the
/// destination can absorb the credit; any failure leaves the ledger
/// unchanged.
pub open spec fn token_transfer_outcome(
    m: Map<u64, Account>,
    from: u64,
    to: u64,
    authority: u64,
    mint: u64,
    amount: u64,
    expected_decimals: u8,
) -> Result<Map<u64, Account>, ErrorCode> {
    if expected_decimals != mint_decimals(m, mint) {
        Err(ErrorCode::AssetMismatch)
    } else if token_account_authority(m, from) != authority {
        Err(ErrorCode::Unauthorized)
    } else if token_account_balance(m, from) < amount {
        Err(ErrorCode::InsufficientFunds)
    } else if from != to && token_account_balance(m, to) + amount > u64::MAX {
        Err(ErrorCode::InsufficientFunds)
    } else {
        Ok(token_transfer_map(m, from, to, amount))
    }
}

impl Ledger {
    /// An empty ledger.
    pub fn new() -> (l: Ledger)
        ensures
            l@ == Map::<u64, Account>::empty(),
    {
        Ledger { accounts: HashMap::new() }
    }

    /// Store `a` under `id`, replacing whatever was there.
    pub fn set_account(&mut self, id: u64, a: Account)
        ensures
            final(self)@ == old(self)@.insert(id, a),
    {
        self.accounts.insert(id, a);
    }

    /// The account stored under `id`, if any.
    pub fn get_account(&self, id: u64) -> (r: Option<Account>)
        ensures
            match r {
                Some(a) => self@.contains_key(id) && a == self@[id],
                None => !self@.contains_key(id),
            },
    {
        match self.accounts.get(&id) {
            Some(a) => Some(*a),
            None => None,
        }
    }

    /// The account under `id`, reading an absent identity as an empty
    /// wallet.
    pub fn read_account(&self, id: u64) -> (a: Account)
        ensures
            a == stored_account(self@, id),
    {
        match self.accounts.get(&id) {
            Some(a) => *a,
            None => Account {
                owner_program: SYSTEM_PROGRAM_ID,
                lamports: 0,
                data: AccountData::Wallet,
            },
        }
    }

    /// The native value-transfer primitive: move `amount` lamports from
    /// `from` to `to`.
    pub fn transfer_native(&mut self, from: u64, to: u64, amount: u64) -> (r: Result<
        (),
        ErrorCode,
    >)
        ensures
            match native_transfer_outcome(old(self)@, from, to, amount) {
                Ok(m2) => r is Ok && final(self)@ == m2,
                Err(e) => r == Err::<(), ErrorCode>(e) && final(self)@ == old(self)@,
            },
    {
        let f0 = self.read_account(from);
        if f0.lamports < amount {
            return Err(ErrorCode::InsufficientFunds);
        }
        let f1 = Account {
            owner_program: f0.owner_program,
            lamports: f0.lamports - amount,
            data: f0.data,
        };
        if from != to {
            let t0 = self.read_account(to);
            if t0.lamports > u64::MAX - amount {
                return Err(ErrorCode::InsufficientFunds);
            }
            self.set_account(from, f1);
            self.set_account(
                to,
                Account {
                    owner_program: t0.owner_program,
                    lamports: t0.lamports + amount,
                    data: t0.data,
                },
            );
        } else {
            self.set_account(from, f1);
            self.set_account(
                to,
                Account {
                    owner_program: f1.owner_program,
                    lamports: f1.lamports + amount,
                    data: f1.data,
                },
            );
        }
        Ok(())
    }

    /// The checked token-transfer primitive: move `amount` base units of
    /// `mint` from token account `from` to token account `to` under
    /// `authority`, verifying the mint's declared decimal precision against
    /// `expected_decimals` first.
    pub fn transfer_token_checked(
        &mut self,
        from: u64,
        to: u64,
        authority: u64,
        mint: u64,
        amount: u64,
        expected_decimals: u8,
    ) -> (r: Result<(), ErrorCode>)
        requires
            is_mint_account(old(self)@, mint),
            is_token_account(old(self)@, from),
            is_token_account(old(self)@, to),
        ensures
            match token_transfer_outcome(old(self)@, from, to, authority, mint, amount,
                expected_decimals) {
                Ok(m2) => r is Ok && final(self)@ == m2,
                Err(e) => r == Err::<(), ErrorCode>(e) && final(self)@ == old(self)@,
            },
    {
        let mint_rec = self.read_account(mint);
        let decimals: u8 = match mint_rec.data {
            AccountData::Mint { decimals } => decimals,
            _ => 0,
        };
        if expected_decimals != decimals {
            return Err(ErrorCode::AssetMismatch);
        }
        let a0 = self.read_account(from);
        let (f_mint, f_auth, f_balance): (u64, u64, u64) = match a0.data {
            AccountData::Token { mint, authority, balance } => (mint, authority, balance),
            _ => (0, 0, 0),
        };
        if f_auth != authority {
            return Err(ErrorCode::Unauthorized);
        }
        if f_balance < amount {
            return Err(ErrorCode::InsufficientFunds);
        }
        let f1 = Account {
            owner_program: a0.owner_program,
            lamports: a0.lamports,
            data: AccountData::Token { mint: f_mint, authority: f_auth, balance: f_balance - amount },
        };
        if from != to {
            let b0 = self.read_account(to);
            let (t_mint, t_auth, t_balance): (u64, u64, u64) = match b0.data {
                AccountData::Token { mint, authority, balance } => (mint, authority, balance),
                _ => (0, 0, 0),
            };
            if t_balance > u64::MAX - amount {
                return Err(ErrorCode::InsufficientFunds);
            }
            self.set_account(from, f1);
            self.set_account(
                to,
                Account {
                    owner_program: b0.owner_program,
                    lamports: b0.lamports,
                    data: AccountData::Token {
                        mint: t_mint,
                        authority: t_auth,
                        balance: t_balance + amount,
                    },
                },
            );
        } else {
            self.set_account(from, f1);
            self.set_account(
                to,
                Account {
                    owner_program: f1.owner_program,
                    lamports: f1.lamports,
                    data: AccountData::Token {
                        mint: f_mint,
                        authority: f_auth,
                        balance: (f_balance - amount) + amount,
                    },
                },
            );
        }
        Ok(())
    }
}

} // verus!
