//! A model of the token program's accounting.
//!
//! The token program owns every balance this library's instructions touch;
//! the helper itself never mutates an account. What an instruction will do to
//! those balances is nevertheless part of the helper's meaning, so this
//! module keeps the program's documented bookkeeping as a value: a list of
//! accounts, each an address with a balance in base units. Minting credits
//! one account and grows the supply by the same amount; a transfer moves a
//! balance atomically and conserves the supply; a rejected instruction
//! changes nothing. Tests and callers run instructions against this model to
//! see exactly the effects the wrapped program performs on-chain.

use vstd::prelude::*;
use crate::address::{addr_eq, Address};
use crate::instruction::{u64_from_le, lemma_u64_le_round_trip, CpiInstruction};
use crate::token_program::{mint_to_data, spl_token_id, spl_token_program_address, transfer_data};
use crate::HelperError;

verus! {

/// One token account: its address and its balance in base units.
#[derive(Clone, Copy, PartialEq, Eq, Debug)]
pub struct TokenAccount {
    /// The address under which the token program keeps the account.
    pub address: Address,
    /// The account's balance in base units.
    pub balance: u64,
}

/// The balances the token program keeps, one entry per account.
#[derive(Clone, PartialEq, Eq, Debug)]
pub struct Ledger {
    /// The accounts, in creation order.
    pub accounts: Vec<TokenAccount>,
}

/// Whether some account in `s` holds `address`.
pub open spec fn has_account_in(s: Seq<TokenAccount>, address: Seq<u8>) -> bool {
    exists|i: int| 0 <= i < s.len() && s[i].address@ == address
}

/// The balance recorded for `address`, or zero where no account holds it.
pub open spec fn balance_in(s: Seq<TokenAccount>, address: Seq<u8>) -> u64
    decreases s.len(),
{
    if s.len() == 0 {
        0
    } else if s[0].address@ == address {
        s[0].balance
    } else {
        balance_in(s.drop_first(), address)
    }
}

/// The sum of all balances in `s`.
pub open spec fn sum_balances(s: Seq<TokenAccount>) -> int
    decreases s.len(),
{
    if s.len() == 0 {
        0
    } else {
        s[0].balance + sum_balances(s.drop_first())
    }
}

impl Ledger {
    /// Each address appears at most once.
    pub open spec fn wf(self) -> bool {
        forall|i: int, j: int|
            0 <= i < j < self.accounts@.len() ==> self.accounts@[i].address@
                != self.accounts@[j].address@
    }

    /// Whether an account with this address exists.
    pub open spec fn spec_has(self, address: Seq<u8>) -> bool {
        has_account_in(self.accounts@, address)
    }

    /// The balance of the account with this address, zero where none exists.
    pub open spec fn spec_balance(self, address: Seq<u8>) -> u64 {
        balance_in(self.accounts@, address)
    }

    /// The total supply: the sum of all balances.
    pub open spec fn spec_supply(self) -> int {
        sum_balances(self.accounts@)
    }
}

/// How a ledger changes under a mint of `amount` base units to `destination`:
/// the mint succeeds exactly where the destination account exists and its
/// balance has room; it then credits that account alone and grows the supply
/// by the amount, and a rejected mint changes nothing.
pub open spec fn mint_applied(
    pre: Ledger,
    post: Ledger,
    r: Result<(), HelperError>,
    destination: Seq<u8>,
    amount: u64,
) -> bool {
    &&& (r is Ok <==> pre.spec_has(destination) && pre.spec_balance(destination) + amount
        <= u64::MAX)
    &&& (r is Ok ==> {
        &&& post.spec_balance(destination) == pre.spec_balance(destination) + amount
        &&& forall|a: Seq<u8>| a != destination ==> post.spec_balance(a) == pre.spec_balance(a)
        &&& forall|a: Seq<u8>| post.spec_has(a) <==> pre.spec_has(a)
        &&& post.spec_supply() == pre.spec_supply() + amount
    })
    &&& (r is Err ==> post == pre)
}

/// How a ledger changes under a transfer of `amount` base units from `source`
/// to `destination`: the transfer succeeds exactly where both accounts exist,
/// the source balance covers the amount, and the destination has room; it
/// then moves the amount between the two accounts alone and conserves the
/// total supply, and a rejected transfer changes nothing.
pub open spec fn transfer_applied(
    pre: Ledger,
    post: Ledger,
    r: Result<(), HelperError>,
    source: Seq<u8>,
    destination: Seq<u8>,
    amount: u64,
) -> bool {
    &&& (r is Ok <==> pre.spec_has(source) && pre.spec_has(destination) && amount
        <= pre.spec_balance(source) && (source == destination || pre.spec_balance(destination)
        + amount <= u64::MAX))
    &&& (r is Ok && source != destination ==> {
        &&& post.spec_balance(source) == pre.spec_balance(source) - amount
        &&& post.spec_balance(destination) == pre.spec_balance(destination) + amount
        &&& forall|a: Seq<u8>|
            a != source && a != destination ==> post.spec_balance(a) == pre.spec_balance(a)
        &&& forall|a: Seq<u8>| post.spec_has(a) <==> pre.spec_has(a)
        &&& post.spec_supply() == pre.spec_supply()
    })
    &&& (r is Ok && source == destination ==> post == pre)
    &&& (r is Err ==> post == pre)
}

/// How a ledger changes when an account is created: creation succeeds exactly
/// where the address is fresh, and then adds that account with a zero balance
/// and touches nothing else.
pub open spec fn account_created(
    pre: Ledger,
    post: Ledger,
    r: Result<(), HelperError>,
    address: Seq<u8>,
) -> bool {
    &&& (r is Ok <==> !pre.spec_has(address))
    &&& (r is Ok ==> {
        &&& post.spec_has(address)
        &&& post.spec_balance(address) == 0
        &&& forall|a: Seq<u8>| a != address ==> post.spec_balance(a) == pre.spec_balance(a)
        &&& forall|a: Seq<u8>| a != address ==> (post.spec_has(a) <==> pre.spec_has(a))
        &&& post.spec_supply() == pre.spec_supply()
    })
    &&& (r is Err ==> post == pre)
}

proof fn lemma_balance_at(s: Seq<TokenAccount>, i: int, address: Seq<u8>)
    requires
        0 <= i < s.len(),
        s[i].address@ == address,
        forall|k: int| 0 <= k < i ==> s[k].address@ != address,
    ensures
        balance_in(s, address) == s[i].balance,
    decreases i,
{
    if i > 0 {
        lemma_balance_at(s.drop_first(), i - 1, address);
    }
}

proof fn lemma_balance_update(s: Seq<TokenAccount>, i: int, v: TokenAccount, address: Seq<u8>)
    requires
        0 <= i < s.len(),
        v.address@ == s[i].address@,
        forall|k: int| 0 <= k < i ==> s[k].address@ != s[i].address@,
    ensures
        balance_in(s.update(i, v), s[i].address@) == v.balance,
        address != s[i].address@ ==> balance_in(s.update(i, v), address) == balance_in(s, address),
    decreases i,
{
    let t = s.update(i, v);
    if i == 0 {
        assert(t[0] == v);
        assert(t.drop_first() =~= s.drop_first());
    } else {
        assert(t[0] == s[0]);
        assert(t.drop_first() =~= s.drop_first().update(i - 1, v));
        lemma_balance_update(s.drop_first(), i - 1, v, address);
    }
}

proof fn lemma_balance_push(s: Seq<TokenAccount>, v: TokenAccount, address: Seq<u8>)
    requires
        forall|k: int| 0 <= k < s.len() ==> s[k].address@ != v.address@,
    ensures
        balance_in(s.push(v), v.address@) == v.balance,
        address != v.address@ ==> balance_in(s.push(v), address) == balance_in(s, address),
    decreases s.len(),
{
    let t = s.push(v);
    if s.len() == 0 {
        assert(t[0] == v);
        assert(t.drop_first() =~= Seq::<TokenAccount>::empty());
        assert(balance_in(t.drop_first(), address) == 0);
        assert(balance_in(t.drop_first(), v.address@) == 0);
        assert(balance_in(s, address) == 0);
    } else {
        assert(t[0] == s[0]);
        assert(t.drop_first() =~= s.drop_first().push(v));
        lemma_balance_push(s.drop_first(), v, address);
    }
}

proof fn lemma_sum_update(s: Seq<TokenAccount>, i: int, v: TokenAccount)
    requires
        0 <= i < s.len(),
    ensures
        sum_balances(s.update(i, v)) == sum_balances(s) - s[i].balance + v.balance,
    decreases i,
{
    let t = s.update(i, v);
    if i == 0 {
        assert(t[0] == v);
        assert(t.drop_first() =~= s.drop_first());
    } else {
        assert(t[0] == s[0]);
        assert(t.drop_first() =~= s.drop_first().update(i - 1, v));
        lemma_sum_update(s.drop_first(), i - 1, v);
    }
}

proof fn lemma_sum_push(s: Seq<TokenAccount>, v: TokenAccount)
    ensures
        sum_balances(s.push(v)) == sum_balances(s) + v.balance,
    decreases s.len(),
{
    let t = s.push(v);
    if s.len() == 0 {
        assert(t[0] == v);
        assert(t.drop_first() =~= Seq::<TokenAccount>::empty());
        assert(sum_balances(t.drop_first()) == 0);
        assert(sum_balances(s) == 0);
    } else {
        assert(t[0] == s[0]);
        assert(t.drop_first() =~= s.drop_first().push(v));
        lemma_sum_push(s.drop_first(), v);
    }
}

proof fn lemma_has_same_addresses(s1: Seq<TokenAccount>, s2: Seq<TokenAccount>)
    requires
        s1.len() == s2.len(),
        forall|j: int| 0 <= j < s1.len() ==> s1[j].address@ == s2[j].address@,
    ensures
        forall|a: Seq<u8>| has_account_in(s1, a) <==> has_account_in(s2, a),
{
    assert forall|a: Seq<u8>| has_account_in(s1, a) <==> has_account_in(s2, a) by {
        if has_account_in(s1, a) {
            let i = choose|i: int| 0 <= i < s1.len() && s1[i].address@ == a;
            assert(s2[i].address@ == a);
        }
        if has_account_in(s2, a) {
            let i = choose|i: int| 0 <= i < s2.len() && s2[i].address@ == a;
            assert(s1[i].address@ == a);
        }
    }
}

impl Ledger {
    /// An empty ledger: no accounts, no supply.
    pub fn new() -> (r: Ledger)
        ensures
            r.wf(),
            r.accounts@.len() == 0,
    {
        Ledger { accounts: Vec::new() }
    }

    /// The index of the account holding `address`, if any.
    fn find_index(&self, address: &Address) -> (r: Option<usize>)
        ensures
            match r {
                Some(i) => 0 <= i < self.accounts@.len() && self.accounts@[i as int].address@
                    == address@ && (forall|k: int|
                    0 <= k < i ==> self.accounts@[k].address@ != address@),
                None => !self.spec_has(address@),
            },
    {
        let mut i: usize = 0;
        while i < self.accounts.len()
            invariant
                i <= self.accounts@.len(),
                forall|k: int| 0 <= k < i ==> self.accounts@[k].address@ != address@,
            decreases self.accounts@.len() - i,
        {
            if addr_eq(&self.accounts[i].address, address) {
                return Some(i);
            }
            i = i + 1;
        }
        None
    }

    /// The balance recorded for `address`; zero where no account holds it.
    pub fn balance_of(&self, address: &Address) -> (r: u64)
        ensures
            r == self.spec_balance(address@),
    {
        let idx = self.find_index(address);
        match idx {
            Some(i) => {
                proof {
                    lemma_balance_at(self.accounts@, i as int, address@);
                }
                self.accounts[i].balance
            },
            None => {
                proof {
                    lemma_balance_absent(self.accounts@, address@);
                }
                0
            },
        }
    }

    /// Whether an account with this address exists.
    pub fn has_account(&self, address: &Address) -> (r: bool)
        ensures
            r == self.spec_has(address@),
    {
        let idx = self.find_index(address);
        match idx {
            Some(_) => true,
            None => false,
        }
    }

    /// Creates an empty account under `address`, as the token program does
    /// when an account is initialized; re-creating an existing account is
    /// rejected.
    pub fn new_account(&mut self, address: &Address) -> (r: Result<(), HelperError>)
        requires
            old(self).wf(),
        ensures
            final(self).wf(),
            account_created(*old(self), *final(self), r, address@),
            r matches Err(e) ==> e == HelperError::ExternalProgramError,
    {
        let idx = self.find_index(address);
        match idx {
            Some(_) => Err(HelperError::ExternalProgramError),
            None => {
                let ghost s = self.accounts@;
                let entry = TokenAccount { address: *address, balance: 0 };
                self.accounts.push(entry);
                proof {
                    assert(forall|k: int| 0 <= k < s.len() ==> s[k].address@ != address@);
                    let t = self.accounts@;
                    assert(t =~= s.push(entry));
                    assert(t[s.len() as int].address@ == address@);
                    assert(self.spec_has(address@));
                    lemma_sum_push(s, entry);
                    assert forall|a: Seq<u8>| a != address@ implies balance_in(t, a) == balance_in(
                        s,
                        a,
                    ) by {
                        lemma_balance_push(s, entry, a);
                    }
                    lemma_balance_push(s, entry, address@);
                    assert forall|a: Seq<u8>| a != address@ implies (has_account_in(t, a)
                        <==> has_account_in(s, a)) by {
                        if has_account_in(t, a) {
                            let i = choose|i: int| 0 <= i < t.len() && t[i].address@ == a;
                            assert(0 <= i < s.len());
                            assert(s[i].address@ == a);
                        }
                        if has_account_in(s, a) {
                            let i = choose|i: int| 0 <= i < s.len() && s[i].address@ == a;
                            assert(t[i].address@ == a);
                        }
                    }
                    assert(final(self).wf()) by {
                        assert(forall|i: int|
                            0 <= i < s.len() ==> t[i].address@ == s[i].address@);
                    }
                }
                Ok(())
            },
        }
    }

    /// Credits `destination` with `amount` base units, as the token program's
    /// mint instruction does once it has accepted the minting authority.
    pub fn apply_mint(&mut self, destination: &Address, amount: u64) -> (r: Result<
        (),
        HelperError,
    >)
        requires
            old(self).wf(),
        ensures
            final(self).wf(),
            mint_applied(*old(self), *final(self), r, destination@, amount),
            r matches Err(e) ==> e == HelperError::ExternalProgramError,
    {
        let idx = self.find_index(destination);
        match idx {
            Some(i) => {
                let ghost s = self.accounts@;
                proof {
                    lemma_balance_at(s, i as int, destination@);
                }
                let balance = self.accounts[i].balance;
                if amount <= u64::MAX - balance {
                    let entry = TokenAccount {
                        address: self.accounts[i].address,
                        balance: balance + amount,
                    };
                    self.accounts.set(i, entry);
                    proof {
                        let t = self.accounts@;
                        assert(t =~= s.update(i as int, entry));
                        lemma_balance_update(s, i as int, entry, destination@);
                        assert forall|a: Seq<u8>| a != destination@ implies balance_in(t, a)
                            == balance_in(s, a) by {
                            lemma_balance_update(s, i as int, entry, a);
                        }
                        lemma_sum_update(s, i as int, entry);
                        assert(forall|j: int|
                            0 <= j < s.len() ==> t[j].address@ == s[j].address@);
                        lemma_has_same_addresses(s, t);
                        assert(final(self).wf());
                    }
                    Ok(())
                } else {
                    Err(HelperError::ExternalProgramError)
                }
            },
            None => Err(HelperError::ExternalProgramError),
        }
    }

    /// Moves `amount` base units from `source` to `destination`, as the token
    /// program's transfer instruction does once it has accepted the owning
    /// authority. A transfer onto the same account checks the balance and
    /// changes nothing.
    pub fn apply_transfer(
        &mut self,
        source: &Address,
        destination: &Address,
        amount: u64,
    ) -> (r: Result<(), HelperError>)
        requires
            old(self).wf(),
        ensures
            final(self).wf(),
            transfer_applied(*old(self), *final(self), r, source@, destination@, amount),
            r matches Err(e) ==> e == HelperError::ExternalProgramError,
    {
        let source_idx = self.find_index(source);
        let dest_idx = self.find_index(destination);
        match (source_idx, dest_idx) {
            (Some(si), Some(di)) => {
                let ghost s = self.accounts@;
                proof {
                    lemma_balance_at(s, si as int, source@);
                    lemma_balance_at(s, di as int, destination@);
                }
                let source_balance = self.accounts[si].balance;
                let dest_balance = self.accounts[di].balance;
                if amount > source_balance {
                    return Err(HelperError::ExternalProgramError);
                }
                if si == di {
                    return Ok(());
                }
                proof {
                    assert(source@ != destination@);
                }
                if amount > u64::MAX - dest_balance {
                    return Err(HelperError::ExternalProgramError);
                }
                let debited = TokenAccount {
                    address: self.accounts[si].address,
                    balance: source_balance - amount,
                };
                self.accounts.set(si, debited);
                let credited = TokenAccount {
                    address: self.accounts[di].address,
                    balance: dest_balance + amount,
                };
                self.accounts.set(di, credited);
                proof {
                    let mid = s.update(si as int, debited);
                    let t = self.accounts@;
                    assert(mid[di as int] == s[di as int]);
                    assert(t =~= mid.update(di as int, credited));
                    assert(forall|j: int| 0 <= j < s.len() ==> mid[j].address@ == s[j].address@);
                    lemma_balance_update(s, si as int, debited, source@);
                    assert forall|a: Seq<u8>| a != source@ implies balance_in(mid, a)
                        == balance_in(s, a) by {
                        lemma_balance_update(s, si as int, debited, a);
                    }
                    lemma_balance_update(mid, di as int, credited, source@);
                    assert forall|a: Seq<u8>| a != destination@ implies balance_in(t, a)
                        == balance_in(mid, a) by {
                        lemma_balance_update(mid, di as int, credited, a);
                    }
                    lemma_sum_update(s, si as int, debited);
                    lemma_sum_update(mid, di as int, credited);
                    assert(forall|j: int| 0 <= j < s.len() ==> t[j].address@ == s[j].address@);
                    lemma_has_same_addresses(s, t);
                    assert(final(self).wf());
                }
                Ok(())
            },
            _ => Err(HelperError::ExternalProgramError),
        }
    }

    /// Runs a token instruction against the model: a mint payload credits the
    /// second listed account, a transfer payload moves the amount from the
    /// first to the second, and anything the token program would not
    /// recognise is rejected unchanged.
    pub fn execute_token_instruction(&mut self, ix: &CpiInstruction) -> (r: Result<
        (),
        HelperError,
    >)
        requires
            old(self).wf(),
        ensures
            final(self).wf(),
            r matches Err(e) ==> e == HelperError::ExternalProgramError,
            forall|amount: u64|
                ix.program@ == spl_token_id() && ix.accounts@.len() == 3 && ix.data@
                    == #[trigger] mint_to_data(amount) ==> mint_applied(
                    *old(self),
                    *final(self),
                    r,
                    ix.accounts@[1].address@,
                    amount,
                ),
            forall|amount: u64|
                ix.program@ == spl_token_id() && ix.accounts@.len() == 3 && ix.data@
                    == #[trigger] transfer_data(amount) ==> transfer_applied(
                    *old(self),
                    *final(self),
                    r,
                    ix.accounts@[0].address@,
                    ix.accounts@[1].address@,
                    amount,
                ),
            ix.program@ != spl_token_id() || ix.accounts@.len() != 3 || ix.data@.len() != 9 || (
            ix.data@[0] != 3 && ix.data@[0] != 7) ==> r is Err && *final(self) == *old(self),
    {
        let expected = spl_token_program_address();
        if !addr_eq(&ix.program, &expected) {
            return Err(HelperError::ExternalProgramError);
        }
        if ix.accounts.len() != 3 {
            return Err(HelperError::ExternalProgramError);
        }
        if ix.data.len() != 9 {
            return Err(HelperError::ExternalProgramError);
        }
        let tag = ix.data[0];
        if tag != 3 && tag != 7 {
            return Err(HelperError::ExternalProgramError);
        }
        let amount = (ix.data[1] as u64) | ((ix.data[2] as u64) << 8) | ((ix.data[3] as u64)
            << 16) | ((ix.data[4] as u64) << 24) | ((ix.data[5] as u64) << 32) | ((ix.data[6]
            as u64) << 40) | ((ix.data[7] as u64) << 48) | ((ix.data[8] as u64) << 56);
        proof {
            assert(amount == u64_from_le(ix.data@.skip(1)));
            assert forall|amount2: u64| ix.data@ == mint_to_data(amount2) implies amount2 == amount
                && ix.data@[0] == 7 by {
                assert(ix.data@.skip(1) =~= crate::instruction::u64_le_bytes(amount2));
                lemma_u64_le_round_trip(amount2);
            }
            assert forall|amount2: u64| ix.data@ == transfer_data(amount2) implies amount2
                == amount && ix.data@[0] == 3 by {
                assert(ix.data@.skip(1) =~= crate::instruction::u64_le_bytes(amount2));
                lemma_u64_le_round_trip(amount2);
            }
        }
        if tag == 7 {
            let destination = ix.accounts[1].address;
            self.apply_mint(&destination, amount)
        } else {
            let source = ix.accounts[0].address;
            let destination = ix.accounts[1].address;
            self.apply_transfer(&source, &destination, amount)
        }
    }
}

proof fn lemma_balance_absent(s: Seq<TokenAccount>, address: Seq<u8>)
    requires
        !has_account_in(s, address),
    ensures
        balance_in(s, address) == 0,
    decreases s.len(),
{
    if s.len() > 0 {
        assert(s[0].address@ != address);
        assert(!has_account_in(s.drop_first(), address)) by {
            if has_account_in(s.drop_first(), address) {
                let i = choose|i: int|
                    0 <= i < s.drop_first().len() && s.drop_first()[i].address@ == address;
                assert(s[i + 1].address@ == address);
            }
        }
        lemma_balance_absent(s.drop_first(), address);
    }
}

} // verus!
