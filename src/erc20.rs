//! The token ledger: balances, allowances and the total supply, with the
//! operations that move, create and destroy tokens.

use crate::account::{zero_id, AccountId};
use crate::amount::{amount_bound, checked_add, checked_sub, Amount};
use crate::table::{
    lemma_lookup_absent, lemma_lookup_entry, lemma_lookup_le_total, lemma_push,
    lemma_two_lookups_le_total, lemma_update, lookup, total, unique_keys,
};
use vstd::prelude::*;

verus! {

/// Token metadata, fixed when a ledger is created.
#[derive(Debug)]
pub struct Erc20Params {
    pub name: String,
    pub symbol: String,
    pub decimals: u8,
}

/// A debit exceeded the balance of the account it was taken from.
#[derive(Clone, Copy, Debug, PartialEq, Eq)]
pub struct InsufficientBalance {
    pub from: AccountId,
    pub have: Amount,
    pub want: Amount,
}

/// A transfer on an owner's behalf exceeded the spender's allowance.
#[derive(Clone, Copy, Debug, PartialEq, Eq)]
pub struct InsufficientAllowance {
    pub owner: AccountId,
    pub spender: AccountId,
    pub have: Amount,
    pub want: Amount,
}

/// Why an operation failed. A failed operation changes nothing.
#[derive(Clone, Copy, Debug, PartialEq, Eq)]
pub enum Erc20Error {
    InsufficientBalance(InsufficientBalance),
    InsufficientAllowance(InsufficientAllowance),
    /// The total supply would leave the 256-bit range: a fatal condition.
    Overflow,
}

/// A notification of a committed change, for outside observers.
#[derive(Clone, Copy, Debug, PartialEq, Eq)]
pub enum Event {
    Transfer { from: AccountId, to: AccountId, value: Amount },
    Approval { owner: AccountId, spender: AccountId, value: Amount },
}

/// `e` reports that `from` holds `have` units where `want` were asked for.
pub open spec fn is_insufficient_balance(e: Erc20Error, from: AccountId, have: nat, want: Amount) -> bool {
    e matches Erc20Error::InsufficientBalance(d) && d.from == from && d.have@ == have && d.want == want
}

/// `e` reports that `spender` may move `have` units of `owner`'s where `want`
/// were asked for.
pub open spec fn is_insufficient_allowance(
    e: Erc20Error,
    owner: AccountId,
    spender: AccountId,
    have: nat,
    want: Amount,
) -> bool {
    e matches Erc20Error::InsufficientAllowance(d) && d.owner == owner && d.spender == spender
        && d.have@ == have && d.want == want
}

/// A token ledger. Accounts without an entry hold zero, and pairs without an
/// entry have a zero allowance.
pub struct Erc20 {
    params: Erc20Params,
    balances: Vec<(AccountId, Amount)>,
    allowances: Vec<((AccountId, AccountId), Amount)>,
    total_supply: Amount,
    events: Vec<Event>,
}

impl Erc20 {
    /// The balance of account `a`.
    pub closed spec fn balance(&self, a: AccountId) -> nat {
        lookup(self.balances@, a@)
    }

    /// How much `spender` may still move out of `owner`'s balance.
    pub closed spec fn allowance_amount(&self, owner: AccountId, spender: AccountId) -> nat {
        lookup(self.allowances@, (owner@, spender@))
    }

    /// The total supply counter.
    pub closed spec fn supply(&self) -> nat {
        self.total_supply@
    }

    /// The sum of the balances of all accounts.
    pub closed spec fn sum_of_balances(&self) -> nat {
        total(self.balances@)
    }

    /// The events emitted so far and not yet taken.
    pub closed spec fn emitted(&self) -> Seq<Event> {
        self.events@
    }

    /// The token's name.
    pub closed spec fn token_name(&self) -> Seq<char> {
        self.params.name@
    }

    /// The token's symbol.
    pub closed spec fn token_symbol(&self) -> Seq<char> {
        self.params.symbol@
    }

    /// The token's decimal precision.
    pub closed spec fn token_decimals(&self) -> u8 {
        self.params.decimals
    }

    /// Well-formedness: one entry per key in each table, and the supply
    /// counter equal to the sum of all balances.
    pub closed spec fn wf(&self) -> bool {
        &&& unique_keys(self.balances@)
        &&& unique_keys(self.allowances@)
        &&& self.total_supply@ == total(self.balances@)
    }

    /// `self` has the metadata of `other`.
    pub open spec fn same_metadata(&self, other: &Erc20) -> bool {
        &&& self.token_name() == other.token_name()
        &&& self.token_symbol() == other.token_symbol()
        &&& self.token_decimals() == other.token_decimals()
    }

    /// `self` has the balances and supply of `other`.
    pub open spec fn same_balances(&self, other: &Erc20) -> bool {
        &&& self.supply() == other.supply()
        &&& forall|a: AccountId| #[trigger] self.balance(a) == other.balance(a)
    }

    /// `self` has the allowances of `other`.
    pub open spec fn same_allowances(&self, other: &Erc20) -> bool {
        forall|o: AccountId, s: AccountId| #[trigger]
            self.allowance_amount(o, s) == other.allowance_amount(o, s)
    }

    /// `self` is `before` with `value` moved from `from` to `to` and the
    /// transfer announced; allowances aside.
    pub open spec fn transferred(&self, before: &Erc20, from: AccountId, to: AccountId, value: Amount) -> bool {
        &&& self.supply() == before.supply()
        &&& forall|a: AccountId| #[trigger]
            self.balance(a) == before.balance(a) - (if a@ == from@ { value@ } else { 0 }) + (if a@
                == to@ {
                value@
            } else {
                0
            })
        &&& self.same_metadata(before)
        &&& self.emitted() == before.emitted().push(Event::Transfer { from, to, value })
    }

    /// `self` is `before` with `value` new units credited to `address`.
    pub open spec fn minted(&self, before: &Erc20, address: AccountId, value: Amount) -> bool {
        &&& self.supply() == before.supply() + value@
        &&& forall|a: AccountId| #[trigger]
            self.balance(a) == before.balance(a) + if a@ == address@ { value@ } else { 0 }
        &&& self.same_allowances(before)
        &&& self.same_metadata(before)
        &&& self.emitted() == before.emitted().push(
            Event::Transfer { from: zero_id(), to: address, value },
        )
    }

    /// `self` is `before` with `value` units of `address` destroyed.
    pub open spec fn burned(&self, before: &Erc20, address: AccountId, value: Amount) -> bool {
        &&& self.supply() == before.supply() - value@
        &&& forall|a: AccountId| #[trigger]
            self.balance(a) == before.balance(a) - if a@ == address@ { value@ } else { 0 }
        &&& self.same_allowances(before)
        &&& self.same_metadata(before)
        &&& self.emitted() == before.emitted().push(
            Event::Transfer { from: address, to: zero_id(), value },
        )
    }

    /// `self` is `before` with the allowance of `spender` over `owner`'s
    /// balance set to `value`.
    pub open spec fn approved(&self, before: &Erc20, owner: AccountId, spender: AccountId, value: Amount) -> bool {
        &&& forall|o: AccountId, s: AccountId| #[trigger]
            self.allowance_amount(o, s) == if o@ == owner@ && s@ == spender@ {
                value@
            } else {
                before.allowance_amount(o, s)
            }
        &&& self.same_balances(before)
        &&& self.same_metadata(before)
        &&& self.emitted() == before.emitted().push(Event::Approval { owner, spender, value })
    }

    /// A ledger with the given metadata, no tokens and no allowances.
    pub fn new(params: Erc20Params) -> (r: Erc20)
        ensures
            r.wf(),
            r.supply() == 0,
            forall|a: AccountId| #[trigger] r.balance(a) == 0,
            forall|o: AccountId, s: AccountId| #[trigger] r.allowance_amount(o, s) == 0,
            r.emitted() == Seq::<Event>::empty(),
            r.token_name() == params.name@,
            r.token_symbol() == params.symbol@,
            r.token_decimals() == params.decimals,
    {
        let r = Erc20 {
            params,
            balances: Vec::new(),
            allowances: Vec::new(),
            total_supply: Amount::zero(),
            events: Vec::new(),
        };
        assert(r.balances@ =~= Seq::empty());
        r
    }

    /// The index of the balance entry of `a`, if it has one.
    fn find_balance(&self, a: &AccountId) -> (r: Option<usize>)
        ensures
            match r {
                Some(i) => i < self.balances@.len() && self.balances@[i as int].0@ == a@,
                None => forall|i: int| 0 <= i < self.balances@.len() ==> self.balances@[i].0@ != a@,
            },
    {
        let mut i: usize = 0;
        while i < self.balances.len()
            invariant
                i <= self.balances@.len(),
                forall|j: int| 0 <= j < i ==> self.balances@[j].0@ != a@,
            decreases self.balances@.len() - i,
        {
            if self.balances[i].0.same(a) {
                return Some(i);
            }
            i = i + 1;
        }
        None
    }

    /// The index of the allowance entry of `spender` over `owner`'s balance,
    /// if it has one.
    fn find_allowance(&self, owner: &AccountId, spender: &AccountId) -> (r: Option<usize>)
        ensures
            match r {
                Some(i) => i < self.allowances@.len() && self.allowances@[i as int].0@ == (
                owner@,
                spender@,
                ),
                None => forall|i: int|
                    0 <= i < self.allowances@.len() ==> self.allowances@[i].0@ != (owner@, spender@),
            },
    {
        let mut i: usize = 0;
        while i < self.allowances.len()
            invariant
                i <= self.allowances@.len(),
                forall|j: int| 0 <= j < i ==> self.allowances@[j].0@ != (owner@, spender@),
            decreases self.allowances@.len() - i,
        {
            let key = &self.allowances[i].0;
            if key.0.same(owner) && key.1.same(spender) {
                return Some(i);
            }
            i = i + 1;
        }
        None
    }

    /// The stored balance of `a`.
    fn stored_balance(&self, a: &AccountId) -> (r: Amount)
        requires
            unique_keys(self.balances@),
        ensures
            r@ == lookup(self.balances@, a@),
    {
        match self.find_balance(a) {
            Some(i) => {
                proof {
                    lemma_lookup_entry(self.balances@, i as int);
                }
                self.balances[i].1
            },
            None => {
                proof {
                    lemma_lookup_absent(self.balances@, a@);
                }
                Amount::zero()
            },
        }
    }

    /// The stored allowance of `spender` over `owner`'s balance.
    fn stored_allowance(&self, owner: &AccountId, spender: &AccountId) -> (r: Amount)
        requires
            unique_keys(self.allowances@),
        ensures
            r@ == lookup(self.allowances@, (owner@, spender@)),
    {
        match self.find_allowance(owner, spender) {
            Some(i) => {
                proof {
                    lemma_lookup_entry(self.allowances@, i as int);
                }
                self.allowances[i].1
            },
            None => {
                proof {
                    lemma_lookup_absent(self.allowances@, (owner@, spender@));
                }
                Amount::zero()
            },
        }
    }

    /// Records `v` as the balance of `a`; the supply counter is left to the
    /// caller.
    fn set_balance(&mut self, a: AccountId, v: Amount)
        requires
            unique_keys(old(self).balances@),
        ensures
            unique_keys(final(self).balances@),
            forall|k: Seq<u8>| #[trigger]
                lookup(final(self).balances@, k) == if k == a@ {
                    v@
                } else {
                    lookup(old(self).balances@, k)
                },
            total(final(self).balances@) + lookup(old(self).balances@, a@) == total(
                old(self).balances@,
            ) + v@,
            final(self).allowances == old(self).allowances,
            final(self).total_supply == old(self).total_supply,
            final(self).events == old(self).events,
            final(self).params == old(self).params,
    {
        match self.find_balance(&a) {
            Some(i) => {
                proof {
                    lemma_lookup_entry(self.balances@, i as int);
                    lemma_update(self.balances@, i as int, (a, v));
                }
                self.balances.set(i, (a, v));
            },
            None => {
                proof {
                    lemma_lookup_absent(self.balances@, a@);
                    lemma_push(self.balances@, (a, v));
                }
                self.balances.push((a, v));
            },
        }
    }

    /// Records `v` as the allowance of `spender` over `owner`'s balance.
    fn set_allowance(&mut self, owner: AccountId, spender: AccountId, v: Amount)
        requires
            unique_keys(old(self).allowances@),
        ensures
            unique_keys(final(self).allowances@),
            forall|k: (Seq<u8>, Seq<u8>)| #[trigger]
                lookup(final(self).allowances@, k) == if k == (owner@, spender@) {
                    v@
                } else {
                    lookup(old(self).allowances@, k)
                },
            final(self).balances == old(self).balances,
            final(self).total_supply == old(self).total_supply,
            final(self).events == old(self).events,
            final(self).params == old(self).params,
    {
        match self.find_allowance(&owner, &spender) {
            Some(i) => {
                proof {
                    lemma_update(self.allowances@, i as int, ((owner, spender), v));
                }
                self.allowances.set(i, ((owner, spender), v));
            },
            None => {
                proof {
                    lemma_push(self.allowances@, ((owner, spender), v));
                }
                self.allowances.push(((owner, spender), v));
            },
        }
    }
    /// Moves `value` units from `from` to `to` and announces the transfer.
    /// Fails, changing nothing, when `from` holds less than `value`.
    pub fn _transfer(&mut self, from: AccountId, to: AccountId, value: Amount) -> (r: Result<
        (),
        Erc20Error,
    >)
        requires
            old(self).wf(),
        ensures
            final(self).wf(),
            match r {
                Ok(()) => {
                    &&& value@ <= old(self).balance(from)
                    &&& final(self).transferred(old(self), from, to, value)
                    &&& final(self).same_allowances(old(self))
                },
                Err(e) => {
                    &&& old(self).balance(from) < value@
                    &&& is_insufficient_balance(e, from, old(self).balance(from), value)
                    &&& *final(self) == *old(self)
                },
            },
    {
        let have = self.stored_balance(&from);
        let rest = match checked_sub(have, value) {
            Some(d) => d,
            None => {
                return Err(
                    Erc20Error::InsufficientBalance(InsufficientBalance { from, have, want: value }),
                );
            },
        };
        let ghost before = *self;
        self.set_balance(from, rest);
        let got = self.stored_balance(&to);
        proof {
            before.total_supply.lemma_bounded();
            have.lemma_bounded();
            if from@ != to@ {
                lemma_two_lookups_le_total(before.balances@, from@, to@);
            }
        }
        let credited = match checked_add(got, value) {
            Some(c) => c,
            None => {
                return Err(Erc20Error::Overflow);
            },
        };
        self.set_balance(to, credited);
        self.events.push(Event::Transfer { from, to, value });
        proof {
            assert forall|a: AccountId| #[trigger]
                self.balance(a) == before.balance(a) - (if a@ == from@ { value@ } else { 0 }) + (if a@
                    == to@ {
                    value@
                } else {
                    0
                }) by {}
        }
        Ok(())
    }

    /// Creates `value` new units credited to `address`, announced as a
    /// transfer from the zero identifier. Fails with `Overflow`, changing
    /// nothing, when the supply would leave the 256-bit range.
    pub fn mint(&mut self, address: AccountId, value: Amount) -> (r: Result<(), Erc20Error>)
        requires
            old(self).wf(),
        ensures
            final(self).wf(),
            match r {
                Ok(()) => {
                    &&& old(self).supply() + value@ < amount_bound()
                    &&& final(self).minted(old(self), address, value)
                },
                Err(e) => {
                    &&& old(self).supply() + value@ >= amount_bound()
                    &&& e == Erc20Error::Overflow
                    &&& *final(self) == *old(self)
                },
            },
    {
        let supply = match checked_add(self.total_supply, value) {
            Some(s) => s,
            None => {
                return Err(Erc20Error::Overflow);
            },
        };
        let have = self.stored_balance(&address);
        proof {
            lemma_lookup_le_total(self.balances@, address@);
        }
        let credited = match checked_add(have, value) {
            Some(c) => c,
            None => {
                return Err(Erc20Error::Overflow);
            },
        };
        self.set_balance(address, credited);
        self.total_supply = supply;
        self.events.push(Event::Transfer { from: AccountId::zero(), to: address, value });
        Ok(())
    }

    /// Destroys `value` units of `address`, announced as a transfer to the
    /// zero identifier. Fails, changing nothing, when `address` holds less
    /// than `value`.
    pub fn burn(&mut self, address: AccountId, value: Amount) -> (r: Result<(), Erc20Error>)
        requires
            old(self).wf(),
        ensures
            final(self).wf(),
            match r {
                Ok(()) => {
                    &&& value@ <= old(self).balance(address)
                    &&& final(self).burned(old(self), address, value)
                },
                Err(e) => {
                    &&& old(self).balance(address) < value@
                    &&& is_insufficient_balance(e, address, old(self).balance(address), value)
                    &&& *final(self) == *old(self)
                },
            },
    {
        let have = self.stored_balance(&address);
        let rest = match checked_sub(have, value) {
            Some(d) => d,
            None => {
                return Err(
                    Erc20Error::InsufficientBalance(
                        InsufficientBalance { from: address, have, want: value },
                    ),
                );
            },
        };
        proof {
            lemma_lookup_le_total(self.balances@, address@);
        }
        let supply = match checked_sub(self.total_supply, value) {
            Some(s) => s,
            None => {
                return Err(Erc20Error::Overflow);
            },
        };
        self.set_balance(address, rest);
        self.total_supply = supply;
        self.events.push(Event::Transfer { from: address, to: AccountId::zero(), value });
        Ok(())
    }

    /// Moves `value` units from the caller to `to`; `true` on success. Fails,
    /// changing nothing, when the caller holds less than `value`.
    pub fn transfer(&mut self, caller: AccountId, to: AccountId, value: Amount) -> (r: Result<
        bool,
        Erc20Error,
    >)
        requires
            old(self).wf(),
        ensures
            final(self).wf(),
            match r {
                Ok(b) => {
                    &&& b
                    &&& value@ <= old(self).balance(caller)
                    &&& final(self).transferred(old(self), caller, to, value)
                    &&& final(self).same_allowances(old(self))
                },
                Err(e) => {
                    &&& old(self).balance(caller) < value@
                    &&& is_insufficient_balance(e, caller, old(self).balance(caller), value)
                    &&& *final(self) == *old(self)
                },
            },
    {
        match self._transfer(caller, to, value) {
            Ok(()) => Ok(true),
            Err(e) => Err(e),
        }
    }

    /// The caller moves `value` units from `from` to `to` against the
    /// allowance `from` granted it, which shrinks by `value`; `true` on
    /// success. Fails, changing nothing, when the allowance is short, and
    /// otherwise when `from` holds less than `value`.
    pub fn transfer_from(
        &mut self,
        caller: AccountId,
        from: AccountId,
        to: AccountId,
        value: Amount,
    ) -> (r: Result<bool, Erc20Error>)
        requires
            old(self).wf(),
        ensures
            final(self).wf(),
            match r {
                Ok(b) => {
                    &&& b
                    &&& value@ <= old(self).allowance_amount(from, caller)
                    &&& value@ <= old(self).balance(from)
                    &&& final(self).transferred(old(self), from, to, value)
                    &&& forall|o: AccountId, s: AccountId| #[trigger]
                        final(self).allowance_amount(o, s) == if o@ == from@ && s@ == caller@ {
                            old(self).allowance_amount(o, s) - value@
                        } else {
                            old(self).allowance_amount(o, s) as int
                        }
                },
                Err(e) => {
                    &&& *final(self) == *old(self)
                    &&& if old(self).allowance_amount(from, caller) < value@ {
                        is_insufficient_allowance(
                            e,
                            from,
                            caller,
                            old(self).allowance_amount(from, caller),
                            value,
                        )
                    } else {
                        &&& old(self).balance(from) < value@
                        &&& is_insufficient_balance(e, from, old(self).balance(from), value)
                    }
                },
            },
    {
        let allowed = self.stored_allowance(&from, &caller);
        let left = match checked_sub(allowed, value) {
            Some(d) => d,
            None => {
                return Err(
                    Erc20Error::InsufficientAllowance(
                        InsufficientAllowance { owner: from, spender: caller, have: allowed, want: value },
                    ),
                );
            },
        };
        let have = self.stored_balance(&from);
        if checked_sub(have, value).is_none() {
            return Err(
                Erc20Error::InsufficientBalance(InsufficientBalance { from, have, want: value }),
            );
        }
        let ghost before = *self;
        self.set_allowance(from, caller, left);
        let ghost middle = *self;
        assert(middle.same_balances(&before));
        match self._transfer(from, to, value) {
            Ok(()) => {
                assert(self.same_allowances(&middle));
                Ok(true)
            },
            Err(e) => Err(e),
        }
    }

    /// Sets to `value` how much `spender` may move out of the caller's
    /// balance, replacing any earlier allowance, and announces it. Always
    /// returns `true`.
    pub fn approve(&mut self, caller: AccountId, spender: AccountId, value: Amount) -> (r: Result<
        bool,
        Erc20Error,
    >)
        requires
            old(self).wf(),
        ensures
            final(self).wf(),
            r == Ok::<bool, Erc20Error>(true),
            final(self).approved(old(self), caller, spender, value),
    {
        self.set_allowance(caller, spender, value);
        self.events.push(Event::Approval { owner: caller, spender, value });
        Ok(true)
    }
    /// The token's name.
    pub fn name(&self) -> (r: String)
        ensures
            r@ == self.token_name(),
    {
        self.params.name.clone()
    }

    /// The token's symbol.
    pub fn symbol(&self) -> (r: String)
        ensures
            r@ == self.token_symbol(),
    {
        self.params.symbol.clone()
    }

    /// The token's decimal precision.
    pub fn decimals(&self) -> (r: u8)
        ensures
            r == self.token_decimals(),
    {
        self.params.decimals
    }

    /// The total supply.
    pub fn total_supply(&self) -> (r: Amount)
        ensures
            r@ == self.supply(),
    {
        self.total_supply
    }

    /// The balance of `owner`, zero if it never held tokens.
    pub fn balance_of(&self, owner: AccountId) -> (r: Amount)
        requires
            self.wf(),
        ensures
            r@ == self.balance(owner),
    {
        self.stored_balance(&owner)
    }

    /// How much `spender` may still move out of `owner`'s balance, zero if
    /// never approved.
    pub fn allowance(&self, owner: AccountId, spender: AccountId) -> (r: Amount)
        requires
            self.wf(),
        ensures
            r@ == self.allowance_amount(owner, spender),
    {
        self.stored_allowance(&owner, &spender)
    }

    /// The events emitted so far and not yet taken, oldest first.
    pub fn events(&self) -> (r: &[Event])
        ensures
            r@ == self.emitted(),
    {
        self.events.as_slice()
    }

    /// Hands over the pending events, oldest first, and forgets them.
    pub fn take_events(&mut self) -> (r: Vec<Event>)
        requires
            old(self).wf(),
        ensures
            final(self).wf(),
            r@ == old(self).emitted(),
            final(self).emitted() == Seq::<Event>::empty(),
            final(self).same_balances(old(self)),
            final(self).same_allowances(old(self)),
            final(self).same_metadata(old(self)),
    {
        let mut out: Vec<Event> = Vec::new();
        std::mem::swap(&mut out, &mut self.events);
        assert(self.events@ =~= Seq::<Event>::empty());
        out
    }
}

/// In every well-formed ledger, and so after any sequence of operations from
/// a new one, the total supply equals the sum of all balances.
pub proof fn lemma_supply_is_sum_of_balances(l: &Erc20)
    requires
        l.wf(),
    ensures
        l.supply() == l.sum_of_balances(),
{
}

/// No balance is negative, and none exceeds the total supply, which stays
/// within the 256-bit range.
pub proof fn lemma_balance_bounded(l: &Erc20, a: AccountId)
    requires
        l.wf(),
    ensures
        0 <= l.balance(a) <= l.supply() < amount_bound(),
{
    lemma_lookup_le_total(l.balances@, a@);
    l.total_supply.lemma_bounded();
}

/// Approving the same allowance twice leaves it at that value: the second
/// approval replaces the first rather than adding to it.
pub proof fn lemma_approve_twice(
    l0: &Erc20,
    l1: &Erc20,
    l2: &Erc20,
    owner: AccountId,
    spender: AccountId,
    value: Amount,
)
    requires
        l1.approved(l0, owner, spender, value),
        l2.approved(l1, owner, spender, value),
    ensures
        l2.allowance_amount(owner, spender) == value@,
        l2.same_allowances(l1),
{
}

/// Burning what was just minted succeeds and brings the supply, every
/// balance and every allowance back to what they were before the mint.
pub proof fn lemma_mint_then_burn(l0: &Erc20, l1: &Erc20, l2: &Erc20, address: AccountId, value: Amount)
    requires
        l1.minted(l0, address, value),
        l2.burned(l1, address, value),
    ensures
        value@ <= l1.balance(address),
        l2.same_balances(l0),
        l2.same_allowances(l0),
{
    assert(l1.balance(address) == l0.balance(address) + value@);
}

} // verus!
