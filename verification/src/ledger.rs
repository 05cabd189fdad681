//! The ledger of balances and the primitive that moves funds between them.

use crate::address::Address;
use crate::errors::LedgerError;
use vstd::prelude::*;

verus! {

/// The balances after `amount` has left `who`.
pub open spec fn debited(balances: Map<Address, nat>, who: Address, amount: nat) -> Map<
    Address,
    nat,
> {
    balances.insert(who, (balances[who] - amount) as nat)
}

/// The balances after `amount` has reached `who`.
pub open spec fn credited(balances: Map<Address, nat>, who: Address, amount: nat) -> Map<
    Address,
    nat,
> {
    balances.insert(who, balances[who] + amount)
}

/// The balances after `amount` has left `from` and then reached `to`.
/// Where both are the same address nothing changes.
pub open spec fn moved(
    balances: Map<Address, nat>,
    from: Address,
    to: Address,
    amount: nat,
) -> Map<Address, nat> {
    credited(debited(balances, from, amount), to, amount)
}

/// What is held at one address.
#[derive(Clone, Copy, Debug)]
struct Holding {
    owner: Address,
    amount: u64,
}

/// What `who` holds in a list of holdings.
spec fn held_by(holdings: Seq<Holding>, who: Address) -> nat
    decreases holdings.len(),
{
    if holdings.len() == 0 {
        0
    } else {
        let rest = held_by(holdings.drop_last(), who);
        if holdings.last().owner == who {
            rest + holdings.last().amount as nat
        } else {
            rest
        }
    }
}

/// The sum of a list of holdings.
spec fn sum_of(holdings: Seq<Holding>) -> nat
    decreases holdings.len(),
{
    if holdings.len() == 0 {
        0
    } else {
        sum_of(holdings.drop_last()) + holdings.last().amount as nat
    }
}

/// No address owns two entries of the list.
spec fn owners_differ(holdings: Seq<Holding>) -> bool {
    forall|i: int, j: int|
        0 <= i < j < holdings.len() ==> (#[trigger] holdings[i]).owner != (
        #[trigger] holdings[j]).owner
}

/// An address that owns no entry holds nothing.
proof fn lemma_absent_holds_nothing(holdings: Seq<Holding>, who: Address)
    requires
        forall|i: int| 0 <= i < holdings.len() ==> (#[trigger] holdings[i]).owner != who,
    ensures
        held_by(holdings, who) == 0,
    decreases holdings.len(),
{
    if holdings.len() > 0 {
        lemma_absent_holds_nothing(holdings.drop_last(), who);
    }
}

/// Where no address owns two entries, an entry is all that its owner holds.
proof fn lemma_entry_is_balance(holdings: Seq<Holding>, i: int)
    requires
        owners_differ(holdings),
        0 <= i < holdings.len(),
    ensures
        held_by(holdings, holdings[i].owner) == holdings[i].amount,
    decreases holdings.len(),
{
    let rest = holdings.drop_last();
    let who = holdings[i].owner;
    if i == holdings.len() - 1 {
        assert forall|j: int| 0 <= j < rest.len() implies (#[trigger] rest[j]).owner != who by {
            assert(rest[j] == holdings[j]);
        }
        lemma_absent_holds_nothing(rest, who);
    } else {
        assert(rest[i] == holdings[i]);
        assert(owners_differ(rest)) by {
            assert forall|a: int, b: int| 0 <= a < b < rest.len() implies (#[trigger] rest[a]).owner
                != (#[trigger] rest[b]).owner by {
                assert(rest[a] == holdings[a]);
                assert(rest[b] == holdings[b]);
            }
        }
        lemma_entry_is_balance(rest, i);
        assert(holdings.last() == holdings[holdings.len() - 1]);
    }
}

/// Nobody holds more than the sum.
proof fn lemma_balance_within_sum(holdings: Seq<Holding>, who: Address)
    ensures
        held_by(holdings, who) <= sum_of(holdings),
    decreases holdings.len(),
{
    if holdings.len() > 0 {
        lemma_balance_within_sum(holdings.drop_last(), who);
    }
}

/// No two addresses hold more than the sum together.
proof fn lemma_two_balances_within_sum(holdings: Seq<Holding>, a: Address, b: Address)
    requires
        a != b,
    ensures
        held_by(holdings, a) + held_by(holdings, b) <= sum_of(holdings),
    decreases holdings.len(),
{
    if holdings.len() > 0 {
        lemma_two_balances_within_sum(holdings.drop_last(), a, b);
    }
}

/// What a new entry adds to the sum and to what each address holds.
proof fn lemma_after_push(holdings: Seq<Holding>, entry: Holding, who: Address)
    ensures
        sum_of(holdings.push(entry)) == sum_of(holdings) + entry.amount,
        held_by(holdings.push(entry), who) == held_by(holdings, who) + if entry.owner == who {
            entry.amount as nat
        } else {
            0nat
        },
{
    assert(holdings.push(entry).drop_last() =~= holdings);
}

/// What a new amount in one entry changes: the sum and what the entry's owner
/// holds, by the difference, and nothing else.
proof fn lemma_after_update(holdings: Seq<Holding>, i: int, amount: u64, who: Address)
    requires
        0 <= i < holdings.len(),
    ensures
        ({
            let entry = Holding { owner: holdings[i].owner, amount };
            let after = holdings.update(i, entry);
            &&& sum_of(after) + holdings[i].amount == sum_of(holdings) + amount
            &&& who == holdings[i].owner ==> held_by(after, who) + holdings[i].amount == held_by(
                holdings,
                who,
            ) + amount
            &&& who != holdings[i].owner ==> held_by(after, who) == held_by(holdings, who)
            &&& owners_differ(holdings) ==> owners_differ(after)
        }),
    decreases holdings.len(),
{
    let entry = Holding { owner: holdings[i].owner, amount };
    let after = holdings.update(i, entry);
    if i == holdings.len() - 1 {
        assert(after.drop_last() =~= holdings.drop_last());
    } else {
        assert(after.drop_last() =~= holdings.drop_last().update(i, entry));
        assert(holdings.drop_last()[i] == holdings[i]);
        lemma_after_update(holdings.drop_last(), i, amount, who);
    }
    if owners_differ(holdings) {
        assert forall|a: int, b: int| 0 <= a < b < after.len() implies (#[trigger] after[a]).owner
            != (#[trigger] after[b]).owner by {
            assert(after[a].owner == holdings[a].owner);
            assert(after[b].owner == holdings[b].owner);
        }
    }
}

/// The first entries never sum to more than all of them.
proof fn lemma_prefix_within_sum(holdings: Seq<Holding>, n: int)
    requires
        0 <= n <= holdings.len(),
    ensures
        sum_of(holdings.take(n)) <= sum_of(holdings),
    decreases holdings.len(),
{
    if n == holdings.len() {
        assert(holdings.take(n) =~= holdings);
    } else {
        assert(holdings.drop_last().take(n) =~= holdings.take(n));
        lemma_prefix_within_sum(holdings.drop_last(), n);
    }
}

/// The balances at all addresses, with the primitive that moves funds
/// between them.
///
/// Every address has a balance; it is zero until funds reach it. The supply
/// is the sum of all balances. It grows by deposits only, and never beyond
/// `u64::MAX`, so that no balance can overflow.
#[derive(Debug)]
pub struct Ledger {
    holdings: Vec<Holding>,
}

impl View for Ledger {
    type V = Map<Address, nat>;

    /// The balance at every address.
    closed spec fn view(&self) -> Map<Address, nat> {
        Map::total(|who: Address| held_by(self.holdings@, who))
    }
}

impl Ledger {
    /// The sum of all balances.
    pub closed spec fn supply(&self) -> nat {
        sum_of(self.holdings@)
    }

    /// The ledger is consistent: it counts each address once, and its
    /// supply fits in 64 bits.
    pub closed spec fn wf(&self) -> bool {
        &&& owners_differ(self.holdings@)
        &&& sum_of(self.holdings@) <= u64::MAX
    }

    /// No balance exceeds the supply, nor do the balances at two different
    /// addresses together; and the supply of a consistent ledger fits in 64
    /// bits.
    pub proof fn lemma_balances_within_supply(&self, a: Address, b: Address)
        ensures
            self@[a] <= self.supply(),
            a != b ==> self@[a] + self@[b] <= self.supply(),
            self.wf() ==> self.supply() <= u64::MAX,
    {
        lemma_balance_within_sum(self.holdings@, a);
        if a != b {
            lemma_two_balances_within_sum(self.holdings@, a, b);
        }
    }

    /// An empty ledger: every balance is zero.
    pub fn new() -> (ledger: Ledger)
        ensures
            ledger.wf(),
            ledger.supply() == 0,
            ledger@ == Map::<Address, nat>::total(|who: Address| 0nat),
    {
        let ledger = Ledger { holdings: Vec::new() };
        assert(ledger@ =~= Map::<Address, nat>::total(|who: Address| 0nat));
        ledger
    }

    fn position(&self, who: &Address) -> (at: Option<usize>)
        requires
            self.wf(),
        ensures
            match at {
                Some(i) => i < self.holdings@.len() && self.holdings@[i as int].owner == *who
                    && self@[*who] == self.holdings@[i as int].amount,
                None => self@[*who] == 0 && forall|i: int|
                    0 <= i < self.holdings@.len() ==> (#[trigger] self.holdings@[i]).owner != *who,
            },
    {
        let mut i: usize = 0;
        while i < self.holdings.len()
            invariant
                self.wf(),
                i <= self.holdings@.len(),
                forall|j: int| 0 <= j < i ==> (#[trigger] self.holdings@[j]).owner != *who,
            decreases self.holdings@.len() - i,
        {
            if self.holdings[i].owner == *who {
                proof {
                    lemma_entry_is_balance(self.holdings@, i as int);
                }
                return Some(i);
            }
            i += 1;
        }
        proof {
            lemma_absent_holds_nothing(self.holdings@, *who);
        }
        None
    }

    /// The balance at `who`.
    pub fn balance(&self, who: &Address) -> (held: u64)
        requires
            self.wf(),
        ensures
            held == self@[*who],
    {
        match self.position(who) {
            Some(i) => self.holdings[i].amount,
            None => 0,
        }
    }

    /// The sum of all balances.
    pub fn total_supply(&self) -> (held: u64)
        requires
            self.wf(),
        ensures
            held == self.supply(),
    {
        let mut sum: u64 = 0;
        let mut i: usize = 0;
        while i < self.holdings.len()
            invariant
                i <= self.holdings@.len(),
                sum == sum_of(self.holdings@.take(i as int)),
                sum_of(self.holdings@) <= u64::MAX,
            decreases self.holdings@.len() - i,
        {
            proof {
                let next = self.holdings@.take(i + 1);
                assert(next.drop_last() =~= self.holdings@.take(i as int));
                lemma_prefix_within_sum(self.holdings@, i + 1);
            }
            sum = sum + self.holdings[i].amount;
            i += 1;
        }
        assert(self.holdings@.take(i as int) =~= self.holdings@);
        sum
    }

    /// Adds `amount` to the balance at `who`.
    fn credit(&mut self, who: &Address, amount: u64)
        requires
            old(self).wf(),
            old(self).supply() + amount <= u64::MAX,
        ensures
            final(self).wf(),
            final(self).supply() == old(self).supply() + amount,
            final(self)@ == credited(old(self)@, *who, amount as nat),
    {
        let ghost before = self.holdings@;
        match self.position(who) {
            Some(i) => {
                let held = self.holdings[i].amount;
                proof {
                    lemma_balance_within_sum(before, *who);
                    lemma_after_update(before, i as int, (held + amount) as u64, *who);
                }
                self.holdings[i] = Holding { owner: *who, amount: held + amount };
                assert forall|k: Address| self@[k] == credited(old(self)@, *who, amount as nat)[k] by {
                    lemma_after_update(before, i as int, (held + amount) as u64, k);
                }
            },
            None => {
                let entry = Holding { owner: *who, amount };
                self.holdings.push(entry);
                proof {
                    lemma_after_push(before, entry, *who);
                }
                assert forall|k: Address| self@[k] == credited(old(self)@, *who, amount as nat)[k] by {
                    lemma_after_push(before, entry, k);
                }
            },
        }
        assert(self@ =~= credited(old(self)@, *who, amount as nat));
    }

    /// Brings new funds into the ledger, to the balance at `who`.
    ///
    /// Fails, and changes nothing, exactly when the supply would exceed
    /// `u64::MAX`.
    pub fn deposit(&mut self, who: &Address, amount: u64) -> (done: Result<(), LedgerError>)
        requires
            old(self).wf(),
        ensures
            final(self).wf(),
            match done {
                Ok(()) => {
                    &&& old(self).supply() + amount <= u64::MAX
                    &&& final(self).supply() == old(self).supply() + amount
                    &&& final(self)@ == credited(old(self)@, *who, amount as nat)
                },
                Err(e) => {
                    &&& e == LedgerError::SupplyOverflow
                    &&& old(self).supply() + amount > u64::MAX
                    &&& final(self).supply() == old(self).supply()
                    &&& final(self)@ == old(self)@
                },
            },
    {
        let supply = self.total_supply();
        if amount > u64::MAX - supply {
            return Err(LedgerError::SupplyOverflow);
        }
        self.credit(who, amount);
        Ok(())
    }

    /// Moves `amount` from the balance at `from` to that at `to`.
    ///
    /// Fails, and changes nothing, exactly when `from` holds less than
    /// `amount`. The supply stays as it is either way.
    pub fn transfer(&mut self, from: &Address, to: &Address, amount: u64) -> (done: Result<
        (),
        LedgerError,
    >)
        requires
            old(self).wf(),
        ensures
            final(self).wf(),
            final(self).supply() == old(self).supply(),
            match done {
                Ok(()) => {
                    &&& old(self)@[*from] >= amount
                    &&& final(self)@ == moved(old(self)@, *from, *to, amount as nat)
                },
                Err(e) => {
                    &&& e == LedgerError::InsufficientFunds
                    &&& old(self)@[*from] < amount
                    &&& final(self)@ == old(self)@
                },
            },
    {
        let ghost before = self.holdings@;
        let source = match self.position(from) {
            Some(i) => i,
            None => {
                if amount > 0 {
                    return Err(LedgerError::InsufficientFunds);
                }
                assert(self@ =~= moved(self@, *from, *to, 0nat));
                return Ok(());
            },
        };
        let available = self.holdings[source].amount;
        if available < amount {
            return Err(LedgerError::InsufficientFunds);
        }
        proof {
            lemma_after_update(before, source as int, (available - amount) as u64, *from);
        }
        self.holdings[source] = Holding { owner: *from, amount: available - amount };
        assert(self@ =~= debited(old(self)@, *from, amount as nat)) by {
            assert forall|k: Address| self@[k] == debited(old(self)@, *from, amount as nat)[k] by {
                lemma_after_update(before, source as int, (available - amount) as u64, k);
            }
        }
        self.credit(to, amount);
        Ok(())
    }
}

} // verus!
