//! Batches of transactions that wait for a block.

use crate::external::{VerifiedTxn, VerifiedTxnWithAccountSeqNum};
use std::time::SystemTime;
use vstd::prelude::*;

verus! {

/// `std::time::SystemTime`, a reading of the wall clock. Nothing is claimed of it: the library
/// only keeps readings that it is given.
#[verifier::external_type_specification]
#[verifier::external_body]
pub struct ExSystemTime(std::time::SystemTime);

/// A batch of transactions, with the gas that it may use at most.
pub struct TxnItem {
    pub txns: Vec<VerifiedTxnWithAccountSeqNum>,
    pub gas_limit: u64,
    pub insert_time: SystemTime,
}

/// The batches that wait, oldest first.
pub struct TxnBuffer {
    txns: Vec<TxnItem>,
}

impl View for TxnBuffer {
    type V = Seq<TxnItem>;

    closed spec fn view(&self) -> Seq<TxnItem> {
        self.txns@
    }
}

/// The gas of all batches in `items` together.
pub open spec fn total_gas(items: Seq<TxnItem>) -> nat
    decreases items.len(),
{
    if items.len() == 0 {
        0
    } else {
        total_gas(items.drop_last()) + items.last().gas_limit as nat
    }
}

/// The transactions of all batches in `items`, in order.
pub open spec fn all_txns(items: Seq<TxnItem>) -> Seq<VerifiedTxnWithAccountSeqNum>
    decreases items.len(),
{
    if items.len() == 0 {
        Seq::empty()
    } else {
        all_txns(items.drop_last()) + items.last().txns@
    }
}

/// Whether the first `count` batches are at most `max_size` and stay within `gas_limit`.
pub open spec fn fits(items: Seq<TxnItem>, count: int, max_size: nat, gas_limit: nat) -> bool {
    count <= max_size && total_gas(items.take(count)) <= gas_limit
}

/// Whether `count` is the number of batches that a request for at most `max_size` batches and at
/// most `gas_limit` gas takes: as many of the oldest as fit, but one where the oldest alone
/// exceeds the gas.
pub open spec fn is_pop_count(
    items: Seq<TxnItem>,
    count: int,
    max_size: nat,
    gas_limit: nat,
) -> bool {
    &&& 0 <= count <= items.len()
    &&& if items.len() > 0 && max_size > 0 && !fits(items, 1, max_size, gas_limit) {
        count == 1
    } else {
        &&& fits(items, count, max_size, gas_limit)
        &&& count < items.len() ==> !fits(items, count + 1, max_size, gas_limit)
    }
}

proof fn lemma_gas_step(items: Seq<TxnItem>, i: int)
    requires
        0 <= i < items.len(),
    ensures
        total_gas(items.take(i + 1)) == total_gas(items.take(i)) + items[i].gas_limit,
{
    assert(items.take(i + 1).drop_last() =~= items.take(i));
}

proof fn lemma_gas_monotone(items: Seq<TxnItem>, i: int, j: int)
    requires
        0 <= i <= j <= items.len(),
    ensures
        total_gas(items.take(i)) <= total_gas(items.take(j)),
    decreases j - i,
{
    if i < j {
        lemma_gas_monotone(items, i, j - 1);
        lemma_gas_step(items, j - 1);
    }
}

/// Taking batches loses none: the transactions that are handed out, followed by those that stay,
/// are the transactions that were there.
pub proof fn pop_keeps_order(items: Seq<TxnItem>, count: int)
    requires
        0 <= count <= items.len(),
    ensures
        all_txns(items.take(count)) + all_txns(items.skip(count)) == all_txns(items),
    decreases items.len(),
{
    if count == items.len() {
        assert(items.take(count) =~= items);
        assert(all_txns(items.skip(count)) =~= Seq::empty());
    } else {
        let shorter = items.drop_last();
        pop_keeps_order(shorter, count);
        assert(items.skip(count).drop_last() =~= shorter.skip(count));
        assert(shorter.take(count) =~= items.take(count));
        assert(all_txns(items.take(count)) + (all_txns(shorter.skip(count)) + items.last().txns@)
            =~= (all_txns(items.take(count)) + all_txns(shorter.skip(count)))
            + items.last().txns@);
    }
}

/// A request takes a definite number of batches.
pub proof fn pop_count_is_unique(
    items: Seq<TxnItem>,
    a: int,
    b: int,
    max_size: nat,
    gas_limit: nat,
)
    requires
        is_pop_count(items, a, max_size, gas_limit),
        is_pop_count(items, b, max_size, gas_limit),
    ensures
        a == b,
{
    if a < b {
        lemma_gas_monotone(items, a + 1, b);
    }
    if b < a {
        lemma_gas_monotone(items, b + 1, a);
    }
}

/// A request for at least one batch makes progress where there is a batch, and takes more gas
/// than it may only where it takes a single batch.
pub proof fn pop_makes_progress(items: Seq<TxnItem>, count: int, max_size: nat, gas_limit: nat)
    requires
        is_pop_count(items, count, max_size, gas_limit),
        max_size > 0,
        items.len() > 0,
    ensures
        0 < count <= max_size,
        count > 1 ==> total_gas(items.take(count)) <= gas_limit,
{
}

/// The gas of batches together is the sum of their limits, whatever their order.
pub proof fn gas_of_batches_adds_up(items: Seq<TxnItem>, more: Seq<TxnItem>, item: TxnItem)
    ensures
        total_gas(items + more) == total_gas(items) + total_gas(more),
        total_gas(seq![item]) == item.gas_limit,
        items.contains(item) ==> total_gas(items) >= item.gas_limit,
    decreases more.len(),
{
    reveal_with_fuel(total_gas, 2);
    assert(seq![item].drop_last() =~= Seq::empty());
    if more.len() == 0 {
        assert(items + more =~= items);
    } else {
        gas_of_batches_adds_up(items, more.drop_last(), item);
        assert((items + more).drop_last() =~= items + more.drop_last());
    }
    if items.contains(item) {
        let i = items.index_of(item);
        lemma_gas_step(items, i);
        lemma_gas_monotone(items, i + 1, items.len() as int);
        assert(items.take(items.len() as int) =~= items);
    }
}

/// The transactions of batches are those of each batch, all of them, one batch after the other.
pub proof fn transactions_of_batches_are_all_there(
    items: Seq<TxnItem>,
    more: Seq<TxnItem>,
    item: TxnItem,
)
    ensures
        all_txns(items) == items.map_values(|item: TxnItem| item.txns@).flatten(),
        all_txns(items + more) == all_txns(items) + all_txns(more),
        all_txns(seq![item]) == item.txns@,
{
    lemma_flat(items);
    let both = items + more;
    assert(both.take(items.len() as int) =~= items);
    assert(both.skip(items.len() as int) =~= more);
    pop_keeps_order(both, items.len() as int);
    reveal_with_fuel(all_txns, 2);
    assert(seq![item].drop_last() =~= Seq::empty());
    assert(all_txns(seq![item]) =~= item.txns@);
}

proof fn lemma_flat(items: Seq<TxnItem>)
    ensures
        all_txns(items) == items.map_values(|item: TxnItem| item.txns@).flatten(),
    decreases items.len(),
{
    let of_item = |item: TxnItem| item.txns@;
    if items.len() > 0 {
        let earlier = items.drop_last();
        lemma_flat(earlier);
        assert(items.map_values(of_item) =~= earlier.map_values(of_item).push(
            of_item(items.last()),
        ));
        earlier.map_values(of_item).lemma_flatten_push(of_item(items.last()));
    }
}

/// A request takes no batch where it asks for none or there is none. Otherwise it takes the oldest
/// one, and further ones only as long as the gas of all of them stays within the limit; it leaves a
/// batch only where it has as many as it asked for, or the gas of the next one would be too much.
pub proof fn requests_take_as_many_batches_as_fit(
    items: Seq<TxnItem>,
    count: int,
    max_size: nat,
    gas_limit: nat,
)
    requires
        is_pop_count(items, count, max_size, gas_limit),
    ensures
        0 <= count <= items.len(),
        count <= max_size,
        count == 0 <==> items.len() == 0 || max_size == 0,
        count > 1 ==> total_gas(items.take(count)) <= gas_limit,
        count < items.len() && count < max_size ==> total_gas(items.take(count))
            + items[count].gas_limit > gas_limit,
{
    if count < items.len() {
        lemma_gas_step(items, count);
    }
}

impl TxnBuffer {
    /// The buffer without batches.
    pub fn new() -> (buffer: Self)
        ensures
            buffer@ == Seq::<TxnItem>::empty(),
    {
        TxnBuffer { txns: Vec::new() }
    }

    /// Appends the transactions in `txns` as one batch, and leaves `txns` empty.
    pub fn push_txns(
        &mut self,
        txns: &mut Vec<VerifiedTxnWithAccountSeqNum>,
        gas_limit: u64,
        insert_time: SystemTime,
    )
        ensures
            final(self)@.len() == old(self)@.len() + 1,
            final(self)@.drop_last() == old(self)@,
            final(self)@.last().txns@ == old(txns)@,
            final(self)@.last().gas_limit == gas_limit,
            final(self)@.last().insert_time == insert_time,
            final(txns)@.len() == 0,
    {
        let mut taken: Vec<VerifiedTxnWithAccountSeqNum> = Vec::new();
        std::mem::swap(&mut taken, txns);
        self.txns.push(TxnItem { txns: taken, gas_limit, insert_time });
        assert(self@.drop_last() =~= old(self)@);
    }

    /// Takes the oldest batches: as many as `max_size` and `gas_limit` allow, but one where the
    /// oldest alone exceeds the gas, so that it cannot stall the ones behind it.
    pub fn pop_txns(&mut self, max_size: usize, gas_limit: u64) -> (txns: Vec<
        VerifiedTxnWithAccountSeqNum,
    >)
        ensures
            exists|count: int| #[trigger]
                is_pop_count(old(self)@, count, max_size as nat, gas_limit as nat) && txns@
                    == all_txns(old(self)@.take(count)) && final(self)@ == old(self)@.skip(count),
    {
        let ghost items = self.txns@;
        let mut total: u64 = 0;
        let mut split_point: usize = 0;
        while split_point < self.txns.len() && split_point < max_size
            && self.txns[split_point].gas_limit <= gas_limit - total
            invariant
                self.txns@ == items,
                split_point <= items.len(),
                split_point <= max_size,
                total == total_gas(items.take(split_point as int)),
                total <= gas_limit,
            decreases self.txns.len() - split_point,
        {
            proof {
                lemma_gas_step(items, split_point as int);
            }
            total = total + self.txns[split_point].gas_limit;
            split_point += 1;
        }
        proof {
            if split_point < items.len() {
                lemma_gas_step(items, split_point as int);
            }
            if split_point > 0 {
                lemma_gas_monotone(items, 1, split_point as int);
            }
        }
        let count: usize = if split_point == 0 && self.txns.len() > 0 && max_size > 0 {
            1
        } else {
            split_point
        };
        assert(is_pop_count(items, count as int, max_size as nat, gas_limit as nat));
        let mut rest = self.txns.split_off(count);
        std::mem::swap(&mut rest, &mut self.txns);
        let ghost left = items.skip(count as int);
        assert(self.txns@ =~= left);
        let ghost taken = rest@;
        assert(taken =~= items.take(count as int));
        let mut result: Vec<VerifiedTxnWithAccountSeqNum> = Vec::new();
        while rest.len() > 0
            invariant
                self.txns@ == left,
                rest.len() <= taken.len(),
                rest@ == taken.skip(taken.len() - rest.len()),
                result@ == all_txns(taken.take(taken.len() - rest.len())),
            decreases rest.len(),
        {
            let ghost done = taken.len() - rest.len();
            let mut item = rest.remove(0);
            assert(item == taken[done]);
            assert(taken.take(done + 1).drop_last() =~= taken.take(done));
            result.append(&mut item.txns);
            assert(rest@ =~= taken.skip(done + 1));
        }
        assert(taken.take(taken.len() as int) =~= taken);
        assert(result@ == all_txns(old(self)@.take(count as int)));
        assert(self@ == old(self)@.skip(count as int));
        assert(is_pop_count(old(self)@, count as int, max_size as nat, gas_limit as nat));
        result
    }
}

/// A pool that never holds a transaction.
pub struct EmptyTxPool {}

impl EmptyTxPool {
    pub fn boxed() -> (pool: Box<EmptyTxPool>)
        ensures
            *pool == (EmptyTxPool {  }),
    {
        Box::new(EmptyTxPool {  })
    }

    /// The best transactions in the pool, at most `limit` of them: there are none.
    pub fn best_txns(&self, _limit: usize) -> (txns: Vec<VerifiedTxn>)
        ensures
            txns@.len() == 0,
    {
        Vec::new()
    }

    /// The transactions to tell peers of: there are none.
    pub fn get_broadcast_txns(&self) -> (txns: Vec<VerifiedTxn>)
        ensures
            txns@.len() == 0,
    {
        Vec::new()
    }

    /// Whether the pool takes a transaction from elsewhere: it does not.
    pub fn add_external_txn(&self, _txn: VerifiedTxn) -> (taken: bool)
        ensures
            !taken,
    {
        false
    }

    /// Removes transactions, of which the pool has none.
    pub fn remove_txns(&mut self, _txns: Vec<VerifiedTxn>)
        ensures
            *final(self) == *old(self),
    {
    }
}

} // verus!
