use vstd::prelude::*;

verus! {

/// The three market slots the watcher keeps: the market that just ended
/// (`prev`), the one being tracked (`curr`) and the one preloaded for the
/// next window (`futu`).
pub struct MarketBuffer<T> {
    pub prev: Option<T>,
    pub curr: Option<T>,
    pub futu: Option<T>,
}

impl<T> MarketBuffer<T> {
    /// The buffer after one shift: every market moves one slot back.
    pub open spec fn shifted(self) -> Self {
        MarketBuffer { prev: self.curr, curr: self.futu, futu: None }
    }

    /// An empty buffer: no slot holds a market.
    pub fn new() -> (buffer: Self)
        ensures
            buffer.prev is None,
            buffer.curr is None,
            buffer.futu is None,
    {
        MarketBuffer { prev: None, curr: None, futu: None }
    }

    /// Moves every market one slot back: the current market becomes the
    /// previous one, the preloaded one becomes current, and no market is
    /// preloaded any more. The old previous market is dropped.
    pub fn shift(&mut self)
        ensures
            *final(self) == old(self).shifted(),
            final(self).prev == old(self).curr,
            final(self).curr == old(self).futu,
            final(self).futu is None,
    {
        self.prev = self.curr.take();
        self.curr = self.futu.take();
        self.futu = None;
    }
}

/// Two shifts in a row leave only the market that was preloaded before the
/// first one, now in the `prev` slot: every market passes through the slots
/// in the order `futu`, `curr`, `prev`, and then leaves.
pub proof fn lemma_markets_pass_in_order<T>(buffer: MarketBuffer<T>)
    ensures
        buffer.shifted().shifted() == (MarketBuffer::<T> { prev: buffer.futu, curr: None, futu: None }),
{
}


/// One shift moves each market exactly one slot back, whatever the buffer
/// holds: the market that was current becomes the previous one (the one to
/// settle), the preloaded one becomes current, and the preload slot is empty.
pub proof fn lemma_shift_moves_each_market_back<T>(buffer: MarketBuffer<T>)
    ensures
        buffer.shifted().prev == buffer.curr,
        buffer.shifted().curr == buffer.futu,
        buffer.shifted().futu is None,
{
}

} // verus!
