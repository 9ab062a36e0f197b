//! A register file made of plain memory, for running the drivers without
//! hardware.
use crate::mmio::{
    effect, image_after, lemma_image_after_push, load_agrees, loads_agree, word_at, Access,
    RegisterFile,
};
use vstd::prelude::*;

verus! {

/// A simulated register file: a mapping from address to word, together with
/// everything that was done to it.
///
/// Every register starts at zero. A store replaces the word at its address; a
/// load returns the word last stored there. The simulator keeps the accesses
/// themselves, so a caller can check not only what the registers hold in the
/// end but the order in which they were driven.
pub struct SimulatedRegisters {
    log: Vec<Access>,
}

impl SimulatedRegisters {
    /// Every load so far returned what its register held.
    #[verifier::type_invariant]
    pub open spec fn coherent(&self) -> bool {
        loads_agree(Map::empty(), self.accesses())
    }

    /// What each register holds now.
    pub open spec fn image(&self) -> Map<u32, u32> {
        image_after(Map::empty(), self.accesses())
    }

    /// A register file on which nothing has been done: every register holds
    /// zero.
    pub fn new() -> (regs: Self)
        ensures
            regs.coherent(),
            regs.accesses() == Seq::<Access>::empty(),
            regs.image() == Map::<u32, u32>::empty(),
    {
        SimulatedRegisters { log: Vec::new() }
    }

    /// The word that the register at `address` holds now. Looking is not an
    /// access: the history stays as it is.
    pub fn peek(&self, address: u32) -> (word: u32)
        ensures
            word == word_at(self.image(), address),
    {
        let mut at: usize = self.log.len();
        assert(self.log@.take(at as int) =~= self.log@);
        while at > 0
            invariant
                at <= self.log@.len(),
                word_at(image_after(Map::empty(), self.log@.take(at as int)), address) == word_at(
                    image_after(Map::empty(), self.log@),
                    address,
                ),
            decreases at,
        {
            at -= 1;
            proof {
                assert(self.log@.take(at + 1).drop_last() =~= self.log@.take(at as int));
            }
            match self.log[at] {
                Access::Store { address: stored_at, word } => {
                    if stored_at == address {
                        return word;
                    }
                },
                _ => {},
            }
        }
        assert(self.log@.take(0) =~= Seq::<Access>::empty());
        0
    }

    /// Appends `access` to the history. The log is taken out and put back
    /// whole, so that no half-written register file is ever in sight.
    fn record(&mut self, access: Access)
        requires
            load_agrees(old(self).image(), access),
        ensures
            final(self).accesses() == old(self).accesses().push(access),
            final(self).image() == effect(old(self).image(), access),
    {
        proof {
            use_type_invariant(&*self);
            lemma_image_after_push(Map::empty(), self.log@, access);
        }
        let mut taken = SimulatedRegisters { log: Vec::new() };
        core::mem::swap(self, &mut taken);
        let mut log: Vec<Access> = taken.log;
        log.push(access);
        *self = SimulatedRegisters { log };
    }

    /// Every access performed so far, oldest first.
    pub fn history(&self) -> (accesses: Vec<Access>)
        ensures
            accesses@ == self.accesses(),
    {
        let mut accesses: Vec<Access> = Vec::new();
        let mut at: usize = 0;
        while at < self.log.len()
            invariant
                at <= self.log@.len(),
                accesses@ == self.log@.take(at as int),
            decreases self.log@.len() - at,
        {
            accesses.push(self.log[at]);
            at += 1;
            assert(accesses@ =~= self.log@.take(at as int));
        }
        assert(self.log@.take(at as int) =~= self.log@);
        accesses
    }
}

impl RegisterFile for SimulatedRegisters {
    closed spec fn accesses(&self) -> Seq<Access> {
        self.log@
    }

    /// Loads the word last stored to `address`, or zero if there was none.
    fn read(&mut self, address: u32) -> (word: u32)
        ensures
            word == word_at(old(self).image(), address),
            final(self).image() == old(self).image(),
    {
        let word: u32 = self.peek(address);
        self.record(Access::Load { address, word });
        word
    }

    /// Stores `word` to `address`.
    fn write(&mut self, address: u32, word: u32)
        ensures
            final(self).image() == old(self).image().insert(address, word),
    {
        self.record(Access::Store { address, word });
    }

    /// Spends one no-op cycle: the registers stay as they are.
    fn nop(&mut self)
        ensures
            final(self).image() == old(self).image(),
    {
        self.record(Access::Nop);
    }
}

} // verus!
