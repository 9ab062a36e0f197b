//! Register access and its observable history.
//!
//! Hardware registers are reached through two layers. [`Mmio`] is the raw
//! capability: one bus-width load, one bus-width store, one no-op cycle.
//! [`RegisterFile`] is the same capability together with the history of what
//! was done with it, which is what the drivers' contracts speak of.
//! [`Recorded`] turns any [`Mmio`] into a [`RegisterFile`].
use vstd::prelude::*;

verus! {

/// One step taken on the register bus.
#[derive(Clone, Copy, Debug, PartialEq, Eq)]
pub enum Access {
    /// A load from `address` that returned `word`.
    Load { address: u32, word: u32 },
    /// A store of `word` to `address`.
    Store { address: u32, word: u32 },
    /// One no-op cycle spent waiting.
    Nop,
}

impl Access {
    /// The word that a load returned or a store carried; zero for a no-op.
    pub open spec fn word(self) -> u32 {
        match self {
            Access::Load { word, .. } => word,
            Access::Store { word, .. } => word,
            Access::Nop => 0,
        }
    }
}

/// The word that the access at position `at` of `accesses` returned or carried.
pub open spec fn word_of(accesses: Seq<Access>, at: nat) -> u32 {
    accesses[at as int].word()
}

/// `cycles` no-op cycles in a row.
pub open spec fn idle(cycles: nat) -> Seq<Access> {
    Seq::new(cycles, |i: int| Access::Nop)
}

/// The word that `image` holds at `address`. A register that nothing was
/// stored to holds zero.
pub open spec fn word_at(image: Map<u32, u32>, address: u32) -> u32 {
    if image.dom().contains(address) {
        image[address]
    } else {
        0
    }
}

/// The register image that one access leaves behind: a store replaces the word
/// at its address, a load or a no-op changes nothing.
pub open spec fn effect(image: Map<u32, u32>, access: Access) -> Map<u32, u32> {
    match access {
        Access::Store { address, word } => image.insert(address, word),
        _ => image,
    }
}

/// The register image after `accesses` were performed, in order, on `image`.
pub open spec fn image_after(image: Map<u32, u32>, accesses: Seq<Access>) -> Map<u32, u32>
    decreases accesses.len(),
{
    if accesses.len() == 0 {
        image
    } else {
        effect(image_after(image, accesses.drop_last()), accesses.last())
    }
}

/// Whether `access`, performed on `image`, is a load of the word that `image`
/// holds at its address, or no load at all.
pub open spec fn load_agrees(image: Map<u32, u32>, access: Access) -> bool {
    match access {
        Access::Load { address, word } => word == word_at(image, address),
        _ => true,
    }
}

/// Whether every load among `accesses`, performed in order on `image`,
/// returned the word that its register held at that moment. This is what
/// tells plain memory from a device with a will of its own.
pub open spec fn loads_agree(image: Map<u32, u32>, accesses: Seq<Access>) -> bool
    decreases accesses.len(),
{
    accesses.len() == 0 || (loads_agree(image, accesses.drop_last()) && load_agrees(
        image_after(image, accesses.drop_last()),
        accesses.last(),
    ))
}

/// One more access extends the image by its effect.
pub proof fn lemma_image_after_push(image: Map<u32, u32>, accesses: Seq<Access>, access: Access)
    ensures
        image_after(image, accesses.push(access)) == effect(image_after(image, accesses), access),
        loads_agree(image, accesses.push(access)) <==> loads_agree(image, accesses) && load_agrees(
            image_after(image, accesses),
            access,
        ),
{
    assert(accesses.push(access).drop_last() =~= accesses);
}

/// A single access leaves its effect behind.
pub proof fn lemma_image_after_one(image: Map<u32, u32>, access: Access)
    ensures
        image_after(image, seq![access]) == effect(image, access),
        loads_agree(image, seq![access]) <==> load_agrees(image, access),
{
    assert(seq![access] =~= Seq::<Access>::empty().push(access));
    lemma_image_after_push(image, Seq::empty(), access);
}

/// Performing `first` and then `second` is performing `first + second`.
pub proof fn lemma_image_after_concat(
    image: Map<u32, u32>,
    first: Seq<Access>,
    second: Seq<Access>,
)
    ensures
        image_after(image, first + second) == image_after(image_after(image, first), second),
        loads_agree(image, first + second) <==> loads_agree(image, first) && loads_agree(
            image_after(image, first),
            second,
        ),
    decreases second.len(),
{
    if second.len() == 0 {
        assert(first + second =~= first);
    } else {
        lemma_image_after_concat(image, first, second.drop_last());
        assert((first + second).drop_last() =~= first + second.drop_last());
    }
}

/// Waiting stores nothing and loads nothing.
pub proof fn lemma_idle_is_inert(image: Map<u32, u32>, cycles: nat)
    ensures
        image_after(image, idle(cycles)) == image,
        loads_agree(image, idle(cycles)),
    decreases cycles,
{
    if cycles > 0 {
        lemma_idle_is_inert(image, (cycles - 1) as nat);
        assert(idle(cycles).drop_last() =~= idle((cycles - 1) as nat));
    }
}

/// The raw register accessor.
///
/// An implementation performs exactly one bus access for each call, in
/// program order, with nothing cached, merged or elided; on memory-mapped
/// hardware that is a volatile load or store. The methods carry no contract
/// of their own: a device register need not hold what was last stored to it,
/// so nothing is assumed of the word that a load returns. What a call was
/// handed, and what it gave back, is spoken of through [`device_loaded`],
/// [`device_stored`] and [`device_idled`].
pub trait Mmio {
    /// One bus-width load from `address`.
    fn load(&self, address: u32) -> u32;

    /// One bus-width store of `word` to `address`.
    fn store(&self, address: u32, word: u32);

    /// One no-op cycle.
    fn nop(&self);
}

/// Whether `word` is what a load of `device` from `address` gave back.
pub open spec fn device_loaded<M: Mmio>(device: M, address: u32, word: u32) -> bool {
    call_ensures(M::load, (&device, address), word)
}

/// Whether a store of `device` was handed `word` for `address`, and returned.
pub open spec fn device_stored<M: Mmio>(device: M, address: u32, word: u32) -> bool {
    call_ensures(M::store, (&device, address, word), ())
}

/// Whether a no-op of `device` returned.
pub open spec fn device_idled<M: Mmio>(device: M) -> bool {
    call_ensures(M::nop, (&device,), ())
}

/// Whether `access` is a call of `device`: a load that gave the access's word,
/// a store that was handed the access's address and word, or a no-op.
pub open spec fn device_performed<M: Mmio>(device: M, access: Access) -> bool {
    match access {
        Access::Load { address, word } => device_loaded(device, address, word),
        Access::Store { address, word } => device_stored(device, address, word),
        Access::Nop => device_idled(device),
    }
}

/// A register accessor that knows its own history. Each call is one access,
/// appended to the history; the exclusive borrow keeps two users of the same
/// registers from interleaving their steps.
pub trait RegisterFile {
    /// Every access performed so far, oldest first.
    spec fn accesses(&self) -> Seq<Access>;

    /// Loads one word from `address`.
    fn read(&mut self, address: u32) -> (word: u32)
        ensures
            final(self).accesses() == old(self).accesses().push(Access::Load { address, word }),
    ;

    /// Stores `word` to `address`.
    fn write(&mut self, address: u32, word: u32)
        ensures
            final(self).accesses() == old(self).accesses().push(Access::Store { address, word }),
    ;

    /// Spends one no-op cycle.
    fn nop(&mut self)
        ensures
            final(self).accesses() == old(self).accesses().push(Access::Nop),
    ;
}

/// An [`Mmio`] device together with the history of the accesses made through
/// it. An access enters the history only as a call of the device that has
/// returned, with the same address and the same word. The device has no model
/// of its own, so the converse cannot be said: that it was asked for nothing
/// besides. The history is ghost state: it costs nothing at run time.
pub struct Recorded<M: Mmio> {
    device: M,
    history: Ghost<Seq<Access>>,
}

impl<M: Mmio> Recorded<M> {
    /// The device that the accesses go to.
    pub closed spec fn device(&self) -> M {
        self.device
    }

    /// Every access of the history is a call of the device.
    #[verifier::type_invariant]
    pub open spec fn faithful(&self) -> bool {
        forall|at: int|
            0 <= at < self.accesses().len() ==> device_performed(
                self.device(),
                #[trigger] self.accesses()[at],
            )
    }

    /// Wraps `device`; nothing has been accessed yet.
    pub fn new(device: M) -> (regs: Self)
        ensures
            regs.faithful(),
            regs.device() == device,
            regs.accesses() == Seq::<Access>::empty(),
    {
        Recorded { device, history: Ghost(Seq::empty()) }
    }

    /// Appends to the history an access that the device has just performed.
    fn note(&mut self, Ghost(access): Ghost<Access>)
        requires
            device_performed(old(self).device(), access),
        ensures
            final(self).device() == old(self).device(),
            final(self).accesses() == old(self).accesses().push(access),
    {
        proof {
            use_type_invariant(&*self);
            let past = self.history@;
            let next = past.push(access);
            assert forall|at: int| 0 <= at < next.len() implies device_performed(
                self.device,
                #[trigger] next[at],
            ) by {
                if at < past.len() {
                    assert(next[at] == self.accesses()[at]);
                }
            }
            self.history@ = next;
        }
    }

    /// Gives the device back.
    pub fn into_device(self) -> (device: M)
        ensures
            device == self.device(),
    {
        self.device
    }
}

impl<M: Mmio> RegisterFile for Recorded<M> {
    closed spec fn accesses(&self) -> Seq<Access> {
        self.history@
    }

    /// Loads from `address` of the device, and returns the word that the
    /// device gave.
    fn read(&mut self, address: u32) -> (word: u32)
        ensures
            final(self).device() == old(self).device(),
            device_loaded(old(self).device(), address, word),
    {
        let word: u32 = self.device.load(address);
        self.note(Ghost(Access::Load { address, word }));
        word
    }

    /// Stores `word` to `address` of the device.
    fn write(&mut self, address: u32, word: u32)
        ensures
            final(self).device() == old(self).device(),
            device_stored(old(self).device(), address, word),
    {
        self.device.store(address, word);
        self.note(Ghost(Access::Store { address, word }));
    }

    /// Has the device spend one no-op cycle.
    fn nop(&mut self)
        ensures
            final(self).device() == old(self).device(),
            device_idled(old(self).device()),
    {
        self.device.nop();
        self.note(Ghost(Access::Nop));
    }
}

} // verus!
