//! The byte transport underneath the driver, and the record of what the
//! driver has asked of it.

use vstd::prelude::*;

verus! {

/// A failure of the transport. The driver reports it as a bus error and
/// does not look inside.
#[derive(Debug, PartialEq, Eq, Clone, Copy)]
pub struct TransportError;

/// A register-oriented serial bus, as the driver needs it.
///
/// The driver relies on nothing but these two operations, and on nothing
/// about what they do: whatever an implementation returns or leaves in
/// `buffer`, the driver neither panics nor overflows.
pub trait RegisterBus {
    /// Sends `bytes` to the device at the 7-bit `address`.
    fn write(&mut self, address: u8, bytes: &[u8]) -> Result<(), TransportError>;

    /// Sends `bytes` to the device at the 7-bit `address`, then reads as
    /// many bytes as `buffer` holds into it.
    fn write_read(&mut self, address: u8, bytes: &[u8], buffer: &mut [u8]) -> Result<
        (),
        TransportError,
    >;
}

/// One transaction on the bus: what was asked and what came back.
pub enum Exchange {
    /// `bytes` were sent to the device at `address`.
    Write { address: u8, bytes: Seq<u8>, delivered: bool },
    /// `query` was sent to the device at `address` and `asked` bytes were
    /// to be read; `response` is what the buffer held afterwards.
    Read { address: u8, query: Seq<u8>, asked: nat, response: Seq<u8>, delivered: bool },
}

impl Exchange {
    /// The transport reported success.
    pub open spec fn delivered(self) -> bool {
        match self {
            Exchange::Write { delivered, .. } => delivered,
            Exchange::Read { delivered, .. } => delivered,
        }
    }
}

/// A bus together with the record of every transaction made on it through
/// this value.
///
/// The record exists for verification only. It can grow in one way, by a
/// call of [`Wire::write`] or [`Wire::write_read`], each of which makes
/// exactly one call of the bus and records it. What an operation of the
/// driver states about the record is therefore a statement about what it
/// asked of the bus, in which order, and what it made of the answers.
pub struct Wire<B> {
    bus: B,
    log: Ghost<Seq<Exchange>>,
}

impl<B: RegisterBus> Wire<B> {
    /// Every transaction made so far, oldest first.
    pub closed spec fn log(&self) -> Seq<Exchange> {
        self.log@
    }

    /// The record of `before` is the beginning of this record.
    pub open spec fn extends(&self, before: &Self) -> bool {
        &&& before.log().len() <= self.log().len()
        &&& self.log().subrange(0, before.log().len() as int) == before.log()
    }

    /// The transactions made since `before`.
    pub open spec fn since(&self, before: &Self) -> Seq<Exchange> {
        self.log().subrange(before.log().len() as int, self.log().len() as int)
    }

    /// Takes a bus into use, with an empty record.
    pub fn new(bus: B) -> (wire: Self)
        ensures
            wire.log() == Seq::<Exchange>::empty(),
            wire.bus() == bus,
    {
        Wire { bus, log: Ghost(Seq::empty()) }
    }

    /// Gives the bus back: the bus that the wire holds, as the
    /// transactions made on it have left it.
    pub fn into_inner(self) -> (bus: B)
        ensures
            bus == self.bus(),
    {
        self.bus
    }

    /// The bus that the wire holds.
    pub fn inner(&self) -> (bus: &B)
        ensures
            *bus == self.bus(),
    {
        &self.bus
    }

    /// The bus that the wire holds, for use behind the driver's back.
    ///
    /// The reference starts at the bus as the wire holds it, and what is
    /// done through it is what the wire holds afterwards. Nothing done
    /// through it is recorded: the record stays as it is.
    pub fn inner_mut(&mut self) -> (bus: &mut B)
        ensures
            *bus == old(self).bus(),
            final(self).bus() == *final(bus),
            final(self).log() == old(self).log(),
    {
        &mut self.bus
    }

    /// The bus that the wire holds.
    pub closed spec fn bus(&self) -> B {
        self.bus
    }

    /// Sends `bytes` to the device at `address` and records the
    /// transaction.
    pub fn write(&mut self, address: u8, bytes: &[u8]) -> (r: Result<(), TransportError>)
        ensures
            final(self).log() == old(self).log().push(
                Exchange::Write { address, bytes: bytes@, delivered: r is Ok },
            ),
    {
        let r = self.bus.write(address, bytes);
        self.log = Ghost(
            self.log@.push(Exchange::Write { address, bytes: bytes@, delivered: r is Ok }),
        );
        r
    }

    /// Sends `bytes` to the device at `address`, reads into `buffer`, and
    /// records the transaction.
    pub fn write_read(&mut self, address: u8, bytes: &[u8], buffer: &mut [u8]) -> (r: Result<
        (),
        TransportError,
    >)
        ensures
            final(self).log() == old(self).log().push(
                Exchange::Read {
                    address,
                    query: bytes@,
                    asked: old(buffer)@.len(),
                    response: final(buffer)@,
                    delivered: r is Ok,
                },
            ),
    {
        let ghost asked = buffer@.len();
        let r = self.bus.write_read(address, bytes, buffer);
        self.log = Ghost(
            self.log@.push(
                Exchange::Read {
                    address,
                    query: bytes@,
                    asked,
                    response: buffer@,
                    delivered: r is Ok,
                },
            ),
        );
        r
    }
}

/// Two runs one after the other: the record of the first, then that of
/// the second.
proof fn lemma_trace_join(
    before: Seq<Exchange>,
    middle: Seq<Exchange>,
    after: Seq<Exchange>,
)
    requires
        before.len() <= middle.len() <= after.len(),
        middle.subrange(0, before.len() as int) == before,
        after.subrange(0, middle.len() as int) == middle,
    ensures
        after.subrange(0, before.len() as int) == before,
        after.subrange(before.len() as int, after.len() as int) == middle.subrange(
            before.len() as int,
            middle.len() as int,
        ) + after.subrange(middle.len() as int, after.len() as int),
{
    assert(after.subrange(0, before.len() as int) =~= middle.subrange(0, before.len() as int));
    assert(after.subrange(before.len() as int, after.len() as int) =~= middle.subrange(
        before.len() as int,
        middle.len() as int,
    ) + after.subrange(middle.len() as int, after.len() as int)) by {
        assert forall|i: int| before.len() <= i < middle.len() implies after[i] == middle[i] by {
            assert(after.subrange(0, middle.len() as int)[i] == middle[i]);
        }
    }
}

/// One more transaction: the record grows by it.
proof fn lemma_trace_push(before: Seq<Exchange>, x: Exchange)
    ensures
        before.push(x).subrange(0, before.len() as int) == before,
        before.push(x).subrange(before.len() as int, (before.len() + 1) as int) == seq![x],
{
    assert(before.push(x).subrange(0, before.len() as int) =~= before);
    assert(before.push(x).subrange(before.len() as int, (before.len() + 1) as int) =~= seq![x]);
}

impl<B: RegisterBus> Wire<B> {
    /// Two steps one after the other: what `after` has recorded since
    /// `before` is what `middle` has recorded since `before`, followed by
    /// what `after` has recorded since `middle`.
    pub proof fn lemma_join(before: &Self, middle: &Self, after: &Self)
        requires
            middle.extends(before),
            after.extends(middle),
        ensures
            after.extends(before),
            after.since(before) == middle.since(before) + after.since(middle),
            after.since(before).len() == middle.since(before).len() + after.since(middle).len(),
            after.since(before).skip(middle.since(before).len() as int) == after.since(middle),
            forall|i: int|
                0 <= i < middle.since(before).len() ==> #[trigger] after.since(before)[i]
                    == middle.since(before)[i],
            forall|i: int|
                0 <= i < after.since(middle).len() ==> after.since(before)[middle.since(
                    before,
                ).len() + i] == #[trigger] after.since(middle)[i],
    {
        lemma_trace_join(before.log(), middle.log(), after.log());
        assert(after.since(before).skip(middle.since(before).len() as int) =~= after.since(
            middle,
        ));
    }

    /// No step: a wire with the same record extends the other by nothing.
    pub proof fn lemma_still(before: &Self, after: &Self)
        requires
            after.log() == before.log(),
        ensures
            after.extends(before),
            after.since(before) == Seq::<Exchange>::empty(),
    {
        assert(after.log().subrange(0, before.log().len() as int) =~= before.log());
        assert(after.since(before) =~= Seq::<Exchange>::empty());
    }

    /// One step: a wire with one more transaction extends the one before
    /// by it.
    pub proof fn lemma_step(before: &Self, after: &Self, x: Exchange)
        requires
            after.log() == before.log().push(x),
        ensures
            after.extends(before),
            after.since(before) == seq![x],
    {
        lemma_trace_push(before.log(), x);
    }
}

} // verus!
