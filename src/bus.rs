//! Transactions on the shared register-addressed channel, and the handle
//! that serialises access to it.
use vstd::prelude::*;

verus! {

/// Errors raised by the protocol layer.
#[derive(Debug, Clone, Copy, PartialEq, Eq, Structural)]
pub enum Error {
    /// A channel index outside the device's declared range.
    InvalidChannel,
    /// The channel was acquired while already held.
    ChannelBusy,
    /// A setup step did not get the reply it needs to go on.
    Initialization,
}

/// One step of a device protocol, to be carried out on the channel in order.
#[derive(Debug, PartialEq, Eq)]
pub enum Transaction {
    /// Write `bytes` to the device at `addr`.
    Write { addr: u8, bytes: Vec<u8> },
    /// Write `bytes` to the device at `addr`, then read `read_len` bytes back.
    WriteRead { addr: u8, bytes: Vec<u8>, read_len: usize },
    /// Wait at least this many microseconds before the next step.
    DelayUs(u32),
}

/// Mathematical view of a [`Transaction`].
pub enum Op {
    Write(u8, Seq<u8>),
    WriteRead(u8, Seq<u8>, nat),
    DelayUs(nat),
}

impl View for Transaction {
    type V = Op;

    open spec fn view(&self) -> Op {
        match self {
            Transaction::Write { addr, bytes } => Op::Write(*addr, bytes@),
            Transaction::WriteRead { addr, bytes, read_len } => Op::WriteRead(
                *addr,
                bytes@,
                *read_len as nat,
            ),
            Transaction::DelayUs(us) => Op::DelayUs(*us as nat),
        }
    }
}

/// The operations that a sequence of transactions performs.
pub open spec fn ops(ts: Seq<Transaction>) -> Seq<Op> {
    ts.map_values(|t: Transaction| t@)
}

/// Appending a transaction appends its operation.
pub proof fn lemma_ops_push(ts: Seq<Transaction>, t: Transaction)
    ensures
        ops(ts.push(t)) == ops(ts).push(t@),
{
    assert(ops(ts.push(t)) =~= ops(ts).push(t@));
}

/// Concatenating plans concatenates their operations.
pub proof fn lemma_ops_concat(a: Seq<Transaction>, b: Seq<Transaction>)
    ensures
        ops(a + b) == ops(a) + ops(b),
{
    assert(ops(a + b) =~= ops(a) + ops(b));
}

/// Shared ownership of the one physical channel: at most one transaction
/// holds it at a time.
pub struct ChannelHandle {
    held: bool,
}

impl ChannelHandle {
    /// Whether a holder currently has the channel.
    pub closed spec fn held(&self) -> bool {
        self.held
    }

    /// A free channel.
    pub fn new() -> (r: ChannelHandle)
        ensures
            !r.held(),
    {
        ChannelHandle { held: false }
    }

    /// Takes exclusive use of the channel; a second acquisition before the
    /// matching release is refused and leaves the handle as it was.
    pub fn acquire(&mut self) -> (r: Result<(), Error>)
        ensures
            old(self).held() ==> r == Err::<(), Error>(Error::ChannelBusy),
            old(self).held() ==> final(self).held(),
            !old(self).held() ==> r.is_ok() && final(self).held(),
    {
        if self.held {
            Err(Error::ChannelBusy)
        } else {
            self.held = true;
            Ok(())
        }
    }

    /// Gives the channel back.
    pub fn release(&mut self)
        ensures
            !final(self).held(),
    {
        self.held = false;
    }

    /// Whether the channel is held right now.
    pub fn is_held(&self) -> (r: bool)
        ensures
            r == self.held(),
    {
        self.held
    }
}

} // verus!
