//! The driver's side of the exchange, as a model, and what follows for a
//! client that talks to it.
//!
//! [`RegisterFile`] is a privileged component reduced to what the register
//! helpers can observe: it keeps the last value written to each selector.
//! The theorems run a client against it, request by request.

use vstd::prelude::*;
use crate::host::{ReplyModel, RequestModel};
use crate::ioctl::IOCTL;
use crate::ring0::{
    read_command, write_command, OlsWriteMsrInput, Outcome, Purpose, Ring0ErrorModel, Ring0Model,
    MSR_TSC,
};
use crate::wire::{
    le_bytes, le_value, lemma_le_bytes_len, lemma_le_value_of_bytes, lemma_span_of_scalars,
    WireRecord,
};

verus! {

/// A privileged component that keeps, for each selector, the value last
/// written to it.  It stands for the driver in the round trip below.
pub struct RegisterFile {
    pub values: Map<u32, u64>,
}

impl RegisterFile {
    /// The selector that the first four bytes of a request spell.
    pub open spec fn selector(input: Seq<u8>) -> u32 {
        le_value(input.subrange(0, 4)) as u32
    }

    /// What the component answers to `request`, and what it keeps
    /// afterwards.  A write stores the value under the selector and answers
    /// with no bytes; a read of a selector that holds a value answers with
    /// the eight bytes of the value; everything else fails.
    pub open spec fn answer(self, request: RequestModel) -> (RegisterFile, ReplyModel) {
        match request {
            RequestModel::SendControl { handle, code, input } => {
                if code == IOCTL::OLS_WRITE_MSR.spec_code() && input.len() == 16 {
                    (
                        RegisterFile {
                            values: self.values.insert(
                                Self::selector(input),
                                le_value(input.subrange(8, 16)) as u64,
                            ),
                        },
                        ReplyModel::Output(Seq::empty()),
                    )
                } else if code == IOCTL::OLS_READ_MSR.spec_code() && input.len() == 4
                    && self.values.dom().contains(Self::selector(input)) {
                    (
                        self,
                        ReplyModel::Output(
                            le_bytes(self.values[Self::selector(input)] as nat, 8),
                        ),
                    )
                } else {
                    (self, ReplyModel::Failed(Seq::empty()))
                }
            },
            _ => (self, ReplyModel::Failed(Seq::empty())),
        }
    }
}

/// A selector and a value come back out of the record that carries them.
pub proof fn lemma_write_record_round_trip(msr: u32, value: u64)
    ensures
        ({
            let record = (OlsWriteMsrInput { register: msr, value }).layout();
            &&& record.len() == 16
            &&& le_value(record.subrange(0, 4)) == msr
            &&& le_value(record.subrange(8, 16)) == value
        }),
{
    let record = (OlsWriteMsrInput { register: msr, value }).layout();
    lemma_le_bytes_len(msr as nat, 4);
    lemma_le_bytes_len(value as nat, 8);
    assert(record.subrange(0, 4) =~= le_bytes(msr as nat, 4));
    assert(record.subrange(8, 16) =~= le_bytes(value as nat, 8));
    lemma_span_of_scalars();
    lemma_le_value_of_bytes(msr as nat, 4);
    lemma_le_value_of_bytes(value as nat, 8);
}

/// Writing a register and reading it back gives the value written.  On an
/// open, idle client, `writeMsr(msr, value)` carried out against a component
/// that keeps the last value written per selector goes through, and the
/// `readMsr(msr)` after it, carried out against the same component, returns
/// `value`.  The channel is open and idle again afterwards.
pub proof fn lemma_write_then_read(ring: Ring0Model, registers: RegisterFile, msr: u32, value: u64)
    requires
        ring.channel.state is Opened,
        ring.channel.pending is None,
    ensures
        ({
            let write = ring.begin(Some(Purpose::WriteMsr), write_command(msr, value));
            let stored = registers.answer(write.1->Ok_0);
            let written = write.0.complete(stored.1);
            let read = written.0.begin(Some(Purpose::ReadMsr), read_command(msr));
            let fetched = stored.0.answer(read.1->Ok_0);
            let got = read.0.complete(fetched.1);
            &&& write.1 is Ok
            &&& written.1 == Ok::<Outcome, Ring0ErrorModel>(Outcome::Done)
            &&& read.1 is Ok
            &&& got.1 == Ok::<Outcome, Ring0ErrorModel>(Outcome::Value(value))
            &&& got.0.channel == ring.channel
        }),
{
    lemma_write_record_round_trip(msr, value);
    lemma_span_of_scalars();
    lemma_le_bytes_len(msr as nat, 4);
    lemma_le_bytes_len(value as nat, 8);
    lemma_le_value_of_bytes(msr as nat, 4);
    lemma_le_value_of_bytes(value as nat, 8);
    let input = le_bytes(msr as nat, 4);
    assert(input.subrange(0, 4) =~= input);
}

/// The status is the counter.  On an open, idle client, a `getStatus` that
/// the driver answers with the counter reading `first`, and a later one that
/// it answers with `second`, return exactly these readings: with a counter
/// that never runs backwards, neither does the status.  The channel is open
/// and idle again after each.
pub proof fn lemma_status_follows_counter(ring: Ring0Model, first: u64, second: u64)
    requires
        ring.channel.state is Opened,
        ring.channel.pending is None,
        first <= second,
    ensures
        ({
            let probe = read_command(MSR_TSC);
            let earlier = ring.exchange(
                Purpose::GetStatus,
                probe,
                ReplyModel::Output(le_bytes(first as nat, 8)),
            );
            let later = earlier.0.exchange(
                Purpose::GetStatus,
                probe,
                ReplyModel::Output(le_bytes(second as nat, 8)),
            );
            &&& earlier.1 == Ok::<Outcome, Ring0ErrorModel>(Outcome::Value(first))
            &&& later.1 == Ok::<Outcome, Ring0ErrorModel>(Outcome::Value(second))
            &&& earlier.1->Ok_0->Value_0 <= later.1->Ok_0->Value_0
            &&& earlier.0.channel == ring.channel
            &&& later.0.channel == ring.channel
        }),
{
    lemma_span_of_scalars();
    lemma_le_bytes_len(first as nat, 8);
    lemma_le_bytes_len(second as nat, 8);
    lemma_le_value_of_bytes(first as nat, 8);
    lemma_le_value_of_bytes(second as nat, 8);
}

} // verus!
