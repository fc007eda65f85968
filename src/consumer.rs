use vstd::prelude::*;

use crate::definition::Definition;
use crate::error::{Error, ErrorKind};
use crate::text::{decode_utf8, message, utf8_decoding, with_cause};

verus! {

/// How the queue is declared: a durable, shared, persistent stream.
pub struct QueueDeclaration {
    pub durable: bool,
    pub exclusive: bool,
    pub auto_delete: bool,
    /// The value of the `x-queue-type` argument.
    pub queue_type: String,
}

/// How the consumer subscribes to the stream.
pub struct ConsumeSettings {
    /// At most this many unacknowledged deliveries are in flight.
    pub prefetch: u16,
    /// The value of the `x-stream-offset` argument: where reading starts.
    pub offset: String,
    /// Whether the broker counts a delivery as acknowledged on its own.
    pub auto_ack: bool,
}

/// The declaration of the stream queue that the definitions are announced on.
pub fn queue_declaration() -> (r: QueueDeclaration)
    ensures
        r.durable,
        !r.exclusive,
        !r.auto_delete,
        r.queue_type@ == "stream"@,
{
    QueueDeclaration { durable: true, exclusive: false, auto_delete: false, queue_type: message("stream") }
}

/// The subscription: one delivery in flight, newest entry first, manual acknowledgment.
pub fn consume_settings() -> (r: ConsumeSettings)
    ensures
        r.prefetch == 1,
        r.offset@ == "last"@,
        !r.auto_ack,
{
    ConsumeSettings { prefetch: 1, offset: message("last"), auto_ack: false }
}

/// Where a consumption attempt stands.
#[derive(Debug, Copy, Clone, PartialEq, Eq, Structural)]
pub enum ConsumerPhase {
    /// Nothing done yet.
    Ready,
    /// The subscription was asked for.
    Subscribing,
    /// Subscribed, waiting for the first delivery.
    Awaiting,
    /// A delivery was taken and its text is being decoded.
    Decoding,
    /// A result was handed out; nothing more is done.
    Finished,
}

/// What the driver of the consumer does next.
#[derive(Debug)]
pub enum ConsumerStep {
    /// Limit the prefetch and subscribe, with the settings of `consume_settings`.
    Subscribe,
    /// Wait for the next delivery, or for the end of the stream.
    AwaitDelivery,
    /// Acknowledge the delivery, then decode this text as a definition.
    AckThenDecode(String),
    /// Acknowledge the delivery, then end with this error.
    AckThenFail(Error),
    /// End with this result.
    Finish(Result<Definition, Error>),
}

/// The decisions of a single-shot consumer: it takes the first delivery of the
/// stream, acknowledges it before looking at it, and ends with what that one
/// delivery holds, or with an error.
pub struct ConsumerSession {
    phase: ConsumerPhase,
    acks: u64,
}

impl ConsumerSession {
    /// The session is consistent: no delivery was acknowledged before the first
    /// one arrived, and at most one ever is.
    pub open spec fn wf(&self) -> bool {
        &&& self.acks_spec() <= 1
        &&& (self.phase_spec() == ConsumerPhase::Ready || self.phase_spec() == ConsumerPhase::Subscribing
            || self.phase_spec() == ConsumerPhase::Awaiting) ==> self.acks_spec() == 0
        &&& self.phase_spec() == ConsumerPhase::Decoding ==> self.acks_spec() == 1
    }

    pub closed spec fn phase_spec(&self) -> ConsumerPhase {
        self.phase
    }

    /// How many deliveries were acknowledged.
    pub closed spec fn acks_spec(&self) -> u64 {
        self.acks
    }

    pub fn new() -> (r: ConsumerSession)
        ensures
            r.wf(),
            r.phase_spec() == ConsumerPhase::Ready,
            r.acks_spec() == 0,
    {
        ConsumerSession { phase: ConsumerPhase::Ready, acks: 0 }
    }

    pub fn phase(&self) -> (r: ConsumerPhase)
        ensures
            r == self.phase_spec(),
    {
        self.phase
    }

    pub fn acks(&self) -> (r: u64)
        ensures
            r == self.acks_spec(),
    {
        self.acks
    }

    /// Begins a consumption; without a channel it fails with `NotConnected`.
    pub fn start(&mut self, connected: bool) -> (r: ConsumerStep)
        requires
            old(self).wf(),
            old(self).phase_spec() == ConsumerPhase::Ready,
        ensures
            final(self).wf(),
            final(self).acks_spec() == old(self).acks_spec(),
            connected ==> r is Subscribe && final(self).phase_spec() == ConsumerPhase::Subscribing,
            !connected ==> final(self).phase_spec() == ConsumerPhase::Finished && (r matches ConsumerStep::Finish(Err(e))
                && e.kind == ErrorKind::NotConnected),
    {
        if connected {
            self.phase = ConsumerPhase::Subscribing;
            ConsumerStep::Subscribe
        } else {
            self.phase = ConsumerPhase::Finished;
            ConsumerStep::Finish(Err(Error::new(
                ErrorKind::NotConnected,
                message("tried to set without having a connection"),
            )))
        }
    }

    /// Takes the broker's answer to the subscription.
    pub fn on_subscribed(&mut self, answer: Result<(), String>) -> (r: ConsumerStep)
        requires
            old(self).wf(),
            old(self).phase_spec() == ConsumerPhase::Subscribing,
        ensures
            final(self).wf(),
            final(self).acks_spec() == old(self).acks_spec(),
            answer is Ok ==> r is AwaitDelivery && final(self).phase_spec() == ConsumerPhase::Awaiting,
            answer is Err ==> final(self).phase_spec() == ConsumerPhase::Finished && (r matches ConsumerStep::Finish(Err(e))
                && e.kind == ErrorKind::ConsumerFailure && e.message@ == "failed to consume: "@
                + answer->Err_0@),
    {
        match answer {
            Ok(()) => {
                self.phase = ConsumerPhase::Awaiting;
                ConsumerStep::AwaitDelivery
            },
            Err(m) => {
                self.phase = ConsumerPhase::Finished;
                ConsumerStep::Finish(
                    Err(Error::new(ErrorKind::ConsumerFailure, with_cause("failed to consume: ", &m))),
                )
            },
        }
    }

    /// Takes the first delivery: it is acknowledged whatever it holds; text that
    /// is not UTF-8 ends the consumption, other text goes on to be decoded.
    pub fn on_delivery(&mut self, body: &[u8]) -> (r: ConsumerStep)
        requires
            old(self).wf(),
            old(self).phase_spec() == ConsumerPhase::Awaiting,
        ensures
            final(self).wf(),
            final(self).acks_spec() == 1,
            utf8_decoding(body@) matches Some(t) ==> final(self).phase_spec() == ConsumerPhase::Decoding
                && (r matches ConsumerStep::AckThenDecode(s) && s@ == t),
            utf8_decoding(body@) is None ==> final(self).phase_spec() == ConsumerPhase::Finished
                && (r matches ConsumerStep::AckThenFail(e) && e.kind == ErrorKind::ConsumerFailure
                && e.message@ == "failed to read string from bytes"@),
    {
        self.acks = self.acks + 1;
        match decode_utf8(body) {
            Some(text) => {
                self.phase = ConsumerPhase::Decoding;
                ConsumerStep::AckThenDecode(text)
            },
            None => {
                self.phase = ConsumerPhase::Finished;
                ConsumerStep::AckThenFail(
                    Error::new(ErrorKind::ConsumerFailure, message("failed to read string from bytes")),
                )
            },
        }
    }

    /// Takes the decoded definition, or the reason the text did not decode, and
    /// ends the consumption with it.
    pub fn on_decoded(&mut self, decoded: Result<Definition, String>) -> (r: ConsumerStep)
        requires
            old(self).wf(),
            old(self).phase_spec() == ConsumerPhase::Decoding,
        ensures
            final(self).wf(),
            final(self).acks_spec() == old(self).acks_spec(),
            final(self).phase_spec() == ConsumerPhase::Finished,
            decoded matches Ok(d) ==> r matches ConsumerStep::Finish(Ok(x)) && x@ == d@,
            decoded matches Err(m) ==> r matches ConsumerStep::Finish(Err(e)) && e.kind
                == ErrorKind::ConsumerFailure && e.message@
                == "failed to deserialize definition from string: "@ + m@,
    {
        self.phase = ConsumerPhase::Finished;
        match decoded {
            Ok(d) => ConsumerStep::Finish(Ok(d)),
            Err(m) => ConsumerStep::Finish(
                Err(
                    Error::new(
                        ErrorKind::ConsumerFailure,
                        with_cause("failed to deserialize definition from string: ", &m),
                    ),
                ),
            ),
        }
    }

    /// The stream closed before any delivery came.
    pub fn on_stream_end(&mut self) -> (r: ConsumerStep)
        requires
            old(self).wf(),
            old(self).phase_spec() == ConsumerPhase::Awaiting,
        ensures
            final(self).wf(),
            final(self).acks_spec() == 0,
            final(self).phase_spec() == ConsumerPhase::Finished,
            r matches ConsumerStep::Finish(Err(e)) && e.kind == ErrorKind::ConsumerFailure
                && e.message@ == "no delivery read"@,
    {
        self.phase = ConsumerPhase::Finished;
        ConsumerStep::Finish(Err(Error::new(ErrorKind::ConsumerFailure, message("no delivery read"))))
    }
}

/// A consumption takes one delivery at most: whatever state a consistent session
/// is in, at most one delivery was acknowledged, and once one was, the session
/// never again waits for a delivery.
pub proof fn lemma_single_delivery(s: ConsumerSession)
    requires
        s.wf(),
    ensures
        s.acks_spec() <= 1,
        s.acks_spec() == 1 ==> s.phase_spec() != ConsumerPhase::Awaiting,
{
}

} // verus!
