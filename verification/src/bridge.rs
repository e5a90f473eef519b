//! The bridge from the broker's deliveries to the chat side.
//!
//! Deliveries arrive on the broker client's own threads. Each one is
//! acknowledged and its payload offered to a hand-off slot that holds at most
//! one payload. The offer never waits: when the slot is taken the payload is
//! dropped, so a stalled reader costs the memory of one payload and no more.

use vstd::prelude::*;
use vstd::string::*;

verus! {

/// The queue that both the publishing and the consuming side declare.
pub const QUEUE_NAME: &'static str = "audio";

/// The tag under which the bridge consumes.
pub const CONSUMER_NAME: &'static str = "interpret";

/// How many payloads the hand-off slot holds.
pub const HANDOFF_CAPACITY: usize = 1;

/// The address of the broker at `host` and `port`, default virtual host.
pub open spec fn broker_url_text(host: Seq<char>, port: Seq<char>) -> Seq<char> {
    "amqp://"@ + host + ":"@ + port + "/%2f"@
}

/// Writes the address to connect to for a broker at `host` and `port`.
pub fn broker_url(host: &str, port: &str) -> (url: String)
    ensures
        url@ == broker_url_text(host@, port@),
{
    let mut url = "amqp://".to_owned();
    url.append(host);
    url.append(":");
    url.append(port);
    url.append("/%2f");
    url
}

/// What the broker client hands to the delivery callback.
#[derive(Debug, PartialEq, Eq)]
pub enum DeliveryEvent {
    /// A message, with the tag to acknowledge it by.
    Delivered { tag: u64, payload: Vec<u8> },
    /// The consumer was cancelled.
    Cancelled,
    /// The client reports an error.
    Failed,
}

/// What the bridge does first about a delivery event.
#[derive(Debug, PartialEq, Eq)]
pub enum BridgeStep {
    /// Acknowledge `tag` to the broker, then hand the payload on.
    Acknowledge { tag: u64, payload: Vec<u8> },
    /// Nothing to hand on. The client follows an error with a cancellation.
    Skip,
    /// The consumer is gone and the bridge with it. Nothing is retried: the
    /// caller logs the end and leaves the restart to whoever runs the process.
    Terminated,
}

/// How handing a payload on ended.
#[derive(Clone, Copy, Debug, PartialEq, Eq, Structural)]
pub enum HandOff {
    /// The slot was free and now holds the payload.
    Stored,
    /// The slot was taken; the payload is gone.
    Dropped,
    /// The acknowledgement failed. The slot is untouched and the bridge must
    /// not go on.
    AckFailed,
}

/// The slot after `payload` is offered to it: a free slot takes it, a taken
/// slot keeps what it has.
pub open spec fn after_offer(held: Option<Seq<u8>>, payload: Seq<u8>) -> Option<Seq<u8>> {
    match held {
        Some(_) => held,
        None => Some(payload),
    }
}

/// The slot after the payloads of a burst are offered one after another with
/// nobody taking in between.
pub open spec fn after_burst(held: Option<Seq<u8>>, burst: Seq<Seq<u8>>) -> Option<Seq<u8>>
    decreases burst.len(),
{
    if burst.len() == 0 {
        held
    } else {
        after_offer(after_burst(held, burst.drop_last()), burst.last())
    }
}

/// The single-slot hand-off between the bridge, which offers, and the chat
/// side, which takes.
pub struct HandoffSlot {
    held: Option<Vec<u8>>,
}

impl View for HandoffSlot {
    type V = Option<Seq<u8>>;

    closed spec fn view(&self) -> Option<Seq<u8>> {
        match self.held {
            Some(payload) => Some(payload@),
            None => None,
        }
    }
}

impl HandoffSlot {
    /// A free slot.
    pub fn new() -> (slot: HandoffSlot)
        ensures
            slot@ is None,
    {
        HandoffSlot { held: None }
    }

    /// How many payloads the slot holds: none or one.
    pub fn len(&self) -> (count: usize)
        ensures
            count <= HANDOFF_CAPACITY,
            count == (if self@ is Some { 1nat } else { 0nat }),
    {
        match &self.held {
            Some(_) => 1,
            None => 0,
        }
    }

    /// Offers `payload` without waiting. A free slot takes it; a taken slot
    /// keeps what it holds and the payload is dropped.
    pub fn offer(&mut self, payload: Vec<u8>) -> (stored: bool)
        ensures
            stored <==> old(self)@ is None,
            final(self)@ == after_offer(old(self)@, payload@),
            final(self)@ is Some,
    {
        match &self.held {
            Some(_) => false,
            None => {
                self.held = Some(payload);
                true
            },
        }
    }

    /// Takes the payload out, if there is one, and leaves the slot free.
    pub fn take(&mut self) -> (payload: Option<Vec<u8>>)
        ensures
            final(self)@ is None,
            payload is Some <==> old(self)@ is Some,
            payload matches Some(bytes) ==> old(self)@ == Some(bytes@),
    {
        self.held.take()
    }
}

/// Decides what to do first about a delivery event: a message is to be
/// acknowledged, an error is passed over, a cancellation ends the bridge.
pub fn on_new_delivery(event: DeliveryEvent) -> (step: BridgeStep)
    ensures
        match event {
            DeliveryEvent::Delivered { tag, payload } => step == (BridgeStep::Acknowledge {
                tag,
                payload,
            }),
            DeliveryEvent::Failed => step is Skip,
            DeliveryEvent::Cancelled => step is Terminated,
        },
{
    match event {
        DeliveryEvent::Delivered { tag, payload } => BridgeStep::Acknowledge { tag, payload },
        DeliveryEvent::Failed => BridgeStep::Skip,
        DeliveryEvent::Cancelled => BridgeStep::Terminated,
    }
}

/// Hands a payload on once the broker client has tried to acknowledge it.
///
/// Only an acknowledged payload reaches the slot, and it never waits for
/// room there.
pub fn after_ack(slot: &mut HandoffSlot, acknowledged: bool, payload: Vec<u8>) -> (end: HandOff)
    ensures
        !acknowledged ==> end == HandOff::AckFailed && final(slot)@ == old(slot)@,
        acknowledged ==> final(slot)@ == after_offer(old(slot)@, payload@),
        acknowledged ==> end == (if old(slot)@ is None {
            HandOff::Stored
        } else {
            HandOff::Dropped
        }),
{
    if !acknowledged {
        HandOff::AckFailed
    } else if slot.offer(payload) {
        HandOff::Stored
    } else {
        HandOff::Dropped
    }
}

/// However many payloads arrive before the reader takes one, the slot ends
/// up holding one payload: the one it held already, or else the first of
/// the burst. Everything after that was dropped.
pub proof fn lemma_burst_keeps_one(held: Option<Seq<u8>>, burst: Seq<Seq<u8>>)
    ensures
        held is Some ==> after_burst(held, burst) == held,
        held is None && burst.len() > 0 ==> after_burst(held, burst) == Some(burst[0]),
        burst.len() == 0 ==> after_burst(held, burst) == held,
    decreases burst.len(),
{
    if burst.len() > 0 {
        lemma_burst_keeps_one(held, burst.drop_last());
        if burst.len() > 1 {
            assert(burst.drop_last()[0] == burst[0]);
        }
    }
}

} // verus!
