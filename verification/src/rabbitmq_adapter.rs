//! The queue's side of the wire: what to subscribe to, and the order in which
//! a delivery is handed on and acknowledged.

use vstd::prelude::*;
use vstd::utf8::{decode_utf8, valid_utf8};

verus! {

/// The text that a delivery's bytes stand for, with each ill-formed stretch
/// replaced by U+FFFD.
pub uninterp spec fn utf8_lossy(bytes: Seq<u8>) -> Seq<char>;

/// Trusted: `String::from_utf8_lossy`, copied into an owned string. The text
/// depends on the bytes alone; for well-formed UTF-8 it is their decoding.
#[verifier::external_body]
pub(crate) fn decode_lossy(data: &[u8]) -> (text: String)
    ensures
        text@ == utf8_lossy(data@),
        valid_utf8(data@) ==> text@ == decode_utf8(data@),
{
    String::from_utf8_lossy(data).into_owned()
}

/// What the consumer asks of the broker when it starts.
#[derive(Debug, PartialEq, Eq)]
pub struct Subscription {
    pub queue: String,
    pub durable: bool,
    pub consumer_tag: String,
}

pub ghost struct SubscriptionView {
    pub queue: Seq<char>,
    pub durable: bool,
    pub consumer_tag: Seq<char>,
}

impl View for Subscription {
    type V = SubscriptionView;

    open spec fn view(&self) -> SubscriptionView {
        SubscriptionView {
            queue: self.queue@,
            durable: self.durable,
            consumer_tag: self.consumer_tag@,
        }
    }
}

/// How the consumer takes leave of the broker.
#[derive(Debug, PartialEq, Eq)]
pub struct Closing {
    pub reply_code: u16,
    pub reply_text: String,
}

/// Where the ingestion loop stands: free to take a delivery, or waiting for
/// the handler of the delivery it passed on.
#[derive(Clone, Copy, Debug, PartialEq, Eq, Structural)]
pub enum Ingestion {
    Idle,
    Handling { delivery_tag: u64 },
}

/// What the loop observes.
#[derive(Debug, PartialEq, Eq)]
pub enum Arrival {
    /// The broker delivered a payload.
    Delivery { delivery_tag: u64, data: Vec<u8> },
    /// The broker reported an error in place of a delivery.
    Failure,
    /// The handler of the delivery passed on last has returned, whatever its
    /// result.
    Handled,
}

pub ghost enum ArrivalView {
    Delivery { delivery_tag: u64, data: Seq<u8> },
    Failure,
    Handled,
}

impl View for Arrival {
    type V = ArrivalView;

    open spec fn view(&self) -> ArrivalView {
        match self {
            Arrival::Delivery { delivery_tag, data } => ArrivalView::Delivery {
                delivery_tag: *delivery_tag,
                data: data@,
            },
            Arrival::Failure => ArrivalView::Failure,
            Arrival::Handled => ArrivalView::Handled,
        }
    }
}

/// What the loop is to do next.
#[derive(Debug, PartialEq, Eq)]
pub enum Directive {
    /// Hand the payload to the handler and report when it has returned.
    Dispatch { payload: String },
    /// Acknowledge the delivery to the broker.
    Acknowledge { delivery_tag: u64 },
    /// Nothing; take the next arrival.
    Wait,
}

pub ghost enum DirectiveView {
    Dispatch { payload: Seq<char> },
    Acknowledge { delivery_tag: u64 },
    Wait,
}

impl View for Directive {
    type V = DirectiveView;

    open spec fn view(&self) -> DirectiveView {
        match self {
            Directive::Dispatch { payload } => DirectiveView::Dispatch { payload: payload@ },
            Directive::Acknowledge { delivery_tag } => DirectiveView::Acknowledge {
                delivery_tag: *delivery_tag,
            },
            Directive::Wait => DirectiveView::Wait,
        }
    }
}

impl Ingestion {
    /// One turn of the loop. A delivery taken while idle is passed on; the
    /// acknowledgement follows only when its handler has returned. An error
    /// from the broker is passed over. An arrival that does not fit the
    /// state changes nothing, so a delivery that comes while another is
    /// handled stays unacknowledged.
    pub open spec fn step_spec(self, arrival: ArrivalView) -> (Ingestion, DirectiveView) {
        match (self, arrival) {
            (Ingestion::Idle, ArrivalView::Delivery { delivery_tag, data }) => (
                Ingestion::Handling { delivery_tag },
                DirectiveView::Dispatch { payload: utf8_lossy(data) },
            ),
            (Ingestion::Handling { delivery_tag }, ArrivalView::Handled) => (
                Ingestion::Idle,
                DirectiveView::Acknowledge { delivery_tag },
            ),
            _ => (self, DirectiveView::Wait),
        }
    }

    /// The state after the arrivals `arrivals`, starting idle.
    pub open spec fn after(arrivals: Seq<ArrivalView>) -> Ingestion
        decreases arrivals.len(),
    {
        if arrivals.len() == 0 {
            Ingestion::Idle
        } else {
            Ingestion::after(arrivals.drop_last()).step_spec(arrivals.last()).0
        }
    }

    /// The directive that answers the `i`-th of `arrivals`.
    pub open spec fn directive(arrivals: Seq<ArrivalView>, i: int) -> DirectiveView {
        Ingestion::after(arrivals.take(i)).step_spec(arrivals[i]).1
    }

    /// The loop's first state.
    pub fn start() -> (state: Ingestion)
        ensures
            state == Ingestion::Idle,
    {
        Ingestion::Idle
    }

    /// One turn of the loop.
    pub fn step(self, arrival: Arrival) -> (r: (Ingestion, Directive))
        ensures
            r.0 == self.step_spec(arrival@).0,
            r.1@ == self.step_spec(arrival@).1,
    {
        match self {
            Ingestion::Idle => match arrival {
                Arrival::Delivery { delivery_tag, data } => {
                    let payload = decode_lossy(data.as_slice());
                    (Ingestion::Handling { delivery_tag }, Directive::Dispatch { payload })
                },
                _ => (self, Directive::Wait),
            },
            Ingestion::Handling { delivery_tag } => match arrival {
                Arrival::Handled => (Ingestion::Idle, Directive::Acknowledge { delivery_tag }),
                _ => (self, Directive::Wait),
            },
        }
    }
}

/// The `j`-th arrival is the delivery `tag`, it was passed on, and nothing
/// was acknowledged between it and the `n`-th arrival.
pub open spec fn pending_since(arrivals: Seq<ArrivalView>, tag: u64, j: int, n: int) -> bool {
    &&& 0 <= j < n
    &&& arrivals[j] is Delivery
    &&& arrivals[j]->delivery_tag == tag
    &&& Ingestion::directive(arrivals, j) is Dispatch
    &&& forall|k: int| j < k < n ==> !(#[trigger] Ingestion::directive(arrivals, k) is Acknowledge)
}

/// While the loop waits for a handler, the delivery it waits for was passed
/// on earlier and has not been acknowledged.
proof fn lemma_handling_is_pending(arrivals: Seq<ArrivalView>, n: int)
    requires
        0 <= n <= arrivals.len(),
        Ingestion::after(arrivals.take(n)) is Handling,
    ensures
        exists|j: int|
            pending_since(arrivals, Ingestion::after(arrivals.take(n))->delivery_tag, j, n),
    decreases n,
{
    let tag = Ingestion::after(arrivals.take(n))->delivery_tag;
    assert(n > 0);
    let m = n - 1;
    let before = Ingestion::after(arrivals.take(m));
    assert(arrivals.take(n).drop_last() =~= arrivals.take(m));
    assert(arrivals.take(n).last() == arrivals[m]);
    assert(Ingestion::after(arrivals.take(n)) == before.step_spec(arrivals[m]).0);
    if before is Handling {
        lemma_handling_is_pending(arrivals, m);
        let j = choose|j: int| pending_since(arrivals, tag, j, m);
        assert(pending_since(arrivals, tag, j, n));
    } else {
        assert(pending_since(arrivals, tag, m, n));
    }
}

/// Acknowledgement follows handling: whenever the loop acknowledges a
/// delivery, the arrival it answers is the return of a handler, and that
/// delivery was passed to the handler earlier and not acknowledged since.
pub proof fn law_acknowledge_after_handling(arrivals: Seq<ArrivalView>, i: int, tag: u64)
    requires
        0 <= i < arrivals.len(),
        Ingestion::directive(arrivals, i) == (DirectiveView::Acknowledge { delivery_tag: tag }),
    ensures
        arrivals[i] is Handled,
        exists|j: int| pending_since(arrivals, tag, j, i),
{
    lemma_handling_is_pending(arrivals, i);
}

/// The broker's address.
#[derive(Debug, PartialEq, Eq)]
pub struct RabbitMqAdapter {
    connection_url: String,
}

impl View for RabbitMqAdapter {
    type V = Seq<char>;

    closed spec fn view(&self) -> Seq<char> {
        self.connection_url@
    }
}

impl Clone for RabbitMqAdapter {
    fn clone(&self) -> (r: RabbitMqAdapter)
        ensures
            r@ == self@,
    {
        RabbitMqAdapter { connection_url: self.connection_url.clone() }
    }
}

/// The subscription to `queue`: the queue is durable and the consumer is
/// tagged `consumer`.
pub open spec fn subscription_spec(queue: Seq<char>) -> SubscriptionView {
    SubscriptionView { queue, durable: true, consumer_tag: "consumer"@ }
}

impl RabbitMqAdapter {
    /// An adapter for the broker at `connection_url`.
    pub fn new(connection_url: String) -> (adapter: RabbitMqAdapter)
        ensures
            adapter@ == connection_url@,
    {
        RabbitMqAdapter { connection_url }
    }

    /// The address to connect to.
    pub fn connect(&self) -> (url: &str)
        ensures
            url@ == self@,
    {
        self.connection_url.as_str()
    }

    /// The leave to take: reply code 0 and the text `Bye`.
    pub fn close() -> (closing: Closing)
        ensures
            closing.reply_code == 0,
            closing.reply_text@ == "Bye"@,
    {
        Closing { reply_code: 0, reply_text: "Bye".to_owned() }
    }

    /// What to subscribe to in order to consume `domain_name`.
    pub fn consume(&self, domain_name: &str) -> (subscription: Subscription)
        ensures
            subscription@ == subscription_spec(domain_name@),
    {
        Subscription {
            queue: domain_name.to_owned(),
            durable: true,
            consumer_tag: "consumer".to_owned(),
        }
    }
}

} // verus!
