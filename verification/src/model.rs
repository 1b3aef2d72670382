//! The aggregator run against a model of its collaborators, and what holds
//! of every such run.
//!
//! The model is sequential: deliveries are processed one after another, each
//! to its end. That is the history a linearizable counter store stands for;
//! what concurrency adds is only the order, and the laws hold for any order.

use crate::clock::Timestamp;
use crate::consume_messages::{
    expected_total_spec, lemma_notify_path_injective, notify_path_spec, ActionView,
    ConsumeMessagesUseCaseView, Event, OutcomeView, ProcessError, ProcessingView,
};
use crate::counter::{counter_key_spec, lemma_counter_key_injective, CounterStore};
use crate::http_adapter::{is_success_spec, HttpRequestView};
use crate::message::{MessageView, PayloadView};
use crate::redis_adapter::RedisCommandView;
use vstd::prelude::*;

verus! {

/// The collaborators' state: the counters, the messages stored, and the
/// notifications that the endpoint accepted.
pub ghost struct World {
    pub counters: CounterStore,
    pub stored: Seq<MessageView>,
    pub notified: Seq<HttpRequestView>,
}

/// How the collaborators behave while one message is processed: whether the
/// store takes the message, whether the counter store answers the increment,
/// what status the endpoint answers with if it answers, and whether the
/// counter store performs the deletion.
pub ghost struct Weather {
    pub save: bool,
    pub count: bool,
    pub notify: Option<u16>,
    pub delete: bool,
}

impl Weather {
    /// Every collaborator does what it is asked.
    pub open spec fn fair(self) -> bool {
        &&& self.save
        &&& self.count
        &&& self.notify matches Some(status) && is_success_spec(status)
        &&& self.delete
    }
}

/// One delivery: the payload read from it, the instant it was read at, and
/// the weather while it is processed.
pub ghost struct Delivery {
    pub payload: PayloadView,
    pub now: Timestamp,
    pub weather: Weather,
}

impl Delivery {
    /// The delivery carries a message of `campaign`.
    pub open spec fn belongs_to(self, campaign: Seq<char>) -> bool {
        self.payload.defect() is None && self.payload.campaign_id == Some(campaign)
    }
}

impl World {
    /// The collaborators perform `action` under `weather`: the world after
    /// it and the event they report.
    pub open spec fn respond(self, action: ActionView, weather: Weather) -> (World, Event) {
        match action {
            ActionView::Persist(insert) => if weather.save {
                (World { stored: self.stored.push(insert.document), ..self }, Event::Saved(true))
            } else {
                (self, Event::Saved(false))
            },
            ActionView::Increment(RedisCommandView::IncrBy { key, delta }) => if weather.count {
                let (counters, reply) = self.counters.increment_by(key, delta);
                (World { counters, ..self }, Event::Counted(reply))
            } else {
                (self, Event::Counted(None))
            },
            ActionView::Notify(request) => match weather.notify {
                Some(status) => if is_success_spec(status) {
                    (
                        World { notified: self.notified.push(request), ..self },
                        Event::Notified(Some(status)),
                    )
                } else {
                    (self, Event::Notified(Some(status)))
                },
                None => (self, Event::Notified(None)),
            },
            ActionView::Delete(RedisCommandView::DelKey { key }) => if weather.delete {
                (World { counters: self.counters.delete(key).0, ..self }, Event::Deleted(true))
            } else {
                (self, Event::Deleted(false))
            },
            ActionView::Increment(_) => (self, Event::Counted(None)),
            ActionView::Delete(_) => (self, Event::Deleted(false)),
            ActionView::Done => (self, Event::Saved(false)),
        }
    }
}

/// Performs `action` and each action that follows from it, at most `fuel` of
/// them.
pub open spec fn settle(
    usecase: ConsumeMessagesUseCaseView,
    world: World,
    state: ProcessingView,
    action: ActionView,
    weather: Weather,
    fuel: nat,
) -> (World, ProcessingView)
    decreases fuel,
{
    if fuel == 0 || action is Done {
        (world, state)
    } else {
        let (next_world, event) = world.respond(action, weather);
        let (next_state, next_action) = usecase.step_spec(state, event);
        settle(usecase, next_world, next_state, next_action, weather, (fuel - 1) as nat)
    }
}

/// Processes one delivery to its end: the world after it and how the
/// processing ended. No processing takes more than four actions.
pub open spec fn deliver(usecase: ConsumeMessagesUseCaseView, world: World, delivery: Delivery) -> (
    World,
    ProcessingView,
) {
    let (state, action) = usecase.begin_spec(delivery.payload, delivery.now);
    settle(usecase, world, state, action, delivery.weather, 4)
}

/// Processes `deliveries` one after another.
pub open spec fn run(
    usecase: ConsumeMessagesUseCaseView,
    world: World,
    deliveries: Seq<Delivery>,
) -> World
    decreases deliveries.len(),
{
    if deliveries.len() == 0 {
        world
    } else {
        deliver(usecase, run(usecase, world, deliveries.drop_last()), deliveries.last()).0
    }
}

/// How many of `deliveries` carry a message of `campaign`.
pub open spec fn messages_of(deliveries: Seq<Delivery>, campaign: Seq<char>) -> nat
    decreases deliveries.len(),
{
    if deliveries.len() == 0 {
        0
    } else {
        messages_of(deliveries.drop_last(), campaign) + if deliveries.last().belongs_to(campaign) {
            1nat
        } else {
            0nat
        }
    }
}

/// How often `request` occurs among `notified`.
pub open spec fn tally(notified: Seq<HttpRequestView>, request: HttpRequestView) -> nat
    decreases notified.len(),
{
    if notified.len() == 0 {
        0
    } else {
        tally(notified.drop_last(), request) + if notified.last() == request {
            1nat
        } else {
            0nat
        }
    }
}

/// Both stores are connected.
pub open spec fn connected(usecase: ConsumeMessagesUseCaseView) -> bool {
    usecase.mongo_db_adapter.connected && usecase.redis_adapter.connected
}

proof fn lemma_tally_push(
    notified: Seq<HttpRequestView>,
    added: HttpRequestView,
    request: HttpRequestView,
)
    ensures
        tally(notified.push(added), request) == tally(notified, request) + if added == request {
            1nat
        } else {
            0nat
        },
{
    assert(notified.push(added).drop_last() =~= notified);
}

/// Two campaigns never share a notification.
proof fn lemma_notification_injective(
    usecase: ConsumeMessagesUseCaseView,
    a: Seq<char>,
    b: Seq<char>,
)
    requires
        usecase.notification(a) == usecase.notification(b),
    ensures
        a == b,
{
    let base = usecase.http_adapter.base_url;
    let pa = notify_path_spec(a);
    let pb = notify_path_spec(b);
    assert(pa =~= (base + pa).subrange(base.len() as int, (base + pa).len() as int));
    assert(pb =~= (base + pb).subrange(base.len() as int, (base + pb).len() as int));
    lemma_notify_path_injective(a, b);
}

/// Every processing ends within four actions.
pub proof fn law_processing_ends(
    usecase: ConsumeMessagesUseCaseView,
    world: World,
    delivery: Delivery,
)
    ensures
        deliver(usecase, world, delivery).1 is Finished,
{
    reveal_with_fuel(settle, 5);
}

/// A payload that makes no message never reaches a collaborator: nothing is
/// stored, no counter changes, no notification goes out, and the processing
/// ends at once with the defect.
pub proof fn law_rejected_payload_touches_nothing(
    usecase: ConsumeMessagesUseCaseView,
    world: World,
    delivery: Delivery,
)
    requires
        delivery.payload.defect() is Some,
    ensures
        usecase.begin_spec(delivery.payload, delivery.now).1 is Done,
        deliver(usecase, world, delivery) == (
            world,
            ProcessingView::Finished(Ok(OutcomeView::Rejected(delivery.payload.defect()->0))),
        ),
{
    reveal_with_fuel(settle, 5);
}

/// A message that the store did not take is not counted: the counters and
/// the notifications are as before, and the processing ends with the
/// persistence error.
pub proof fn law_unsaved_message_is_not_counted(
    usecase: ConsumeMessagesUseCaseView,
    world: World,
    delivery: Delivery,
)
    requires
        delivery.payload.defect() is None,
        !delivery.weather.save || !usecase.mongo_db_adapter.connected,
    ensures
        deliver(usecase, world, delivery) == (
            world,
            ProcessingView::Finished(Err(ProcessError::Persistence)),
        ),
{
    reveal_with_fuel(settle, 5);
}

/// Campaigns do not touch each other: a delivery that carries no message of
/// `campaign` leaves that campaign's counter and the number of its
/// notifications as they were, whatever the weather.
pub proof fn law_campaigns_are_independent(
    usecase: ConsumeMessagesUseCaseView,
    world: World,
    delivery: Delivery,
    campaign: Seq<char>,
)
    requires
        !delivery.belongs_to(campaign),
    ensures
        deliver(usecase, world, delivery).0.counters.peek(counter_key_spec(campaign))
            == world.counters.peek(counter_key_spec(campaign)),
        tally(deliver(usecase, world, delivery).0.notified, usecase.notification(campaign))
            == tally(world.notified, usecase.notification(campaign)),
{
    reveal_with_fuel(settle, 5);
    if delivery.payload.defect() is None {
        let other = delivery.payload.campaign_id->0;
        if counter_key_spec(other) == counter_key_spec(campaign) {
            lemma_counter_key_injective(other, campaign);
        }
        if usecase.notification(other) == usecase.notification(campaign) {
            lemma_notification_injective(usecase, other, campaign);
        }
        lemma_tally_push(world.notified, usecase.notification(other), usecase.notification(campaign));
    }
}

/// Deliveries of other campaigns, in any number and any weather, leave a
/// campaign's counter and the number of its notifications as they were.
pub proof fn law_foreign_deliveries_change_nothing(
    usecase: ConsumeMessagesUseCaseView,
    world: World,
    deliveries: Seq<Delivery>,
    campaign: Seq<char>,
)
    requires
        forall|i: int| 0 <= i < deliveries.len() ==> !(#[trigger] deliveries[i]).belongs_to(campaign),
    ensures
        run(usecase, world, deliveries).counters.peek(counter_key_spec(campaign))
            == world.counters.peek(counter_key_spec(campaign)),
        tally(run(usecase, world, deliveries).notified, usecase.notification(campaign)) == tally(
            world.notified,
            usecase.notification(campaign),
        ),
    decreases deliveries.len(),
{
    if deliveries.len() > 0 {
        let front = deliveries.drop_last();
        assert forall|i: int| 0 <= i < front.len() implies !(#[trigger] front[i]).belongs_to(
            campaign,
        ) by {
            assert(front[i] == deliveries[i]);
        }
        law_foreign_deliveries_change_nothing(usecase, world, front, campaign);
        law_campaigns_are_independent(
            usecase,
            run(usecase, world, front),
            deliveries.last(),
            campaign,
        );
    }
}

/// One more message of a campaign in fair weather: the count goes up by one,
/// and the message that brings it to the declared size sends the one
/// notification and removes the counter.
pub proof fn lemma_own_message_counts(
    usecase: ConsumeMessagesUseCaseView,
    world: World,
    delivery: Delivery,
    campaign: Seq<char>,
    total: i32,
)
    requires
        connected(usecase),
        delivery.belongs_to(campaign),
        delivery.weather.fair(),
        expected_total_spec(delivery.payload.total) == total,
        0 <= world.counters.current(counter_key_spec(campaign)) < total,
    ensures
        ({
            let key = counter_key_spec(campaign);
            let count = world.counters.current(key) + 1;
            let (after, end) = deliver(usecase, world, delivery);
            if count == total {
                &&& after.counters.peek(key) is None
                &&& after.notified == world.notified.push(usecase.notification(campaign))
                &&& end == ProcessingView::Finished(Ok(OutcomeView::Completed(campaign)))
            } else {
                &&& after.counters.peek(key) == Some(count as i64)
                &&& after.notified == world.notified
                &&& end == ProcessingView::Finished(Ok(OutcomeView::Persisted))
            }
        }),
{
    reveal_with_fuel(settle, 5);
}

/// The state of a campaign after the first `n` of `deliveries`, by how many
/// of them were its own.
proof fn lemma_campaign_progress(
    usecase: ConsumeMessagesUseCaseView,
    world: World,
    deliveries: Seq<Delivery>,
    campaign: Seq<char>,
    total: i32,
    n: int,
)
    requires
        connected(usecase),
        world.counters.peek(counter_key_spec(campaign)) is None,
        forall|i: int|
            0 <= i < deliveries.len() && (#[trigger] deliveries[i]).belongs_to(campaign) ==> {
                &&& deliveries[i].weather.fair()
                &&& expected_total_spec(deliveries[i].payload.total) == total
            },
        messages_of(deliveries, campaign) == total,
        total >= 1,
        0 <= n <= deliveries.len(),
    ensures
        ({
            let key = counter_key_spec(campaign);
            let seen = messages_of(deliveries.take(n), campaign);
            let now = run(usecase, world, deliveries.take(n));
            let before = tally(world.notified, usecase.notification(campaign));
            &&& seen <= total
            &&& seen < total ==> now.counters.current(key) == seen && tally(
                now.notified,
                usecase.notification(campaign),
            ) == before
            &&& seen == total ==> now.counters.peek(key) is None && tally(
                now.notified,
                usecase.notification(campaign),
            ) == before + 1
        }),
    decreases n,
{
    lemma_messages_of_prefix(deliveries, campaign, n);
    if n > 0 {
        let m = n - 1;
        lemma_campaign_progress(usecase, world, deliveries, campaign, total, m);
        lemma_messages_of_prefix(deliveries, campaign, m);
        assert(deliveries.take(n).drop_last() =~= deliveries.take(m));
        assert(deliveries.take(n).last() == deliveries[m]);
        let earlier = run(usecase, world, deliveries.take(m));
        let delivery = deliveries[m];
        let note = usecase.notification(campaign);
        if delivery.belongs_to(campaign) {
            lemma_own_message_counts(usecase, earlier, delivery, campaign, total);
            lemma_tally_push(earlier.notified, note, note);
        } else {
            law_campaigns_are_independent(usecase, earlier, delivery, campaign);
        }
    }
}

/// A prefix holds no more messages of a campaign than the whole.
proof fn lemma_messages_of_prefix(deliveries: Seq<Delivery>, campaign: Seq<char>, n: int)
    requires
        0 <= n <= deliveries.len(),
    ensures
        messages_of(deliveries.take(n), campaign) <= messages_of(deliveries, campaign),
    decreases deliveries.len() - n,
{
    if n < deliveries.len() {
        lemma_messages_of_prefix(deliveries, campaign, n + 1);
        assert(deliveries.take(n + 1).drop_last() =~= deliveries.take(n));
    } else {
        assert(deliveries.take(n) =~= deliveries);
    }
}

/// Completion fires exactly once. Take a campaign that declares `total`
/// messages and has no counter yet, and any sequence of deliveries in which
/// exactly `total` carry a message of that campaign, each declaring that
/// size and each processed in fair weather; deliveries of other campaigns
/// and payloads that make no message may stand anywhere among them, in any
/// weather. After the run the campaign has been notified exactly once more
/// than before, and its counter is gone.
pub proof fn law_completion_fires_once(
    usecase: ConsumeMessagesUseCaseView,
    world: World,
    deliveries: Seq<Delivery>,
    campaign: Seq<char>,
    total: i32,
)
    requires
        connected(usecase),
        world.counters.peek(counter_key_spec(campaign)) is None,
        forall|i: int|
            0 <= i < deliveries.len() && (#[trigger] deliveries[i]).belongs_to(campaign) ==> {
                &&& deliveries[i].weather.fair()
                &&& expected_total_spec(deliveries[i].payload.total) == total
            },
        messages_of(deliveries, campaign) == total,
        total >= 1,
    ensures
        run(usecase, world, deliveries).counters.peek(counter_key_spec(campaign)) is None,
        tally(run(usecase, world, deliveries).notified, usecase.notification(campaign)) == tally(
            world.notified,
            usecase.notification(campaign),
        ) + 1,
{
    lemma_campaign_progress(usecase, world, deliveries, campaign, total, deliveries.len() as int);
    assert(deliveries.take(deliveries.len() as int) =~= deliveries);
}

/// A failed notification leaves the campaign stuck. When the message that
/// completes a campaign is processed and the endpoint does not report
/// success, the processing ends with the notification error and the counter
/// stays at the declared size. Whatever message of that campaign comes
/// next, its increment returns more than that size, so it does not complete
/// the campaign and sends no notification.
pub proof fn law_failed_notification_keeps_counter(
    usecase: ConsumeMessagesUseCaseView,
    world: World,
    delivery: Delivery,
    next: Delivery,
    campaign: Seq<char>,
    total: i32,
)
    requires
        connected(usecase),
        delivery.belongs_to(campaign),
        next.belongs_to(campaign),
        expected_total_spec(delivery.payload.total) == total,
        expected_total_spec(next.payload.total) == total,
        world.counters.current(counter_key_spec(campaign)) + 1 == total,
        delivery.weather.save,
        delivery.weather.count,
        !(delivery.weather.notify matches Some(status) && is_success_spec(status)),
    ensures
        ({
            let key = counter_key_spec(campaign);
            let (after, end) = deliver(usecase, world, delivery);
            let (later, next_end) = deliver(usecase, after, next);
            &&& after.counters.peek(key) == Some(total as i64)
            &&& after.notified == world.notified
            &&& end matches ProcessingView::Finished(Err(ProcessError::Notification(_)))
            &&& later.notified == after.notified
            &&& !(next_end matches ProcessingView::Finished(Ok(OutcomeView::Completed(_))))
        }),
{
    reveal_with_fuel(settle, 5);
}

} // verus!
