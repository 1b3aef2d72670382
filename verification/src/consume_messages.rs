//! The completion aggregator: for each delivered message, what to store, what
//! to count, and whether this message is the one that completes its campaign.
//!
//! Processing one message is a small state machine. The program performs
//! each action the machine names and reports the result as an event; the
//! machine answers with the next action. No decision is taken anywhere else.

use crate::clock::{now, Timestamp};
use crate::counter::{counter_key, counter_key_spec, is_complete};
use crate::http_adapter::{
    is_success, is_success_spec, HttpAdapter, HttpAdapterView, HttpError, HttpMethod, HttpRequest,
    HttpRequestView,
};
use crate::json::{json_document, json_member, member, parse_document};
use crate::message::{Field, Message, Payload, PayloadView, ValidationError};
use crate::mongodb_adapter::{InsertOne, InsertOneView, MongoDbAdapter, MongoDbAdapterView};
use crate::rabbitmq_adapter::{subscription_spec, RabbitMqAdapter, Subscription};
use crate::redis_adapter::{RedisAdapter, RedisAdapterView, RedisCommand, RedisCommandView};
use vstd::prelude::*;
use vstd::string::StringExecFns;

verus! {

/// The two uses the aggregator makes of the counter store.
#[derive(Clone, Copy, Debug, PartialEq, Eq, Structural)]
pub enum CounterStage {
    Increment,
    Delete,
}

/// A failure while processing a message, by the stage that failed. The
/// aggregator retries nothing.
#[derive(Clone, Copy, Debug, PartialEq, Eq, Structural)]
pub enum ProcessError {
    /// The message could not be stored; nothing was counted.
    Persistence,
    /// The counter store failed, after the message was stored.
    Counter(CounterStage),
    /// The campaign was complete but the notification did not succeed; the
    /// counter is left in place.
    Notification(HttpError),
}

/// How the processing of a message ended when nothing failed.
#[derive(Debug, PartialEq, Eq)]
pub enum Outcome {
    /// The payload made no message and was dropped: nothing was stored or
    /// counted.
    Rejected(ValidationError),
    /// The message was stored and counted; its campaign is not complete.
    Persisted,
    /// The message was stored and counted, it completed this campaign, the
    /// notification went out and the counter was removed.
    Completed(String),
}

pub ghost enum OutcomeView {
    Rejected(ValidationError),
    Persisted,
    Completed(Seq<char>),
}

impl View for Outcome {
    type V = OutcomeView;

    open spec fn view(&self) -> OutcomeView {
        match self {
            Outcome::Rejected(e) => OutcomeView::Rejected(*e),
            Outcome::Persisted => OutcomeView::Persisted,
            Outcome::Completed(c) => OutcomeView::Completed(c@),
        }
    }
}

impl OutcomeView {
    /// Whether the message was stored.
    pub open spec fn persisted(self) -> bool {
        !(self is Rejected)
    }

    /// The campaign that this message completed, if it completed one.
    pub open spec fn completed_campaign(self) -> Option<Seq<char>> {
        match self {
            OutcomeView::Completed(c) => Some(c),
            _ => None,
        }
    }
}

impl Outcome {
    pub fn persisted(&self) -> (r: bool)
        ensures
            r == self@.persisted(),
    {
        match self {
            Outcome::Rejected(_) => false,
            _ => true,
        }
    }

    pub fn completed_campaign(&self) -> (r: Option<&str>)
        ensures
            r matches Some(c) ==> self@.completed_campaign() == Some(c@),
            r is None ==> self@.completed_campaign() is None,
    {
        match self {
            Outcome::Completed(c) => Some(c.as_str()),
            _ => None,
        }
    }
}

/// Where the processing of one message stands: which result it waits for, or
/// how it ended.
#[derive(Debug, PartialEq, Eq)]
pub enum Processing {
    Saving { campaign_id: String, expected_total: i32 },
    Counting { campaign_id: String, expected_total: i32 },
    Notifying { campaign_id: String },
    Cleaning { campaign_id: String },
    Finished(Result<Outcome, ProcessError>),
}

pub ghost enum ProcessingView {
    Saving { campaign_id: Seq<char>, expected_total: i32 },
    Counting { campaign_id: Seq<char>, expected_total: i32 },
    Notifying { campaign_id: Seq<char> },
    Cleaning { campaign_id: Seq<char> },
    Finished(Result<OutcomeView, ProcessError>),
}

impl View for Processing {
    type V = ProcessingView;

    open spec fn view(&self) -> ProcessingView {
        match self {
            Processing::Saving { campaign_id, expected_total } => ProcessingView::Saving {
                campaign_id: campaign_id@,
                expected_total: *expected_total,
            },
            Processing::Counting { campaign_id, expected_total } => ProcessingView::Counting {
                campaign_id: campaign_id@,
                expected_total: *expected_total,
            },
            Processing::Notifying { campaign_id } => ProcessingView::Notifying {
                campaign_id: campaign_id@,
            },
            Processing::Cleaning { campaign_id } => ProcessingView::Cleaning {
                campaign_id: campaign_id@,
            },
            Processing::Finished(Ok(outcome)) => ProcessingView::Finished(Ok(outcome@)),
            Processing::Finished(Err(e)) => ProcessingView::Finished(Err(*e)),
        }
    }
}

/// What the program is to do next for the message in hand.
#[derive(Debug, PartialEq, Eq)]
pub enum Action {
    /// Store the message and report `Event::Saved`.
    Persist(InsertOne),
    /// Send the increment and report `Event::Counted`.
    Increment(RedisCommand),
    /// Send the notification and report `Event::Notified`.
    Notify(HttpRequest),
    /// Send the deletion and report `Event::Deleted`.
    Delete(RedisCommand),
    /// Nothing more: the processing has finished.
    Done,
}

pub ghost enum ActionView {
    Persist(InsertOneView),
    Increment(RedisCommandView),
    Notify(HttpRequestView),
    Delete(RedisCommandView),
    Done,
}

impl View for Action {
    type V = ActionView;

    open spec fn view(&self) -> ActionView {
        match self {
            Action::Persist(insert) => ActionView::Persist(insert@),
            Action::Increment(command) => ActionView::Increment(command@),
            Action::Notify(request) => ActionView::Notify(request@),
            Action::Delete(command) => ActionView::Delete(command@),
            Action::Done => ActionView::Done,
        }
    }
}

/// What came of the action named last.
#[derive(Clone, Copy, Debug, PartialEq, Eq, Structural)]
pub enum Event {
    /// The store took the message, or did not.
    Saved(bool),
    /// The count after the increment, or `None` where the store failed.
    Counted(Option<i64>),
    /// The status of the response, or `None` where no response came.
    Notified(Option<u16>),
    /// The store performed the deletion, or failed.
    Deleted(bool),
}

/// The campaign's declared size: the payload's `total` cut to 32 bits, and
/// zero where the payload has none.
pub open spec fn expected_total_spec(total: Option<i64>) -> i32 {
    match total {
        Some(t) => t as i32,
        None => 0,
    }
}

pub fn expected_total(total: Option<i64>) -> (r: i32)
    ensures
        r == expected_total_spec(total),
{
    match total {
        Some(t) => #[verifier::truncate]
        (t as i32),
        None => 0,
    }
}

/// The path, under the API's base address, that reports a campaign as sent.
pub open spec fn notify_path_spec(campaign_id: Seq<char>) -> Seq<char> {
    "/campaigns/sent/"@ + campaign_id
}

/// Two campaigns never share a notification path.
pub proof fn lemma_notify_path_injective(a: Seq<char>, b: Seq<char>)
    requires
        notify_path_spec(a) == notify_path_spec(b),
    ensures
        a == b,
{
    let prefix = "/campaigns/sent/"@;
    assert(a =~= notify_path_spec(a).subrange(prefix.len() as int, notify_path_spec(a).len() as int));
    assert(b =~= notify_path_spec(b).subrange(prefix.len() as int, notify_path_spec(b).len() as int));
}

/// The aggregator: the four adapters it works through, the collection that
/// messages go to and the queue they come from.
#[derive(Debug)]
pub struct ConsumeMessagesUseCase {
    mongo_db_adapter: MongoDbAdapter,
    http_adapter: HttpAdapter,
    rabbitmq_adapter: RabbitMqAdapter,
    redis_adapter: RedisAdapter,
    collection_name: String,
    queue_name: String,
}

pub ghost struct ConsumeMessagesUseCaseView {
    pub mongo_db_adapter: MongoDbAdapterView,
    pub http_adapter: HttpAdapterView,
    pub rabbitmq_adapter: Seq<char>,
    pub redis_adapter: RedisAdapterView,
    pub collection_name: Seq<char>,
    pub queue_name: Seq<char>,
}

impl View for ConsumeMessagesUseCase {
    type V = ConsumeMessagesUseCaseView;

    closed spec fn view(&self) -> ConsumeMessagesUseCaseView {
        ConsumeMessagesUseCaseView {
            mongo_db_adapter: self.mongo_db_adapter@,
            http_adapter: self.http_adapter@,
            rabbitmq_adapter: self.rabbitmq_adapter@,
            redis_adapter: self.redis_adapter@,
            collection_name: self.collection_name@,
            queue_name: self.queue_name@,
        }
    }
}

impl Clone for ConsumeMessagesUseCase {
    fn clone(&self) -> (r: ConsumeMessagesUseCase)
        ensures
            r@ == self@,
    {
        ConsumeMessagesUseCase {
            mongo_db_adapter: self.mongo_db_adapter.clone(),
            http_adapter: self.http_adapter.clone(),
            rabbitmq_adapter: self.rabbitmq_adapter.clone(),
            redis_adapter: self.redis_adapter.clone(),
            collection_name: self.collection_name.clone(),
            queue_name: self.queue_name.clone(),
        }
    }
}

/// A processing that has ended, with nothing left to do.
pub open spec fn finished(result: Result<OutcomeView, ProcessError>) -> (
    ProcessingView,
    ActionView,
) {
    (ProcessingView::Finished(result), ActionView::Done)
}

impl ConsumeMessagesUseCaseView {
    /// The request that reports `campaign_id` as sent.
    pub open spec fn notification(self, campaign_id: Seq<char>) -> HttpRequestView {
        self.http_adapter.request(HttpMethod::Put, notify_path_spec(campaign_id), None)
    }

    /// The first step for a payload read at the instant `now`. A payload
    /// that makes no message is dropped at once; a message that cannot be
    /// handed to the store fails at once; otherwise the message is to be
    /// stored.
    pub open spec fn begin_spec(self, payload: PayloadView, now: Timestamp) -> (
        ProcessingView,
        ActionView,
    ) {
        match Message::parse(payload, now) {
            Err(e) => finished(Ok(OutcomeView::Rejected(e))),
            Ok(message) => match self.mongo_db_adapter.insert_one(self.collection_name, message) {
                Err(_) => finished(Err(ProcessError::Persistence)),
                Ok(insert) => (
                    ProcessingView::Saving {
                        campaign_id: message.campaign_id,
                        expected_total: expected_total_spec(payload.total),
                    },
                    ActionView::Persist(insert),
                ),
            },
        }
    }

    /// After the store answered: count only a message that was stored.
    pub open spec fn after_save(self, campaign_id: Seq<char>, expected_total: i32, event: Event) -> (
        ProcessingView,
        ActionView,
    ) {
        if event == Event::Saved(true) {
            match self.redis_adapter.increment(counter_key_spec(campaign_id)) {
                Ok(command) => (
                    ProcessingView::Counting { campaign_id, expected_total },
                    ActionView::Increment(command),
                ),
                Err(_) => finished(Err(ProcessError::Counter(CounterStage::Increment))),
            }
        } else {
            finished(Err(ProcessError::Persistence))
        }
    }

    /// After the increment answered: the campaign is complete exactly when
    /// the count returned equals its declared size, and only then is the
    /// notification sent.
    pub open spec fn after_count(self, campaign_id: Seq<char>, expected_total: i32, event: Event) -> (
        ProcessingView,
        ActionView,
    ) {
        match event {
            Event::Counted(Some(count)) => if is_complete(count, expected_total) {
                (
                    ProcessingView::Notifying { campaign_id },
                    ActionView::Notify(self.notification(campaign_id)),
                )
            } else {
                finished(Ok(OutcomeView::Persisted))
            },
            _ => finished(Err(ProcessError::Counter(CounterStage::Increment))),
        }
    }

    /// After the notification answered: the counter is removed only when the
    /// endpoint reported success.
    pub open spec fn after_notify(self, campaign_id: Seq<char>, event: Event) -> (
        ProcessingView,
        ActionView,
    ) {
        match event {
            Event::Notified(Some(status)) => if is_success_spec(status) {
                match self.redis_adapter.delete(counter_key_spec(campaign_id)) {
                    Ok(command) => (
                        ProcessingView::Cleaning { campaign_id },
                        ActionView::Delete(command),
                    ),
                    Err(_) => finished(Err(ProcessError::Counter(CounterStage::Delete))),
                }
            } else {
                finished(Err(ProcessError::Notification(HttpError::Status(status))))
            },
            _ => finished(Err(ProcessError::Notification(HttpError::Transport))),
        }
    }

    /// After the deletion answered.
    pub open spec fn after_delete(self, campaign_id: Seq<char>, event: Event) -> (
        ProcessingView,
        ActionView,
    ) {
        if event == Event::Deleted(true) {
            finished(Ok(OutcomeView::Completed(campaign_id)))
        } else {
            finished(Err(ProcessError::Counter(CounterStage::Delete)))
        }
    }

    /// One step of the processing. An event that is not the answer awaited
    /// counts as the failure of the stage that waits; a finished processing
    /// stays as it is.
    pub open spec fn step_spec(self, state: ProcessingView, event: Event) -> (
        ProcessingView,
        ActionView,
    ) {
        match state {
            ProcessingView::Saving { campaign_id, expected_total } => self.after_save(
                campaign_id,
                expected_total,
                event,
            ),
            ProcessingView::Counting { campaign_id, expected_total } => self.after_count(
                campaign_id,
                expected_total,
                event,
            ),
            ProcessingView::Notifying { campaign_id } => self.after_notify(campaign_id, event),
            ProcessingView::Cleaning { campaign_id } => self.after_delete(campaign_id, event),
            ProcessingView::Finished(result) => finished(result),
        }
    }

    /// The first step for the text of a delivery: the text must be a JSON
    /// document with a `data` member, which holds the payload.
    pub open spec fn callback_spec(self, text: Seq<char>, now: Timestamp) -> (
        ProcessingView,
        ActionView,
    ) {
        match json_document(text) {
            None => finished(Ok(OutcomeView::Rejected(ValidationError::Malformed))),
            Some(document) => match json_member(document, Field::Data.key_spec()) {
                None => finished(Ok(OutcomeView::Rejected(ValidationError::Missing(Field::Data)))),
                Some(data) => self.begin_spec(Payload::of(data), now),
            },
        }
    }
}

/// `action` is what a processing in `state` waits on: a state that awaits
/// an answer comes with the one request for it, on the campaign's own key,
/// and a finished processing comes with nothing to do.
pub open spec fn fits(
    usecase: ConsumeMessagesUseCaseView,
    state: ProcessingView,
    action: ActionView,
) -> bool {
    match state {
        ProcessingView::Saving { campaign_id, .. } => action matches ActionView::Persist(insert)
            && insert.document.campaign_id == campaign_id,
        ProcessingView::Counting { campaign_id, .. } => action == ActionView::Increment(
            RedisCommandView::IncrBy { key: counter_key_spec(campaign_id), delta: 1 },
        ),
        ProcessingView::Notifying { campaign_id } => action == ActionView::Notify(
            usecase.notification(campaign_id),
        ),
        ProcessingView::Cleaning { campaign_id } => action == ActionView::Delete(
            RedisCommandView::DelKey { key: counter_key_spec(campaign_id) },
        ),
        ProcessingView::Finished(_) => action is Done,
    }
}

/// Every step yields a state together with the action it waits on, so the
/// program has something to perform exactly until the processing has
/// finished.
pub proof fn law_action_fits_state(
    usecase: ConsumeMessagesUseCaseView,
    text: Seq<char>,
    payload: PayloadView,
    now: Timestamp,
    state: ProcessingView,
    event: Event,
)
    ensures
        fits(usecase, usecase.callback_spec(text, now).0, usecase.callback_spec(text, now).1),
        fits(usecase, usecase.begin_spec(payload, now).0, usecase.begin_spec(payload, now).1),
        fits(usecase, usecase.step_spec(state, event).0, usecase.step_spec(state, event).1),
{
}

/// The instant that an action carries: the creation time of the message to
/// be stored, and the epoch for an action that stores nothing.
pub open spec fn instant_of(action: ActionView) -> Timestamp {
    match action {
        ActionView::Persist(insert) => insert.document.created_at,
        _ => Timestamp { seconds: 0, nanos: 0 },
    }
}

fn finish(result: Result<Outcome, ProcessError>) -> (r: (Processing, Action))
    ensures
        r.0 == Processing::Finished(result),
        r.1 == Action::Done,
{
    (Processing::Finished(result), Action::Done)
}

impl ConsumeMessagesUseCase {
    /// An aggregator over the four adapters, storing into the collection
    /// `messages` and consuming the queue `m2c_digital_messages_queue`.
    pub fn new(
        mongo_db_adapter: MongoDbAdapter,
        http_adapter: HttpAdapter,
        rabbitmq_adapter: RabbitMqAdapter,
        redis_adapter: RedisAdapter,
    ) -> (usecase: ConsumeMessagesUseCase)
        ensures
            usecase@ == (ConsumeMessagesUseCaseView {
                mongo_db_adapter: mongo_db_adapter@,
                http_adapter: http_adapter@,
                rabbitmq_adapter: rabbitmq_adapter@,
                redis_adapter: redis_adapter@,
                collection_name: "messages"@,
                queue_name: "m2c_digital_messages_queue"@,
            }),
    {
        ConsumeMessagesUseCase {
            mongo_db_adapter,
            http_adapter,
            rabbitmq_adapter,
            redis_adapter,
            collection_name: "messages".to_owned(),
            queue_name: "m2c_digital_messages_queue".to_owned(),
        }
    }

    pub fn mongo_db_adapter(&self) -> (r: &MongoDbAdapter)
        ensures
            r@ == self@.mongo_db_adapter,
    {
        &self.mongo_db_adapter
    }

    pub fn http_adapter(&self) -> (r: &HttpAdapter)
        ensures
            r@ == self@.http_adapter,
    {
        &self.http_adapter
    }

    pub fn rabbitmq_adapter(&self) -> (r: &RabbitMqAdapter)
        ensures
            r@ == self@.rabbitmq_adapter,
    {
        &self.rabbitmq_adapter
    }

    pub fn redis_adapter(&self) -> (r: &RedisAdapter)
        ensures
            r@ == self@.redis_adapter,
    {
        &self.redis_adapter
    }

    /// What to subscribe to: the use case's queue.
    pub fn execute(&self) -> (subscription: Subscription)
        ensures
            subscription@ == subscription_spec(self@.queue_name),
    {
        self.rabbitmq_adapter.consume(self.queue_name.as_str())
    }

    /// Whether the count that an increment returned completes a campaign of
    /// `total` messages.
    pub fn have_all_messages_been_read(count: i64, total: i32) -> (r: bool)
        ensures
            r == is_complete(count, total),
    {
        count == total as i64
    }

    /// The request that reports `campaign_id` as sent.
    pub fn update_campaign_status_to_sent(&self, campaign_id: &str) -> (request: HttpRequest)
        ensures
            request@ == self@.notification(campaign_id@),
    {
        let mut url = "/campaigns/sent/".to_owned();
        url.append(campaign_id);
        self.http_adapter.put(url.as_str(), None)
    }

    /// Validates `payload`, stamps it with `now` and names the order that
    /// stores it.
    pub fn save_message(&self, payload: Payload, now: Timestamp) -> (r: Result<
        (String, InsertOne),
        Result<Outcome, ProcessError>,
    >)
        ensures
            r matches Ok(pair) ==> self@.begin_spec(payload@, now) == (
                ProcessingView::Saving {
                    campaign_id: pair.0@,
                    expected_total: expected_total_spec(payload.total),
                },
                ActionView::Persist(pair.1@),
            ),
            r matches Err(end) ==> self@.begin_spec(payload@, now).0 == Processing::Finished(end)@
                && self@.begin_spec(payload@, now).1 == ActionView::Done,
    {
        match Message::from_payload(payload, now) {
            Err(e) => Err(Ok(Outcome::Rejected(e))),
            Ok(message) => match self.mongo_db_adapter.insert_one(
                self.collection_name.as_str(),
                &message,
            ) {
                Err(_) => Err(Err(ProcessError::Persistence)),
                Ok(insert) => Ok((message.campaign_id, insert)),
            },
        }
    }

    /// The first step for a payload read at the instant `now`.
    pub fn begin(&self, payload: Payload, now: Timestamp) -> (r: (Processing, Action))
        ensures
            (r.0@, r.1@) == self@.begin_spec(payload@, now),
    {
        let total = expected_total(payload.total);
        match self.save_message(payload, now) {
            Ok((campaign_id, insert)) => (
                Processing::Saving { campaign_id, expected_total: total },
                Action::Persist(insert),
            ),
            Err(end) => finish(end),
        }
    }

    /// The first step for the `data` object of a delivery, read now.
    pub fn process_message(&self, message: &serde_json::Value) -> (r: (Processing, Action))
        ensures
            (r.0@, r.1@) == self@.begin_spec(Payload::of(*message), instant_of(r.1@)),
            instant_of(r.1@).well_formed(),
    {
        let payload = Payload::read(message);
        self.begin(payload, now())
    }

    /// The first step for the text of a delivery, read now.
    pub fn consume_callback(&self, message: &str) -> (r: (Processing, Action))
        ensures
            (r.0@, r.1@) == self@.callback_spec(message@, instant_of(r.1@)),
            instant_of(r.1@).well_formed(),
    {
        match parse_document(message) {
            Err(_) => finish(Ok(Outcome::Rejected(ValidationError::Malformed))),
            Ok(document) => match member(&document, Field::Data.key()) {
                None => finish(Ok(Outcome::Rejected(ValidationError::Missing(Field::Data)))),
                Some(data) => self.process_message(data),
            },
        }
    }

    /// One step of the processing: takes the result of the action named last
    /// and names the next.
    pub fn step(&self, state: Processing, event: Event) -> (r: (Processing, Action))
        ensures
            (r.0@, r.1@) == self@.step_spec(state@, event),
    {
        match state {
            Processing::Saving { campaign_id, expected_total } => match event {
                Event::Saved(true) => {
                    let key = counter_key(campaign_id.as_str());
                    match self.redis_adapter.increment(key.as_str()) {
                        Ok(command) => (
                            Processing::Counting { campaign_id, expected_total },
                            Action::Increment(command),
                        ),
                        Err(_) => finish(Err(ProcessError::Counter(CounterStage::Increment))),
                    }
                },
                _ => finish(Err(ProcessError::Persistence)),
            },
            Processing::Counting { campaign_id, expected_total } => match event {
                Event::Counted(Some(count)) => {
                    if ConsumeMessagesUseCase::have_all_messages_been_read(count, expected_total) {
                        let request = self.update_campaign_status_to_sent(campaign_id.as_str());
                        (Processing::Notifying { campaign_id }, Action::Notify(request))
                    } else {
                        finish(Ok(Outcome::Persisted))
                    }
                },
                _ => finish(Err(ProcessError::Counter(CounterStage::Increment))),
            },
            Processing::Notifying { campaign_id } => match event {
                Event::Notified(Some(status)) => {
                    if is_success(status) {
                        let key = counter_key(campaign_id.as_str());
                        match self.redis_adapter.delete(key.as_str()) {
                            Ok(command) => (
                                Processing::Cleaning { campaign_id },
                                Action::Delete(command),
                            ),
                            Err(_) => finish(Err(ProcessError::Counter(CounterStage::Delete))),
                        }
                    } else {
                        finish(Err(ProcessError::Notification(HttpError::Status(status))))
                    }
                },
                _ => finish(Err(ProcessError::Notification(HttpError::Transport))),
            },
            Processing::Cleaning { campaign_id } => match event {
                Event::Deleted(true) => finish(Ok(Outcome::Completed(campaign_id))),
                _ => finish(Err(ProcessError::Counter(CounterStage::Delete))),
            },
            Processing::Finished(result) => finish(result),
        }
    }
}

} // verus!
