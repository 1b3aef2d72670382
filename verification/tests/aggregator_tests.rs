use campaign_consumer::clock::Timestamp;
use campaign_consumer::consume_messages::{
    expected_total, Action, ConsumeMessagesUseCase, CounterStage, Event, Outcome, ProcessError,
    Processing,
};
use campaign_consumer::http_adapter::{Header, HttpAdapter, HttpError, HttpMethod, HttpRequest};
use campaign_consumer::message::{Field, Message, Payload, ValidationError};
use campaign_consumer::mongodb_adapter::{CollectionRef, InsertOne, MongoDbAdapter};
use campaign_consumer::rabbitmq_adapter::{RabbitMqAdapter, Subscription};
use campaign_consumer::redis_adapter::{RedisAdapter, RedisCommand};
use std::collections::HashMap;

/// The collaborators, in memory.
struct World {
    counters: HashMap<String, i64>,
    stored: Vec<Message>,
    notified: Vec<HttpRequest>,
    save_works: bool,
    count_works: bool,
    notify_status: Option<u16>,
    delete_works: bool,
    increments: usize,
}

impl World {
    fn new() -> World {
        World {
            counters: HashMap::new(),
            stored: Vec::new(),
            notified: Vec::new(),
            save_works: true,
            count_works: true,
            notify_status: Some(200),
            delete_works: true,
            increments: 0,
        }
    }

    fn perform(&mut self, action: Action) -> Event {
        match action {
            Action::Persist(insert) => {
                if self.save_works {
                    self.stored.push(insert.document);
                }
                Event::Saved(self.save_works)
            }
            Action::Increment(RedisCommand::IncrBy { key, delta }) => {
                if !self.count_works {
                    return Event::Counted(None);
                }
                self.increments += 1;
                let entry = self.counters.entry(key).or_insert(0);
                *entry += delta;
                Event::Counted(Some(*entry))
            }
            Action::Notify(request) => {
                if let Some(status) = self.notify_status {
                    if (200..300).contains(&status) {
                        self.notified.push(request);
                    }
                }
                Event::Notified(self.notify_status)
            }
            Action::Delete(RedisCommand::DelKey { key }) => {
                if self.delete_works {
                    self.counters.remove(&key);
                }
                Event::Deleted(self.delete_works)
            }
            other => panic!("the aggregator named an action it never should: {other:?}"),
        }
    }
}

fn usecase() -> ConsumeMessagesUseCase {
    let mut mongo = MongoDbAdapter::new("mongodb://localhost".to_string(), "m2c_digital_db".to_string());
    mongo.connect();
    let mut redis = RedisAdapter::new("redis://localhost".to_string()).unwrap();
    redis.connect();
    let mut http = HttpAdapter::new("http://api.local".to_string());
    http.add_header("x-api-key", "secret");
    let rabbit = RabbitMqAdapter::new("amqp://localhost".to_string());
    ConsumeMessagesUseCase::new(mongo, http, rabbit, redis)
}

fn envelope(identifier: &str, campaign: &str, total: i64) -> String {
    format!(
        "{{\"pattern\":\"m\",\"data\":{{\"identifier\":\"{identifier}\",\"message\":\"hi\",\"phoneNumber\":\"+55\",\"campaignId\":\"{campaign}\",\"total\":{total}}}}}"
    )
}

fn process(
    usecase: &ConsumeMessagesUseCase,
    world: &mut World,
    text: &str,
) -> Result<Outcome, ProcessError> {
    let (mut state, mut action) = usecase.consume_callback(text);
    let mut turns = 0;
    while action != Action::Done {
        let event = world.perform(action);
        let next = usecase.step(state, event);
        state = next.0;
        action = next.1;
        turns += 1;
        assert!(turns <= 4);
    }
    match state {
        Processing::Finished(result) => result,
        other => panic!("the processing stopped before its end: {other:?}"),
    }
}

fn notification(campaign: &str) -> HttpRequest {
    HttpRequest {
        method: HttpMethod::Put,
        url: format!("http://api.local/campaigns/sent/{campaign}"),
        headers: vec![Header { name: "x-api-key".to_string(), value: "secret".to_string() }],
        body: None,
    }
}

fn payload(campaign: &str, total: Option<i64>) -> Payload {
    Payload {
        identifier: Some("msg-1".to_string()),
        message: Some("hi".to_string()),
        phone_number: Some("+55".to_string()),
        campaign_id: Some(campaign.to_string()),
        total,
    }
}

#[test]
fn the_use_case_subscribes_to_its_queue() {
    assert_eq!(
        usecase().execute(),
        Subscription {
            queue: "m2c_digital_messages_queue".to_string(),
            durable: true,
            consumer_tag: "consumer".to_string(),
        }
    );
}

#[test]
fn the_use_case_keeps_its_adapters() {
    let usecase = usecase();
    assert!(usecase.mongo_db_adapter().is_connected());
    assert!(usecase.redis_adapter().is_connected());
    assert_eq!(usecase.http_adapter().base_url(), "http://api.local");
    assert_eq!(usecase.rabbitmq_adapter().connect(), "amqp://localhost");
    let copy = usecase.clone();
    assert_eq!(copy.execute(), usecase.execute());
    assert_eq!(copy.mongo_db_adapter(), usecase.mongo_db_adapter());
    assert_eq!(copy.http_adapter(), usecase.http_adapter());
    assert_eq!(copy.rabbitmq_adapter(), usecase.rabbitmq_adapter());
    assert!(copy.redis_adapter().is_connected());
}

#[test]
fn begin_orders_the_message_stored_in_the_messages_collection() {
    let now = Timestamp { seconds: 1_700_000_000, nanos: 1 };
    let (state, action) = usecase().begin(payload("camp-1", Some(3)), now);
    assert_eq!(state, Processing::Saving { campaign_id: "camp-1".to_string(), expected_total: 3 });
    assert_eq!(
        action,
        Action::Persist(InsertOne {
            collection: CollectionRef {
                database: "m2c_digital_db".to_string(),
                name: "messages".to_string(),
            },
            document: Message {
                identifier: "msg-1".to_string(),
                message: "hi".to_string(),
                phone_number: "+55".to_string(),
                campaign_id: "camp-1".to_string(),
                created_at: now,
                updated_at: now,
                deleted: false,
            },
        })
    );
}

#[test]
fn each_step_names_the_next_action() {
    let usecase = usecase();
    let now = Timestamp { seconds: 1, nanos: 1 };
    let (state, _) = usecase.begin(payload("camp-1", Some(2)), now);
    let (state, action) = usecase.step(state, Event::Saved(true));
    assert_eq!(state, Processing::Counting { campaign_id: "camp-1".to_string(), expected_total: 2 });
    assert_eq!(
        action,
        Action::Increment(RedisCommand::IncrBy {
            key: "campaign:camp-1:count".to_string(),
            delta: 1
        })
    );
    let (state, action) = usecase.step(state, Event::Counted(Some(2)));
    assert_eq!(state, Processing::Notifying { campaign_id: "camp-1".to_string() });
    assert_eq!(action, Action::Notify(notification("camp-1")));
    let (state, action) = usecase.step(state, Event::Notified(Some(204)));
    assert_eq!(state, Processing::Cleaning { campaign_id: "camp-1".to_string() });
    assert_eq!(
        action,
        Action::Delete(RedisCommand::DelKey { key: "campaign:camp-1:count".to_string() })
    );
    let (state, action) = usecase.step(state, Event::Deleted(true));
    assert_eq!(state, Processing::Finished(Ok(Outcome::Completed("camp-1".to_string()))));
    assert_eq!(action, Action::Done);
    let (state, action) = usecase.step(state, Event::Saved(true));
    assert_eq!(state, Processing::Finished(Ok(Outcome::Completed("camp-1".to_string()))));
    assert_eq!(action, Action::Done);
}

#[test]
fn a_count_short_of_the_total_ends_the_processing() {
    let usecase = usecase();
    for count in [1, 2, 4, 5, -3, 0] {
        let state = Processing::Counting { campaign_id: "camp-1".to_string(), expected_total: 3 };
        let (state, action) = usecase.step(state, Event::Counted(Some(count)));
        assert_eq!(state, Processing::Finished(Ok(Outcome::Persisted)));
        assert_eq!(action, Action::Done);
    }
}

#[test]
fn the_predicate_is_plain_equality() {
    assert!(ConsumeMessagesUseCase::have_all_messages_been_read(3, 3));
    assert!(!ConsumeMessagesUseCase::have_all_messages_been_read(2, 3));
    assert!(!ConsumeMessagesUseCase::have_all_messages_been_read(4, 3));
    assert!(ConsumeMessagesUseCase::have_all_messages_been_read(0, 0));
    assert!(ConsumeMessagesUseCase::have_all_messages_been_read(-1, -1));
    assert!(!ConsumeMessagesUseCase::have_all_messages_been_read(4_294_967_299, 3));
    assert!(ConsumeMessagesUseCase::have_all_messages_been_read(2_147_483_647, i32::MAX));
}

#[test]
fn the_declared_size_is_the_total_cut_to_32_bits() {
    assert_eq!(expected_total(Some(3)), 3);
    assert_eq!(expected_total(None), 0);
    assert_eq!(expected_total(Some(-1)), -1);
    assert_eq!(expected_total(Some(2_147_483_647)), i32::MAX);
    assert_eq!(expected_total(Some(2_147_483_648)), i32::MIN);
    assert_eq!(expected_total(Some(4_294_967_299)), 3);
    assert_eq!(expected_total(Some(i64::MIN)), 0);
}

#[test]
fn a_payload_without_total_never_completes() {
    let usecase = usecase();
    let now = Timestamp { seconds: 1, nanos: 1 };
    let (state, _) = usecase.begin(payload("camp-1", None), now);
    assert_eq!(state, Processing::Saving { campaign_id: "camp-1".to_string(), expected_total: 0 });
    let mut world = World::new();
    let text = "{\"data\":{\"identifier\":\"a\",\"message\":\"b\",\"phoneNumber\":\"c\",\"campaignId\":\"camp-1\"}}";
    for _ in 0..5 {
        assert_eq!(process(&usecase, &mut world, text), Ok(Outcome::Persisted));
    }
    assert!(world.notified.is_empty());
    assert_eq!(world.counters.get("campaign:camp-1:count"), Some(&5));
}

#[test]
fn the_notification_is_a_put_to_the_sent_path() {
    assert_eq!(usecase().update_campaign_status_to_sent("camp-1"), notification("camp-1"));
    assert_eq!(usecase().update_campaign_status_to_sent(""), notification(""));
}

#[test]
fn exactly_total_messages_complete_the_campaign_once() {
    for total in [1i64, 5, 50] {
        let usecase = usecase();
        let mut world = World::new();
        for n in 1..=total {
            let text = envelope(&format!("msg-{n}"), "camp-x", total);
            let outcome = process(&usecase, &mut world, &text);
            if n < total {
                assert_eq!(outcome, Ok(Outcome::Persisted));
                assert!(world.notified.is_empty());
                assert_eq!(world.counters.get("campaign:camp-x:count"), Some(&n));
            } else {
                assert_eq!(outcome, Ok(Outcome::Completed("camp-x".to_string())));
            }
        }
        assert_eq!(world.notified, vec![notification("camp-x")]);
        assert!(!world.counters.contains_key("campaign:camp-x:count"));
        assert_eq!(world.stored.len(), total as usize);
    }
}

#[test]
fn of_many_increments_one_observes_the_total() {
    for total in [1i32, 5, 50] {
        for callers in [1usize, 4, 60, 200] {
            let mut counters: HashMap<String, i64> = HashMap::new();
            let mut winners = 0;
            for _ in 0..callers {
                let entry = counters.entry("campaign:c:count".to_string()).or_insert(0);
                *entry += 1;
                if ConsumeMessagesUseCase::have_all_messages_been_read(*entry, total) {
                    winners += 1;
                }
            }
            assert!(winners <= 1);
            assert_eq!(winners == 1, callers >= total as usize);
        }
    }
}

#[test]
fn a_malformed_payload_reaches_no_collaborator() {
    let usecase = usecase();
    let mut world = World::new();
    let missing = [
        ("{\"data\":{\"message\":\"b\",\"phoneNumber\":\"c\",\"campaignId\":\"d\",\"total\":1}}", Field::Identifier),
        ("{\"data\":{\"identifier\":\"a\",\"phoneNumber\":\"c\",\"campaignId\":\"d\",\"total\":1}}", Field::Message),
        ("{\"data\":{\"identifier\":\"a\",\"message\":\"b\",\"campaignId\":\"d\",\"total\":1}}", Field::PhoneNumber),
        ("{\"data\":{\"identifier\":\"a\",\"message\":\"b\",\"phoneNumber\":\"c\",\"total\":1}}", Field::CampaignId),
    ];
    for (text, field) in missing {
        let (state, action) = usecase.consume_callback(text);
        assert_eq!(action, Action::Done);
        assert_eq!(
            state,
            Processing::Finished(Ok(Outcome::Rejected(ValidationError::Missing(field))))
        );
        assert_eq!(
            process(&usecase, &mut world, text),
            Ok(Outcome::Rejected(ValidationError::Missing(field)))
        );
    }
    assert!(world.stored.is_empty());
    assert!(world.counters.is_empty());
    assert!(world.notified.is_empty());
    assert_eq!(world.increments, 0);
}

#[test]
fn a_delivery_that_is_no_envelope_is_dropped() {
    let usecase = usecase();
    let mut world = World::new();
    assert_eq!(
        process(&usecase, &mut world, "not json"),
        Ok(Outcome::Rejected(ValidationError::Malformed))
    );
    assert_eq!(
        process(&usecase, &mut world, ""),
        Ok(Outcome::Rejected(ValidationError::Malformed))
    );
    assert_eq!(
        process(&usecase, &mut world, "{\"identifier\":\"a\"}"),
        Ok(Outcome::Rejected(ValidationError::Missing(Field::Data)))
    );
    assert_eq!(
        process(&usecase, &mut world, "[1]"),
        Ok(Outcome::Rejected(ValidationError::Missing(Field::Data)))
    );
    assert_eq!(
        process(&usecase, &mut world, "{\"data\":{\"identifier\":\"a\",\"message\":\"\",\"phoneNumber\":\"c\",\"campaignId\":\"d\"}}"),
        Ok(Outcome::Rejected(ValidationError::Empty(Field::Message)))
    );
    assert!(world.stored.is_empty());
    assert!(world.counters.is_empty());
}

#[test]
fn two_campaigns_count_apart() {
    let usecase = usecase();
    let mut world = World::new();
    let order = ["a", "b", "b", "a", "b", "a", "a"];
    let mut seen_a = 0;
    let mut seen_b = 0;
    for (n, campaign) in order.iter().enumerate() {
        let total = if *campaign == "a" { 4 } else { 3 };
        let outcome = process(&usecase, &mut world, &envelope(&format!("m{n}"), campaign, total));
        if *campaign == "a" {
            seen_a += 1;
        } else {
            seen_b += 1;
        }
        let done = (*campaign == "a" && seen_a == 4) || (*campaign == "b" && seen_b == 3);
        if done {
            assert_eq!(outcome, Ok(Outcome::Completed(campaign.to_string())));
        } else {
            assert_eq!(outcome, Ok(Outcome::Persisted));
        }
        if seen_a < 4 && seen_a > 0 {
            assert_eq!(world.counters.get("campaign:a:count"), Some(&seen_a));
        }
        if seen_b < 3 && seen_b > 0 {
            assert_eq!(world.counters.get("campaign:b:count"), Some(&seen_b));
        }
    }
    assert_eq!(world.notified, vec![notification("b"), notification("a")]);
    assert!(world.counters.is_empty());
}

#[test]
fn a_message_that_was_not_stored_is_not_counted() {
    let usecase = usecase();
    let mut world = World::new();
    world.save_works = false;
    assert_eq!(
        process(&usecase, &mut world, &envelope("m1", "camp-1", 1)),
        Err(ProcessError::Persistence)
    );
    assert_eq!(world.increments, 0);
    assert!(world.counters.is_empty());
    assert!(world.notified.is_empty());
    let state = Processing::Saving { campaign_id: "camp-1".to_string(), expected_total: 1 };
    let (state, action) = usecase.step(state, Event::Saved(false));
    assert_eq!(state, Processing::Finished(Err(ProcessError::Persistence)));
    assert_eq!(action, Action::Done);
}

#[test]
fn a_disconnected_store_fails_before_anything_is_sent() {
    let mongo = MongoDbAdapter::new("mongodb://localhost".to_string(), "db".to_string());
    let mut redis = RedisAdapter::new("redis://localhost".to_string()).unwrap();
    redis.connect();
    let usecase = ConsumeMessagesUseCase::new(
        mongo,
        HttpAdapter::new("http://api.local".to_string()),
        RabbitMqAdapter::new("amqp://localhost".to_string()),
        redis,
    );
    let now = Timestamp { seconds: 1, nanos: 1 };
    let (state, action) = usecase.begin(payload("camp-1", Some(1)), now);
    assert_eq!(state, Processing::Finished(Err(ProcessError::Persistence)));
    assert_eq!(action, Action::Done);
}

#[test]
fn a_disconnected_counter_store_fails_the_counting_stage() {
    let mut mongo = MongoDbAdapter::new("mongodb://localhost".to_string(), "db".to_string());
    mongo.connect();
    let usecase = ConsumeMessagesUseCase::new(
        mongo,
        HttpAdapter::new("http://api.local".to_string()),
        RabbitMqAdapter::new("amqp://localhost".to_string()),
        RedisAdapter::new("redis://localhost".to_string()).unwrap(),
    );
    let mut world = World::new();
    assert_eq!(
        process(&usecase, &mut world, &envelope("m1", "camp-1", 1)),
        Err(ProcessError::Counter(CounterStage::Increment))
    );
    assert_eq!(world.stored.len(), 1);
    let state = Processing::Notifying { campaign_id: "camp-1".to_string() };
    let (state, action) = usecase.step(state, Event::Notified(Some(200)));
    assert_eq!(state, Processing::Finished(Err(ProcessError::Counter(CounterStage::Delete))));
    assert_eq!(action, Action::Done);
}

#[test]
fn a_failed_increment_aborts_after_the_message_was_stored() {
    let usecase = usecase();
    let mut world = World::new();
    world.count_works = false;
    assert_eq!(
        process(&usecase, &mut world, &envelope("m1", "camp-1", 1)),
        Err(ProcessError::Counter(CounterStage::Increment))
    );
    assert_eq!(world.stored.len(), 1);
    assert!(world.notified.is_empty());
}

#[test]
fn a_failed_deletion_is_a_counter_error() {
    let usecase = usecase();
    let mut world = World::new();
    world.delete_works = false;
    assert_eq!(
        process(&usecase, &mut world, &envelope("m1", "camp-1", 1)),
        Err(ProcessError::Counter(CounterStage::Delete))
    );
    assert_eq!(world.notified, vec![notification("camp-1")]);
    assert_eq!(world.counters.get("campaign:camp-1:count"), Some(&1));
}

#[test]
fn an_answer_that_does_not_fit_fails_the_waiting_stage() {
    let usecase = usecase();
    let saving = || Processing::Saving { campaign_id: "c".to_string(), expected_total: 1 };
    let counting = || Processing::Counting { campaign_id: "c".to_string(), expected_total: 1 };
    let notifying = || Processing::Notifying { campaign_id: "c".to_string() };
    let cleaning = || Processing::Cleaning { campaign_id: "c".to_string() };
    assert_eq!(
        usecase.step(saving(), Event::Counted(Some(1))),
        (Processing::Finished(Err(ProcessError::Persistence)), Action::Done)
    );
    assert_eq!(
        usecase.step(counting(), Event::Saved(true)),
        (Processing::Finished(Err(ProcessError::Counter(CounterStage::Increment))), Action::Done)
    );
    assert_eq!(
        usecase.step(notifying(), Event::Deleted(true)),
        (
            Processing::Finished(Err(ProcessError::Notification(HttpError::Transport))),
            Action::Done
        )
    );
    assert_eq!(
        usecase.step(cleaning(), Event::Notified(Some(200))),
        (Processing::Finished(Err(ProcessError::Counter(CounterStage::Delete))), Action::Done)
    );
}

#[test]
fn outcome_reports_what_was_persisted_and_completed() {
    let rejected = Outcome::Rejected(ValidationError::Malformed);
    assert!(!rejected.persisted());
    assert_eq!(rejected.completed_campaign(), None);
    assert!(Outcome::Persisted.persisted());
    assert_eq!(Outcome::Persisted.completed_campaign(), None);
    let completed = Outcome::Completed("camp-1".to_string());
    assert!(completed.persisted());
    assert_eq!(completed.completed_campaign(), Some("camp-1"));
}

#[test]
fn scenario_three_messages_then_a_duplicate() {
    let usecase = usecase();
    let mut world = World::new();
    assert_eq!(process(&usecase, &mut world, &envelope("m1", "camp-1", 3)), Ok(Outcome::Persisted));
    assert_eq!(process(&usecase, &mut world, &envelope("m2", "camp-1", 3)), Ok(Outcome::Persisted));
    assert!(world.notified.is_empty());
    assert_eq!(
        process(&usecase, &mut world, &envelope("m3", "camp-1", 3)),
        Ok(Outcome::Completed("camp-1".to_string()))
    );
    assert_eq!(world.notified, vec![notification("camp-1")]);
    assert!(!world.counters.contains_key("campaign:camp-1:count"));
    assert_eq!(process(&usecase, &mut world, &envelope("m3", "camp-1", 3)), Ok(Outcome::Persisted));
    assert_eq!(world.counters.get("campaign:camp-1:count"), Some(&1));
    assert_eq!(world.notified.len(), 1);
    assert_eq!(process(&usecase, &mut world, &envelope("m4", "camp-1", 3)), Ok(Outcome::Persisted));
    assert_eq!(world.notified.len(), 1);
    assert_eq!(
        process(&usecase, &mut world, &envelope("m5", "camp-1", 3)),
        Ok(Outcome::Completed("camp-1".to_string()))
    );
    assert_eq!(world.notified, vec![notification("camp-1"), notification("camp-1")]);
    assert_eq!(world.stored.len(), 6);
}

#[test]
fn scenario_failed_notification_leaves_the_campaign_stuck() {
    for status in [None, Some(500), Some(404), Some(199), Some(300)] {
        let usecase = usecase();
        let mut world = World::new();
        assert_eq!(
            process(&usecase, &mut world, &envelope("m1", "camp-1", 2)),
            Ok(Outcome::Persisted)
        );
        world.notify_status = status;
        let expected = match status {
            None => HttpError::Transport,
            Some(code) => HttpError::Status(code),
        };
        assert_eq!(
            process(&usecase, &mut world, &envelope("m2", "camp-1", 2)),
            Err(ProcessError::Notification(expected))
        );
        assert_eq!(world.counters.get("campaign:camp-1:count"), Some(&2));
        assert!(world.notified.is_empty());
        world.notify_status = Some(200);
        assert_eq!(
            process(&usecase, &mut world, &envelope("m2", "camp-1", 2)),
            Ok(Outcome::Persisted)
        );
        assert_eq!(world.counters.get("campaign:camp-1:count"), Some(&3));
        assert!(world.notified.is_empty());
    }
}
