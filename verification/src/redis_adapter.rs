//! The counter store's side of the wire: which Redis command stands for each
//! operation, and when none can be sent.

use vstd::prelude::*;

verus! {

/// Trusted: `redis::Client`, taken as a type whose inside is not seen.
#[verifier::external_type_specification]
#[verifier::external_body]
pub struct ExRedisClient(redis::Client);

/// Trusted: `redis::RedisError`, taken as a type whose inside is not seen.
#[verifier::external_type_specification]
#[verifier::external_body]
pub struct ExRedisErrorType(redis::RedisError);

/// What the `redis` crate makes of the address `url`: a client, or the
/// error it turns the address down with. The answer is fixed for a build of
/// the crate: which kinds of address it takes depends on the target and on
/// the features it was built with.
pub uninterp spec fn redis_open(url: Seq<char>) -> Result<redis::Client, redis::RedisError>;

/// The sentence that the `redis` crate prints for `fault`.
pub uninterp spec fn redis_error_text(fault: redis::RedisError) -> Seq<char>;

/// Trusted: `redis::Client::open`, which opens no connection and only reads
/// the address. What it makes depends on the text alone, so it has a name;
/// which addresses it accepts is not stated.
#[verifier::external_body]
pub(crate) fn open_client(url: String) -> (r: Result<redis::Client, redis::RedisError>)
    ensures
        r == redis_open(url@),
{
    redis::Client::open(url)
}

/// Trusted: the `Display` of `redis::RedisError`, which prints the error's
/// description, kind and detail and reads nothing else.
#[verifier::external_body]
pub(crate) fn print_fault(fault: &redis::RedisError) -> (r: String)
    ensures
        r@ == redis_error_text(*fault),
{
    fault.to_string()
}

/// Trusted: the derived `Clone` of `redis::Client` copies the client as it
/// is.
pub assume_specification[ <redis::Client as Clone>::clone ](client: &redis::Client) -> (r:
    redis::Client)
    ensures
        r == *client,
;

/// A command for the Redis server, as plain values.
#[derive(Debug, PartialEq, Eq)]
pub enum RedisCommand {
    SetKey { key: String, value: String },
    GetKey { key: String },
    IncrBy { key: String, delta: i64 },
    DelKey { key: String },
}

pub ghost enum RedisCommandView {
    SetKey { key: Seq<char>, value: Seq<char> },
    GetKey { key: Seq<char> },
    IncrBy { key: Seq<char>, delta: i64 },
    DelKey { key: Seq<char> },
}

impl View for RedisCommand {
    type V = RedisCommandView;

    open spec fn view(&self) -> RedisCommandView {
        match self {
            RedisCommand::SetKey { key, value } => RedisCommandView::SetKey { key: key@, value: value@ },
            RedisCommand::GetKey { key } => RedisCommandView::GetKey { key: key@ },
            RedisCommand::IncrBy { key, delta } => RedisCommandView::IncrBy {
                key: key@,
                delta: *delta,
            },
            RedisCommand::DelKey { key } => RedisCommandView::DelKey { key: key@ },
        }
    }
}

/// The operations of the adapter.
#[derive(Clone, Copy, Debug, PartialEq, Eq, Structural)]
pub enum RedisOperation {
    SetValue,
    GetValue,
    Increment,
    Delete,
}

/// Why the adapter could not do what was asked.
#[derive(Debug, PartialEq, Eq)]
pub enum RedisFailure {
    /// The address was turned down; the text is the `redis` crate's own.
    InvalidUrl(String),
    /// The operation was asked of an adapter that holds no connection.
    NotConnected(RedisOperation),
}

pub ghost enum RedisFailureView {
    InvalidUrl(Seq<char>),
    NotConnected(RedisOperation),
}

impl View for RedisFailure {
    type V = RedisFailureView;

    open spec fn view(&self) -> RedisFailureView {
        match self {
            RedisFailure::InvalidUrl(text) => RedisFailureView::InvalidUrl(text@),
            RedisFailure::NotConnected(operation) => RedisFailureView::NotConnected(*operation),
        }
    }
}

impl Clone for RedisFailure {
    fn clone(&self) -> (r: RedisFailure)
        ensures
            r@ == self@,
    {
        match self {
            RedisFailure::InvalidUrl(text) => RedisFailure::InvalidUrl(text.clone()),
            RedisFailure::NotConnected(operation) => RedisFailure::NotConnected(*operation),
        }
    }
}

impl RedisFailureView {
    pub open spec fn message_spec(self) -> Seq<char> {
        match self {
            RedisFailureView::InvalidUrl(text) => text,
            RedisFailureView::NotConnected(operation) => match operation {
                RedisOperation::SetValue => "Failed to set value in Redis"@,
                RedisOperation::GetValue => "Failed to get value from Redis"@,
                RedisOperation::Increment => "Failed to increment key in Redis"@,
                RedisOperation::Delete => "Failed to delete key in Redis"@,
            },
        }
    }
}

impl RedisFailure {
    /// The sentence for this failure.
    pub fn message(&self) -> (r: String)
        ensures
            r@ == self@.message_spec(),
    {
        match self {
            RedisFailure::InvalidUrl(text) => text.clone(),
            RedisFailure::NotConnected(operation) => match operation {
                RedisOperation::SetValue => "Failed to set value in Redis".to_owned(),
                RedisOperation::GetValue => "Failed to get value from Redis".to_owned(),
                RedisOperation::Increment => "Failed to increment key in Redis".to_owned(),
                RedisOperation::Delete => "Failed to delete key in Redis".to_owned(),
            },
        }
    }
}

/// The client for a Redis server and whether the program holds a connection
/// made with it.
#[derive(Debug)]
pub struct RedisAdapter {
    client: redis::Client,
    connected: bool,
}

pub ghost struct RedisAdapterView {
    pub client: redis::Client,
    pub connected: bool,
}

impl View for RedisAdapter {
    type V = RedisAdapterView;

    closed spec fn view(&self) -> RedisAdapterView {
        RedisAdapterView { client: self.client, connected: self.connected }
    }
}

impl RedisAdapterView {
    /// The command for `operation`, if a connection is held.
    pub open spec fn command(self, command: RedisCommandView, operation: RedisOperation) -> Result<
        RedisCommandView,
        RedisFailureView,
    > {
        if self.connected {
            Ok(command)
        } else {
            Err(RedisFailureView::NotConnected(operation))
        }
    }

    pub open spec fn set(self, key: Seq<char>, value: Seq<char>) -> Result<
        RedisCommandView,
        RedisFailureView,
    > {
        self.command(RedisCommandView::SetKey { key, value }, RedisOperation::SetValue)
    }

    pub open spec fn get(self, key: Seq<char>) -> Result<RedisCommandView, RedisFailureView> {
        self.command(RedisCommandView::GetKey { key }, RedisOperation::GetValue)
    }

    /// Incrementing is always by one.
    pub open spec fn increment(self, key: Seq<char>) -> Result<RedisCommandView, RedisFailureView> {
        self.command(RedisCommandView::IncrBy { key, delta: 1 }, RedisOperation::Increment)
    }

    pub open spec fn delete(self, key: Seq<char>) -> Result<RedisCommandView, RedisFailureView> {
        self.command(RedisCommandView::DelKey { key }, RedisOperation::Delete)
    }
}

/// The view of what a command builder returned.
pub open spec fn command_view(r: Result<RedisCommand, RedisFailure>) -> Result<
    RedisCommandView,
    RedisFailureView,
> {
    match r {
        Ok(c) => Ok(c@),
        Err(e) => Err(e@),
    }
}

impl RedisAdapter {
    /// An adapter that works through `client`, not yet connected.
    pub fn with_client(client: redis::Client) -> (adapter: RedisAdapter)
        ensures
            adapter@ == (RedisAdapterView { client, connected: false }),
    {
        RedisAdapter { client, connected: false }
    }

    /// An adapter for the server at `url`, not yet connected. Fails when the
    /// address is turned down, with the `redis` crate's own words; no
    /// connection is attempted.
    pub fn new(url: String) -> (r: Result<RedisAdapter, RedisFailure>)
        ensures
            redis_open(url@) matches Ok(client) ==> r matches Ok(adapter) && adapter@ == (
                RedisAdapterView { client, connected: false }),
            redis_open(url@) matches Err(fault) ==> r matches Err(e) && e@
                == RedisFailureView::InvalidUrl(redis_error_text(fault)),
    {
        match open_client(url) {
            Ok(client) => Ok(RedisAdapter::with_client(client)),
            Err(fault) => Err(RedisFailure::InvalidUrl(print_fault(&fault))),
        }
    }

    /// The client to connect with.
    pub fn client(&self) -> (r: &redis::Client)
        ensures
            *r == self@.client,
    {
        &self.client
    }

    pub fn is_connected(&self) -> (r: bool)
        ensures
            r == self@.connected,
    {
        self.connected
    }

    /// Records that the program has opened a connection.
    pub fn connect(&mut self)
        ensures
            final(self)@ == (RedisAdapterView { connected: true, ..old(self)@ }),
    {
        self.connected = true;
    }

    /// Records that the connection is gone.
    pub fn disconnect(&mut self)
        ensures
            final(self)@ == (RedisAdapterView { connected: false, ..old(self)@ }),
    {
        self.connected = false;
    }

    /// `SET key value`.
    pub fn set(&self, key: &str, value: &str) -> (r: Result<RedisCommand, RedisFailure>)
        ensures
            command_view(r) == self@.set(key@, value@),
    {
        if self.connected {
            Ok(RedisCommand::SetKey { key: key.to_owned(), value: value.to_owned() })
        } else {
            Err(RedisFailure::NotConnected(RedisOperation::SetValue))
        }
    }

    /// `GET key`.
    pub fn get(&self, key: &str) -> (r: Result<RedisCommand, RedisFailure>)
        ensures
            command_view(r) == self@.get(key@),
    {
        if self.connected {
            Ok(RedisCommand::GetKey { key: key.to_owned() })
        } else {
            Err(RedisFailure::NotConnected(RedisOperation::GetValue))
        }
    }

    /// `INCRBY key 1`, whose reply is the count after the increment.
    pub fn increment(&self, key: &str) -> (r: Result<RedisCommand, RedisFailure>)
        ensures
            command_view(r) == self@.increment(key@),
    {
        if self.connected {
            Ok(RedisCommand::IncrBy { key: key.to_owned(), delta: 1 })
        } else {
            Err(RedisFailure::NotConnected(RedisOperation::Increment))
        }
    }

    /// `DEL key`.
    pub fn delete(&self, key: &str) -> (r: Result<RedisCommand, RedisFailure>)
        ensures
            command_view(r) == self@.delete(key@),
    {
        if self.connected {
            Ok(RedisCommand::DelKey { key: key.to_owned() })
        } else {
            Err(RedisFailure::NotConnected(RedisOperation::Delete))
        }
    }
}

impl Clone for RedisAdapter {
    fn clone(&self) -> (r: RedisAdapter)
        ensures
            r@ == self@,
    {
        RedisAdapter { client: self.client.clone(), connected: self.connected }
    }
}

} // verus!
