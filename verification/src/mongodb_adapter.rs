//! The message store's side of the wire: where a document goes, and when it
//! cannot go anywhere.

use crate::message::{Message, MessageView};
use vstd::prelude::*;

verus! {

/// The database that every collection is taken from.
pub open spec fn database_spec() -> Seq<char> {
    "m2c_digital_db"@
}

/// A collection, named by its database and its own name.
#[derive(Debug, PartialEq, Eq)]
pub struct CollectionRef {
    pub database: String,
    pub name: String,
}

pub ghost struct CollectionRefView {
    pub database: Seq<char>,
    pub name: Seq<char>,
}

impl View for CollectionRef {
    type V = CollectionRefView;

    open spec fn view(&self) -> CollectionRefView {
        CollectionRefView { database: self.database@, name: self.name@ }
    }
}

/// The order to insert one document into one collection.
#[derive(Debug, PartialEq, Eq)]
pub struct InsertOne {
    pub collection: CollectionRef,
    pub document: Message,
}

pub ghost struct InsertOneView {
    pub collection: CollectionRefView,
    pub document: MessageView,
}

impl View for InsertOne {
    type V = InsertOneView;

    open spec fn view(&self) -> InsertOneView {
        InsertOneView { collection: self.collection@, document: self.document@ }
    }
}

/// An operation was asked of an adapter that holds no client.
#[derive(Clone, Copy, Debug, PartialEq, Eq, Structural)]
pub enum MongoError {
    NotConnected,
}

impl MongoError {
    pub open spec fn message_spec(self) -> Seq<char> {
        "Failed to connect to MongoDB"@
    }

    pub fn message(&self) -> (r: String)
        ensures
            r@ == self.message_spec(),
    {
        "Failed to connect to MongoDB".to_owned()
    }
}

/// The MongoDB deployment and whether the program holds a client for it.
#[derive(Debug, PartialEq, Eq)]
pub struct MongoDbAdapter {
    connected: bool,
    uri: String,
    database_name: String,
}

pub ghost struct MongoDbAdapterView {
    pub connected: bool,
    pub uri: Seq<char>,
    pub database_name: Seq<char>,
}

impl View for MongoDbAdapter {
    type V = MongoDbAdapterView;

    closed spec fn view(&self) -> MongoDbAdapterView {
        MongoDbAdapterView {
            connected: self.connected,
            uri: self.uri@,
            database_name: self.database_name@,
        }
    }
}

impl MongoDbAdapterView {
    /// The collection `name`, if a client is held. The database is always the
    /// fixed one, whatever name the adapter was made with.
    pub open spec fn get_collection(self, name: Seq<char>) -> Option<CollectionRefView> {
        if self.connected {
            Some(CollectionRefView { database: database_spec(), name })
        } else {
            None
        }
    }

    /// The order that stores `document` in the collection `name`.
    pub open spec fn insert_one(self, name: Seq<char>, document: MessageView) -> Result<
        InsertOneView,
        MongoError,
    > {
        match self.get_collection(name) {
            Some(collection) => Ok(InsertOneView { collection, document }),
            None => Err(MongoError::NotConnected),
        }
    }
}

/// The view of an optional collection.
pub open spec fn collection_view(r: Option<CollectionRef>) -> Option<CollectionRefView> {
    match r {
        Some(c) => Some(c@),
        None => None,
    }
}

/// The view of what `insert_one` returned.
pub open spec fn insert_view(r: Result<InsertOne, MongoError>) -> Result<InsertOneView, MongoError> {
    match r {
        Ok(i) => Ok(i@),
        Err(e) => Err(e),
    }
}

impl MongoDbAdapter {
    /// An adapter for the deployment at `uri`, not yet connected.
    pub fn new(uri: String, database_name: String) -> (adapter: MongoDbAdapter)
        ensures
            adapter@ == (MongoDbAdapterView {
                connected: false,
                uri: uri@,
                database_name: database_name@,
            }),
    {
        MongoDbAdapter { connected: false, uri, database_name }
    }

    pub fn uri(&self) -> (r: &str)
        ensures
            r@ == self@.uri,
    {
        self.uri.as_str()
    }

    pub fn database_name(&self) -> (r: &str)
        ensures
            r@ == self@.database_name,
    {
        self.database_name.as_str()
    }

    pub fn is_connected(&self) -> (r: bool)
        ensures
            r == self@.connected,
    {
        self.connected
    }

    /// Records that the program has made a client.
    pub fn connect(&mut self)
        ensures
            final(self)@ == (MongoDbAdapterView { connected: true, ..old(self)@ }),
    {
        self.connected = true;
    }

    /// Records that the client is gone.
    pub fn disconnect(&mut self)
        ensures
            final(self)@ == (MongoDbAdapterView { connected: false, ..old(self)@ }),
    {
        self.connected = false;
    }

    /// Names the collection `name`, if a client is held.
    pub fn get_collection(&self, name: &str) -> (r: Option<CollectionRef>)
        ensures
            collection_view(r) == self@.get_collection(name@),
    {
        if self.connected {
            Some(CollectionRef { database: "m2c_digital_db".to_owned(), name: name.to_owned() })
        } else {
            None
        }
    }

    /// The order that stores `document` in the collection `collection_name`.
    pub fn insert_one(&self, collection_name: &str, document: &Message) -> (r: Result<
        InsertOne,
        MongoError,
    >)
        ensures
            insert_view(r) == self@.insert_one(collection_name@, document@),
    {
        match self.get_collection(collection_name) {
            Some(collection) => Ok(InsertOne { collection, document: document.clone() }),
            None => Err(MongoError::NotConnected),
        }
    }
}

impl Clone for MongoDbAdapter {
    fn clone(&self) -> (r: MongoDbAdapter)
        ensures
            r@ == self@,
    {
        MongoDbAdapter {
            connected: self.connected,
            uri: self.uri.clone(),
            database_name: self.database_name.clone(),
        }
    }
}

} // verus!
