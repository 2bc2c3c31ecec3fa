//! The client: its subscriptions, its handlers, and where each message goes.
use std::collections::HashMap;
use std::sync::Arc;

use vstd::prelude::*;

use crate::client::connection::{ConnectionId, PeerId, Status};
use crate::client::models::{ModelId, ModelRegistry};

verus! {

/// Identifies a type of message or of entity.
pub type TypeId = u64;

/// Whether the sender of a message waits for a response to it.
#[derive(Clone, Copy, Debug, PartialEq, Eq, Structural)]
pub enum HandlerKind {
    Message,
    Request,
}

/// A handler that the application has registered under an id of its own.
#[derive(Clone, Copy, Debug, PartialEq, Eq, Structural)]
pub struct Handler {
    pub id: u64,
    pub kind: HandlerKind,
}

/// A message as it arrives.
#[derive(Debug)]
pub struct Envelope<P> {
    pub payload_type_id: TypeId,
    pub payload_type_name: String,
    pub original_sender_id: Option<PeerId>,
    /// The entity that the payload is about, where its type is one that is about entities.
    pub remote_entity_id: u64,
    pub payload: P,
}

/// Why the client refused a request.
#[derive(Clone, Copy, Debug, PartialEq, Eq, Structural)]
pub enum ClientError {
    AlreadySubscribed,
    NotConnected,
}

impl ClientError {
    /// The error in words.
    pub open spec fn words(self) -> Seq<char> {
        match self {
            ClientError::AlreadySubscribed => "already subscribed to entity"@,
            ClientError::NotConnected => "not connected"@,
        }
    }

    /// The error in words.
    pub fn message(&self) -> (r: String)
        ensures
            r@ == self.words(),
    {
        match self {
            ClientError::AlreadySubscribed => "already subscribed to entity".to_string(),
            ClientError::NotConnected => "not connected".to_string(),
        }
    }
}

/// Who gets the messages about an entity.
enum WeakSubscriber<P> {
    Entity { handle: ModelId },
    Pending(Vec<Envelope<P>>),
}

/// What is known of the subscriber to an entity: the model, or the messages that wait for one,
/// oldest first.
#[verifier::ext_equal]
pub ghost enum Subscriber<P> {
    Entity(ModelId),
    Pending(Seq<Envelope<P>>),
}

impl<P> View for WeakSubscriber<P> {
    type V = Subscriber<P>;

    closed spec fn view(&self) -> Subscriber<P> {
        match self {
            WeakSubscriber::Entity { handle } => Subscriber::Entity(*handle),
            WeakSubscriber::Pending(messages) => Subscriber::Pending(messages@),
        }
    }
}

/// What becomes of a message.
#[derive(Debug)]
pub enum MessageAction<P> {
    /// It waits for the model of the entity that it is about.
    Queued,
    /// This handler gets it, together with the model.
    Handle { handler: Handler, subscriber: ModelId, message: Envelope<P> },
    /// Its sender is told that nobody handles it.
    RespondUnhandled { message: Envelope<P> },
}

/// Where a message is to go.
pub ghost enum Route {
    Queue((TypeId, u64)),
    Deliver(ModelId),
    Nobody,
}

/// The state of a client.
#[verifier::ext_equal]
pub ghost struct ClientView<P> {
    pub id: u64,
    pub status: Status,
    pub entity_id_extractors: Set<TypeId>,
    pub entities: Map<(TypeId, u64), Subscriber<P>>,
    pub models: Map<TypeId, ModelId>,
    pub entity_types: Map<TypeId, TypeId>,
    pub handlers: Map<TypeId, Handler>,
}

impl<P> ClientView<P> {
    /// The entity that a message is about, if its type is registered as one about entities.
    pub open spec fn entity_of(self, message: Envelope<P>) -> Option<(TypeId, u64)> {
        let message_type = message.payload_type_id;
        if self.entity_id_extractors.contains(message_type) && self.entity_types.contains_key(
            message_type,
        ) {
            Some((self.entity_types[message_type], message.remote_entity_id))
        } else {
            None
        }
    }

    /// Where a message is to go while the models `live` are alive. A live model that is
    /// registered for the type of the message comes before the subscriber to its entity.
    pub open spec fn route(self, message: Envelope<P>, live: Set<ModelId>) -> Route {
        let message_type = message.payload_type_id;
        if self.models.contains_key(message_type) && live.contains(self.models[message_type]) {
            Route::Deliver(self.models[message_type])
        } else {
            match self.entity_of(message) {
                Some(entity) => if self.entities.contains_key(entity) {
                    match self.entities[entity] {
                        Subscriber::Pending(_) => Route::Queue(entity),
                        Subscriber::Entity(handle) => if live.contains(handle) {
                            Route::Deliver(handle)
                        } else {
                            Route::Nobody
                        },
                    }
                } else {
                    Route::Nobody
                },
                None => Route::Nobody,
            }
        }
    }

    /// What becomes of a message.
    pub open spec fn action(self, message: Envelope<P>, live: Set<ModelId>) -> MessageAction<P> {
        match self.route(message, live) {
            Route::Queue(_) => MessageAction::Queued,
            Route::Deliver(subscriber) => if self.handlers.contains_key(message.payload_type_id) {
                MessageAction::Handle {
                    handler: self.handlers[message.payload_type_id],
                    subscriber,
                    message,
                }
            } else {
                MessageAction::RespondUnhandled { message }
            },
            Route::Nobody => MessageAction::RespondUnhandled { message },
        }
    }

    /// The messages that wait for the model of an entity.
    pub open spec fn pending(self, entity: (TypeId, u64)) -> Seq<Envelope<P>> {
        self.entities[entity]->Pending_0
    }

    /// Whether the entity is subscribed to, and its model is not known yet.
    pub open spec fn is_pending(self, entity: (TypeId, u64)) -> bool {
        self.entities.contains_key(entity) && self.entities[entity] is Pending
    }

    /// The state after a message has arrived: only a queue can have grown.
    pub open spec fn after(self, message: Envelope<P>, live: Set<ModelId>) -> ClientView<P> {
        match self.route(message, live) {
            Route::Queue(entity) => ClientView {
                entities: self.entities.insert(
                    entity,
                    Subscriber::Pending(self.pending(entity).push(message)),
                ),
                ..self
            },
            _ => self,
        }
    }

    /// The state after messages have arrived one after the other.
    pub open spec fn after_all(
        self,
        messages: Seq<Envelope<P>>,
        live: Set<ModelId>,
    ) -> ClientView<P>
        decreases messages.len(),
    {
        if messages.len() == 0 {
            self
        } else {
            self.after_all(messages.drop_last(), live).after(messages.last(), live)
        }
    }

    /// What becomes of messages that arrive one after the other.
    pub open spec fn actions(self, messages: Seq<Envelope<P>>, live: Set<ModelId>) -> Seq<
        MessageAction<P>,
    >
        decreases messages.len(),
    {
        if messages.len() == 0 {
            Seq::empty()
        } else {
            self.actions(messages.drop_last(), live).push(
                self.after_all(messages.drop_last(), live).action(messages.last(), live),
            )
        }
    }

    /// The state once the model of an entity is known.
    pub open spec fn with_model(self, entity: (TypeId, u64), model: ModelId) -> ClientView<P> {
        ClientView { entities: self.entities.insert(entity, Subscriber::Entity(model)), ..self }
    }

    /// The state once a subscription has ended.
    pub open spec fn without(self, subscription: Subscription) -> ClientView<P> {
        match subscription {
            Subscription::Entity { id } => ClientView { entities: self.entities.remove(id), ..self },
            Subscription::Message { id } => ClientView {
                entity_types: self.entity_types.remove(id),
                handlers: self.handlers.remove(id),
                ..self
            },
        }
    }

    /// The state once a handler is registered for the messages of a type.
    pub open spec fn with_handler(self, message_type: TypeId, handler: Handler) -> ClientView<P> {
        ClientView { handlers: self.handlers.insert(message_type, handler), ..self }
    }
}

/// The key under which the subscriber to an entity is stored.
pub open spec fn entity_key(entity: (TypeId, u64)) -> u128 {
    (entity.0 * 0x1_0000_0000_0000_0000 + entity.1) as u128
}

proof fn lemma_entity_key_injective()
    ensures
        forall|a: (TypeId, u64), b: (TypeId, u64)|
            #![trigger entity_key(a), entity_key(b)]
            entity_key(a) == entity_key(b) ==> a == b,
{
}

fn key_of(entity: (TypeId, u64)) -> (r: u128)
    ensures
        r == entity_key(entity),
{
    entity.0 as u128 * 0x1_0000_0000_0000_0000 + entity.1 as u128
}

/// A subscription that is in force. Handing it to [`Subscription::drop`] ends it.
#[derive(Debug)]
pub enum Subscription {
    Entity { id: (TypeId, u64) },
    Message { id: TypeId },
}

/// A subscription to an entity whose model is not known yet.
#[derive(Debug)]
pub struct PendingEntitySubscription {
    entity_type: TypeId,
    remote_id: u64,
}

impl View for PendingEntitySubscription {
    type V = (TypeId, u64);

    closed spec fn view(&self) -> (TypeId, u64) {
        (self.entity_type, self.remote_id)
    }
}

/// What the server answers a message with.
#[derive(Clone, Copy, Debug, PartialEq, Eq, Structural)]
pub enum ReplyKind {
    Nothing,
    Response,
    Stream,
}

/// A message on its way to the server.
#[derive(Debug)]
pub struct Outgoing<M> {
    pub connection_id: ConnectionId,
    pub reply: ReplyKind,
    pub message: M,
}

/// A message to be sent by a client of this status.
pub open spec fn addressed<M>(status: Status, reply: ReplyKind, message: M) -> Result<
    Outgoing<M>,
    ClientError,
> {
    match status {
        Status::Connected { connection_id, .. } => Ok(Outgoing { connection_id, reply, message }),
        _ => Err(ClientError::NotConnected),
    }
}

/// The client of the collaboration server. `T` sends HTTP requests; `P` is what messages carry.
pub struct Client<T, P> {
    id: u64,
    http: Arc<T>,
    status: Status,
    entity_id_extractors: HashMap<TypeId, ()>,
    entities_by_type_and_remote_id: HashMap<u128, WeakSubscriber<P>>,
    models_by_message_type: HashMap<TypeId, ModelId>,
    entity_types_by_message_type: HashMap<TypeId, TypeId>,
    message_handlers: HashMap<TypeId, Handler>,
}

closed spec fn entities_view<P>(entities: Map<u128, WeakSubscriber<P>>) -> Map<
    (TypeId, u64),
    Subscriber<P>,
> {
    Map::new(
        |entity: (TypeId, u64)| entities.contains_key(entity_key(entity)),
        |entity: (TypeId, u64)| entities[entity_key(entity)]@,
    )
}

impl<T, P> View for Client<T, P> {
    type V = ClientView<P>;

    closed spec fn view(&self) -> ClientView<P> {
        ClientView {
            id: self.id,
            status: self.status,
            entity_id_extractors: self.entity_id_extractors@.dom(),
            entities: entities_view(self.entities_by_type_and_remote_id@),
            models: self.models_by_message_type@,
            entity_types: self.entity_types_by_message_type@,
            handlers: self.message_handlers@,
        }
    }
}

impl<T, P> Client<T, P> {
    /// What sends the client's HTTP requests.
    pub closed spec fn http_spec(&self) -> Arc<T> {
        self.http
    }

    /// A client that is signed out and has neither subscriptions nor handlers.
    pub fn new(http: Arc<T>) -> (r: Self)
        ensures
            r.http_spec() == http,
            r@ == (ClientView::<P> {
                id: 0,
                status: Status::SignedOut,
                entity_id_extractors: Set::empty(),
                entities: Map::empty(),
                models: Map::empty(),
                entity_types: Map::empty(),
                handlers: Map::empty(),
            }),
    {
        let r = Client {
            id: 0,
            http,
            status: Status::SignedOut,
            entity_id_extractors: HashMap::new(),
            entities_by_type_and_remote_id: HashMap::new(),
            models_by_message_type: HashMap::new(),
            entity_types_by_message_type: HashMap::new(),
            message_handlers: HashMap::new(),
        };
        assert(r@.entities =~= Map::empty());
        assert(r@.entity_id_extractors =~= Set::empty());
        r
    }

    /// The id of the client.
    pub fn id(&self) -> (r: u64)
        ensures
            r == self@.id,
    {
        self.id
    }

    /// Sets the id of the client.
    pub fn set_id(&mut self, id: u64)
        ensures
            final(self)@ == (ClientView { id, ..old(self)@ }),
            final(self).http_spec() == old(self).http_spec(),
    {
        self.id = id;
    }

    /// What sends the client's HTTP requests.
    pub fn http_client(&self) -> (r: Arc<T>)
        ensures
            r == self.http_spec(),
    {
        self.http.clone()
    }

    /// Where the client stands with the server.
    pub fn status(&self) -> (r: Status)
        ensures
            r == self@.status,
    {
        self.status
    }

    /// Records where the client stands with the server.
    pub fn set_status(&mut self, status: Status)
        ensures
            final(self)@ == (ClientView { status, ..old(self)@ }),
            final(self).http_spec() == old(self).http_spec(),
    {
        self.status = status;
    }

    /// The connection that messages are sent over.
    pub fn connection_id(&self) -> (r: Result<ConnectionId, ClientError>)
        ensures
            r == match self@.status {
                Status::Connected { connection_id, .. } => Ok(connection_id),
                _ => Err(ClientError::NotConnected),
            },
    {
        if let Status::Connected { connection_id, .. } = self.status {
            Ok(connection_id)
        } else {
            Err(ClientError::NotConnected)
        }
    }

    /// The peer that this client is to the server.
    pub fn peer_id(&self) -> (r: Option<PeerId>)
        ensures
            r == match self@.status {
                Status::Connected { peer_id, .. } => Some(peer_id),
                _ => None,
            },
    {
        if let Status::Connected { peer_id, .. } = self.status {
            Some(peer_id)
        } else {
            None
        }
    }

    /// Forgets every handler and every subscriber. Which entity types the message types are
    /// about stays known.
    pub fn teardown(&mut self)
        ensures
            final(self)@ == (ClientView {
                entity_id_extractors: Set::empty(),
                entities: Map::empty(),
                models: Map::empty(),
                handlers: Map::empty(),
                ..old(self)@
            }),
            final(self).http_spec() == old(self).http_spec(),
    {
        self.message_handlers.clear();
        self.models_by_message_type.clear();
        self.entities_by_type_and_remote_id.clear();
        self.entity_id_extractors.clear();
        assert(self@.entities =~= Map::empty());
        assert(self@.entity_id_extractors =~= Set::empty());
    }

    /// Subscribes to an entity. The messages about it wait until its model is set.
    pub fn subscribe_to_entity(&mut self, entity_type: TypeId, remote_id: u64) -> (r: Result<
        PendingEntitySubscription,
        ClientError,
    >)
        ensures
            final(self).http_spec() == old(self).http_spec(),
            match r {
                Ok(pending) => {
                    &&& !old(self)@.entities.contains_key((entity_type, remote_id))
                    &&& pending@ == (entity_type, remote_id)
                    &&& final(self)@ == (ClientView {
                        entities: old(self)@.entities.insert(
                            (entity_type, remote_id),
                            Subscriber::Pending(Seq::empty()),
                        ),
                        ..old(self)@
                    })
                },
                Err(error) => {
                    &&& old(self)@.entities.contains_key((entity_type, remote_id))
                    &&& error == ClientError::AlreadySubscribed
                    &&& final(self)@ == old(self)@
                },
            },
    {
        broadcast use vstd::std_specs::hash::group_hash_axioms;

        proof {
            lemma_entity_key_injective();
        }
        let key = key_of((entity_type, remote_id));
        if self.entities_by_type_and_remote_id.contains_key(&key) {
            return Err(ClientError::AlreadySubscribed);
        }
        let messages: Vec<Envelope<P>> = Vec::new();
        self.entities_by_type_and_remote_id.insert(key, WeakSubscriber::Pending(messages));
        assert(self@.entities =~= old(self)@.entities.insert(
            (entity_type, remote_id),
            Subscriber::Pending(Seq::empty()),
        ));
        Ok(PendingEntitySubscription { entity_type, remote_id })
    }

    /// Whether the model of the entity that is subscribed to is still to be named.
    pub fn is_pending(&self, subscription: &PendingEntitySubscription) -> (r: bool)
        ensures
            r == self@.is_pending(subscription@),
    {
        broadcast use vstd::std_specs::hash::group_hash_axioms;

        let key = key_of((subscription.entity_type, subscription.remote_id));
        match self.entities_by_type_and_remote_id.get(&key) {
            Some(WeakSubscriber::Pending(_)) => true,
            _ => false,
        }
    }

    /// Whether a handler is registered for the messages of a type.
    pub fn has_handler(&self, message_type: TypeId) -> (r: bool)
        ensures
            r == self@.handlers.contains_key(message_type),
    {
        broadcast use vstd::std_specs::hash::group_hash_axioms;

        self.message_handlers.contains_key(&message_type)
    }

    fn add_handler(&mut self, message_type: TypeId, handler: Handler)
        ensures
            final(self)@ == old(self)@.with_handler(message_type, handler),
            final(self).http_spec() == old(self).http_spec(),
    {
        broadcast use vstd::std_specs::hash::group_hash_axioms;

        self.message_handlers.insert(message_type, handler);
    }

    fn add_model(&mut self, message_type: TypeId, model: ModelId)
        ensures
            final(self)@ == (ClientView {
                models: old(self)@.models.insert(message_type, model),
                ..old(self)@
            }),
            final(self).http_spec() == old(self).http_spec(),
    {
        broadcast use vstd::std_specs::hash::group_hash_axioms;

        self.models_by_message_type.insert(message_type, model);
    }

    /// Has a handler get the messages of a type, together with a model, for as long as that
    /// model is alive. A type has one handler at most.
    pub fn add_message_handler(
        &mut self,
        message_type: TypeId,
        model: ModelId,
        handler: u64,
    ) -> (r: Subscription)
        requires
            !old(self)@.handlers.contains_key(message_type),
        ensures
            r == (Subscription::Message { id: message_type }),
            final(self)@ == (ClientView {
                models: old(self)@.models.insert(message_type, model),
                ..old(self)@
            }).with_handler(message_type, Handler { id: handler, kind: HandlerKind::Message }),
            final(self).http_spec() == old(self).http_spec(),
    {
        self.add_model(message_type, model);
        self.add_handler(message_type, Handler { id: handler, kind: HandlerKind::Message });
        Subscription::Message { id: message_type }
    }

    /// As [`Client::add_message_handler`], with a handler whose result is sent back.
    pub fn add_request_handler(
        &mut self,
        message_type: TypeId,
        model: ModelId,
        handler: u64,
    ) -> (r: Subscription)
        requires
            !old(self)@.handlers.contains_key(message_type),
        ensures
            r == (Subscription::Message { id: message_type }),
            final(self)@ == (ClientView {
                models: old(self)@.models.insert(message_type, model),
                ..old(self)@
            }).with_handler(message_type, Handler { id: handler, kind: HandlerKind::Request }),
            final(self).http_spec() == old(self).http_spec(),
    {
        self.add_model(message_type, model);
        self.add_handler(message_type, Handler { id: handler, kind: HandlerKind::Request });
        Subscription::Message { id: message_type }
    }

    fn add_entity_message_handler(
        &mut self,
        message_type: TypeId,
        entity_type: TypeId,
        handler: Handler,
    )
        ensures
            final(self)@ == (ClientView {
                entity_types: old(self)@.entity_types.insert(message_type, entity_type),
                entity_id_extractors: old(self)@.entity_id_extractors.insert(message_type),
                ..old(self)@
            }).with_handler(message_type, handler),
            final(self).http_spec() == old(self).http_spec(),
    {
        broadcast use vstd::std_specs::hash::group_hash_axioms;

        self.entity_types_by_message_type.insert(message_type, entity_type);
        self.entity_id_extractors.insert(message_type, ());
        self.add_handler(message_type, handler);
        assert(self@.entity_id_extractors =~= old(self)@.entity_id_extractors.insert(
            message_type,
        ));
    }

    /// Has a handler get the messages of a type that is about entities of a type, together
    /// with the model of the entity that a message is about.
    pub fn add_model_message_handler(
        &mut self,
        message_type: TypeId,
        entity_type: TypeId,
        handler: u64,
    )
        requires
            !old(self)@.handlers.contains_key(message_type),
        ensures
            final(self)@ == (ClientView {
                entity_types: old(self)@.entity_types.insert(message_type, entity_type),
                entity_id_extractors: old(self)@.entity_id_extractors.insert(message_type),
                ..old(self)@
            }).with_handler(message_type, Handler { id: handler, kind: HandlerKind::Message }),
            final(self).http_spec() == old(self).http_spec(),
    {
        self.add_entity_message_handler(
            message_type,
            entity_type,
            Handler { id: handler, kind: HandlerKind::Message },
        );
    }

    /// As [`Client::add_model_message_handler`], with a handler whose result is sent back.
    pub fn add_model_request_handler(
        &mut self,
        message_type: TypeId,
        entity_type: TypeId,
        handler: u64,
    )
        requires
            !old(self)@.handlers.contains_key(message_type),
        ensures
            final(self)@ == (ClientView {
                entity_types: old(self)@.entity_types.insert(message_type, entity_type),
                entity_id_extractors: old(self)@.entity_id_extractors.insert(message_type),
                ..old(self)@
            }).with_handler(message_type, Handler { id: handler, kind: HandlerKind::Request }),
            final(self).http_spec() == old(self).http_spec(),
    {
        self.add_entity_message_handler(
            message_type,
            entity_type,
            Handler { id: handler, kind: HandlerKind::Request },
        );
    }

    /// Takes in a message that has arrived, and says what becomes of it.
    pub fn handle_message(&mut self, message: Envelope<P>, live: &ModelRegistry) -> (r:
        MessageAction<P>)
        ensures
            r == old(self)@.action(message, live@),
            final(self)@ == old(self)@.after(message, live@),
            final(self).http_spec() == old(self).http_spec(),
    {
        broadcast use vstd::std_specs::hash::group_hash_axioms;

        proof {
            lemma_entity_key_injective();
        }
        let message_type = message.payload_type_id;
        let mut subscriber: Option<ModelId> = match self.models_by_message_type.get(&message_type) {
            Some(model) => live.upgrade(*model),
            None => None,
        };
        if subscriber.is_none() {
            let entity_type: Option<TypeId> = if self.entity_id_extractors.contains_key(
                &message_type,
            ) {
                match self.entity_types_by_message_type.get(&message_type) {
                    Some(entity_type) => Some(*entity_type),
                    None => None,
                }
            } else {
                None
            };
            if let Some(entity_type) = entity_type {
                let ghost entity = (entity_type, message.remote_entity_id);
                let key = key_of((entity_type, message.remote_entity_id));
                match self.entities_by_type_and_remote_id.remove(&key) {
                    Some(WeakSubscriber::Pending(mut pending)) => {
                        pending.push(message);
                        self.entities_by_type_and_remote_id.insert(
                            key,
                            WeakSubscriber::Pending(pending),
                        );
                        assert(self@.entities =~= old(self)@.entities.insert(
                            entity,
                            Subscriber::Pending(old(self)@.pending(entity).push(message)),
                        ));
                        return MessageAction::Queued;
                    },
                    Some(WeakSubscriber::Entity { handle }) => {
                        self.entities_by_type_and_remote_id.insert(
                            key,
                            WeakSubscriber::Entity { handle },
                        );
                        subscriber = live.upgrade(handle);
                    },
                    None => {},
                }
                assert(self@.entities =~= old(self)@.entities);
            }
        }
        if let Some(subscriber) = subscriber {
            match self.message_handlers.get(&message_type) {
                Some(handler) => MessageAction::Handle { handler: *handler, subscriber, message },
                None => MessageAction::RespondUnhandled { message },
            }
        } else {
            MessageAction::RespondUnhandled { message }
        }
    }

    fn address<M>(&self, reply: ReplyKind, message: M) -> (r: Result<Outgoing<M>, ClientError>)
        ensures
            r == addressed(self@.status, reply, message),
    {
        match self.connection_id() {
            Ok(connection_id) => Ok(Outgoing { connection_id, reply, message }),
            Err(error) => Err(error),
        }
    }

    /// Addresses a message to the server.
    pub fn send<M>(&self, message: M) -> (r: Result<Outgoing<M>, ClientError>)
        ensures
            r == addressed(self@.status, ReplyKind::Nothing, message),
    {
        self.address(ReplyKind::Nothing, message)
    }

    /// Addresses a request to the server. [`response_payload`] gives what it was answered with.
    pub fn request<M>(&self, request: M) -> (r: Result<Outgoing<M>, ClientError>)
        ensures
            r == addressed(self@.status, ReplyKind::Response, request),
    {
        self.request_envelope(request)
    }

    /// Addresses to the server a request that it answers with a stream of responses.
    pub fn request_stream<M>(&self, request: M) -> (r: Result<Outgoing<M>, ClientError>)
        ensures
            r == addressed(self@.status, ReplyKind::Stream, request),
    {
        self.address(ReplyKind::Stream, request)
    }

    /// Addresses to the server a request whose response is wanted with its envelope.
    pub fn request_envelope<M>(&self, request: M) -> (r: Result<Outgoing<M>, ClientError>)
        ensures
            r == addressed(self@.status, ReplyKind::Response, request),
    {
        self.address(ReplyKind::Response, request)
    }
}

/// What the response to a request carries.
pub fn response_payload<P, E>(response: Result<Envelope<P>, E>) -> (r: Result<P, E>)
    ensures
        r == match response {
            Ok(envelope) => Ok(envelope.payload),
            Err(error) => Err(error),
        },
{
    match response {
        Ok(envelope) => Ok(envelope.payload),
        Err(error) => Err(error),
    }
}

impl PendingEntitySubscription {
    /// Names the model of the entity. The messages that waited for it are returned, oldest first:
    /// each is to be taken in by [`Client::handle_message`], and what becomes of it seen to,
    /// before the next one is, since a handler may change what becomes of those after it.
    pub fn set_model<T, P>(self, client: &mut Client<T, P>, model: ModelId) -> (r: (
        Subscription,
        Vec<Envelope<P>>,
    ))
        requires
            old(client)@.is_pending(self@),
        ensures
            r.0 == (Subscription::Entity { id: self@ }),
            r.1@ == old(client)@.pending(self@),
            final(client)@ == old(client)@.with_model(self@, model),
            final(client).http_spec() == old(client).http_spec(),
    {
        broadcast use vstd::std_specs::hash::group_hash_axioms;

        proof {
            lemma_entity_key_injective();
        }
        let key = key_of((self.entity_type, self.remote_id));
        let mut messages: Vec<Envelope<P>> = Vec::new();
        if let Some(WeakSubscriber::Pending(pending)) =
            client.entities_by_type_and_remote_id.remove(&key) {
            messages = pending;
        }
        client.entities_by_type_and_remote_id.insert(key, WeakSubscriber::Entity { handle: model });
        assert(client@.entities =~= old(client)@.with_model(self@, model).entities);
        (Subscription::Entity { id: (self.entity_type, self.remote_id) }, messages)
    }

    /// Gives the subscription up. Returns the messages that nobody will handle.
    pub fn drop<T, P>(self, client: &mut Client<T, P>) -> (r: Vec<Envelope<P>>)
        ensures
            r@ == if old(client)@.is_pending(self@) {
                old(client)@.pending(self@)
            } else {
                Seq::empty()
            },
            final(client)@ == old(client)@.without(Subscription::Entity { id: self@ }),
            final(client).http_spec() == old(client).http_spec(),
    {
        broadcast use vstd::std_specs::hash::group_hash_axioms;

        proof {
            lemma_entity_key_injective();
        }
        let key = key_of((self.entity_type, self.remote_id));
        let removed = client.entities_by_type_and_remote_id.remove(&key);
        assert(client@.entities =~= old(client)@.entities.remove(self@));
        match removed {
            Some(WeakSubscriber::Pending(messages)) => messages,
            _ => Vec::new(),
        }
    }
}

impl Subscription {
    /// Ends the subscription.
    pub fn drop<T, P>(self, client: &mut Client<T, P>)
        ensures
            final(client)@ == old(client)@.without(self),
            final(client).http_spec() == old(client).http_spec(),
    {
        broadcast use vstd::std_specs::hash::group_hash_axioms;

        match self {
            Subscription::Entity { id } => {
                proof {
                    lemma_entity_key_injective();
                }
                let key = key_of(id);
                client.entities_by_type_and_remote_id.remove(&key);
                assert(client@.entities =~= old(client)@.entities.remove(id));
            },
            Subscription::Message { id } => {
                client.entity_types_by_message_type.remove(&id);
                client.message_handlers.remove(&id);
            },
        }
    }
}

}
