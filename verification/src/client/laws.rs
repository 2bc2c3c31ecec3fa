//! What holds of subscriptions and messages whatever the application does with them.
use vstd::prelude::*;

use crate::client::connection::{EstablishConnectionError, Status, WebsocketError};
use crate::client::models::ModelId;
use crate::client::router::{
    ClientError, ClientView, Envelope, Handler, MessageAction, ReplyKind, Route, Subscriber,
    Subscription, TypeId,
};

verus! {

/// A message changes nothing but the queue that it is put into: the handlers, the models, the
/// status, and the subscribers to all other entities stay as they are.
pub proof fn law_message_only_grows_its_queue<P>(
    client: ClientView<P>,
    message: Envelope<P>,
    live: Set<ModelId>,
    entity: (TypeId, u64),
)
    ensures
        client.after(message, live).entities.dom() =~= client.entities.dom(),
        client.entities.contains_key(entity) && client.route(message, live) != Route::Queue(entity)
            ==> client.after(message, live).entities[entity] == client.entities[entity],
        (ClientView { entities: client.entities, ..client.after(message, live) }) == client,
{
}

/// No message is lost: it is handed to a handler, or its sender is told that nobody handles it,
/// or it is the last one in the queue of the entity that it is about.
pub proof fn law_message_is_kept<P>(
    client: ClientView<P>,
    message: Envelope<P>,
    live: Set<ModelId>,
)
    ensures
        match client.action(message, live) {
            MessageAction::Handle { message: kept, .. } => kept == message,
            MessageAction::RespondUnhandled { message: kept } => kept == message,
            MessageAction::Queued => {
                let entity = client.entity_of(message);
                &&& entity is Some
                &&& client.is_pending(entity->0)
                &&& client.after(message, live).pending(entity->0) == client.pending(
                    entity->0,
                ).push(message)
            },
        },
{
}

/// Messages about one entity that arrive while its model is not known wait for it in the order
/// in which they arrive.
pub proof fn law_messages_wait_in_order<P>(
    client: ClientView<P>,
    messages: Seq<Envelope<P>>,
    live: Set<ModelId>,
    entity: (TypeId, u64),
)
    requires
        client.is_pending(entity),
        forall|i: int|
            0 <= i < messages.len() ==> client.route(#[trigger] messages[i], live) == Route::Queue(
                entity,
            ),
    ensures
        client.after_all(messages, live) == (ClientView {
            entities: client.entities.insert(
                entity,
                Subscriber::Pending(client.pending(entity) + messages),
            ),
            ..client
        }),
        client.actions(messages, live).len() == messages.len(),
        forall|i: int|
            0 <= i < messages.len() ==> client.actions(messages, live)[i] is Queued,
    decreases messages.len(),
{
    if messages.len() == 0 {
        assert(client.pending(entity) + messages =~= client.pending(entity));
        assert(client.entities.insert(entity, Subscriber::Pending(client.pending(entity)))
            =~= client.entities);
    } else {
        let before = messages.drop_last();
        law_messages_wait_in_order(client, before, live, entity);
        let middle = client.after_all(before, live);
        let last = messages.last();
        assert(client.route(messages[messages.len() - 1], live) == Route::Queue(entity));
        assert(middle.route(last, live) == Route::Queue(entity));
        assert((client.pending(entity) + before).push(last) =~= client.pending(entity) + messages);
        assert(middle.entities.insert(
            entity,
            Subscriber::Pending(client.pending(entity) + messages),
        ) =~= client.entities.insert(
            entity,
            Subscriber::Pending(client.pending(entity) + messages),
        ));
    }
}

/// A message about an entity goes to the model of the entity, and to the handler of its type, for
/// as long as the model is alive and the handler registered, unless a live model is registered
/// for the type of the message.
pub proof fn law_message_reaches_the_model<P>(
    client: ClientView<P>,
    message: Envelope<P>,
    live: Set<ModelId>,
    entity: (TypeId, u64),
    model: ModelId,
)
    requires
        client.entity_of(message) == Some(entity),
        client.entities.contains_key(entity),
        client.entities[entity] == Subscriber::<P>::Entity(model),
        live.contains(model),
        client.handlers.contains_key(message.payload_type_id),
        !(client.models.contains_key(message.payload_type_id) && live.contains(
            client.models[message.payload_type_id],
        )),
    ensures
        client.action(message, live) == (MessageAction::Handle {
            handler: client.handlers[message.payload_type_id],
            subscriber: model,
            message,
        }),
        client.after(message, live) == client,
{
}

/// Once the model of an entity is set, and as long as nothing else changes, the messages that
/// waited for it go to it, each to the handler of its type, in the order in which they arrived;
/// and none waits any more.
pub proof fn law_waiting_messages_reach_the_model<P>(
    client: ClientView<P>,
    messages: Seq<Envelope<P>>,
    live: Set<ModelId>,
    entity: (TypeId, u64),
    model: ModelId,
)
    requires
        live.contains(model),
        forall|i: int| #![trigger messages[i]]
            0 <= i < messages.len() ==> {
                &&& client.route(messages[i], live) == Route::Queue(entity)
                &&& client.handlers.contains_key(messages[i].payload_type_id)
            },
    ensures
        client.with_model(entity, model).after_all(messages, live) == client.with_model(
            entity,
            model,
        ),
        client.with_model(entity, model).actions(messages, live).len() == messages.len(),
        forall|i: int|
            0 <= i < messages.len() ==> #[trigger] client.with_model(entity, model).actions(
                messages,
                live,
            )[i] == (MessageAction::Handle {
                handler: client.handlers[messages[i].payload_type_id],
                subscriber: model,
                message: messages[i],
            }),
    decreases messages.len(),
{
    if messages.len() > 0 {
        law_waiting_messages_reach_the_model(client, messages.drop_last(), live, entity, model);
        let last = messages[messages.len() - 1];
        assert(client.route(last, live) == Route::Queue(entity));
        assert(client.with_model(entity, model).route(last, live) == Route::Deliver(model));
    }
}

/// Ending a subscription to an entity leaves the messages about all other entities, of its own
/// type too, with the subscribers that they had.
pub proof fn law_entity_subscriptions_are_independent<P>(
    client: ClientView<P>,
    ended: (TypeId, u64),
    message: Envelope<P>,
    live: Set<ModelId>,
)
    requires
        client.entity_of(message) != Some(ended),
    ensures
        client.without(Subscription::Entity { id: ended }).route(message, live) == client.route(
            message,
            live,
        ),
        client.without(Subscription::Entity { id: ended }).action(message, live)
            == client.action(message, live),
{
}

/// Once its subscription has ended, no message about an entity reaches it or waits for it, except
/// through a live model that is registered for the type of the message.
pub proof fn law_ended_entity_gets_nothing<P>(
    client: ClientView<P>,
    ended: (TypeId, u64),
    message: Envelope<P>,
    live: Set<ModelId>,
)
    requires
        client.entity_of(message) == Some(ended),
        !(client.models.contains_key(message.payload_type_id) && live.contains(
            client.models[message.payload_type_id],
        )),
    ensures
        client.without(Subscription::Entity { id: ended }).action(message, live)
            == (MessageAction::RespondUnhandled { message }),
{
}

/// An entity can be subscribed to again once its subscription has ended, and the messages of a
/// type can be given a handler again once the subscription to them has ended.
pub proof fn law_ended_subscriptions_can_be_renewed<P>(
    client: ClientView<P>,
    entity: (TypeId, u64),
    message_type: TypeId,
)
    ensures
        !client.without(Subscription::Entity { id: entity }).entities.contains_key(entity),
        !client.without(Subscription::Message { id: message_type }).handlers.contains_key(
            message_type,
        ),
{
}

/// The handler that is registered for a type after another one's subscription has ended gets the
/// messages of that type, with its model, and the one before does not.
pub proof fn law_renewed_handler_gets_messages<P>(
    client: ClientView<P>,
    model: ModelId,
    handler: Handler,
    message: Envelope<P>,
    live: Set<ModelId>,
)
    requires
        live.contains(model),
    ensures
        ({
            let message_type = message.payload_type_id;
            let ended = client.without(Subscription::Message { id: message_type });
            (ClientView {
                models: ended.models.insert(message_type, model),
                ..ended
            }).with_handler(message_type, handler).action(message, live)
        }) == (MessageAction::Handle { handler, subscriber: model, message }),
{
}

/// Once the subscription to the messages of a type has ended, their senders are told that nobody
/// handles them. A message that would have waited for the model of an entity does not wait.
pub proof fn law_ended_messages_are_unhandled<P>(
    client: ClientView<P>,
    message: Envelope<P>,
    live: Set<ModelId>,
)
    ensures
        client.without(Subscription::Message { id: message.payload_type_id }).action(message, live)
            == (MessageAction::RespondUnhandled { message }),
{
}

/// A message of a type that a live model is registered for goes to that model, with the handler of
/// the type, whatever else is known of the type and whatever entity the message is about. Without
/// a handler its sender is told that nobody handles it. Either way nothing changes.
pub proof fn law_registered_model_comes_first<P>(
    client: ClientView<P>,
    message: Envelope<P>,
    live: Set<ModelId>,
)
    requires
        client.models.contains_key(message.payload_type_id),
        live.contains(client.models[message.payload_type_id]),
    ensures
        client.handlers.contains_key(message.payload_type_id) ==> client.action(message, live) == (
        MessageAction::Handle {
            handler: client.handlers[message.payload_type_id],
            subscriber: client.models[message.payload_type_id],
            message,
        }),
        !client.handlers.contains_key(message.payload_type_id) ==> client.action(message, live)
            == (MessageAction::RespondUnhandled { message }),
        client.after(message, live) == client,
{
}

/// Where no live model is registered for its type, a message of a type that is about entities is
/// treated as the subscriber to its entity asks for, which is found by the type of the entity and
/// its id alone. While the model is not known, the message is the last one to wait for it. A live
/// model gets it with the handler of its type. If the model is gone, if there is no subscriber or
/// no handler, its sender is told so.
pub proof fn law_entity_decides_where_a_message_goes<P>(
    client: ClientView<P>,
    message: Envelope<P>,
    live: Set<ModelId>,
    entity_type: TypeId,
)
    requires
        client.entity_id_extractors.contains(message.payload_type_id),
        client.entity_types.contains_key(message.payload_type_id),
        client.entity_types[message.payload_type_id] == entity_type,
        !client.models.contains_key(message.payload_type_id) || !live.contains(
            client.models[message.payload_type_id],
        ),
    ensures
        ({
            let entity = (entity_type, message.remote_entity_id);
            let unhandled = MessageAction::RespondUnhandled { message };
            if !client.entities.contains_key(entity) {
                client.action(message, live) == unhandled && client.after(message, live) == client
            } else {
                match client.entities[entity] {
                    Subscriber::Pending(waiting) => {
                        let after = client.after(message, live);
                        &&& client.action(message, live) is Queued
                        &&& after.entities == client.entities.insert(
                            entity,
                            Subscriber::Pending(waiting.push(message)),
                        )
                        &&& after.id == client.id
                        &&& after.status == client.status
                        &&& after.entity_id_extractors == client.entity_id_extractors
                        &&& after.models == client.models
                        &&& after.entity_types == client.entity_types
                        &&& after.handlers == client.handlers
                    },
                    Subscriber::Entity(model) => {
                        &&& client.after(message, live) == client
                        &&& live.contains(model) && client.handlers.contains_key(
                            message.payload_type_id,
                        ) ==> client.action(message, live) == (MessageAction::Handle {
                            handler: client.handlers[message.payload_type_id],
                            subscriber: model,
                            message,
                        })
                        &&& !live.contains(model) || !client.handlers.contains_key(
                            message.payload_type_id,
                        ) ==> client.action(message, live) == unhandled
                    },
                }
            }
        }),
{
}

/// The sender of a message is told that nobody handles it where no live model is registered for
/// its type and the type is not known as one about entities of some type. Nothing changes.
pub proof fn law_unknown_messages_are_unhandled<P>(
    client: ClientView<P>,
    message: Envelope<P>,
    live: Set<ModelId>,
)
    requires
        !client.models.contains_key(message.payload_type_id) || !live.contains(
            client.models[message.payload_type_id],
        ),
        !client.entity_id_extractors.contains(message.payload_type_id)
            || !client.entity_types.contains_key(message.payload_type_id),
    ensures
        client.action(message, live) == (MessageAction::RespondUnhandled { message }),
        client.after(message, live) == client,
{
}

/// Where a message goes depends on its type and on the entity that it is about, and on nothing
/// else of it: neither on who sent it, nor on the name of its type, nor on what it carries.
pub proof fn law_only_type_and_entity_count<P>(
    client: ClientView<P>,
    message: Envelope<P>,
    other: Envelope<P>,
    live: Set<ModelId>,
)
    requires
        message.payload_type_id == other.payload_type_id,
        message.remote_entity_id == other.remote_entity_id,
    ensures
        client.action(message, live) is Queued <==> client.action(other, live) is Queued,
        client.action(message, live) is RespondUnhandled <==> client.action(
            other,
            live,
        ) is RespondUnhandled,
        client.action(message, live) is Handle ==> {
            &&& client.action(message, live)->handler == client.action(other, live)->handler
            &&& client.action(message, live)->subscriber == client.action(other, live)->subscriber
        },
{
}

/// Naming the model of an entity changes who its messages go to, and nothing else.
pub proof fn law_naming_a_model_changes_one_subscriber<P>(
    client: ClientView<P>,
    entity: (TypeId, u64),
    model: ModelId,
    other: (TypeId, u64),
)
    ensures
        ({
            let named = client.with_model(entity, model);
            &&& named.entities.contains_key(entity)
            &&& named.entities[entity] == Subscriber::<P>::Entity(model)
            &&& other != entity ==> {
                &&& named.entities.contains_key(other) <==> client.entities.contains_key(other)
                &&& named.entities.contains_key(other) ==> named.entities[other]
                    == client.entities[other]
            }
            &&& named.id == client.id
            &&& named.status == client.status
            &&& named.entity_id_extractors == client.entity_id_extractors
            &&& named.models == client.models
            &&& named.entity_types == client.entity_types
            &&& named.handlers == client.handlers
        }),
{
}

/// Giving the messages of a type a handler changes what handles them, and nothing else.
pub proof fn law_adding_a_handler_changes_one_type<P>(
    client: ClientView<P>,
    message_type: TypeId,
    handler: Handler,
    other: TypeId,
)
    ensures
        ({
            let added = client.with_handler(message_type, handler);
            &&& added.handlers.contains_key(message_type)
            &&& added.handlers[message_type] == handler
            &&& other != message_type ==> {
                &&& added.handlers.contains_key(other) <==> client.handlers.contains_key(other)
                &&& added.handlers.contains_key(other) ==> added.handlers[other]
                    == client.handlers[other]
            }
            &&& added.id == client.id
            &&& added.status == client.status
            &&& added.entity_id_extractors == client.entity_id_extractors
            &&& added.entities == client.entities
            &&& added.models == client.models
            &&& added.entity_types == client.entity_types
        }),
{
}

/// Ending a subscription to an entity takes its subscriber away, and ending one to the messages of
/// a type takes away their handler and what entities they are about. Nothing else changes; the
/// model that is registered for a type stays.
pub proof fn law_ending_a_subscription_changes_nothing_else<P>(
    client: ClientView<P>,
    subscription: Subscription,
)
    ensures
        ({
            let ended = client.without(subscription);
            &&& ended.id == client.id
            &&& ended.status == client.status
            &&& ended.entity_id_extractors == client.entity_id_extractors
            &&& ended.models == client.models
            &&& match subscription {
                Subscription::Entity { id } => {
                    &&& ended.entities == client.entities.remove(id)
                    &&& ended.entity_types == client.entity_types
                    &&& ended.handlers == client.handlers
                },
                Subscription::Message { id } => {
                    &&& ended.entities == client.entities
                    &&& ended.entity_types == client.entity_types.remove(id)
                    &&& ended.handlers == client.handlers.remove(id)
                },
            }
        }),
{
}

/// The messages that wait for the model of an entity are those of its subscriber, and there are
/// some to wait for it exactly where it has one whose model is not known.
pub proof fn law_waiting_messages_are_the_subscribers<P>(
    client: ClientView<P>,
    entity: (TypeId, u64),
    waiting: Seq<Envelope<P>>,
)
    ensures
        client.is_pending(entity) <==> client.entities.contains_key(entity)
            && client.entities[entity] is Pending,
        client.entities[entity] == Subscriber::Pending(waiting) ==> client.pending(entity)
            == waiting,
{
}

/// Only a connected client can send, over its connection and as it is, what it is given.
pub proof fn law_only_a_connected_client_sends<M>(status: Status, reply: ReplyKind, message: M)
    ensures
        match status {
            Status::Connected { connection_id, .. } => {
                let sent = crate::client::router::addressed(status, reply, message);
                &&& sent is Ok
                &&& sent->Ok_0.connection_id == connection_id
                &&& sent->Ok_0.reply == reply
                &&& sent->Ok_0.message == message
            },
            _ => {
                let sent = crate::client::router::addressed(status, reply, message);
                sent is Err && sent->Err_0 == ClientError::NotConnected
            },
        },
{
}

/// What the errors of the client are called.
pub proof fn law_client_errors_in_words(error: ClientError)
    ensures
        error.words() == if error is AlreadySubscribed {
            "already subscribed to entity"@
        } else {
            "not connected"@
        },
{
}

/// A handshake that the server answers with 401 lacks credentials, one that it answers with 426
/// needs a newer client, and any other failure is told in the words that came with it.
pub proof fn law_what_failed_handshakes_mean(error: WebsocketError)
    ensures
        ({
            let meant = <EstablishConnectionError as vstd::std_specs::convert::FromSpec<
                WebsocketError,
            >>::from_spec(error);
            &&& meant is Unauthorized <==> error.http_status == Some(401u16)
            &&& meant is UpgradeRequired <==> error.http_status == Some(426u16)
            &&& error.http_status != Some(401u16) && error.http_status != Some(426u16) ==> meant
                == EstablishConnectionError::Other(error.message)
        }),
{
}

/// How long the client waits, in milliseconds: before it connects again the first time, and for
/// an attempt to connect.
pub proof fn law_how_long_the_client_waits()
    ensures
        crate::client::connection::INITIAL_RECONNECTION_DELAY == 100,
        crate::client::connection::CONNECTION_TIMEOUT == 5000,
{
}

/// What the errors of connecting are called: those of their own kind by a name, the others by the
/// words that they came with.
pub proof fn law_connection_errors_in_words(error: EstablishConnectionError, words: String)
    ensures
        error is UpgradeRequired ==> error.words() == "upgrade required"@,
        error is Unauthorized ==> error.words() == "unauthorized"@,
        error == EstablishConnectionError::Other(words) || error == EstablishConnectionError::Http(
            words,
        ) || error == EstablishConnectionError::Io(words) || error
            == EstablishConnectionError::Websocket(words) ==> error.words() == words@,
{
}

/// The links that the application opens are those that begin with `zed://`.
pub proof fn law_links_begin_with_the_scheme()
    ensures
        crate::client::link::zed_link_prefix() == "zed://"@,
{
    reveal_strlit("zed");
    reveal_strlit("://");
    reveal_strlit("zed://");
    assert(crate::client::link::zed_link_prefix() =~= "zed://"@);
}

}
