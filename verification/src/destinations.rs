//! Identifiers, messages, and the traits through which clients and
//! destinations talk to each other.
use crate::client::{Client, DefaultClient};
use crate::error::StomperError;
use std::ops::Deref;
use vstd::prelude::*;

verus! {

/// The identifier of a subscription.
#[derive(Clone, PartialEq, Eq, Hash, Debug)]
pub struct SubscriptionId(pub String);

/// The identifier of a destination.
#[derive(Clone, PartialEq, Eq, Hash, Debug)]
pub struct DestinationId(pub String);

/// The identifier of a message.
#[derive(Clone, PartialEq, Eq, Hash, Debug)]
pub struct MessageId(pub String);

impl View for SubscriptionId {
    type V = Seq<char>;

    open spec fn view(&self) -> Seq<char> {
        self.0@
    }
}

impl View for DestinationId {
    type V = Seq<char>;

    open spec fn view(&self) -> Seq<char> {
        self.0@
    }
}

impl View for MessageId {
    type V = Seq<char>;

    open spec fn view(&self) -> Seq<char> {
        self.0@
    }
}

impl SubscriptionId {
    /// The identifier as text.
    pub fn as_str(&self) -> (s: &str)
        ensures
            s@ == self@,
    {
        self.0.as_str()
    }

    /// The identifier as text, as `Display` shows it.
    pub fn to_string(&self) -> (s: String)
        ensures
            s@ == self@,
    {
        self.0.clone()
    }

    /// A copy with the same text.
    pub fn duplicate(&self) -> (r: SubscriptionId)
        ensures
            r == *self,
    {
        SubscriptionId(self.0.clone())
    }

    /// Whether two identifiers have the same text.
    pub fn same_as(&self, other: &SubscriptionId) -> (r: bool)
        ensures
            r == (self@ == other@),
    {
        self.0 == other.0
    }
}

impl DestinationId {
    /// The identifier as text.
    pub fn as_str(&self) -> (s: &str)
        ensures
            s@ == self@,
    {
        self.0.as_str()
    }

    /// The identifier as text, as `Display` shows it.
    pub fn to_string(&self) -> (s: String)
        ensures
            s@ == self@,
    {
        self.0.clone()
    }

    /// A copy with the same text.
    pub fn duplicate(&self) -> (r: DestinationId)
        ensures
            r == *self,
    {
        DestinationId(self.0.clone())
    }
}

impl MessageId {
    /// The identifier as text.
    pub fn as_str(&self) -> (s: &str)
        ensures
            s@ == self@,
    {
        self.0.as_str()
    }

    /// The identifier as text, as `Display` shows it.
    pub fn to_string(&self) -> (s: String)
        ensures
            s@ == self@,
    {
        self.0.clone()
    }
}

impl<'a> From<&'a str> for SubscriptionId {
    fn from(input: &'a str) -> (r: SubscriptionId)
        ensures
            r@ == input@,
    {
        SubscriptionId(input.to_owned())
    }
}

impl<'a> vstd::std_specs::convert::FromSpecImpl<&'a str> for SubscriptionId {
    open spec fn obeys_from_spec() -> bool {
        false
    }

    open spec fn from_spec(v: &'a str) -> SubscriptionId {
        arbitrary()
    }
}

impl<'a> From<&'a String> for SubscriptionId {
    fn from(input: &'a String) -> (r: SubscriptionId)
        ensures
            r@ == input@,
    {
        SubscriptionId(input.clone())
    }
}

impl<'a> vstd::std_specs::convert::FromSpecImpl<&'a String> for SubscriptionId {
    open spec fn obeys_from_spec() -> bool {
        false
    }

    open spec fn from_spec(v: &'a String) -> SubscriptionId {
        arbitrary()
    }
}

impl<'a> From<&'a str> for DestinationId {
    fn from(input: &'a str) -> (r: DestinationId)
        ensures
            r@ == input@,
    {
        DestinationId(input.to_owned())
    }
}

impl<'a> vstd::std_specs::convert::FromSpecImpl<&'a str> for DestinationId {
    open spec fn obeys_from_spec() -> bool {
        false
    }

    open spec fn from_spec(v: &'a str) -> DestinationId {
        arbitrary()
    }
}

impl<'a> From<&'a String> for DestinationId {
    fn from(input: &'a String) -> (r: DestinationId)
        ensures
            r@ == input@,
    {
        DestinationId(input.clone())
    }
}

impl<'a> vstd::std_specs::convert::FromSpecImpl<&'a String> for DestinationId {
    open spec fn obeys_from_spec() -> bool {
        false
    }

    open spec fn from_spec(v: &'a String) -> DestinationId {
        arbitrary()
    }
}

impl<'a> From<&'a str> for MessageId {
    fn from(input: &'a str) -> (r: MessageId)
        ensures
            r@ == input@,
    {
        MessageId(input.to_owned())
    }
}

impl<'a> vstd::std_specs::convert::FromSpecImpl<&'a str> for MessageId {
    open spec fn obeys_from_spec() -> bool {
        false
    }

    open spec fn from_spec(v: &'a str) -> MessageId {
        arbitrary()
    }
}

impl<'a> From<&'a String> for MessageId {
    fn from(input: &'a String) -> (r: MessageId)
        ensures
            r@ == input@,
    {
        MessageId(input.clone())
    }
}

impl<'a> vstd::std_specs::convert::FromSpecImpl<&'a String> for MessageId {
    open spec fn obeys_from_spec() -> bool {
        false
    }

    open spec fn from_spec(v: &'a String) -> MessageId {
        arbitrary()
    }
}

/// A message sent by a client to a destination.
pub struct InboundMessage {
    pub sender_message_id: Option<MessageId>,
    pub body: Vec<u8>,
}

/// A message that a destination delivers to its subscribers.
#[derive(Clone)]
pub struct OutboundMessage {
    pub destination: DestinationId,
    pub message_id: MessageId,
    pub body: Vec<u8>,
}

impl View for OutboundMessage {
    type V = (Seq<char>, Seq<char>, Seq<u8>);

    open spec fn view(&self) -> (Seq<char>, Seq<char>, Seq<u8>) {
        (self.destination@, self.message_id@, self.body@)
    }
}

impl MessageId {
    /// A copy with the same text.
    pub fn duplicate(&self) -> (r: MessageId)
        ensures
            r == *self,
    {
        MessageId(self.0.clone())
    }
}

impl OutboundMessage {
    /// A copy with the same destination, identifier and body.
    pub fn duplicate(&self) -> (r: OutboundMessage)
        ensures
            r@ == self@,
            r.destination == self.destination,
            r.message_id == self.message_id,
    {
        OutboundMessage {
            destination: self.destination.duplicate(),
            message_id: self.message_id.duplicate(),
            body: self.body.clone(),
        }
    }
}

/// A copy of an optional subscription identifier.
pub fn duplicate_optional_id(id: &Option<SubscriptionId>) -> (r: Option<SubscriptionId>)
    ensures
        r == *id,
{
    match id {
        Some(id) => Some(id.duplicate()),
        None => None,
    }
}

/// The error reported to a sender whose message names a destination that does not exist.
pub fn unknown_destination_error(destination: &DestinationId) -> (e: StomperError)
    ensures
        e.message@ == "Unknown destination '"@ + destination@ + "'"@,
{
    let mut message = String::from_str("Unknown destination '");
    message.append(destination.as_str());
    message.append("'");
    StomperError { message }
}

/// Where a message sent to a destination goes: to the destination, when it
/// exists, or back to its sender as an error.
pub enum SendRoute<D> {
    Deliver(D, InboundMessage),
    Refuse(Option<MessageId>, StomperError),
}

/// Routes a message by the destination found for its identifier, if any: a
/// found destination gets the message; otherwise the sender is told, under
/// its own identifier for the message, that the destination is unknown.
pub fn route_send<D>(found: Option<D>, destination: &DestinationId, message: InboundMessage) -> (r: SendRoute<D>)
    ensures
        match found {
            Some(d) => r == SendRoute::Deliver(d, message),
            None => r matches SendRoute::Refuse(id, err) && id == message.sender_message_id && err.message@
                == "Unknown destination '"@ + destination@ + "'"@,
        },
{
    match found {
        Some(d) => SendRoute::Deliver(d, message),
        None => SendRoute::Refuse(message.sender_message_id, unknown_destination_error(destination)),
    }
}

/// Something that can subscribe to destinations and receive their messages.
pub trait Subscriber: Send + Sync + std::fmt::Debug {
    fn subscribe_callback(
        &self,
        destination: DestinationId,
        suscriber_sub_id: Option<SubscriptionId>,
        result: Result<SubscriptionId, StomperError>,
    );

    fn unsubscribe_callback(
        &self,
        subscriber_sub_id: Option<SubscriptionId>,
        result: Result<SubscriptionId, StomperError>,
    );

    fn send(
        &self,
        subscription: SubscriptionId,
        suscriber_sub_id: Option<SubscriptionId>,
        message: OutboundMessage,
    ) -> Result<(), StomperError>;
}

/// Something that can send messages to destinations.
pub trait Sender: Send + Sync + std::fmt::Debug {
    fn send_callback(&self, sender_message_id: Option<MessageId>, result: Result<MessageId, StomperError>);
}

/// A destinations is a identifiable resource that clients can subscribe to, and send messages to
pub trait Destination: Send + Clone {
    type Client: Client;

    fn subscribe<S: Subscriber + 'static, D: Deref<Target = S> + Send + Clone + 'static>(
        &self,
        sender_subscription_id: Option<SubscriptionId>,
        subscriber: D,
        client: &Self::Client,
    );

    fn unsubscribe<S: Subscriber + 'static, D: Deref<Target = S> + Send + Clone + 'static>(
        &self,
        sub_id: SubscriptionId,
        subscriber: D,
        client: &Self::Client,
    );

    fn send<S: Sender + 'static, D: Deref<Target = S> + Send + Clone + 'static>(
        &self,
        message: InboundMessage,
        sender: D,
        client: &Self::Client,
    );

    fn close(&self);
}

/// The set of destinations a server offers, addressed by identifier.
pub trait Destinations: Send + Clone {
    type Client: Client;

    fn subscribe<S: Subscriber + 'static, D: Deref<Target = S> + Clone + Send + 'static>(
        &self,
        destination: DestinationId,
        sender_subscription_id: Option<SubscriptionId>,
        subscriber: D,
        client: &Self::Client,
    );

    fn unsubscribe<S: Subscriber + 'static, D: Deref<Target = S> + Clone + Send + 'static>(
        &self,
        destination: DestinationId,
        destination_subscription_id: SubscriptionId,
        subscriber: D,
        client: &Self::Client,
    );

    /// Send a message to this destination and, by implication, all clients subscribed to it
    fn send<S: Sender + 'static, D: Deref<Target = S> + Clone + Send + 'static>(
        &self,
        destination: DestinationId,
        message: InboundMessage,
        sender: D,
        client: &Self::Client,
    );
}

/// A destination that the asynchronous destinations can hold: one serving
/// the default client, which can be shared between tasks.
pub trait DestinationType: Destination<Client = DefaultClient> + Send + Unpin + Sync + Clone + std::fmt::Debug + 'static {

}

impl<T: Destination<Client = DefaultClient> + Send + Unpin + Sync + Clone + std::fmt::Debug + 'static> DestinationType for T {

}

} // verus!
