//! The live operating parameters, the watch cell that holds them, and the
//! listener's decisions on inbound configuration messages.
use vstd::prelude::*;
use tokio::sync::watch::Receiver;
use tokio::sync::watch::Sender;

verus! {

/// A geographic coordinate. Each component is the IEEE-754 bit pattern of its
/// value in degrees, so that it is carried through exactly as it was decoded.
/// No range is enforced.
#[derive(Clone, Copy, Debug, PartialEq, Eq, Structural)]
pub struct Coordinate {
    pub latitude_bits: u64,
    pub longtitude_bits: u64,
}

/// The live operating parameters: how long to wait between cycles, and where.
#[derive(Clone, Copy, Debug, PartialEq, Eq, Structural)]
pub struct Configuration {
    pub interval_seconds: u64,
    pub coordinate: Coordinate,
}

/// The topic on which configuration updates arrive.
pub const CONFIG_TOPIC: &'static str = "weather/configs";

/// Seconds between cycles until a configuration update arrives.
pub const DEFAULT_INTERVAL_SECONDS: u64 = 10;

/// Bit pattern of the default latitude, 52.0155872 degrees.
pub const DEFAULT_LATITUDE_BITS: u64 = 4632517360407354940;

/// Bit pattern of the default longitude, 4.3497796 degrees.
pub const DEFAULT_LONGTITUDE_BITS: u64 = 4616583434873813850;

/// The configuration in force before any update arrives.
pub open spec fn default_configuration() -> Configuration {
    Configuration {
        interval_seconds: DEFAULT_INTERVAL_SECONDS,
        coordinate: Coordinate {
            latitude_bits: DEFAULT_LATITUDE_BITS,
            longtitude_bits: DEFAULT_LONGTITUDE_BITS,
        },
    }
}

impl Default for Configuration {
    fn default() -> (r: Configuration)
        ensures
            r == default_configuration(),
    {
        Configuration {
            interval_seconds: DEFAULT_INTERVAL_SECONDS,
            coordinate: Coordinate {
                latitude_bits: DEFAULT_LATITUDE_BITS,
                longtitude_bits: DEFAULT_LONGTITUDE_BITS,
            },
        }
    }
}

#[verifier::external_type_specification]
#[verifier::external_body]
#[verifier::reject_recursive_types(T)]
pub struct ExWatchSender<T>(tokio::sync::watch::Sender<T>);

#[verifier::external_type_specification]
#[verifier::external_body]
#[verifier::reject_recursive_types(T)]
pub struct ExWatchReceiver<T>(tokio::sync::watch::Receiver<T>);

/// The configuration that a watch channel currently holds, as seen by its sender.
pub uninterp spec fn watched_config(tx: Sender<Configuration>) -> Configuration;

/// Relies on tokio::sync::watch::channel: the new channel holds `init`.
#[verifier::external_body]
fn open_watch(init: Configuration) -> (r: (Sender<Configuration>, Receiver<Configuration>))
    ensures
        watched_config(r.0) == init,
{
    tokio::sync::watch::channel(init)
}

/// Relies on watch::Sender::send_replace: the channel then holds `c`, whether or
/// not any receiver is left.
#[verifier::external_body]
fn replace_watched(tx: &mut Sender<Configuration>, c: Configuration)
    ensures
        watched_config(*final(tx)) == c,
{
    tx.send_replace(c);
}

/// Relies on watch::Sender::borrow: the sender sees the most recently sent value.
#[verifier::external_body]
fn read_watched(tx: &Sender<Configuration>) -> (r: Configuration)
    ensures
        r == watched_config(*tx),
{
    *tx.borrow()
}

/// Relies on watch::Receiver::borrow: the value most recently sent. Which value
/// that is depends on when the sender, running elsewhere, last sent.
#[verifier::external_body]
fn read_latest(rx: &Receiver<Configuration>) -> (r: Configuration) {
    *rx.borrow()
}

/// The writing end of the configuration cell. It owns the only sender, so the
/// value it holds changes through `set` alone.
pub struct ConfigChannel {
    tx: Sender<Configuration>,
}

/// A reading end of the configuration cell, for another task.
pub struct ConfigReader {
    rx: Receiver<Configuration>,
}

impl View for ConfigChannel {
    type V = Configuration;

    closed spec fn view(&self) -> Configuration {
        watched_config(self.tx)
    }
}

impl ConfigChannel {
    /// A cell holding `initial`, and a reader of it.
    pub fn new(initial: Configuration) -> (r: (ConfigChannel, ConfigReader))
        ensures
            r.0@ == initial,
    {
        let (tx, rx) = open_watch(initial);
        (ConfigChannel { tx }, ConfigReader { rx })
    }

    /// Replaces the held configuration wholesale.
    pub fn set(&mut self, c: Configuration)
        ensures
            final(self)@ == c,
    {
        replace_watched(&mut self.tx, c);
    }

    /// A snapshot of the held configuration.
    pub fn get(&self) -> (r: Configuration)
        ensures
            r == self@,
    {
        read_watched(&self.tx)
    }

    /// Acts on one event of the configuration listener: a decoded configuration
    /// on the configuration topic replaces the held one; anything else leaves it
    /// as it was.
    pub fn handle_event(&mut self, ev: &ListenerEvent) -> (r: ListenerAction)
        ensures
            r == listener_action(*ev),
            final(self)@ == config_after_event(old(self)@, *ev),
    {
        match ev {
            ListenerEvent::Message { topic, decoded } => {
                if is_config_topic(topic) {
                    match decoded {
                        Some(c) => {
                            self.set(*c);
                            ListenerAction::Applied
                        },
                        None => ListenerAction::Rejected,
                    }
                } else {
                    ListenerAction::Ignored
                }
            },
            ListenerEvent::Other => ListenerAction::Ignored,
            ListenerEvent::TransportError => ListenerAction::Stop,
        }
    }
}

impl ConfigReader {
    /// The configuration most recently set on the cell; it may change between
    /// two calls.
    pub fn latest(&self) -> Configuration {
        read_latest(&self.rx)
    }
}

/// What the connection to the broker delivered to the listener.
pub enum ListenerEvent {
    /// A published message, with its payload decoded as a configuration where
    /// it is one.
    Message { topic: String, decoded: Option<Configuration> },
    /// Any other packet or event of the connection.
    Other,
    /// The connection failed.
    TransportError,
}

/// What the listener did with an event.
#[derive(Clone, Copy, Debug, PartialEq, Eq, Structural)]
pub enum ListenerAction {
    /// A new configuration was stored.
    Applied,
    /// A message on the configuration topic did not hold a configuration.
    Rejected,
    /// The event did not concern the configuration.
    Ignored,
    /// The connection failed: the listener ends.
    Stop,
}

/// Whether a topic is the configuration topic.
pub fn is_config_topic(topic: &str) -> (r: bool)
    ensures
        r == (topic@ == CONFIG_TOPIC@),
{
    let t = topic.to_owned();
    let c = CONFIG_TOPIC.to_owned();
    t == c
}

/// The listener's verdict on a message with the given topic and decoded payload.
pub open spec fn message_action(topic: Seq<char>, decoded: Option<Configuration>) -> ListenerAction {
    if topic == CONFIG_TOPIC@ {
        match decoded {
            Some(_) => ListenerAction::Applied,
            None => ListenerAction::Rejected,
        }
    } else {
        ListenerAction::Ignored
    }
}

/// The configuration held after a message, given the one held before.
pub open spec fn config_after_message(
    held: Configuration,
    topic: Seq<char>,
    decoded: Option<Configuration>,
) -> Configuration {
    match decoded {
        Some(c) if topic == CONFIG_TOPIC@ => c,
        _ => held,
    }
}

/// The listener's verdict on an event.
pub open spec fn listener_action(ev: ListenerEvent) -> ListenerAction {
    match ev {
        ListenerEvent::Message { topic, decoded } => message_action(topic@, decoded),
        ListenerEvent::Other => ListenerAction::Ignored,
        ListenerEvent::TransportError => ListenerAction::Stop,
    }
}

/// The configuration held after an event, given the one held before.
pub open spec fn config_after_event(held: Configuration, ev: ListenerEvent) -> Configuration {
    match ev {
        ListenerEvent::Message { topic, decoded } => config_after_message(held, topic@, decoded),
        _ => held,
    }
}

/// A configuration decoded from a message on the configuration topic becomes
/// exactly the held one, whatever was held before.
pub proof fn lemma_valid_config_round_trip(held: Configuration, c: Configuration)
    ensures
        message_action(CONFIG_TOPIC@, Some(c)) == ListenerAction::Applied,
        config_after_message(held, CONFIG_TOPIC@, Some(c)) == c,
{
}

/// A payload that does not decode as a configuration leaves the held one
/// unchanged, on any topic.
pub proof fn lemma_malformed_config_ignored(held: Configuration, topic: Seq<char>)
    ensures
        config_after_message(held, topic, None) == held,
        message_action(topic, None) != ListenerAction::Applied,
{
}

} // verus!
