//! The instance configuration and the broker session settings derived from it.
use vstd::prelude::*;

use crate::action::{availability_topic_of, Action};
use crate::text::{decimal, push_decimal};

verus! {

/// Broker address, credentials and the instance name folded into every topic.
#[derive(Debug)]
pub struct MqttConfig {
    pub host: String,
    pub username: String,
    pub password: String,
    pub instance_name: String,
}

/// The whole configuration: broker settings and the actions, in order.
#[derive(Debug)]
pub struct Config {
    pub mqtt: MqttConfig,
    pub actions: Vec<Action>,
}

/// Delivery guarantee of a publish or a subscription.
#[derive(Clone, Copy, Debug, PartialEq, Eq, Structural)]
pub enum Qos {
    AtMostOnce,
    AtLeastOnce,
    ExactlyOnce,
}

/// A message to publish: topic, payload, delivery guarantee and retention.
#[derive(Clone, Debug)]
pub struct Publication {
    pub topic: String,
    pub payload: String,
    pub qos: Qos,
    pub retain: bool,
}

/// Everything the broker session is opened with.
#[derive(Clone, Debug)]
pub struct SessionOptions {
    pub client_id: String,
    pub host: String,
    pub port: u16,
    pub keep_alive_secs: u64,
    pub username: String,
    pub password: String,
    pub last_will: Publication,
    pub queue_capacity: usize,
}

/// The broker's plain TCP port.
pub const BROKER_PORT: u16 = 1883;

/// Seconds between keep-alive pings.
pub const KEEP_ALIVE_SECS: u64 = 5;

/// Depth of the session's outbound request queue.
pub const QUEUE_CAPACITY: usize = 10;

/// `"mqttbridge-{pid}"`.
pub open spec fn client_id_of(pid: nat) -> Seq<char> {
    "mqttbridge-"@ + decimal(pid)
}

/// The retained at-least-once message on the availability topic.
pub open spec fn is_availability_message(p: Publication, instance: Seq<char>, payload: Seq<char>) -> bool {
    &&& p.topic@ == availability_topic_of(instance)
    &&& p.payload@ == payload
    &&& p.qos == Qos::AtLeastOnce
    &&& p.retain
}

impl Config {
    /// The retained topic that tells whether this instance is online.
    pub fn availability_topic(&self) -> (r: String)
        ensures
            r@ == availability_topic_of(self.mqtt.instance_name@),
    {
        let mut r = String::from_str("mqttbridge/");
        r.append(self.mqtt.instance_name.as_str());
        r.append("/available");
        r
    }

    /// The message published once at startup: `"online"`, retained.
    pub fn online_message(&self) -> (r: Publication)
        ensures
            is_availability_message(r, self.mqtt.instance_name@, "online"@),
    {
        Publication {
            topic: self.availability_topic(),
            payload: String::from_str("online"),
            qos: Qos::AtLeastOnce,
            retain: true,
        }
    }

    /// The session settings for the process with id `pid`; the last will
    /// makes the broker publish `"offline"`, retained, when the session drops.
    pub fn session_options(&self, pid: u32) -> (r: SessionOptions)
        ensures
            r.client_id@ == client_id_of(pid as nat),
            r.host == self.mqtt.host,
            r.port == BROKER_PORT,
            r.keep_alive_secs == KEEP_ALIVE_SECS,
            r.username == self.mqtt.username,
            r.password == self.mqtt.password,
            is_availability_message(r.last_will, self.mqtt.instance_name@, "offline"@),
            r.queue_capacity == QUEUE_CAPACITY,
    {
        let mut client_id = String::from_str("mqttbridge-");
        push_decimal(&mut client_id, pid);
        let last_will = Publication {
            topic: self.availability_topic(),
            payload: String::from_str("offline"),
            qos: Qos::AtLeastOnce,
            retain: true,
        };
        SessionOptions {
            client_id,
            host: self.mqtt.host.clone(),
            port: BROKER_PORT,
            keep_alive_secs: KEEP_ALIVE_SECS,
            username: self.mqtt.username.clone(),
            password: self.mqtt.password.clone(),
            last_will,
            queue_capacity: QUEUE_CAPACITY,
        }
    }
}

/// The online marker and the last will name the same topic, with the same
/// retention and delivery guarantee, and carry `"online"` and `"offline"`.
pub proof fn lemma_liveness_pair(config: &Config, online: Publication, options: SessionOptions)
    requires
        is_availability_message(online, config.mqtt.instance_name@, "online"@),
        is_availability_message(options.last_will, config.mqtt.instance_name@, "offline"@),
    ensures
        online.topic@ == options.last_will.topic@,
        online.retain && options.last_will.retain,
        online.qos == options.last_will.qos,
        online.payload@ == "online"@,
        options.last_will.payload@ == "offline"@,
{
}

} // verus!
