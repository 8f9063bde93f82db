//! One configured action: a display name bound to a shell command line.
use vstd::prelude::*;

use crate::config::Config;
use crate::text::{slug, slug_of};

verus! {

/// One binding of a display name to a command line, with an optional icon.
/// `instance_name` and `availability_topic` are filled in from the
/// configuration when the action is registered.
#[derive(Clone, Debug)]
pub struct Action {
    pub name: String,
    pub command: String,
    pub icon: Option<String>,
    pub instance_name: String,
    pub availability_topic: String,
}

/// `"mqttbridge/{instance}"`, the prefix of every topic of an instance.
pub open spec fn topic_base_of(instance: Seq<char>) -> Seq<char> {
    "mqttbridge/"@ + instance
}

/// `"mqttbridge/{instance}/{slug}/call"`.
pub open spec fn command_topic_of(instance: Seq<char>, name: Seq<char>) -> Seq<char> {
    topic_base_of(instance) + "/"@ + slug_of(name) + "/call"@
}

/// `"homeassistant/button/{instance}/{slug}/config"`.
pub open spec fn discovery_topic_of(instance: Seq<char>, name: Seq<char>) -> Seq<char> {
    "homeassistant/button/"@ + instance + "/"@ + slug_of(name) + "/config"@
}

/// `"mqttbridge/{instance}/available"`.
pub open spec fn availability_topic_of(instance: Seq<char>) -> Seq<char> {
    topic_base_of(instance) + "/available"@
}

/// `"<Action {name}>"`, how an action is named in messages.
pub open spec fn label_of(name: Seq<char>) -> Seq<char> {
    "<Action "@ + name + ">"@
}

/// The three topics are functions of the instance name and the display name
/// alone: two actions that agree on both agree on every topic.
pub proof fn lemma_topics_determined(a: Action, b: Action)
    requires
        a.instance_name@ == b.instance_name@,
        a.name@ == b.name@,
    ensures
        command_topic_of(a.instance_name@, a.name@) == command_topic_of(b.instance_name@, b.name@),
        discovery_topic_of(a.instance_name@, a.name@) == discovery_topic_of(
            b.instance_name@,
            b.name@,
        ),
        availability_topic_of(a.instance_name@) == availability_topic_of(b.instance_name@),
{
}

/// The middle of a sequence framed by a known prefix and suffix.
proof fn lemma_frame_inner(p: Seq<char>, x: Seq<char>, y: Seq<char>, q: Seq<char>)
    requires
        p + x + q == p + y + q,
    ensures
        x == y,
{
    let s = p + x + q;
    assert((p + x + q).len() == p.len() + x.len() + q.len());
    assert((p + y + q).len() == p.len() + y.len() + q.len());
    assert(x.len() == y.len());
    assert(s.subrange(p.len() as int, (p.len() + x.len()) as int) =~= x);
    assert((p + y + q).subrange(p.len() as int, (p.len() + y.len()) as int) =~= y);
}

/// Within one instance, two actions share a command topic exactly when they
/// share a slug, and the same holds of discovery topics.
pub proof fn lemma_topics_follow_slug(instance: Seq<char>, n1: Seq<char>, n2: Seq<char>)
    ensures
        command_topic_of(instance, n1) == command_topic_of(instance, n2) <==> slug_of(n1)
            == slug_of(n2),
        discovery_topic_of(instance, n1) == discovery_topic_of(instance, n2) <==> slug_of(n1)
            == slug_of(n2),
{
    let p = topic_base_of(instance) + "/"@;
    if command_topic_of(instance, n1) == command_topic_of(instance, n2) {
        assert(command_topic_of(instance, n1) =~= p + slug_of(n1) + "/call"@);
        assert(command_topic_of(instance, n2) =~= p + slug_of(n2) + "/call"@);
        lemma_frame_inner(p, slug_of(n1), slug_of(n2), "/call"@);
    }
    let d = "homeassistant/button/"@ + instance + "/"@;
    if discovery_topic_of(instance, n1) == discovery_topic_of(instance, n2) {
        assert(discovery_topic_of(instance, n1) =~= d + slug_of(n1) + "/config"@);
        assert(discovery_topic_of(instance, n2) =~= d + slug_of(n2) + "/config"@);
        lemma_frame_inner(d, slug_of(n1), slug_of(n2), "/config"@);
    }
}

impl Action {
    /// An owned copy of this action, field for field.
    pub fn snapshot(&self) -> (r: Action)
        ensures
            r.name == self.name,
            r.command == self.command,
            r.icon == self.icon,
            r.instance_name == self.instance_name,
            r.availability_topic == self.availability_topic,
    {
        let icon = match &self.icon {
            Some(s) => Some(s.clone()),
            None => None,
        };
        Action {
            name: self.name.clone(),
            command: self.command.clone(),
            icon,
            instance_name: self.instance_name.clone(),
            availability_topic: self.availability_topic.clone(),
        }
    }

    /// A fresh action, not yet bound to an instance.
    pub fn new(name: String, command: String, icon: Option<String>) -> (r: Action)
        ensures
            r.name == name,
            r.command == command,
            r.icon == icon,
            r.instance_name@ == Seq::<char>::empty(),
            r.availability_topic@ == Seq::<char>::empty(),
    {
        Action {
            name,
            command,
            icon,
            instance_name: String::new(),
            availability_topic: String::new(),
        }
    }

    /// Binds the action to the configured instance: its instance name and
    /// availability topic come from `config`; name, command and icon stay.
    pub fn attach(&mut self, config: &Config)
        ensures
            final(self).name == old(self).name,
            final(self).command == old(self).command,
            final(self).icon == old(self).icon,
            final(self).instance_name == config.mqtt.instance_name,
            final(self).availability_topic@ == availability_topic_of(config.mqtt.instance_name@),
    {
        self.instance_name = config.mqtt.instance_name.clone();
        self.availability_topic = config.availability_topic();
    }

    /// The topic prefix of the action's instance.
    pub fn topic_base(&self) -> (r: String)
        ensures
            r@ == topic_base_of(self.instance_name@),
    {
        let mut r = String::from_str("mqttbridge/");
        r.append(self.instance_name.as_str());
        r
    }

    /// The slugified name, used as the action's unique id.
    pub fn unique_id(&self) -> (r: String)
        ensures
            r@ == slug_of(self.name@),
    {
        slug(self.name.as_str())
    }

    /// The topic on which a message triggers this action.
    pub fn command_topic(&self) -> (r: String)
        ensures
            r@ == command_topic_of(self.instance_name@, self.name@),
    {
        let mut r = self.topic_base();
        r.append("/");
        let id = self.unique_id();
        r.append(id.as_str());
        r.append("/call");
        r
    }

    /// The retained topic that announces this action to Home Assistant.
    pub fn discovery_topic(&self) -> (r: String)
        ensures
            r@ == discovery_topic_of(self.instance_name@, self.name@),
    {
        let mut r = String::from_str("homeassistant/button/");
        r.append(self.instance_name.as_str());
        r.append("/");
        let id = self.unique_id();
        r.append(id.as_str());
        r.append("/config");
        r
    }

    /// `"<Action {name}>"`.
    pub fn label(&self) -> (r: String)
        ensures
            r@ == label_of(self.name@),
    {
        let mut r = String::from_str("<Action ");
        r.append(self.name.as_str());
        r.append(">");
        r
    }
}

} // verus!
