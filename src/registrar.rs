//! Startup registration: the slug check, the ordered broker requests for every
//! action, and the index from command topic to action used by the dispatcher.
use vstd::prelude::*;

use crate::action::{
    availability_topic_of,
    command_topic_of,
    discovery_topic_of,
    lemma_topics_follow_slug,
    Action,
};
use crate::config::{Config, Qos};
use crate::dispatch::TopicIndex;
use crate::text::slug_of;

verus! {

/// Two actions whose names give the same slug; `first < second`.
#[derive(Clone, Copy, Debug, PartialEq, Eq, Structural)]
pub struct SlugClash {
    pub first: usize,
    pub second: usize,
}

/// No two actions of `s` share a slug.
pub open spec fn slugs_distinct(s: Seq<Action>) -> bool {
    forall|i: int, j: int|
        0 <= i < j < s.len() ==> slug_of(#[trigger] s[i].name@) != slug_of(#[trigger] s[j].name@)
}

/// `(i, j)` is the clash found first: `j` is the least position whose slug
/// occurs before it, and `i` the least earlier position with that slug.
pub open spec fn is_first_clash(s: Seq<Action>, i: int, j: int) -> bool {
    &&& 0 <= i < j < s.len()
    &&& slug_of(s[i].name@) == slug_of(s[j].name@)
    &&& slugs_distinct(s.subrange(0, j))
    &&& forall|k: int| 0 <= k < i ==> slug_of(#[trigger] s[k].name@) != slug_of(s[j].name@)
}

/// Every action of `s` belongs to the instance `instance`.
pub open spec fn all_of_instance(s: Seq<Action>, instance: Seq<char>) -> bool {
    forall|i: int|
        0 <= i < s.len() ==> (#[trigger] s[i]).instance_name@ == instance
            && s[i].availability_topic@ == availability_topic_of(instance)
}

/// The command topic of an action.
pub open spec fn command_topic_spec(a: Action) -> Seq<char> {
    command_topic_of(a.instance_name@, a.name@)
}

/// The discovery topic of an action.
pub open spec fn discovery_topic_spec(a: Action) -> Seq<char> {
    discovery_topic_of(a.instance_name@, a.name@)
}

/// Finds the first pair of actions whose slugs coincide, if any.
pub fn check_unique_slugs(actions: &Vec<Action>) -> (r: Result<(), SlugClash>)
    ensures
        r is Ok <==> slugs_distinct(actions@),
        r matches Err(c) ==> is_first_clash(actions@, c.first as int, c.second as int),
{
    let n = actions.len();
    let mut slugs: Vec<String> = Vec::new();
    let mut m: usize = 0;
    while m < n
        invariant
            n == actions@.len(),
            m <= n,
            slugs@.len() == m,
            forall|k: int| 0 <= k < m ==> (#[trigger] slugs@[k])@ == slug_of(actions@[k].name@),
        decreases n - m,
    {
        slugs.push(actions[m].unique_id());
        m = m + 1;
    }
    let mut j: usize = 0;
    while j < n
        invariant
            n == actions@.len(),
            j <= n,
            slugs@.len() == n,
            forall|k: int| 0 <= k < n ==> (#[trigger] slugs@[k])@ == slug_of(actions@[k].name@),
            slugs_distinct(actions@.subrange(0, j as int)),
        decreases n - j,
    {
        let mut i: usize = 0;
        while i < j
            invariant
                n == actions@.len(),
                i <= j < n,
                slugs@.len() == n,
                forall|k: int|
                    0 <= k < n ==> (#[trigger] slugs@[k])@ == slug_of(actions@[k].name@),
                slugs_distinct(actions@.subrange(0, j as int)),
                forall|k: int|
                    0 <= k < i ==> slug_of(#[trigger] actions@[k].name@) != slug_of(
                        actions@[j as int].name@,
                    ),
            decreases j - i,
        {
            if slugs[i] == slugs[j] {
                return Err(SlugClash { first: i, second: j });
            }
            i = i + 1;
        }
        assert forall|a: int, b: int| 0 <= a < b < j + 1 implies slug_of(
            #[trigger] actions@.subrange(0, j + 1)[a].name@,
        ) != slug_of(#[trigger] actions@.subrange(0, j + 1)[b].name@) by {
            if b < j {
                assert(actions@.subrange(0, j as int)[a] == actions@[a]);
                assert(actions@.subrange(0, j as int)[b] == actions@[b]);
            }
        }
        j = j + 1;
    }
    assert(actions@.subrange(0, n as int) =~= actions@);
    Ok(())
}

/// `prepared` holds the configured actions in order, each bound to the
/// configured instance.
pub open spec fn is_prepared(prepared: Seq<Action>, config: Config) -> bool {
    &&& prepared.len() == config.actions@.len()
    &&& all_of_instance(prepared, config.mqtt.instance_name@)
    &&& forall|i: int|
        0 <= i < prepared.len() ==> (#[trigger] prepared[i]).name == config.actions@[i].name
            && prepared[i].command == config.actions@[i].command && prepared[i].icon
            == config.actions@[i].icon
}

/// The configured actions bound to the configured instance; fails on the
/// first two actions whose names give the same slug.
pub fn prepare_actions(config: &Config) -> (r: Result<Vec<Action>, SlugClash>)
    ensures
        r is Ok <==> slugs_distinct(config.actions@),
        r matches Ok(v) ==> is_prepared(v@, *config),
        r matches Err(c) ==> is_first_clash(config.actions@, c.first as int, c.second as int),
{
    match check_unique_slugs(&config.actions) {
        Err(c) => Err(c),
        Ok(()) => {
            let n = config.actions.len();
            let mut out: Vec<Action> = Vec::new();
            let mut i: usize = 0;
            while i < n
                invariant
                    n == config.actions@.len(),
                    i <= n,
                    out@.len() == i,
                    all_of_instance(out@, config.mqtt.instance_name@),
                    forall|k: int|
                        0 <= k < i ==> (#[trigger] out@[k]).name == config.actions@[k].name
                            && out@[k].command == config.actions@[k].command && out@[k].icon
                            == config.actions@[k].icon,
                decreases n - i,
            {
                let mut a = config.actions[i].snapshot();
                a.attach(config);
                out.push(a);
                i = i + 1;
            }
            Ok(out)
        },
    }
}


/// What a registration request asks of the broker.
#[derive(Clone, Copy, Debug, PartialEq, Eq, Structural)]
pub enum RequestKind {
    /// Subscribe to `topic`.
    Subscribe,
    /// Publish the discovery document of action `action` on `topic`.
    Publish,
}

/// One broker request made at startup.
#[derive(Clone, Debug)]
pub struct Request {
    pub kind: RequestKind,
    pub topic: String,
    pub qos: Qos,
    pub retain: bool,
    pub action: usize,
}

/// `plan` is the startup registration of `actions`: for each action in
/// order, an at-least-once subscription to its command topic, then a
/// retained at-least-once publish of its discovery document.
pub open spec fn is_registration_plan(plan: Seq<Request>, actions: Seq<Action>) -> bool {
    &&& plan.len() == 2 * actions.len()
    &&& forall|i: int|
        0 <= i < actions.len() ==> {
            let s = #[trigger] plan[2 * i];
            let p = plan[2 * i + 1];
            &&& s.kind == RequestKind::Subscribe
            &&& s.topic@ == command_topic_spec(actions[i])
            &&& s.qos == Qos::AtLeastOnce
            &&& !s.retain
            &&& s.action == i
            &&& p.kind == RequestKind::Publish
            &&& p.topic@ == discovery_topic_spec(actions[i])
            &&& p.qos == Qos::AtLeastOnce
            &&& p.retain
            &&& p.action == i
        }
}

/// The ordered broker requests that register `actions`.
pub fn registration_plan(actions: &Vec<Action>) -> (r: Vec<Request>)
    requires
        actions@.len() < usize::MAX / 2,
    ensures
        is_registration_plan(r@, actions@),
{
    let n = actions.len();
    let mut plan: Vec<Request> = Vec::new();
    let mut i: usize = 0;
    while i < n
        invariant
            n == actions@.len(),
            n < usize::MAX / 2,
            i <= n,
            is_registration_plan(plan@, actions@.subrange(0, i as int)),
        decreases n - i,
    {
        let a = &actions[i];
        let ghost before = plan@;
        plan.push(
            Request {
                kind: RequestKind::Subscribe,
                topic: a.command_topic(),
                qos: Qos::AtLeastOnce,
                retain: false,
                action: i,
            },
        );
        plan.push(
            Request {
                kind: RequestKind::Publish,
                topic: a.discovery_topic(),
                qos: Qos::AtLeastOnce,
                retain: true,
                action: i,
            },
        );
        proof {
            let sub = actions@.subrange(0, i + 1);
            assert forall|k: int| 0 <= k < i + 1 implies {
                let s = #[trigger] plan@[2 * k];
                let p = plan@[2 * k + 1];
                &&& s.kind == RequestKind::Subscribe
                &&& s.topic@ == command_topic_spec(sub[k])
                &&& s.qos == Qos::AtLeastOnce
                &&& !s.retain
                &&& s.action == k
                &&& p.kind == RequestKind::Publish
                &&& p.topic@ == discovery_topic_spec(sub[k])
                &&& p.qos == Qos::AtLeastOnce
                &&& p.retain
                &&& p.action == k
            } by {
                if k < i {
                    assert(plan@[2 * k] == before[2 * k]);
                    assert(plan@[2 * k + 1] == before[2 * k + 1]);
                    assert(actions@.subrange(0, i as int)[k] == sub[k]);
                }
            }
        }
        i = i + 1;
    }
    assert(actions@.subrange(0, n as int) =~= actions@);
    plan
}

/// What startup registration produces: the broker requests, in order, and
/// the index that the dispatcher reads.
#[derive(Debug)]
pub struct Registration {
    pub plan: Vec<Request>,
    pub index: TopicIndex,
}

/// Prepares the configured actions, plans their registration and indexes
/// them by command topic; fails, before any request, on a slug clash.
pub fn register(config: &Config) -> (r: Result<Registration, SlugClash>)
    requires
        config.actions@.len() < usize::MAX / 2,
    ensures
        r is Ok <==> slugs_distinct(config.actions@),
        r matches Ok(reg) ==> {
            &&& is_prepared(reg.index.entries@, *config)
            &&& reg.index.wf()
            &&& is_registration_plan(reg.plan@, reg.index.entries@)
        },
        r matches Err(c) ==> is_first_clash(config.actions@, c.first as int, c.second as int),
{
    match prepare_actions(config) {
        Err(c) => Err(c),
        Ok(actions) => {
            assert forall|i: int, j: int| 0 <= i < j < actions@.len() implies slug_of(
                #[trigger] actions@[i].name@,
            ) != slug_of(#[trigger] actions@[j].name@) by {
                let _ = config.actions@[i];
                let _ = config.actions@[j];
            }
            let plan = registration_plan(&actions);
            let index = TopicIndex::from_actions(actions);
            Ok(Registration { plan, index })
        },
    }
}

/// `r` subscribes to the command topic of `a`.
pub open spec fn subscribes_to_command(r: Request, a: Action) -> bool {
    r.kind == RequestKind::Subscribe && r.topic@ == command_topic_spec(a)
}

/// `r` publishes, retained, on the discovery topic of `a`.
pub open spec fn publishes_discovery(r: Request, a: Action) -> bool {
    r.kind == RequestKind::Publish && r.retain && r.topic@ == discovery_topic_spec(a)
}

/// Registration is complete: for every action of a running set there is
/// exactly one subscribe on its command topic and exactly one retained
/// publish on its discovery topic.
pub proof fn lemma_registration_complete(
    plan: Seq<Request>,
    actions: Seq<Action>,
    instance: Seq<char>,
)
    requires
        is_registration_plan(plan, actions),
        all_of_instance(actions, instance),
        slugs_distinct(actions),
    ensures
        forall|i: int, k: int|
            0 <= i < actions.len() && 0 <= k < plan.len() ==> (subscribes_to_command(
                #[trigger] plan[k],
                #[trigger] actions[i],
            ) <==> k == 2 * i),
        forall|i: int, k: int|
            0 <= i < actions.len() && 0 <= k < plan.len() ==> (publishes_discovery(
                #[trigger] plan[k],
                #[trigger] actions[i],
            ) <==> k == 2 * i + 1),
{
    assert forall|i: int, k: int| 0 <= i < actions.len() && 0 <= k < plan.len() implies (
    subscribes_to_command(#[trigger] plan[k], #[trigger] actions[i]) <==> k == 2 * i)
        && (publishes_discovery(plan[k], actions[i]) <==> k == 2 * i + 1) by {
        let j = k / 2;
        assert(k == 2 * j || k == 2 * j + 1);
        assert(0 <= j < actions.len());
        let _ = plan[2 * j];
        let _ = actions[j];
        lemma_topics_follow_slug(instance, actions[i].name@, actions[j].name@);
        if j != i {
            if i < j {
                assert(slug_of(actions[i].name@) != slug_of(actions[j].name@));
            } else {
                assert(slug_of(actions[j].name@) != slug_of(actions[i].name@));
            }
        }
    }
}

} // verus!
