//! The configuration snapshot: service addresses, broker topics and
//! their producers, and the policy to evaluate. A snapshot is built in
//! full before it is published and never changed afterwards.

use vstd::prelude::*;

verus! {

/// Why building or refreshing a snapshot failed.
#[derive(Debug, Clone)]
pub enum ConfigError {
    /// The configuration file path was never set.
    PathNotSet,
    /// The configuration file does not exist.
    NotFound,
    /// The configuration file could not be parsed.
    ParseFailed(String),
    /// The policy source file does not exist.
    PolicyNotFound,
    /// The policy source was rejected by the engine.
    PolicyInvalid(String),
}

/// One outbound broker channel: the logical name the service uses and
/// the physical topic it maps to.
#[derive(Debug, Clone)]
pub struct Topic {
    pub name: String,
    pub target: String,
}

/// A handle for publishing to one topic of the configured broker.
#[derive(Debug, Clone)]
pub struct Producer {
    pub service: String,
    pub topic: String,
}

/// The broker part of the configuration: the broker address, the topic
/// mapping, and the producers built from it.
#[derive(Debug, Clone)]
pub struct Kafka {
    pub service: String,
    pub topics: Vec<Topic>,
    pub producers: Option<Vec<Producer>>,
}

/// Whether a topic with the given logical name is configured.
pub open spec fn has_topic(ts: Seq<Topic>, name: Seq<char>) -> bool {
    exists|i: int| 0 <= i < ts.len() && ts[i].name@ == name
}

impl Kafka {
    /// Logical topic names are unique, and producers, once built, mirror
    /// the topic list one for one.
    pub open spec fn wf(self) -> bool {
        &&& forall|i: int, j: int|
            0 <= i < j < self.topics@.len() ==> self.topics@[i].name@ != self.topics@[j].name@
        &&& match self.producers {
            Some(ps) => self.producers_match(ps@),
            None => true,
        }
    }

    /// The given producers mirror the topic list: one producer per topic,
    /// in order, each bound to this broker.
    pub open spec fn producers_match(self, ps: Seq<Producer>) -> bool {
        &&& ps.len() == self.topics@.len()
        &&& forall|i: int|
            0 <= i < ps.len() ==> (#[trigger] ps[i]).topic == self.topics@[i].name && ps[i].service
                == self.service
    }

    /// The producers have been built and mirror the topic list.
    pub open spec fn producers_built(self) -> bool {
        match self.producers {
            Some(ps) => self.producers_match(ps@),
            None => false,
        }
    }

    /// Builds one producer per configured topic, replacing any previous
    /// set, so the channel map always mirrors the topic list.
    pub fn update_producer(&mut self) -> (r: Result<(), ConfigError>)
        ensures
            r is Ok,
            final(self).service == old(self).service,
            final(self).topics == old(self).topics,
            final(self).producers_built(),
    {
        let mut built: Vec<Producer> = Vec::new();
        let n = self.topics.len();
        let mut i: usize = 0;
        while i < n
            invariant
                n == self.topics@.len(),
                i <= n,
                built@.len() == i,
                forall|k: int|
                    0 <= k < i ==> (#[trigger] built@[k]).topic == self.topics@[k].name
                        && built@[k].service == self.service,
            decreases n - i,
        {
            built.push(
                Producer { service: self.service.clone(), topic: self.topics[i].name.clone() },
            );
            i = i + 1;
        }
        self.producers = Some(built);
        Ok(())
    }

    /// Looks up the physical target for a logical topic name.
    pub fn lookup_topic(&self, name: &String) -> (r: Option<&String>)
        ensures
            r is Some <==> has_topic(self.topics@, name@),
            r matches Some(t) ==> exists|i: int|
                0 <= i < self.topics@.len() && (#[trigger] self.topics@[i]).name@ == name@
                    && t@ == self.topics@[i].target@,
    {
        let n = self.topics.len();
        let mut i: usize = 0;
        while i < n
            invariant
                n == self.topics@.len(),
                i <= n,
                forall|k: int| 0 <= k < i ==> (#[trigger] self.topics@[k]).name@ != name@,
            decreases n - i,
        {
            if self.topics[i].name.eq(name) {
                assert(has_topic(self.topics@, name@)) by {
                    assert(self.topics@[i as int].name@ == name@);
                }
                return Some(&self.topics[i].target);
            }
            i = i + 1;
        }
        None
    }
}

/// The policy part of the configuration: where the source came from,
/// the source itself, and the query to evaluate.
#[derive(Debug, Clone)]
pub struct Policy {
    pub query: String,
    pub module: String,
    pub source: String,
}

/// The two listener ports: the decision endpoint and the health endpoint.
#[derive(Debug, Clone)]
pub struct Ports {
    pub main: String,
    pub health: String,
}

/// The service's own network identity.
#[derive(Debug, Clone)]
pub struct Service {
    pub addr: String,
    pub ports: Ports,
}

/// One immutable configuration snapshot. `policy` is `None` only before
/// the first successful load.
#[derive(Debug, Clone)]
pub struct Opa {
    pub kafka: Kafka,
    pub service: Service,
    pub path: Option<String>,
    pub policy: Option<Policy>,
}

impl Opa {
    /// A snapshot is well formed when its broker configuration is.
    pub open spec fn wf(self) -> bool {
        self.kafka.wf()
    }

    /// A snapshot is complete when, in addition, its producers are built
    /// and a policy is present: nothing a reader reaches is half made.
    pub open spec fn complete(self) -> bool {
        &&& self.wf()
        &&& self.kafka.producers_built()
        &&& self.policy is Some
    }

    /// Records where the configuration file lives.
    pub fn set_path(&mut self, path: String)
        ensures
            final(self).path == Some(path),
            final(self).kafka == old(self).kafka,
            final(self).service == old(self).service,
            final(self).policy == old(self).policy,
    {
        self.path = Some(path);
    }

    /// Rebuilds this snapshot from a freshly parsed configuration and a
    /// freshly loaded policy. Every part is built before anything is
    /// replaced: if the path was never set, or parsing or the policy load
    /// failed, the snapshot is left exactly as it was.
    pub fn update(
        &mut self,
        parsed: Result<(Kafka, Service), ConfigError>,
        policy: Result<Policy, ConfigError>,
    ) -> (r: Result<(), ConfigError>)
        requires
            parsed matches Ok(p) ==> p.0.wf(),
        ensures
            r is Err ==> *final(self) == *old(self),
            r is Err <==> (old(self).path is None || parsed is Err || policy is Err),
            old(self).path is None ==> r == Err::<(), ConfigError>(ConfigError::PathNotSet),
            r is Ok ==> {
                &&& parsed matches Ok(p) && final(self).kafka.service == p.0.service
                    && final(self).kafka.topics == p.0.topics && final(self).service == p.1
                &&& policy matches Ok(pol) && final(self).policy == Some(pol)
                &&& final(self).path == old(self).path
                &&& final(self).complete()
            },
    {
        if self.path.is_none() {
            return Err(ConfigError::PathNotSet);
        }
        let (kafka, service) = match parsed {
            Ok(p) => p,
            Err(e) => {
                return Err(e);
            },
        };
        let pol = match policy {
            Ok(p) => p,
            Err(e) => {
                return Err(e);
            },
        };
        let mut kafka = kafka;
        let built = kafka.update_producer();
        match built {
            Ok(()) => {},
            Err(e) => {
                return Err(e);
            },
        }
        self.kafka = kafka;
        self.service = service;
        self.policy = Some(pol);
        Ok(())
    }
}

/// The configuration file consulted when no path is given in the
/// environment.
pub const CONFIG_FALLBACK: &'static str = "tests/config.toml";

/// Resolves the policy source path and query name from their environment
/// values, falling back to the built-in defaults where unset.
pub fn resolve_policy_env(module: Option<String>, query: Option<String>) -> (r: (String, String))
    ensures
        match module {
            Some(m) => r.0 == m,
            None => r.0@ == "configs/acl.rego"@,
        },
        match query {
            Some(q) => r.1 == q,
            None => r.1@ == "data.app.rbac.main"@,
        },
{
    let m = match module {
        Some(m) => m,
        None => new_strlit_owned("configs/acl.rego"),
    };
    let q = match query {
        Some(q) => q,
        None => new_strlit_owned("data.app.rbac.main"),
    };
    (m, q)
}

/// An owned copy of a string slice.
fn new_strlit_owned(s: &str) -> (r: String)
    ensures
        r@ == s@,
{
    s.to_owned()
}

} // verus!
