//! Topics and events of the telemetry link.

use vstd::prelude::*;
use vstd::string::StringSliceAdditionalSpecFns;

verus! {

/// Events of the network link.
#[derive(Clone, Copy, Debug, PartialEq, Eq, Structural)]
pub enum Event {
    ConnectedWifi,
    ConnectedMQTT,
}

/// Why a message cannot be built.
#[derive(Clone, Copy, Debug, PartialEq, Eq, Structural)]
pub enum Error {
    TopicTooLarge,
    ContentTooLarge,
}

/// Reactions to link events.
#[derive(Clone, Copy, Debug, PartialEq, Eq, Structural)]
pub struct Events;

impl Events {
    /// Whether the current records and settings must be published again
    /// after `event`: a fresh broker connection has not seen them.
    pub fn republish_on(event: Event) -> (r: bool)
        ensures
            r == (event == Event::ConnectedMQTT),
    {
        match event {
            Event::ConnectedMQTT => true,
            Event::ConnectedWifi => false,
        }
    }
}

/// Longest topic, in bytes.
pub const TOPIC_SIZE: usize = 64;

/// Longest message content, in bytes.
pub const CONTENT_SIZE: usize = 128;

/// The published and subscribed topics.
#[derive(Clone, Copy, Debug, PartialEq, Eq, Structural)]
pub enum Topic {
    Stats,
    Record,
    Config,
}

pub open spec fn topic_name(t: Topic) -> Seq<char> {
    match t {
        Topic::Stats => "slakkotron/stats"@,
        Topic::Record => "slakkotron/record"@,
        Topic::Config => "slakkotron/config"@,
    }
}

impl Topic {
    /// The topic's name on the broker.
    pub fn to_str(&self) -> (r: &'static str)
        ensures
            r@ == topic_name(*self),
    {
        proof {
            reveal_strlit("slakkotron/stats");
            reveal_strlit("slakkotron/record");
            reveal_strlit("slakkotron/config");
        }
        match self {
            Topic::Stats => "slakkotron/stats",
            Topic::Record => "slakkotron/record",
            Topic::Config => "slakkotron/config",
        }
    }

    /// The topic that the device listens on, from its name; only the
    /// configuration topic is received.
    pub fn try_parse(str: &str) -> (r: Result<Topic, ()>)
        ensures
            r is Ok <==> str@ == topic_name(Topic::Config),
            r is Ok ==> r->Ok_0 == Topic::Config,
    {
        let name = Topic::Config.to_str();
        let a = str.as_bytes();
        let b = name.as_bytes();
        proof {
            vstd::utf8::encode_utf8_decode_utf8(str@);
            vstd::utf8::encode_utf8_decode_utf8(name@);
        }
        if a.len() != b.len() {
            return Err(());
        }
        let mut i: usize = 0;
        while i < a.len()
            invariant
                a@ == str.spec_bytes(),
                b@ == name.spec_bytes(),
                name@ == topic_name(Topic::Config),
                a@.len() == b@.len(),
                i <= a@.len(),
                forall|k: int| 0 <= k < i ==> a@[k] == b@[k],
            decreases a@.len() - i,
        {
            if a[i] != b[i] {
                return Err(());
            }
            i = i + 1;
        }
        assert(a@ == b@);
        Ok(Topic::Config)
    }
}

} // verus!
