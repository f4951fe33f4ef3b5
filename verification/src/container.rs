//! What is known of a container, and what follows from its labels.

use vstd::prelude::*;
use vstd::string::*;

verus! {

/// A running container as the runtime reported it: its identity and its labels.
/// The labels are a map written as a list of pairs. Where a key stands more
/// than once, its first value counts; where none does, the order is of no
/// account.
#[derive(Clone, Debug)]
pub struct ContainerDescriptor {
    pub id: String,
    pub labels: Vec<(String, String)>,
}

/// The value that `labels` gives to `key`, if any.
pub open spec fn label_value(labels: Seq<(String, String)>, key: Seq<char>) -> Option<Seq<char>>
    decreases labels.len(),
{
    if labels.len() == 0 {
        None
    } else if labels[0].0@ == key {
        Some(labels[0].1@)
    } else {
        label_value(labels.drop_first(), key)
    }
}

/// The value found is that of the first label with the key, and none is found
/// only where no label has the key. So where no key stands twice, the order of
/// the labels does not matter.
pub proof fn label_value_is_first_match(labels: Seq<(String, String)>, key: Seq<char>)
    ensures
        match label_value(labels, key) {
            Some(value) => exists|i: int|
                0 <= i < labels.len() && (#[trigger] labels[i]).0@ == key && labels[i].1@ == value
                    && forall|j: int| 0 <= j < i ==> (#[trigger] labels[j]).0@ != key,
            None => forall|i: int| 0 <= i < labels.len() ==> (#[trigger] labels[i]).0@ != key,
        },
    decreases labels.len(),
{
    if labels.len() > 0 {
        if labels[0].0@ == key {
            assert(labels[0].1@ == label_value(labels, key)->0);
        } else {
            let rest = labels.drop_first();
            label_value_is_first_match(rest, key);
            match label_value(rest, key) {
                Some(value) => {
                    let i = choose|i: int|
                        0 <= i < rest.len() && (#[trigger] rest[i]).0@ == key && rest[i].1@ == value
                            && forall|j: int| 0 <= j < i ==> (#[trigger] rest[j]).0@ != key;
                    assert(labels[i + 1] == rest[i]);
                    assert forall|j: int| 0 <= j < i + 1 implies (#[trigger] labels[j]).0@
                        != key by {
                        if j > 0 {
                            assert(labels[j] == rest[j - 1]);
                        }
                    }
                },
                None => {
                    assert forall|i: int| 0 <= i < labels.len() implies (#[trigger] labels[i]).0@
                        != key by {
                        if i > 0 {
                            assert(labels[i] == rest[i - 1]);
                        }
                    }
                },
            }
        }
    }
}

/// No key stands twice among the labels, as in a map.
pub open spec fn keys_are_distinct(labels: Seq<(String, String)>) -> bool {
    forall|i: int, j: int|
        0 <= i < j < labels.len() ==> (#[trigger] labels[i]).0@ != (#[trigger] labels[j]).0@
}

/// Where no key stands twice, a label is found wherever it stands: the order
/// of the labels does not matter.
pub proof fn distinct_keys_make_order_irrelevant(
    labels: Seq<(String, String)>,
    key: Seq<char>,
    at: int,
)
    requires
        keys_are_distinct(labels),
        0 <= at < labels.len(),
        labels[at].0@ == key,
    ensures
        label_value(labels, key) == Some(labels[at].1@),
{
    label_value_is_first_match(labels, key);
    match label_value(labels, key) {
        Some(value) => {
            let first = choose|i: int|
                0 <= i < labels.len() && (#[trigger] labels[i]).0@ == key && labels[i].1@ == value
                    && forall|j: int| 0 <= j < i ==> (#[trigger] labels[j]).0@ != key;
            if first < at {
                assert(labels[first].0@ != labels[at].0@);
            }
            if at < first {
                assert(labels[at].0@ != key);
            }
        },
        None => {
            assert(labels[at].0@ != key);
        },
    }
}

/// The label under which the orchestrator files a container's name.
pub open spec fn name_label() -> Seq<char> {
    "com.amazonaws.ecs.container-name"@
}

/// The name given to a container that has no name label.
pub open spec fn unknown_service_name() -> Seq<char> {
    "unknown-service"@
}

/// Port and path that are scraped where the marker label names none.
pub open spec fn default_scrape_target() -> Seq<char> {
    "9100/metrics"@
}

/// The name under which a container's metrics are filed.
pub open spec fn display_name(labels: Seq<(String, String)>) -> Seq<char> {
    match label_value(labels, name_label()) {
        Some(name) => name,
        None => unknown_service_name(),
    }
}

/// Port and path of a container's metrics: the value of its marker label, or
/// the default where that value is missing or empty.
pub open spec fn scrape_target(labels: Seq<(String, String)>, marker: Seq<char>) -> Seq<char> {
    match label_value(labels, marker) {
        Some(target) => if target.len() > 0 {
            target
        } else {
            default_scrape_target()
        },
        None => default_scrape_target(),
    }
}

/// The address that the command inside the container fetches.
pub open spec fn scrape_url(labels: Seq<(String, String)>, marker: Seq<char>) -> Seq<char> {
    "http://localhost:"@ + scrape_target(labels, marker)
}

/// A container without a name label is filed under the fallback name.
pub proof fn unnamed_container_is_unknown_service(labels: Seq<(String, String)>)
    requires
        label_value(labels, name_label()) is None,
    ensures
        display_name(labels) == unknown_service_name(),
{
}

/// A container without a value for the marker label is scraped at the default
/// target.
pub proof fn unmarked_container_uses_default_target(
    labels: Seq<(String, String)>,
    marker: Seq<char>,
)
    requires
        label_value(labels, marker) is None || label_value(labels, marker) == Some(
            Seq::<char>::empty(),
        ),
    ensures
        scrape_target(labels, marker) == default_scrape_target(),
{
}

/// A command to run inside a container, and the streams to attach to it.
#[derive(Clone, Debug)]
pub struct ExecRequest {
    pub container_id: String,
    pub cmd: Vec<String>,
    pub attach_stdout: bool,
    pub attach_stderr: bool,
}

impl ContainerDescriptor {
    /// Looks `key` up among the labels.
    pub fn label(&self, key: &str) -> (value: Option<String>)
        ensures
            match value {
                Some(v) => label_value(self.labels@, key@) == Some(v@),
                None => label_value(self.labels@, key@) is None,
            },
    {
        let wanted = String::from_str(key);
        let mut i: usize = 0;
        proof {
            assert(self.labels@.skip(0) =~= self.labels@);
        }
        while i < self.labels.len()
            invariant
                i <= self.labels@.len(),
                wanted@ == key@,
                label_value(self.labels@, key@) == label_value(self.labels@.skip(i as int), key@),
            decreases self.labels@.len() - i,
        {
            proof {
                assert(self.labels@.skip(i as int).drop_first() =~= self.labels@.skip(i + 1));
            }
            if self.labels[i].0 == wanted {
                return Some(self.labels[i].1.clone());
            }
            i = i + 1;
        }
        None
    }

    /// The name under which this container's metrics are filed.
    pub fn display_name(&self) -> (name: String)
        ensures
            name@ == display_name(self.labels@),
    {
        match self.label("com.amazonaws.ecs.container-name") {
            Some(name) => name,
            None => String::from_str("unknown-service"),
        }
    }

    /// Port and path at which this container is scraped.
    pub fn scrape_target(&self, marker: &str) -> (target: String)
        ensures
            target@ == scrape_target(self.labels@, marker@),
    {
        match self.label(marker) {
            Some(target) => {
                if !target.as_str().is_empty() {
                    target
                } else {
                    String::from_str("9100/metrics")
                }
            },
            None => String::from_str("9100/metrics"),
        }
    }
}

} // verus!
