//! The agent's settings: which services and which named ports to watch.

use crate::text::str_eq;
use vstd::prelude::*;

verus! {

/// The port on which the agent listens when the settings name none.
pub const DEFAULT_APP_PORT: u16 = 8081;

/// A TCP port on the local host under a logical name.
pub struct PortEntry {
    pub name: String,
    pub port: u16,
}

/// The settings, fixed once they are loaded.
pub struct Config {
    /// The services to probe, in the order in which they are reported.
    pub services: Vec<String>,
    /// The named ports to probe, in the order in which they are reported.
    pub http_ports: Vec<PortEntry>,
    /// The port of the agent's own listener.
    pub app_port: Option<u16>,
}

/// Whether one of `services` is called `name`.
pub open spec fn names_service(services: Seq<String>, name: Seq<char>) -> bool {
    exists|i: int| 0 <= i < services.len() && (#[trigger] services[i])@ == name
}

/// The port of the first of `entries` that is called `name`.
pub open spec fn lookup(entries: Seq<PortEntry>, name: Seq<char>) -> Option<u16>
    decreases entries.len(),
{
    if entries.len() == 0 {
        None
    } else if entries[0].name@ == name {
        Some(entries[0].port)
    } else {
        lookup(entries.drop_first(), name)
    }
}

/// Whether no two of `entries` share a name.
pub open spec fn distinct_names(entries: Seq<PortEntry>) -> bool {
    forall|i: int, j: int|
        0 <= i < j < entries.len() ==> (#[trigger] entries[i]).name@ != (#[trigger] entries[j]).name@
}

impl Config {
    /// Whether the named ports form a mapping: no name stands twice.
    pub open spec fn well_formed(&self) -> bool {
        distinct_names(self.http_ports@)
    }

    /// Whether `name` is a configured service.
    pub open spec fn has_service(&self, name: Seq<char>) -> bool {
        names_service(self.services@, name)
    }

    /// The port configured under `name`, if there is one.
    pub open spec fn port_of(&self, name: Seq<char>) -> Option<u16> {
        lookup(self.http_ports@, name)
    }

    /// The settings with these parts, unless two ports share a name.
    pub fn new(services: Vec<String>, http_ports: Vec<PortEntry>, app_port: Option<u16>) -> (made:
        Option<Config>)
        ensures
            made is Some <==> distinct_names(http_ports@),
            made matches Some(c) ==> c.services == services && c.http_ports == http_ports
                && c.app_port == app_port && c.well_formed(),
    {
        let n: usize = http_ports.len();
        let mut j: usize = 0;
        while j < n
            invariant
                n == http_ports.len(),
                j <= n,
                forall|a: int, b: int|
                    0 <= a < b < j ==> (#[trigger] http_ports@[a]).name@ != (
                    #[trigger] http_ports@[b]).name@,
            decreases n - j,
        {
            let mut i: usize = 0;
            while i < j
                invariant
                    n == http_ports.len(),
                    i <= j < n,
                    forall|a: int| 0 <= a < i ==> (#[trigger] http_ports@[a]).name@ != http_ports@[j as int].name@,
                decreases j - i,
            {
                if str_eq(http_ports[i].name.as_str(), http_ports[j].name.as_str()) {
                    return None;
                }
                i += 1;
            }
            j += 1;
        }
        Some(Config { services, http_ports, app_port })
    }

    /// Whether `name` is a configured service.
    pub fn is_service(&self, name: &str) -> (found: bool)
        ensures
            found == self.has_service(name@),
    {
        let mut i: usize = 0;
        while i < self.services.len()
            invariant
                i <= self.services.len(),
                forall|k: int| 0 <= k < i ==> (#[trigger] self.services@[k])@ != name@,
            decreases self.services.len() - i,
        {
            if str_eq(self.services[i].as_str(), name) {
                return true;
            }
            i += 1;
        }
        false
    }

    /// The port configured under `name`, if there is one.
    pub fn port_named(&self, name: &str) -> (port: Option<u16>)
        ensures
            port == self.port_of(name@),
    {
        let mut i: usize = 0;
        assert(self.http_ports@.subrange(0, self.http_ports.len() as int) =~= self.http_ports@);
        while i < self.http_ports.len()
            invariant
                i <= self.http_ports.len(),
                self.port_of(name@) == lookup(
                    self.http_ports@.subrange(i as int, self.http_ports.len() as int),
                    name@,
                ),
            decreases self.http_ports.len() - i,
        {
            let ghost rest = self.http_ports@.subrange(i as int, self.http_ports.len() as int);
            assert(rest[0] == self.http_ports@[i as int]);
            assert(rest.drop_first() =~= self.http_ports@.subrange(
                i + 1,
                self.http_ports.len() as int,
            ));
            if str_eq(self.http_ports[i].name.as_str(), name) {
                return Some(self.http_ports[i].port);
            }
            i += 1;
        }
        None
    }

    /// The port on which the agent listens: the configured one, or the
    /// default.
    pub fn listen_port(&self) -> (port: u16)
        ensures
            port == match self.app_port {
                Some(p) => p,
                None => DEFAULT_APP_PORT,
            },
    {
        match self.app_port {
            Some(p) => p,
            None => DEFAULT_APP_PORT,
        }
    }
}

/// A name has a port exactly when some entry carries it, and the port is
/// that of an entry with this name.
pub proof fn lemma_lookup_found(entries: Seq<PortEntry>, name: Seq<char>)
    ensures
        lookup(entries, name) is Some <==> exists|i: int|
            0 <= i < entries.len() && (#[trigger] entries[i]).name@ == name,
        lookup(entries, name) matches Some(p) ==> exists|i: int|
            0 <= i < entries.len() && (#[trigger] entries[i]).name@ == name && entries[i].port == p,
    decreases entries.len(),
{
    if entries.len() > 0 {
        if entries[0].name@ == name {
        } else {
            let rest = entries.drop_first();
            lemma_lookup_found(rest, name);
            if lookup(rest, name) is Some {
                let i = choose|i: int|
                    0 <= i < rest.len() && (#[trigger] rest[i]).name@ == name && rest[i].port
                        == lookup(rest, name)->0;
                assert(entries[i + 1] == rest[i]);
            }
            if exists|i: int| 0 <= i < entries.len() && (#[trigger] entries[i]).name@ == name {
                let i = choose|i: int| 0 <= i < entries.len() && (#[trigger] entries[i]).name@ == name;
                assert(rest[i - 1] == entries[i]);
            }
        }
    }
}

/// In a mapping every entry is found under its own name.
pub proof fn lemma_lookup_entry(entries: Seq<PortEntry>, at: int)
    requires
        distinct_names(entries),
        0 <= at < entries.len(),
    ensures
        lookup(entries, entries[at].name@) == Some(entries[at].port),
    decreases at,
{
    if at > 0 {
        let rest = entries.drop_first();
        assert forall|i: int, j: int| 0 <= i < j < rest.len() implies (#[trigger] rest[i]).name@ != (
        #[trigger] rest[j]).name@ by {
            assert(rest[i] == entries[i + 1]);
            assert(rest[j] == entries[j + 1]);
        }
        assert(rest[at - 1] == entries[at]);
        lemma_lookup_entry(rest, at - 1);
    }
}

} // verus!
