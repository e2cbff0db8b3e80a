//! Hosts as they are stored, and the changes that are made to them.

use vstd::prelude::*;

use crate::session_log::SessionLoggingOverride;

verus! {

/// Where a host comes from.
#[derive(Debug, Clone, Copy, PartialEq, Eq, Structural)]
pub enum HostSource {
    /// Created here.
    Launcher,
    /// Read from the user's `ssh_config`.
    SshConfig,
}

/// How a session reaches its host.
#[derive(Debug, Clone, Copy, PartialEq, Eq, Structural)]
pub enum SessionTransport {
    Ssh,
    Mosh,
}

/// A stored login identity, as far as sessions read it.
#[derive(Debug, Clone)]
pub struct Identity {
    pub id: i64,
    pub username: Option<String>,
}

/// A host with a row of its own in the database.
#[derive(Debug, Clone)]
pub struct ManagedHost {
    pub id: i64,
    pub name: String,
    pub source: HostSource,
    pub username: Option<String>,
    pub identity: Option<Identity>,
    pub proxy_jump: Option<String>,
    pub os_icon: Option<String>,
    pub last_connected: Option<i64>,
    pub session_logging: SessionLoggingOverride,
    pub transport: SessionTransport,
}

/// A host as `ssh` resolves it from its configuration.
#[derive(Debug, Clone)]
pub struct SshHost {
    pub name: String,
    pub user: Option<String>,
    pub proxy_jump: Option<String>,
}

/// What is kept of a host that has no row of its own.
#[derive(Debug, Clone)]
pub struct HostMetadata {
    pub host_name: String,
    pub tags: Vec<String>,
    pub description: Option<String>,
    pub environment: Option<String>,
    pub favorite: bool,
    pub last_connected: Option<i64>,
    pub session_logging: SessionLoggingOverride,
    pub transport: SessionTransport,
}

/// A host in the list.
#[derive(Debug, Clone)]
pub enum HostEntry {
    Managed(ManagedHost),
    Legacy { host: SshHost, meta: HostMetadata },
}

/// A change to a stored host. A field that is `None` stays as it is; one that may
/// be empty is emptied by `Some(None)`.
#[derive(Debug, Clone)]
pub struct HostUpdate {
    pub name: Option<String>,
    pub label: Option<Option<String>>,
    pub address: Option<String>,
    pub port: Option<u16>,
    pub username: Option<Option<String>>,
    pub tags: Option<Vec<String>>,
    pub notes: Option<Option<String>>,
    pub environment: Option<Option<String>>,
    pub proxy_jump: Option<Option<String>>,
    pub remote_command: Option<Option<String>>,
    pub forward_agent: Option<bool>,
    pub os_icon: Option<Option<String>>,
    pub session_logging: Option<SessionLoggingOverride>,
    pub transport: Option<SessionTransport>,
    pub favorite: Option<bool>,
    pub identity_id: Option<Option<i64>>,
    pub has_password: Option<bool>,
}

impl HostUpdate {
    /// The change that changes nothing.
    pub open spec fn nothing() -> Self {
        HostUpdate {
            name: None,
            label: None,
            address: None,
            port: None,
            username: None,
            tags: None,
            notes: None,
            environment: None,
            proxy_jump: None,
            remote_command: None,
            forward_agent: None,
            os_icon: None,
            session_logging: None,
            transport: None,
            favorite: None,
            identity_id: None,
            has_password: None,
        }
    }
}

impl Default for HostUpdate {
    fn default() -> (r: Self)
        ensures
            r == Self::nothing(),
    {
        HostUpdate {
            name: None,
            label: None,
            address: None,
            port: None,
            username: None,
            tags: None,
            notes: None,
            environment: None,
            proxy_jump: None,
            remote_command: None,
            forward_agent: None,
            os_icon: None,
            session_logging: None,
            transport: None,
            favorite: None,
            identity_id: None,
            has_password: None,
        }
    }
}

impl HostEntry {
    /// The name by which a host is called.
    pub open spec fn called(self) -> Seq<char> {
        match self {
            HostEntry::Managed(m) => m.name@,
            HostEntry::Legacy { host, meta } => host.name@,
        }
    }

    /// The row of a host that has one.
    pub open spec fn row(self) -> Option<i64> {
        match self {
            HostEntry::Managed(m) => Some(m.id),
            HostEntry::Legacy { host, meta } => None,
        }
    }

    /// The host's own setting for session logging.
    pub open spec fn logging(self) -> SessionLoggingOverride {
        match self {
            HostEntry::Managed(m) => m.session_logging,
            HostEntry::Legacy { host, meta } => meta.session_logging,
        }
    }

    /// How sessions reach the host.
    pub open spec fn reached_by(self) -> SessionTransport {
        match self {
            HostEntry::Managed(m) => m.transport,
            HostEntry::Legacy { host, meta } => meta.transport,
        }
    }

    /// The host with a new time of its last connection.
    pub open spec fn stamped(self, timestamp: i64) -> Self {
        match self {
            HostEntry::Managed(m) => HostEntry::Managed(
                ManagedHost { last_connected: Some(timestamp), ..m },
            ),
            HostEntry::Legacy { host, meta } => HostEntry::Legacy {
                host,
                meta: HostMetadata { last_connected: Some(timestamp), ..meta },
            },
        }
    }

    /// The name by which a host is called.
    pub fn name(&self) -> (r: &String)
        ensures
            r@ == self.called(),
    {
        match self {
            HostEntry::Managed(m) => &m.name,
            HostEntry::Legacy { host, meta: _ } => &host.name,
        }
    }

    /// The row of a host that has one.
    pub fn managed_id(&self) -> (r: Option<i64>)
        ensures
            r == self.row(),
    {
        match self {
            HostEntry::Managed(m) => Some(m.id),
            HostEntry::Legacy { host: _, meta: _ } => None,
        }
    }

    /// The host's own setting for session logging.
    pub fn session_logging_override(&self) -> (r: SessionLoggingOverride)
        ensures
            r == self.logging(),
    {
        match self {
            HostEntry::Managed(m) => m.session_logging,
            HostEntry::Legacy { host: _, meta } => meta.session_logging,
        }
    }

    /// How sessions reach the host.
    pub fn session_transport(&self) -> (r: SessionTransport)
        ensures
            r == self.reached_by(),
    {
        match self {
            HostEntry::Managed(m) => m.transport,
            HostEntry::Legacy { host: _, meta } => meta.transport,
        }
    }
}

/// The first host with a row; the number of hosts, if none has it.
pub open spec fn place_of_row(hosts: Seq<HostEntry>, id: i64) -> int
    decreases hosts.len(),
{
    if hosts.len() == 0 || hosts[0].row() == Some(id) {
        0
    } else {
        1 + place_of_row(hosts.skip(1), id)
    }
}

/// The first host of a name; the number of hosts, if none has it.
pub open spec fn place_of_name(hosts: Seq<HostEntry>, name: Seq<char>) -> int
    decreases hosts.len(),
{
    if hosts.len() == 0 || hosts[0].called() == name {
        0
    } else {
        1 + place_of_name(hosts.skip(1), name)
    }
}

/// The hosts after a connection to one of them. A host with a row is found by it; one
/// without is found by its name, and is stamped only if what is found has no row
/// either.
pub open spec fn stamped_hosts(hosts: Seq<HostEntry>, entry: HostEntry, timestamp: i64) -> Seq<
    HostEntry,
> {
    match entry.row() {
        Some(id) => {
            let i = place_of_row(hosts, id);
            if i < hosts.len() {
                hosts.update(i, hosts[i].stamped(timestamp))
            } else {
                hosts
            }
        },
        None => {
            let i = place_of_name(hosts, entry.called());
            if i < hosts.len() && hosts[i] is Legacy {
                hosts.update(i, hosts[i].stamped(timestamp))
            } else {
                hosts
            }
        },
    }
}

proof fn lemma_place_of_row(hosts: Seq<HostEntry>, id: i64, i: int)
    requires
        0 <= i <= hosts.len(),
        forall|k: int| 0 <= k < i ==> hosts[k].row() != Some(id),
        i < hosts.len() ==> hosts[i].row() == Some(id),
    ensures
        place_of_row(hosts, id) == i,
    decreases hosts.len(),
{
    if i > 0 {
        let rest = hosts.skip(1);
        assert forall|k: int| 0 <= k < i - 1 implies rest[k].row() != Some(id) by {
            assert(hosts[k + 1].row() != Some(id));
        }
        lemma_place_of_row(rest, id, i - 1);
    }
}

proof fn lemma_place_of_name(hosts: Seq<HostEntry>, name: Seq<char>, i: int)
    requires
        0 <= i <= hosts.len(),
        forall|k: int| 0 <= k < i ==> hosts[k].called() != name,
        i < hosts.len() ==> hosts[i].called() == name,
    ensures
        place_of_name(hosts, name) == i,
    decreases hosts.len(),
{
    if i > 0 {
        let rest = hosts.skip(1);
        assert forall|k: int| 0 <= k < i - 1 implies rest[k].called() != name by {
            assert(hosts[k + 1].called() != name);
        }
        lemma_place_of_name(rest, name, i - 1);
    }
}

fn find_row(hosts: &Vec<HostEntry>, id: i64) -> (r: usize)
    ensures
        r == place_of_row(hosts@, id),
        r <= hosts@.len(),
        r < hosts@.len() ==> hosts@[r as int].row() == Some(id),
{
    let mut i: usize = 0;
    while i < hosts.len()
        invariant
            i <= hosts@.len(),
            forall|k: int| 0 <= k < i ==> (#[trigger] hosts@[k]).row() != Some(id),
        decreases hosts@.len() - i,
    {
        if let Some(other) = hosts[i].managed_id() {
            if other == id {
                proof {
                    lemma_place_of_row(hosts@, id, i as int);
                }
                return i;
            }
        }
        i = i + 1;
    }
    proof {
        lemma_place_of_row(hosts@, id, i as int);
    }
    i
}

fn find_name(hosts: &Vec<HostEntry>, name: &str) -> (r: usize)
    ensures
        r == place_of_name(hosts@, name@),
        r <= hosts@.len(),
{
    let mut i: usize = 0;
    while i < hosts.len()
        invariant
            i <= hosts@.len(),
            forall|k: int| 0 <= k < i ==> (#[trigger] hosts@[k]).called() != name@,
        decreases hosts@.len() - i,
    {
        if str::eq(hosts[i].name().as_str(), name) {
            proof {
                lemma_place_of_name(hosts@, name@, i as int);
            }
            return i;
        }
        i = i + 1;
    }
    proof {
        lemma_place_of_name(hosts@, name@, i as int);
    }
    i
}

fn stamp(entry: HostEntry, timestamp: i64) -> (r: HostEntry)
    ensures
        r == entry.stamped(timestamp),
{
    match entry {
        HostEntry::Managed(m) => {
            let mut m = m;
            m.last_connected = Some(timestamp);
            HostEntry::Managed(m)
        },
        HostEntry::Legacy { host, meta } => {
            let mut meta = meta;
            meta.last_connected = Some(timestamp);
            HostEntry::Legacy { host, meta }
        },
    }
}

/// Note in the list of hosts that one of them was connected to.
pub fn record_connected(hosts: &mut Vec<HostEntry>, entry: &HostEntry, timestamp: i64)
    ensures
        final(hosts)@ == stamped_hosts(old(hosts)@, *entry, timestamp),
{
    let i: usize = match entry.managed_id() {
        Some(id) => find_row(hosts, id),
        None => find_name(hosts, entry.name().as_str()),
    };
    if i < hosts.len() {
        let fits: bool = entry.managed_id().is_some() || hosts[i].managed_id().is_none();
        if fits {
            let ghost before = hosts@;
            let found = hosts.remove(i);
            hosts.insert(i, stamp(found, timestamp));
            proof {
                assert(hosts@ =~= before.update(i as int, before[i as int].stamped(timestamp)));
            }
        }
    }
}

/// A connection changes at most one host in the list, and of that one nothing but
/// the time of its last connection.
pub proof fn law_connection_stamps_one(hosts: Seq<HostEntry>, entry: HostEntry, timestamp: i64)
    ensures
        stamped_hosts(hosts, entry, timestamp).len() == hosts.len(),
        forall|i: int, j: int|
            0 <= i < hosts.len() && 0 <= j < hosts.len() && i != j ==> {
                ||| #[trigger] stamped_hosts(hosts, entry, timestamp)[i] == hosts[i]
                ||| #[trigger] stamped_hosts(hosts, entry, timestamp)[j] == hosts[j]
            },
        forall|i: int|
            0 <= i < hosts.len() ==> {
                let after = #[trigger] stamped_hosts(hosts, entry, timestamp)[i];
                after == hosts[i] || after == hosts[i].stamped(timestamp)
            },
{
    lemma_place_bounds(hosts, entry);
}

proof fn lemma_place_bounds(hosts: Seq<HostEntry>, entry: HostEntry)
    ensures
        entry.row() is Some ==> place_of_row(hosts, entry.row()->0) >= 0,
        place_of_name(hosts, entry.called()) >= 0,
    decreases hosts.len(),
{
    if hosts.len() > 0 {
        lemma_place_bounds(hosts.skip(1), entry);
    }
}

/// When a host was last connected to.
pub open spec fn last_seen(entry: HostEntry) -> Option<i64> {
    match entry {
        HostEntry::Managed(m) => m.last_connected,
        HostEntry::Legacy { host, meta } => meta.last_connected,
    }
}

/// Whether two hosts differ in nothing but the time of their last connection.
pub open spec fn same_but_time(a: HostEntry, b: HostEntry) -> bool {
    match (a, b) {
        (HostEntry::Managed(m), HostEntry::Managed(n)) => {
            &&& m.id == n.id && m.name == n.name && m.source == n.source
            &&& m.username == n.username && m.identity == n.identity
            &&& m.proxy_jump == n.proxy_jump && m.os_icon == n.os_icon
            &&& m.session_logging == n.session_logging && m.transport == n.transport
        },
        (
            HostEntry::Legacy { host: h, meta: m },
            HostEntry::Legacy { host: g, meta: n },
        ) => {
            &&& h == g
            &&& m.host_name == n.host_name && m.tags == n.tags
            &&& m.description == n.description && m.environment == n.environment
            &&& m.favorite == n.favorite && m.session_logging == n.session_logging
            &&& m.transport == n.transport
        },
        _ => false,
    }
}

/// Whether a place in a list is the first one at which the host that was connected to
/// is found: by its row if it has one, or else by its name.
pub open spec fn first_found(hosts: Seq<HostEntry>, entry: HostEntry, i: int) -> bool {
    &&& 0 <= i < hosts.len()
    &&& same_host(hosts[i], entry)
    &&& forall|k: int| 0 <= k < i ==> !same_host(#[trigger] hosts[k], entry)
}

/// Whether a host of the list is the one that was connected to.
pub open spec fn same_host(listed: HostEntry, entry: HostEntry) -> bool {
    match entry {
        HostEntry::Managed(m) => listed matches HostEntry::Managed(n) && n.id == m.id,
        HostEntry::Legacy { host, meta } => match listed {
            HostEntry::Managed(n) => n.name@ == host.name@,
            HostEntry::Legacy { host: other, meta: _ } => other.name@ == host.name@,
        },
    }
}

/// The host that was connected to gets the time, and nothing else of it changes; every
/// other host is left alone. Where a host without a row is found by a name that belongs
/// to one with a row, none gets it.
pub proof fn law_connected_host_is_stamped(hosts: Seq<HostEntry>, entry: HostEntry, timestamp: i64)
    ensures
        ({
            let after = stamped_hosts(hosts, entry, timestamp);
            &&& after.len() == hosts.len()
            &&& forall|i: int|
                #![trigger after[i]]
                0 <= i < hosts.len() ==> {
                    &&& same_but_time(after[i], hosts[i])
                    &&& if first_found(hosts, entry, i) && (entry is Managed || hosts[i]
                        is Legacy) {
                        last_seen(after[i]) == Some(timestamp)
                    } else {
                        last_seen(after[i]) == last_seen(hosts[i])
                    }
                }
        }),
{
    let after = stamped_hosts(hosts, entry, timestamp);
    lemma_place_bounds(hosts, entry);
    let at = match entry.row() {
        Some(id) => place_of_row(hosts, id),
        None => place_of_name(hosts, entry.called()),
    };
    lemma_place_is_first(hosts, entry);
    assert forall|i: int|
        #![trigger after[i]]
        0 <= i < hosts.len() implies {
        &&& same_but_time(after[i], hosts[i])
        &&& if first_found(hosts, entry, i) && (entry is Managed || hosts[i] is Legacy) {
            last_seen(after[i]) == Some(timestamp)
        } else {
            last_seen(after[i]) == last_seen(hosts[i])
        }
    } by {
        if i == at {
            assert(first_found(hosts, entry, i));
        } else if first_found(hosts, entry, i) {
            if at < i {
                assert(same_host(hosts[at], entry));
            } else {
                assert(!same_host(hosts[i], entry));
            }
        }
    }
}

proof fn lemma_place_is_first(hosts: Seq<HostEntry>, entry: HostEntry)
    ensures
        ({
            let at = match entry.row() {
                Some(id) => place_of_row(hosts, id),
                None => place_of_name(hosts, entry.called()),
            };
            &&& 0 <= at <= hosts.len()
            &&& at < hosts.len() ==> same_host(hosts[at], entry)
            &&& forall|k: int| 0 <= k < at ==> !same_host(#[trigger] hosts[k], entry)
        }),
    decreases hosts.len(),
{
    if hosts.len() > 0 && !same_host(hosts[0], entry) {
        let rest = hosts.skip(1);
        lemma_place_is_first(rest, entry);
        let at = match entry.row() {
            Some(id) => place_of_row(hosts, id),
            None => place_of_name(hosts, entry.called()),
        };
        assert(at < hosts.len() ==> hosts[at] == rest[at - 1]);
        assert forall|k: int| 0 <= k < at implies !same_host(#[trigger] hosts[k], entry) by {
            if k > 0 {
                assert(hosts[k] == rest[k - 1]);
            }
        }
    }
}

/// What is read of a host is what its row says, or what is kept of one without a row.
pub proof fn law_entry_reads_its_own(entry: HostEntry)
    ensures
        entry is Managed ==> entry.row() == Some(entry->Managed_0.id) && entry.called()
            == entry->Managed_0.name@ && entry.logging() == entry->Managed_0.session_logging
            && entry.reached_by() == entry->Managed_0.transport,
        entry is Legacy ==> entry.row() is None && entry.called() == entry->host.name@
            && entry.logging() == entry->meta.session_logging && entry.reached_by()
            == entry->meta.transport,
{
}

/// The change that changes nothing is the one that asks for nothing, field by field.
pub proof fn law_nothing_is_asked(u: HostUpdate)
    ensures
        u == HostUpdate::nothing() <==> {
            &&& u.name is None
            &&& u.label is None
            &&& u.address is None
            &&& u.port is None
            &&& u.username is None
            &&& u.tags is None
            &&& u.notes is None
            &&& u.environment is None
            &&& u.proxy_jump is None
            &&& u.remote_command is None
            &&& u.forward_agent is None
            &&& u.os_icon is None
            &&& u.session_logging is None
            &&& u.transport is None
            &&& u.favorite is None
            &&& u.identity_id is None
            &&& u.has_password is None
        },
{
}

} // verus!
