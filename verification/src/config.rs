//! The proxy configuration and its table of backends.

use vstd::prelude::*;
use crate::protocol::{ProtocolDetector, detected_protocol};

verus! {

/// The status text announced when none is configured.
pub const DEFAULT_STATUS: &'static str = "@BSPROXY";

/// A table from protocol names to backend addresses; each name occurs once.
pub struct Backends {
    entries: Vec<(String, String)>,
}

/// The names of `entries` are pairwise distinct.
pub open spec fn distinct_names(entries: Seq<(String, String)>) -> bool {
    forall|i: int, j: int|
        0 <= i < entries.len() && 0 <= j < entries.len() && i != j ==> #[trigger] entries[i].0@
            != #[trigger] entries[j].0@
}

/// The table that `pairs` make when inserted in order (a later pair for a
/// name replaces an earlier one).
pub open spec fn table_of(pairs: Seq<(String, String)>) -> Map<Seq<char>, Seq<char>>
    decreases pairs.len(),
{
    if pairs.len() == 0 {
        Map::empty()
    } else {
        table_of(pairs.drop_last()).insert(pairs.last().0@, pairs.last().1@)
    }
}

/// The map that distinct-named `entries` stand for.
pub open spec fn view_of(entries: Seq<(String, String)>) -> Map<Seq<char>, Seq<char>> {
    Map::new(
        |name: Seq<char>| exists|i: int| 0 <= i < entries.len() && #[trigger] entries[i].0@ == name,
        |name: Seq<char>| entries[choose|i: int| 0 <= i < entries.len() && #[trigger] entries[i].0@ == name].1@,
    )
}

proof fn lemma_view_at(entries: Seq<(String, String)>, i: int)
    requires
        distinct_names(entries),
        0 <= i < entries.len(),
    ensures
        view_of(entries).contains_key(entries[i].0@),
        view_of(entries)[entries[i].0@] == entries[i].1@,
{
    let name = entries[i].0@;
    assert(view_of(entries).dom().contains(name));
    let j = choose|j: int| 0 <= j < entries.len() && #[trigger] entries[j].0@ == name;
    assert(j == i);
}

/// Replacing the entry at `i` by one of the same name changes only the
/// value of that name.
proof fn lemma_view_update(entries: Seq<(String, String)>, i: int, entry: (String, String))
    requires
        distinct_names(entries),
        0 <= i < entries.len(),
        entries[i].0@ == entry.0@,
    ensures
        distinct_names(entries.update(i, entry)),
        view_of(entries.update(i, entry)) == view_of(entries).insert(entry.0@, entry.1@),
{
    let after = entries.update(i, entry);
    assert(distinct_names(after)) by {
        assert forall|a: int, b: int|
            0 <= a < after.len() && 0 <= b < after.len() && a != b implies #[trigger] after[a].0@
            != #[trigger] after[b].0@ by {
            assert(entries[a].0@ != entries[b].0@);
        }
    }
    let expected = view_of(entries).insert(entry.0@, entry.1@);
    assert forall|name: Seq<char>| #[trigger] view_of(after).contains_key(name) == expected.contains_key(name) by {
        if view_of(after).contains_key(name) {
            let j = choose|j: int| 0 <= j < after.len() && #[trigger] after[j].0@ == name;
            if j != i {
                lemma_view_at(entries, j);
            }
        }
        if view_of(entries).contains_key(name) {
            let j = choose|j: int| 0 <= j < entries.len() && #[trigger] entries[j].0@ == name;
            assert(after[j].0@ == name);
        }
        lemma_view_at(after, i);
    }
    assert forall|name: Seq<char>| #[trigger] view_of(after).contains_key(name) implies view_of(after)[name]
        == expected[name] by {
        let j = choose|j: int| 0 <= j < after.len() && #[trigger] after[j].0@ == name;
        lemma_view_at(after, j);
        if j != i {
            lemma_view_at(entries, j);
        }
    }
    assert(view_of(after) =~= expected);
}

/// Appending an entry under a new name adds just that name.
proof fn lemma_view_push(entries: Seq<(String, String)>, entry: (String, String))
    requires
        distinct_names(entries),
        forall|k: int| 0 <= k < entries.len() ==> #[trigger] entries[k].0@ != entry.0@,
    ensures
        distinct_names(entries.push(entry)),
        view_of(entries.push(entry)) == view_of(entries).insert(entry.0@, entry.1@),
{
    let after = entries.push(entry);
    let i = entries.len() as int;
    assert(distinct_names(after)) by {
        assert forall|a: int, b: int|
            0 <= a < after.len() && 0 <= b < after.len() && a != b implies #[trigger] after[a].0@
            != #[trigger] after[b].0@ by {
            if a < i && b < i {
                assert(entries[a].0@ != entries[b].0@);
            }
        }
    }
    let expected = view_of(entries).insert(entry.0@, entry.1@);
    assert forall|name: Seq<char>| #[trigger] view_of(after).contains_key(name) == expected.contains_key(name) by {
        if view_of(after).contains_key(name) {
            let j = choose|j: int| 0 <= j < after.len() && #[trigger] after[j].0@ == name;
            if j != i {
                assert(entries[j].0@ == name);
            }
        }
        if view_of(entries).contains_key(name) {
            let j = choose|j: int| 0 <= j < entries.len() && #[trigger] entries[j].0@ == name;
            assert(after[j].0@ == name);
        }
        lemma_view_at(after, i);
    }
    assert forall|name: Seq<char>| #[trigger] view_of(after).contains_key(name) implies view_of(after)[name]
        == expected[name] by {
        let j = choose|j: int| 0 <= j < after.len() && #[trigger] after[j].0@ == name;
        lemma_view_at(after, j);
        if j != i {
            assert(after[j] == entries[j]);
            lemma_view_at(entries, j);
        }
    }
    assert(view_of(after) =~= expected);
}

/// The position of the entry named `name` in `entries`, if any.
fn position_in(entries: &Vec<(String, String)>, name: &String) -> (pos: Option<usize>)
    ensures
        pos matches Some(i) ==> i < entries@.len() && entries@[i as int].0@ == name@,
        pos is None ==> forall|i: int| 0 <= i < entries@.len() ==> #[trigger] entries@[i].0@ != name@,
{
    let mut i: usize = 0;
    while i < entries.len()
        invariant
            i <= entries@.len(),
            forall|k: int| 0 <= k < i ==> #[trigger] entries@[k].0@ != name@,
        decreases entries@.len() - i,
    {
        if entries[i].0 == *name {
            return Some(i);
        }
        i = i + 1;
    }
    None
}

impl Backends {
    #[verifier::type_invariant]
    spec fn names_are_distinct(self) -> bool {
        distinct_names(self.entries@)
    }

    /// The table as a map from names to addresses.
    pub closed spec fn view(&self) -> Map<Seq<char>, Seq<char>> {
        view_of(self.entries@)
    }

    /// An empty table.
    pub fn new() -> (table: Self)
        ensures
            table.view() == Map::<Seq<char>, Seq<char>>::empty(),
    {
        let table = Backends { entries: Vec::new() };
        assert(table.view() =~= Map::<Seq<char>, Seq<char>>::empty());
        table
    }

    /// The address of the backend named `name`, if there is one.
    pub fn get(&self, name: &str) -> (address: Option<&String>)
        ensures
            address matches Some(a) ==> self.view().contains_key(name@) && a@ == self.view()[name@],
            address is None ==> !self.view().contains_key(name@),
    {
        proof {
            use_type_invariant(self);
        }
        let key = name.to_owned();
        match position_in(&self.entries, &key) {
            Some(i) => {
                proof {
                    lemma_view_at(self.entries@, i as int);
                }
                Some(&self.entries[i].1)
            },
            None => None,
        }
    }

    /// Sets the address of the backend named `name`, replacing any earlier one.
    pub fn insert(&mut self, name: String, address: String)
        ensures
            final(self).view() == old(self).view().insert(name@, address@),
    {
        proof {
            use_type_invariant(&*self);
        }
        let mut entries: Vec<(String, String)> = Vec::new();
        std::mem::swap(&mut entries, &mut self.entries);
        let ghost before = entries@;
        match position_in(&entries, &name) {
            Some(i) => {
                proof {
                    lemma_view_update(before, i as int, (name, address));
                }
                entries.set(i, (name, address));
            },
            None => {
                proof {
                    lemma_view_push(before, (name, address));
                }
                entries.push((name, address));
            },
        }
        self.entries = entries;
    }

    /// A table holding `pairs`, inserted in order (a later pair for a name
    /// replaces an earlier one).
    pub fn from_pairs(pairs: Vec<(String, String)>) -> (table: Self)
        ensures
            table.view() == table_of(pairs@),
    {
        let mut table = Backends::new();
        let mut i: usize = 0;
        while i < pairs.len()
            invariant
                i <= pairs@.len(),
                table.view() == table_of(pairs@.take(i as int)),
            decreases pairs@.len() - i,
        {
            let name = pairs[i].0.clone();
            let address = pairs[i].1.clone();
            table.insert(name, address);
            assert(pairs@.take(i + 1).drop_last() =~= pairs@.take(i as int));
            i = i + 1;
        }
        assert(pairs@.take(pairs@.len() as int) =~= pairs@);
        table
    }

    /// The entries of the table, each name once.
    pub fn entries(&self) -> (entries: &Vec<(String, String)>)
        ensures
            distinct_names(entries@),
            view_of(entries@) == self.view(),
    {
        proof {
            use_type_invariant(self);
        }
        &self.entries
    }
}

/// What the proxy does with a connection, by the protocol its first bytes name.
pub enum Dispatch {
    /// Run the SOCKS5 handshake.
    Socks5,
    /// A TLS connection (no handler yet).
    Tls,
    /// Tunnel to this backend address.
    Forward(String),
}

/// The proxy configuration.
pub struct Config {
    /// Backend address for each protocol name.
    pub backends: Backends,
    /// The status text announced to HTTP clients.
    pub status_msg: String,
    /// Seconds a tunnel may stay idle.
    pub idle_timeout: u64,
    /// Connections served at once.
    pub max_connections: usize,
    /// Addresses always admitted.
    pub whitelist: Vec<String>,
}

/// The backend for protocol `protocol`: its own when configured, otherwise
/// the SSH backend.
pub open spec fn backend_of(backends: Map<Seq<char>, Seq<char>>, protocol: Seq<char>) -> Seq<char> {
    if backends.contains_key(protocol) {
        backends[protocol]
    } else {
        backends["ssh"@]
    }
}

/// The backends of the built-in configuration.
pub open spec fn default_backends() -> Map<Seq<char>, Seq<char>> {
    map![
        "ssh"@ => "127.0.0.1:22"@,
        "ovpn"@ => "127.0.0.1:1194"@,
        "socks5"@ => "127.0.0.1:1080"@,
        "tls"@ => "127.0.0.1:443"@,
    ]
}

impl Default for Config {
    /// The built-in configuration, used when no configuration file is read.
    fn default() -> (config: Self)
        ensures
            config.backends.view() == default_backends(),
            config.status_msg@ == "@BSPROXY"@,
            config.idle_timeout == 300,
            config.max_connections == 500,
            config.whitelist@.len() == 0,
    {
        let pairs = vec![
            ("ssh".to_owned(), "127.0.0.1:22".to_owned()),
            ("ovpn".to_owned(), "127.0.0.1:1194".to_owned()),
            ("socks5".to_owned(), "127.0.0.1:1080".to_owned()),
            ("tls".to_owned(), "127.0.0.1:443".to_owned()),
        ];
        let backends = Backends::from_pairs(pairs);
        proof {
            reveal_with_fuel(table_of, 5);
            assert(table_of(pairs@) =~= default_backends());
        }
        Config {
            backends,
            status_msg: DEFAULT_STATUS.to_owned(),
            idle_timeout: 300,
            max_connections: 500,
            whitelist: Vec::new(),
        }
    }
}

impl Config {
    /// The backend address for protocol `protocol`: its own backend when one
    /// is configured, otherwise the SSH backend (which must be configured).
    pub fn backend_for(&self, protocol: &str) -> (address: String)
        requires
            self.backends.view().contains_key("ssh"@),
        ensures
            address@ == backend_of(self.backends.view(), protocol@),
    {
        let ssh = self.backends.get("ssh");
        match self.backends.get(protocol) {
            Some(address) => address.clone(),
            None => match ssh {
                Some(address) => address.clone(),
                None => {
                    assert(false);
                    String::new()
                },
            },
        }
    }

    /// What to do with a connection whose first bytes are `data`: SOCKS5 and
    /// TLS get their own handling, anything else is tunnelled to the backend
    /// of the detected protocol (the SSH backend must then be configured).
    pub fn dispatch(&self, data: &[u8]) -> (dispatch: Dispatch)
        requires
            detected_protocol(data@) != "socks5"@ && detected_protocol(data@) != "tls"@
                ==> self.backends.view().contains_key("ssh"@),
        ensures
            detected_protocol(data@) == "socks5"@ ==> dispatch is Socks5,
            detected_protocol(data@) == "tls"@ ==> dispatch is Tls,
            detected_protocol(data@) != "socks5"@ && detected_protocol(data@) != "tls"@ ==> (dispatch matches Dispatch::Forward(address)
                && address@ == backend_of(self.backends.view(), detected_protocol(data@))),
    {
        let protocol = ProtocolDetector::detect(data);
        let socks5 = "socks5".to_owned();
        let tls = "tls".to_owned();
        proof {
            reveal_strlit("socks5");
            reveal_strlit("tls");
            assert("tls"@.len() != "socks5"@.len());
        }
        if protocol == socks5 {
            Dispatch::Socks5
        } else if protocol == tls {
            Dispatch::Tls
        } else {
            Dispatch::Forward(self.backend_for(protocol.as_str()))
        }
    }
}

/// A table built from pairs holds exactly the names of the pairs, each with
/// the address of its last pair: a later pair for a name replaces an earlier
/// one.
pub proof fn later_pairs_win(pairs: Seq<(String, String)>, name: Seq<char>, i: int)
    requires
        0 <= i < pairs.len(),
        pairs[i].0@ == name,
        forall|j: int| i < j < pairs.len() ==> #[trigger] pairs[j].0@ != name,
    ensures
        table_of(pairs).contains_key(name),
        table_of(pairs)[name] == pairs[i].1@,
    decreases pairs.len(),
{
    if i < pairs.len() - 1 {
        later_pairs_win(pairs.drop_last(), name, i);
    }
}

/// A name that no pair carries is not in the table built from the pairs.
pub proof fn unnamed_is_absent(pairs: Seq<(String, String)>, name: Seq<char>)
    requires
        forall|j: int| 0 <= j < pairs.len() ==> #[trigger] pairs[j].0@ != name,
    ensures
        !table_of(pairs).contains_key(name),
    decreases pairs.len(),
{
    if pairs.len() > 0 {
        unnamed_is_absent(pairs.drop_last(), name);
    }
}

/// A name without a backend of its own is sent to the SSH backend; the SSH
/// backend itself is found under its own name.
pub proof fn unknown_protocols_go_to_ssh(backends: Map<Seq<char>, Seq<char>>, protocol: Seq<char>)
    requires
        backends.contains_key("ssh"@),
        !backends.contains_key(protocol),
    ensures
        backend_of(backends, protocol) == backend_of(backends, "ssh"@),
{
}

} // verus!
