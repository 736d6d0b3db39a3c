//! The configured MPD servers and the settings forms that edit them: adding,
//! removing, renaming, choosing the default and the active one, and editing
//! a server's address.
use vstd::prelude::*;
use crate::text::{owned, parse_u16, parsed_unsigned, str_eq, trim, trimmed};

verus! {

/// The port used when none is given or the one given does not read as a
/// port.
pub const DEFAULT_PORT: u16 = 6600;

/// One configured server.
#[derive(Debug, Clone)]
pub struct ServerEntry {
    pub name: String,
    pub host: String,
    pub port: u16,
    pub password: Option<String>,
    pub default_partition: Option<String>,
    pub snapcast_host: Option<String>,
    pub snapcast_port: Option<u16>,
}

/// An optional string as plain characters.
pub open spec fn opt_chars(o: Option<String>) -> Option<Seq<char>> {
    match o {
        Some(s) => Some(s@),
        None => None,
    }
}

/// A [`ServerEntry`] as plain values.
pub struct ServerV {
    pub name: Seq<char>,
    pub host: Seq<char>,
    pub port: u16,
    pub password: Option<Seq<char>>,
    pub default_partition: Option<Seq<char>>,
    pub snapcast_host: Option<Seq<char>>,
    pub snapcast_port: Option<u16>,
}

impl vstd::view::View for ServerEntry {
    type V = ServerV;

    open spec fn view(&self) -> ServerV {
        ServerV {
            name: self.name@,
            host: self.host@,
            port: self.port,
            password: opt_chars(self.password),
            default_partition: opt_chars(self.default_partition),
            snapcast_host: opt_chars(self.snapcast_host),
            snapcast_port: self.snapcast_port,
        }
    }
}

/// The servers' views.
pub open spec fn servers_view(v: Seq<ServerEntry>) -> Seq<ServerV> {
    v.map_values(|s: ServerEntry| s@)
}

/// The servers' names, in order.
pub open spec fn names(v: Seq<ServerV>) -> Seq<Seq<char>> {
    v.map_values(|s: ServerV| s.name)
}

/// The index of the first server named `name`, or -1.
pub open spec fn first_named(v: Seq<ServerV>, name: Seq<char>) -> int
    decreases v.len(),
{
    if v.len() == 0 {
        -1
    } else {
        let r = first_named(v.drop_last(), name);
        if r >= 0 { r } else if v.last().name == name { v.len() - 1 } else { -1 }
    }
}

proof fn lemma_first_named(v: Seq<ServerV>, name: Seq<char>)
    ensures
        -1 <= first_named(v, name) < v.len(),
        first_named(v, name) >= 0 ==> v[first_named(v, name)].name == name,
        forall|j: int| 0 <= j < v.len() && (first_named(v, name) < 0 || j < first_named(v, name))
            ==> #[trigger] v[j].name != name,
    decreases v.len(),
{
    if v.len() > 0 {
        lemma_first_named(v.drop_last(), name);
        assert forall|j: int| 0 <= j < v.len() && (first_named(v, name) < 0 || j < first_named(v, name))
            implies #[trigger] v[j].name != name by {
            if j < v.len() - 1 {
                assert(v[j] == v.drop_last()[j]);
            }
        }
    }
}

/// Is some server named `name`?
pub open spec fn has_named(v: Seq<ServerV>, name: Seq<char>) -> bool {
    exists|j: int| 0 <= j < v.len() && (#[trigger] v[j]).name == name
}

/// The configured servers, the default one, and the one in use.
#[derive(Debug, Clone)]
pub struct ServerList {
    pub servers: Vec<ServerEntry>,
    pub default_server: Option<String>,
    pub active: String,
}

/// A [`ServerList`] as plain values.
pub struct ServerListV {
    pub servers: Seq<ServerV>,
    pub default_server: Option<Seq<char>>,
    pub active: Seq<char>,
}

impl vstd::view::View for ServerList {
    type V = ServerListV;

    open spec fn view(&self) -> ServerListV {
        ServerListV {
            servers: servers_view(self.servers@),
            default_server: opt_chars(self.default_server),
            active: self.active@,
        }
    }
}

/// A trimmed form field, or `None` when it is blank.
pub open spec fn opt_field(s: Seq<char>) -> Option<Seq<char>> {
    if trimmed(s).len() == 0 { None } else { Some(trimmed(s)) }
}

/// A trimmed form field, or `None` when it is blank ("" and "unset" mean the
/// same thing in a form).
pub fn opt_string(s: &str) -> (r: Option<String>)
    ensures
        opt_chars(r) == opt_field(s@),
{
    let t = trim(s);
    if t.as_str().unicode_len() == 0 { None } else { Some(t) }
}

/// The port a form field gives: the field trimmed and read as a port, else
/// `fallback`.
pub open spec fn port_or(field: Seq<char>, fallback: u16) -> u16 {
    match parsed_unsigned(trimmed(field), u16::MAX as nat) {
        Some(p) => p as u16,
        None => fallback,
    }
}

fn read_port(field: &str) -> (r: Option<u16>)
    ensures
        r matches Some(p) ==> parsed_unsigned(trimmed(field@), u16::MAX as nat) == Some(p as nat),
        r is None ==> parsed_unsigned(trimmed(field@), u16::MAX as nat) is None,
{
    let t = trim(field);
    parse_u16(t.as_str())
}

/// The server a valid "add server" form creates.
pub open spec fn added_server(name: Seq<char>, host: Seq<char>, port: Seq<char>, password: Seq<char>) -> ServerV {
    ServerV {
        name: trimmed(name),
        host: trimmed(host),
        port: port_or(port, DEFAULT_PORT),
        password: if password.len() == 0 { None } else { Some(password) },
        default_partition: None,
        snapcast_host: None,
        snapcast_port: None,
    }
}

/// Is the "add server" form acceptable: a name and a host (both trimmed)
/// and no server of that name yet?
pub open spec fn can_add(v: Seq<ServerV>, name: Seq<char>, host: Seq<char>) -> bool {
    trimmed(name).len() > 0 && trimmed(host).len() > 0 && !has_named(v, trimmed(name))
}

/// The servers that remain after removing every one named `name`.
pub open spec fn without_named(v: Seq<ServerV>, name: Seq<char>) -> Seq<ServerV> {
    v.filter(|s: ServerV| s.name != name)
}

/// The server used at startup: the default one, else the first configured,
/// else one called "Default".
pub open spec fn startup_server(servers: Seq<ServerV>, default_server: Option<Seq<char>>) -> Seq<char> {
    match default_server {
        Some(d) => d,
        None => if servers.len() > 0 { servers[0].name } else { "Default"@ },
    }
}

/// The saved partition of the first server named `name`, when some server
/// has that name.
pub open spec fn server_partition(v: Seq<ServerV>, name: Seq<char>) -> Option<Option<Seq<char>>> {
    let k = first_named(v, name);
    if k >= 0 { Some(v[k].default_partition) } else { None }
}

/// The partition to restore after connecting: the server in use's own,
/// else the one saved before servers had their own.
pub open spec fn restored_partition(l: ServerListV, legacy: Option<Seq<char>>) -> Option<Seq<char>> {
    match server_partition(l.servers, l.active) {
        Some(Some(p)) => Some(p),
        _ => legacy,
    }
}

/// The servers after saving the "edit server" form for `name`: the first
/// server of that name takes the trimmed host, the port read from the
/// field (else its own port), the password and Snapcast host as optional
/// fields and the Snapcast port when the field reads as one. Nothing
/// changes without a host or without such a server.
pub open spec fn edited_servers(
    sv: Seq<ServerV>,
    name: Seq<char>,
    host: Seq<char>,
    port: Seq<char>,
    password: Seq<char>,
    snap_host: Seq<char>,
    snap_port: Seq<char>,
) -> Seq<ServerV> {
    let k = first_named(sv, name);
    let h = trimmed(host);
    if h.len() == 0 || k < 0 {
        sv
    } else {
        sv.update(k, ServerV {
            host: h,
            port: port_or(port, sv[k].port),
            password: opt_field(password),
            snapcast_host: opt_field(snap_host),
            snapcast_port: match parsed_unsigned(trimmed(snap_port), u16::MAX as nat) {
                Some(p) => Some(p as u16),
                None => None,
            },
            ..sv[k]
        })
    }
}

/// Must the app reconnect after that edit: the server edited is the one in
/// use and its host, port or password changed?
pub open spec fn edit_reconnects(
    l: ServerListV,
    name: Seq<char>,
    host: Seq<char>,
    port: Seq<char>,
    password: Seq<char>,
) -> bool {
    let sv = l.servers;
    let k = first_named(sv, name);
    let h = trimmed(host);
    h.len() > 0 && k >= 0
        && (h != sv[k].host || port_or(port, sv[k].port) != sv[k].port || opt_field(password) != sv[k].password)
        && l.active == name
}

impl ServerList {
    /// The configured servers and default, using the default server at
    /// startup, else the first configured, else one called "Default".
    pub fn new(servers: Vec<ServerEntry>, default_server: Option<String>) -> (l: ServerList)
        ensures
            l@.servers == servers_view(servers@),
            l@.default_server == opt_chars(default_server),
            l@.active == startup_server(servers_view(servers@), opt_chars(default_server)),
    {
        let active = match &default_server {
            Some(d) => d.clone(),
            None => if servers.len() > 0 { servers[0].name.clone() } else { String::from_str("Default") },
        };
        ServerList { servers, default_server, active }
    }

    /// The index of the first server named `name`, if any.
    fn find(&self, name: &str) -> (r: Option<usize>)
        ensures
            r matches Some(k) ==> k == first_named(self@.servers, name@),
            r is None ==> first_named(self@.servers, name@) == -1,
    {
        let ghost sv = self@.servers;
        proof {
            lemma_first_named(sv, name@);
        }
        let mut i: usize = 0;
        while i < self.servers.len()
            invariant
                i <= self.servers@.len(),
                sv == servers_view(self.servers@),
                -1 <= first_named(sv, name@) < sv.len(),
                first_named(sv, name@) >= 0 ==> sv[first_named(sv, name@)].name == name@,
                forall|j: int| 0 <= j < sv.len() && (first_named(sv, name@) < 0 || j < first_named(sv, name@))
                    ==> #[trigger] sv[j].name != name@,
                forall|j: int| 0 <= j < i ==> #[trigger] sv[j].name != name@,
            decreases self.servers@.len() - i,
        {
            if str_eq(self.servers[i].name.as_str(), name) {
                proof {
                    assert(sv[i as int].name == name@);
                }
                return Some(i);
            }
            i = i + 1;
        }
        None
    }

    /// Is some server named `name`?
    pub fn contains(&self, name: &str) -> (r: bool)
        ensures
            r == has_named(self@.servers, name@),
    {
        proof {
            lemma_first_named(self@.servers, name@);
        }
        match self.find(name) {
            Some(_) => true,
            None => false,
        }
    }

    /// Add a server from the "add server" form: the name and host trimmed,
    /// the port read from the trimmed field (6600 when it does not read as
    /// a port), the password as typed (none when empty). Nothing is added
    /// without a name and a host, or when a server of that name exists.
    /// Returns whether it was added.
    pub fn add_server(&mut self, name: &str, host: &str, port: &str, password: &str) -> (added: bool)
        ensures
            added == can_add(old(self)@.servers, name@, host@),
            added ==> final(self)@.servers == old(self)@.servers.push(added_server(name@, host@, port@, password@)),
            !added ==> final(self)@.servers == old(self)@.servers,
            final(self)@.default_server == old(self)@.default_server,
            final(self)@.active == old(self)@.active,
    {
        let n = trim(name);
        let h = trim(host);
        if n.as_str().unicode_len() == 0 || h.as_str().unicode_len() == 0 || self.contains(n.as_str()) {
            return false;
        }
        let p = match read_port(port) {
            Some(p) => p,
            None => DEFAULT_PORT,
        };
        let pw = if password.unicode_len() == 0 { None } else { Some(owned(password)) };
        let entry = ServerEntry {
            name: n,
            host: h,
            port: p,
            password: pw,
            default_partition: None,
            snapcast_host: None,
            snapcast_port: None,
        };
        let ghost before = self.servers@;
        self.servers.push(entry);
        proof {
            assert(servers_view(self.servers@) =~= servers_view(before).push(added_server(name@, host@, port@, password@)));
        }
        true
    }

    /// Remove every server named `name`, unless it is the only server
    /// left. A default that named it moves to the first server that remains.
    /// Returns the server to switch to when the one in use was removed: the
    /// first that remains.
    pub fn remove_server(&mut self, name: &str) -> (switch_to: Option<String>)
        ensures
            old(self)@.servers.len() <= 1 ==> final(self)@ == old(self)@ && switch_to is None,
            old(self)@.servers.len() > 1 ==> {
                let rest = without_named(old(self)@.servers, name@);
                &&& final(self)@.servers == rest
                &&& final(self)@.active == old(self)@.active
                &&& final(self)@.default_server == (if old(self)@.default_server == Some(name@) {
                        if rest.len() > 0 { Some(rest[0].name) } else { None }
                    } else {
                        old(self)@.default_server
                    })
                &&& opt_chars(switch_to) == (if old(self)@.active == name@ && rest.len() > 0 {
                        Some(rest[0].name)
                    } else {
                        None
                    })
            },
    {
        if self.servers.len() <= 1 {
            return None;
        }
        let ghost sv = self@.servers;
        let ghost pred = |s: ServerV| s.name != name@;
        let mut kept: Vec<ServerEntry> = Vec::new();
        let mut i: usize = 0;
        while i < self.servers.len()
            invariant
                i <= self.servers@.len(),
                sv == servers_view(self.servers@),
                pred == (|s: ServerV| s.name != name@),
                servers_view(kept@) == sv.take(i as int).filter(pred),
            decreases self.servers@.len() - i,
        {
            proof {
                assert(sv.take(i + 1) =~= sv.take(i as int).push(sv[i as int]));
                sv.take(i as int).lemma_filter_push(sv[i as int], pred);
            }
            if !str_eq(self.servers[i].name.as_str(), name) {
                let ghost before = kept@;
                kept.push(copy_entry(&self.servers[i]));
                proof {
                    assert(servers_view(kept@) =~= servers_view(before).push(sv[i as int]));
                }
            }
            i = i + 1;
        }
        proof {
            assert(sv.take(i as int) =~= sv);
        }
        self.servers = kept;
        let default_was_removed = match &self.default_server {
            Some(d) => str_eq(d.as_str(), name),
            None => false,
        };
        if default_was_removed {
            self.default_server = if self.servers.len() > 0 { Some(self.servers[0].name.clone()) } else { None };
        }
        if str_eq(self.active.as_str(), name) && self.servers.len() > 0 {
            Some(self.servers[0].name.clone())
        } else {
            None
        }
    }

    /// Rename the server `old_name` from the rename field: the new name is
    /// the field trimmed, and must be non-empty and not another server's
    /// name. The first server named `old_name` takes it, and so do the
    /// active and the default server when they were `old_name`. Returns
    /// whether the name was accepted.
    pub fn rename_server(&mut self, old_name: &str, input: &str) -> (ok: bool)
        ensures
            ok == rename_ok(old(self)@.servers, old_name@, trimmed(input@)),
            ok ==> final(self)@ == renamed(old(self)@, old_name@, trimmed(input@)),
            !ok ==> final(self)@ == old(self)@,
    {
        let new_name = trim(input);
        if new_name.as_str().unicode_len() == 0 {
            return false;
        }
        if !str_eq(new_name.as_str(), old_name) && self.contains(new_name.as_str()) {
            return false;
        }
        proof {
            lemma_first_named(self@.servers, old_name@);
        }
        let ghost sv = self@.servers;
        match self.find(old_name) {
            Some(k) => {
                self.servers[k].name = new_name.clone();
                proof {
                    assert(servers_view(self.servers@) =~= sv.update(k as int, ServerV { name: new_name@, ..sv[k as int] }));
                }
            },
            None => {},
        }
        if str_eq(self.active.as_str(), old_name) {
            self.active = new_name.clone();
        }
        let default_was_old = match &self.default_server {
            Some(d) => str_eq(d.as_str(), old_name),
            None => false,
        };
        if default_was_old {
            self.default_server = Some(new_name);
        }
        true
    }

    /// Make `name` the default server. Returns whether the server in use has
    /// to change to it (the default is also switched to at once).
    pub fn set_default(&mut self, name: &str) -> (switch: bool)
        ensures
            final(self)@.default_server == Some(name@),
            final(self)@.servers == old(self)@.servers,
            final(self)@.active == old(self)@.active,
            switch == (name@ != old(self)@.active),
    {
        self.default_server = Some(owned(name));
        !str_eq(name, self.active.as_str())
    }

    /// Use the server `name`. Returns whether it changed (switching to the
    /// server already in use does nothing).
    pub fn switch_to(&mut self, name: &str) -> (changed: bool)
        ensures
            changed == (name@ != old(self)@.active),
            final(self)@.active == name@,
            final(self)@.servers == old(self)@.servers,
            final(self)@.default_server == old(self)@.default_server,
    {
        if str_eq(name, self.active.as_str()) {
            return false;
        }
        self.active = owned(name);
        true
    }

    /// The partition to restore after connecting: the server in use's own,
    /// else the one saved before servers had their own (`legacy`).
    pub fn partition_to_restore(&self, legacy: Option<&str>) -> (r: Option<String>)
        ensures
            ({
                let k = first_named(self@.servers, self@.active);
                let own = if k >= 0 { self@.servers[k].default_partition } else { None };
                opt_chars(r) == (match own {
                    Some(p) => Some(p),
                    None => match legacy { Some(l) => Some(l@), None => None },
                })
            }),
    {
        proof {
            lemma_first_named(self@.servers, self@.active);
        }
        let own = match self.find(self.active.as_str()) {
            Some(k) => copy_opt(&self.servers[k].default_partition),
            None => None,
        };
        match own {
            Some(p) => Some(p),
            None => match legacy {
                Some(l) => Some(owned(l)),
                None => None,
            },
        }
    }

    /// The first server named `name`, if any.
    pub fn server_named(&self, name: &str) -> (r: Option<&ServerEntry>)
        ensures
            r matches Some(e) ==> first_named(self@.servers, name@) >= 0
                && e@ == self@.servers[first_named(self@.servers, name@)],
            r is None ==> first_named(self@.servers, name@) < 0,
    {
        proof {
            lemma_first_named(self@.servers, name@);
        }
        match self.find(name) {
            Some(k) => Some(&self.servers[k]),
            None => None,
        }
    }

    /// The saved partition of the first server named `name`, when some
    /// server has that name.
    pub fn partition_of(&self, name: &str) -> (r: Option<Option<String>>)
        ensures
            r matches Some(p) ==> opt_chars(p) == server_partition(self@.servers, name@)->0,
            r is None <==> server_partition(self@.servers, name@) is None,
    {
        proof {
            lemma_first_named(self@.servers, name@);
        }
        match self.find(name) {
            Some(k) => Some(copy_opt(&self.servers[k].default_partition)),
            None => None,
        }
    }

    /// Remember `partition` as the server in use's partition.
    pub fn set_partition(&mut self, partition: &str)
        ensures
            ({
                let sv = old(self)@.servers;
                let k = first_named(sv, old(self)@.active);
                &&& final(self)@.active == old(self)@.active
                &&& final(self)@.default_server == old(self)@.default_server
                &&& k >= 0 ==> final(self)@.servers == sv.update(k, ServerV { default_partition: Some(partition@), ..sv[k] })
                &&& k < 0 ==> final(self)@.servers == sv
            }),
    {
        proof {
            lemma_first_named(self@.servers, self@.active);
        }
        let ghost sv = self@.servers;
        let active = self.active.clone();
        match self.find(active.as_str()) {
            Some(k) => {
                self.servers[k].default_partition = Some(owned(partition));
                proof {
                    assert(servers_view(self.servers@) =~= sv.update(k as int, ServerV { default_partition: Some(partition@), ..sv[k as int] }));
                }
            },
            None => {},
        }
    }

    /// Save the "edit server" form for `name`: the host trimmed (nothing is
    /// saved without one), the port read from the trimmed field (keeping the
    /// server's own port when it does not read as a port), the password and
    /// Snapcast host as optional fields, the Snapcast port read when it
    /// reads as one. Returns whether the app must reconnect: the server
    /// edited is the one in use and its host, port or password changed.
    pub fn edit_server(
        &mut self,
        name: &str,
        host: &str,
        port: &str,
        password: &str,
        snap_host: &str,
        snap_port: &str,
    ) -> (reconnect: bool)
        ensures
            final(self)@.active == old(self)@.active,
            final(self)@.default_server == old(self)@.default_server,
            final(self)@.servers == edited_servers(old(self)@.servers, name@, host@, port@, password@, snap_host@, snap_port@),
            reconnect == edit_reconnects(old(self)@, name@, host@, port@, password@),
    {
        let h = trim(host);
        if h.as_str().unicode_len() == 0 {
            return false;
        }
        proof {
            lemma_first_named(self@.servers, name@);
        }
        let ghost sv = self@.servers;
        match self.find(name) {
            Some(k) => {
                let new_port = match read_port(port) {
                    Some(p) => p,
                    None => self.servers[k].port,
                };
                let pw = opt_string(password);
                let sh = opt_string(snap_host);
                let sp = read_port(snap_port);
                let changed = !str_eq(h.as_str(), self.servers[k].host.as_str())
                    || new_port != self.servers[k].port
                    || !same_opt(&pw, &self.servers[k].password);
                self.servers[k].host = h;
                self.servers[k].port = new_port;
                self.servers[k].password = pw;
                self.servers[k].snapcast_host = sh;
                self.servers[k].snapcast_port = sp;
                proof {
                    assert(servers_view(self.servers@) =~= sv.update(k as int, ServerV {
                        host: trimmed(host@),
                        port: new_port,
                        password: opt_field(password@),
                        snapcast_host: opt_field(snap_host@),
                        snapcast_port: match parsed_unsigned(trimmed(snap_port@), u16::MAX as nat) {
                            Some(p) => Some(p as u16),
                            None => None,
                        },
                        ..sv[k as int]
                    }));
                }
                changed && str_eq(self.active.as_str(), name)
            },
            None => false,
        }
    }
}

fn copy_opt(o: &Option<String>) -> (r: Option<String>)
    ensures
        opt_chars(r) == opt_chars(*o),
{
    match o {
        Some(s) => Some(s.clone()),
        None => None,
    }
}

fn copy_entry(e: &ServerEntry) -> (r: ServerEntry)
    ensures
        r@ == e@,
{
    ServerEntry {
        name: e.name.clone(),
        host: e.host.clone(),
        port: e.port,
        password: copy_opt(&e.password),
        default_partition: copy_opt(&e.default_partition),
        snapcast_host: copy_opt(&e.snapcast_host),
        snapcast_port: e.snapcast_port,
    }
}

fn same_opt(a: &Option<String>, b: &Option<String>) -> (r: bool)
    ensures
        r == (opt_chars(*a) == opt_chars(*b)),
{
    match (a, b) {
        (Some(x), Some(y)) => str_eq(x.as_str(), y.as_str()),
        (None, None) => true,
        _ => false,
    }
}

/// Is `new_name` acceptable as the new name of `old_name`: non-empty, and
/// no other server's name?
pub open spec fn rename_ok(v: Seq<ServerV>, old_name: Seq<char>, new_name: Seq<char>) -> bool {
    new_name.len() > 0 && (new_name == old_name || !has_named(v, new_name))
}

/// The list after renaming `old_name` to `new_name`.
pub open spec fn renamed(l: ServerListV, old_name: Seq<char>, new_name: Seq<char>) -> ServerListV {
    let k = first_named(l.servers, old_name);
    ServerListV {
        servers: if k >= 0 { l.servers.update(k, ServerV { name: new_name, ..l.servers[k] }) } else { l.servers },
        default_server: if l.default_server == Some(old_name) { Some(new_name) } else { l.default_server },
        active: if l.active == old_name { new_name } else { l.active },
    }
}

/// Adding a server keeps the names distinct: the form is refused for a
/// name already in use.
pub proof fn law_add_keeps_names_distinct(v: Seq<ServerV>, name: Seq<char>, host: Seq<char>, port: Seq<char>, password: Seq<char>)
    requires
        names(v).no_duplicates(),
        can_add(v, name, host),
    ensures
        names(v.push(added_server(name, host, port, password))).no_duplicates(),
{
    let w = v.push(added_server(name, host, port, password));
    assert forall|i: int, j: int| 0 <= i < j < names(w).len() implies names(w)[i] != names(w)[j] by {
        if j == v.len() {
            assert(names(w)[i] == v[i].name);
            if v[i].name == trimmed(name) {
                assert(has_named(v, trimmed(name)));
            }
        } else {
            assert(names(w)[i] == names(v)[i] && names(w)[j] == names(v)[j]);
        }
    }
}

/// Removing a server keeps the names distinct, leaves no server of that
/// name, and, when the names are distinct and there is more than one
/// server, leaves at least one.
pub proof fn law_remove_keeps_names_distinct(v: Seq<ServerV>, name: Seq<char>)
    requires
        names(v).no_duplicates(),
    ensures
        names(without_named(v, name)).no_duplicates(),
        !has_named(without_named(v, name), name),
        v.len() > 1 ==> without_named(v, name).len() >= 1,
    decreases v.len(),
{
    let pred = |s: ServerV| s.name != name;
    if v.len() == 0 {
        assert(without_named(v, name) =~= v) by {
            reveal(Seq::filter);
        }
    } else {
        let init = v.drop_last();
        assert(names(init) =~= names(v).drop_last());
        assert(names(init).no_duplicates());
        law_remove_keeps_names_distinct(init, name);
        assert(init.push(v.last()) =~= v);
        init.lemma_filter_push(v.last(), pred);
        let r0 = without_named(init, name);
        let r = without_named(v, name);
        if pred(v.last()) {
            assert(r == r0.push(v.last()));
            assert forall|i: int, j: int| 0 <= i < j < names(r).len() implies names(r)[i] != names(r)[j] by {
                if j == r0.len() {
                    assert(names(r)[i] == r0[i].name);
                    if r0[i].name == v.last().name {
                        assert(r0.contains(r0[i]));
                        init.lemma_filter_contains_rev(pred, r0[i]);
                        let k = choose|k: int| 0 <= k < init.len() && init[k] == r0[i];
                        assert(names(v)[k] == names(v)[v.len() - 1]);
                    }
                } else {
                    assert(names(r)[i] == names(r0)[i] && names(r)[j] == names(r0)[j]);
                }
            }
            assert forall|j: int| 0 <= j < r.len() implies (#[trigger] r[j]).name != name by {
                if j < r0.len() {
                    assert(r[j] == r0[j]);
                }
            }
        } else {
            assert(r == r0);
            if v.len() > 1 {
                // The last server is named `name`; the one before it is not, as
                // the names are distinct, so it stays.
                let prev = init.last();
                assert(names(v)[v.len() - 2] != names(v)[v.len() - 1]);
                assert(init.drop_last().push(prev) =~= init);
                init.drop_last().lemma_filter_push(prev, pred);
                init.drop_last().lemma_filter_len(pred);
            }
        }
    }
}

/// Renaming keeps the names distinct: a name in use by another server is
/// refused.
pub proof fn law_rename_keeps_names_distinct(l: ServerListV, old_name: Seq<char>, new_name: Seq<char>)
    requires
        names(l.servers).no_duplicates(),
        rename_ok(l.servers, old_name, new_name),
    ensures
        names(renamed(l, old_name, new_name).servers).no_duplicates(),
{
    lemma_first_named(l.servers, old_name);
    let k = first_named(l.servers, old_name);
    if k >= 0 {
        let w = renamed(l, old_name, new_name).servers;
        assert forall|i: int, j: int| 0 <= i < j < names(w).len() implies names(w)[i] != names(w)[j] by {
            assert(names(l.servers)[i] == l.servers[i].name);
            assert(names(l.servers)[j] == l.servers[j].name);
            if i == k || j == k {
                let o = if i == k { j } else { i };
                if new_name != old_name {
                    if l.servers[o].name == new_name {
                        assert(has_named(l.servers, new_name));
                    }
                }
            }
        }
    }
}

/// How a server's row in Settings reads.
#[derive(Debug, Clone, Copy, PartialEq, Eq, Structural)]
pub struct ServerRow {
    /// It is the server in use (highlighted, with a status dot instead of
    /// Connect).
    pub active: bool,
    /// It is the default (a badge instead of "Set as default").
    pub default: bool,
    /// Remove is offered: there is more than one server.
    pub removable: bool,
    /// Its rename field is open.
    pub renaming: bool,
    /// Its edit form is open.
    pub editing: bool,
}

/// How the row of the server at `index` reads, given the server being
/// renamed and the one being edited, if any.
pub fn server_row(list: &ServerList, index: usize, renaming: Option<&str>, editing: Option<&str>) -> (r: ServerRow)
    requires
        index < list@.servers.len(),
    ensures
        ({
            let name = list@.servers[index as int].name;
            r == ServerRow {
                active: name == list@.active,
                default: list@.default_server == Some(name),
                removable: list@.servers.len() > 1,
                renaming: renaming matches Some(n) && n@ == name,
                editing: editing matches Some(n) && n@ == name,
            }
        }),
{
    let name = list.servers[index].name.as_str();
    let default = match &list.default_server {
        Some(d) => str_eq(d.as_str(), name),
        None => false,
    };
    let renaming_it = match renaming {
        Some(n) => str_eq(n, name),
        None => false,
    };
    let editing_it = match editing {
        Some(n) => str_eq(n, name),
        None => false,
    };
    ServerRow {
        active: str_eq(name, list.active.as_str()),
        default,
        removable: list.servers.len() > 1,
        renaming: renaming_it,
        editing: editing_it,
    }
}


/// The server used at startup is the default one when there is one, else
/// the first configured, else one called "Default".
pub proof fn law_startup_server(servers: Seq<ServerV>, default_server: Option<Seq<char>>)
    ensures
        default_server matches Some(d) ==> startup_server(servers, default_server) == d,
        default_server is None && servers.len() > 0 ==> startup_server(servers, default_server) == servers[0].name,
        default_server is None && servers.len() == 0 ==> startup_server(servers, default_server) == "Default"@,
{
}


/// A server added from the form has the trimmed name and host, the port
/// typed (6600 when the field does not read as a port), the password as
/// typed (none when empty), and no partition or Snapcast address of its
/// own; the form is accepted only with a name and a host not already
/// taken.
pub proof fn law_added_server(v: Seq<ServerV>, name: Seq<char>, host: Seq<char>, port: Seq<char>, password: Seq<char>)
    ensures
        added_server(name, host, port, password).name == trimmed(name),
        added_server(name, host, port, password).host == trimmed(host),
        added_server(name, host, port, password).port == (match parsed_unsigned(trimmed(port), u16::MAX as nat) {
            Some(p) => p as u16,
            None => 6600u16,
        }),
        added_server(name, host, port, password).password == (if password.len() == 0 { None } else { Some(password) }),
        added_server(name, host, port, password).default_partition is None,
        added_server(name, host, port, password).snapcast_host is None,
        can_add(v, name, host) <==> (trimmed(name).len() > 0 && trimmed(host).len() > 0
            && forall|i: int| 0 <= i < v.len() ==> (#[trigger] v[i]).name != trimmed(name)),
{
    lemma_first_named(v, trimmed(name));
    if has_named(v, trimmed(name)) {
        let k = first_named(v, trimmed(name));
        assert(v[k].name == trimmed(name));
    }
}

} // verus!
