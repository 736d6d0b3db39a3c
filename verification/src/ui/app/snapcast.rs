//! The local Snapcast state: what a control changes on screen at once,
//! before the server confirms it, and what has to be sent to the server.
use vstd::prelude::*;
use crate::model::{groups_view, SnapClientV, SnapGroup, SnapGroupV};
use crate::text::str_eq;

verus! {

/// The group with `id` playing `stream`; other groups unchanged.
pub open spec fn group_with_stream(g: SnapGroupV, id: Seq<char>, stream: Seq<char>) -> SnapGroupV {
    if g.id == id { SnapGroupV { stream_id: stream, ..g } } else { g }
}

/// The group with `id` muted or not; other groups unchanged.
pub open spec fn group_with_mute(g: SnapGroupV, id: Seq<char>, muted: bool) -> SnapGroupV {
    if g.id == id { SnapGroupV { muted, ..g } } else { g }
}

/// The client with `id` at volume `v`; other clients unchanged.
pub open spec fn client_with_volume(c: SnapClientV, id: Seq<char>, v: u8) -> SnapClientV {
    if c.id == id { SnapClientV { volume: v, ..c } } else { c }
}

/// The client with `id` muted or not; other clients unchanged.
pub open spec fn client_with_mute(c: SnapClientV, id: Seq<char>, muted: bool) -> SnapClientV {
    if c.id == id { SnapClientV { muted, ..c } } else { c }
}

/// Every client with `id`, in every group, at volume `v`.
pub open spec fn groups_with_volume(gs: Seq<SnapGroupV>, id: Seq<char>, v: u8) -> Seq<SnapGroupV> {
    gs.map_values(|g: SnapGroupV| SnapGroupV {
        clients: g.clients.map_values(|c: SnapClientV| client_with_volume(c, id, v)),
        ..g
    })
}

/// Every client with `id`, in every group, muted or not.
pub open spec fn groups_with_client_mute(gs: Seq<SnapGroupV>, id: Seq<char>, muted: bool) -> Seq<SnapGroupV> {
    gs.map_values(|g: SnapGroupV| SnapGroupV {
        clients: g.clients.map_values(|c: SnapClientV| client_with_mute(c, id, muted)),
        ..g
    })
}

/// All clients of all groups, group by group.
pub open spec fn flat(gs: Seq<SnapGroupV>) -> Seq<SnapClientV>
    decreases gs.len(),
{
    if gs.len() == 0 {
        seq![]
    } else {
        flat(gs.drop_last()) + gs.last().clients
    }
}

/// The last client in `cs` with `id`, if any.
pub open spec fn last_match(cs: Seq<SnapClientV>, id: Seq<char>) -> Option<SnapClientV>
    decreases cs.len(),
{
    if cs.len() == 0 {
        None
    } else if cs.last().id == id {
        Some(cs.last())
    } else {
        last_match(cs.drop_last(), id)
    }
}

proof fn lemma_last_match_push(cs: Seq<SnapClientV>, c: SnapClientV, id: Seq<char>)
    ensures
        last_match(cs.push(c), id) == (if c.id == id { Some(c) } else { last_match(cs, id) }),
{
    assert(cs.push(c).drop_last() =~= cs);
}

proof fn lemma_flat_take(gs: Seq<SnapGroupV>, i: int)
    requires
        0 <= i < gs.len(),
    ensures
        flat(gs.take(i + 1)) == flat(gs.take(i)) + gs[i].clients,
{
    assert(gs.take(i + 1).drop_last() =~= gs.take(i));
}

/// Switch the group `group_id` to `stream_id`.
pub fn set_group_stream(groups: &mut Vec<SnapGroup>, group_id: &str, stream_id: &str)
    ensures
        groups_view(final(groups)@) == groups_view(old(groups)@).map_values(
            |g: SnapGroupV| group_with_stream(g, group_id@, stream_id@),
        ),
{
    let ghost g0 = groups_view(groups@);
    let mut i: usize = 0;
    while i < groups.len()
        invariant
            i <= groups@.len(),
            g0.len() == groups@.len(),
            forall|k: int| 0 <= k < i ==> groups@[k]@ == group_with_stream(g0[k], group_id@, stream_id@),
            forall|k: int| i <= k < groups@.len() ==> groups@[k]@ == g0[k],
        decreases groups@.len() - i,
    {
        if str_eq(groups[i].id.as_str(), group_id) {
            groups[i].stream_id = String::from_str(stream_id);
        }
        i = i + 1;
    }
    assert(groups_view(groups@) =~= g0.map_values(|g: SnapGroupV| group_with_stream(g, group_id@, stream_id@)));
}

/// Toggle the mute of group `group_id`, which was `was_muted`; every group
/// with that id takes the new state, which is returned.
pub fn toggle_group_mute(groups: &mut Vec<SnapGroup>, group_id: &str, was_muted: bool) -> (muted: bool)
    ensures
        muted == !was_muted,
        groups_view(final(groups)@) == groups_view(old(groups)@).map_values(
            |g: SnapGroupV| group_with_mute(g, group_id@, !was_muted),
        ),
{
    let new_muted = !was_muted;
    let ghost g0 = groups_view(groups@);
    let mut i: usize = 0;
    while i < groups.len()
        invariant
            i <= groups@.len(),
            g0.len() == groups@.len(),
            new_muted == !was_muted,
            forall|k: int| 0 <= k < i ==> groups@[k]@ == group_with_mute(g0[k], group_id@, new_muted),
            forall|k: int| i <= k < groups@.len() ==> groups@[k]@ == g0[k],
        decreases groups@.len() - i,
    {
        if str_eq(groups[i].id.as_str(), group_id) {
            groups[i].muted = new_muted;
        }
        i = i + 1;
    }
    assert(groups_view(groups@) =~= g0.map_values(|g: SnapGroupV| group_with_mute(g, group_id@, new_muted)));
    new_muted
}

proof fn lemma_last_match_concat(a: Seq<SnapClientV>, b: Seq<SnapClientV>, id: Seq<char>)
    ensures
        last_match(a + b, id) == (if last_match(b, id) is Some { last_match(b, id) } else { last_match(a, id) }),
    decreases b.len(),
{
    if b.len() == 0 {
        assert(a + b =~= a);
    } else {
        assert((a + b).drop_last() =~= a + b.drop_last());
        lemma_last_match_concat(a, b.drop_last(), id);
    }
}

/// The muted flag of the last client with `id` in `cs`, or `dflt` if none.
pub open spec fn last_muted(cs: Seq<SnapClientV>, id: Seq<char>, dflt: bool) -> bool {
    match last_match(cs, id) {
        Some(c) => c.muted,
        None => dflt,
    }
}

/// The volume of the last client with `id` in `cs`, or `dflt` if none.
pub open spec fn last_volume(cs: Seq<SnapClientV>, id: Seq<char>, dflt: u8) -> u8 {
    match last_match(cs, id) {
        Some(c) => c.volume,
        None => dflt,
    }
}

fn set_volume_in_group(g: &mut SnapGroup, client_id: &str, percent: u8, dflt: bool) -> (muted: bool)
    ensures
        final(g)@ == (SnapGroupV {
            clients: old(g)@.clients.map_values(|c: SnapClientV| client_with_volume(c, client_id@, percent)),
            ..old(g)@
        }),
        muted == last_muted(old(g)@.clients, client_id@, dflt),
{
    let ghost c0 = old(g)@.clients;
    let mut muted = dflt;
    let mut j: usize = 0;
    while j < g.clients.len()
        invariant
            j <= g.clients@.len(),
            c0.len() == g.clients@.len(),
            g.id@ == old(g)@.id,
            g.name@ == old(g)@.name,
            g.muted == old(g)@.muted,
            g.stream_id@ == old(g)@.stream_id,
            c0 == old(g)@.clients,
            forall|k: int| 0 <= k < j ==> g.clients@[k]@ == client_with_volume(c0[k], client_id@, percent),
            forall|k: int| j <= k < g.clients@.len() ==> g.clients@[k]@ == c0[k],
            muted == last_muted(c0.take(j as int), client_id@, dflt),
        decreases g.clients@.len() - j,
    {
        proof {
            assert(c0.take(j + 1) =~= c0.take(j as int).push(c0[j as int]));
            lemma_last_match_push(c0.take(j as int), c0[j as int], client_id@);
        }
        if str_eq(g.clients[j].id.as_str(), client_id) {
            g.clients[j].volume = percent;
            muted = g.clients[j].muted;
        }
        j = j + 1;
    }
    proof {
        assert(c0.take(j as int) =~= c0);
        assert(g@.clients =~= c0.map_values(|c: SnapClientV| client_with_volume(c, client_id@, percent)));
    }
    muted
}

/// Set client `client_id` to `percent` in every group that lists it, and
/// return the muted flag to send with the new volume: that of the last
/// client listed with the id, `false` if none is.
pub fn set_client_volume(groups: &mut Vec<SnapGroup>, client_id: &str, percent: u8) -> (muted: bool)
    ensures
        groups_view(final(groups)@) == groups_with_volume(groups_view(old(groups)@), client_id@, percent),
        muted == last_muted(flat(groups_view(old(groups)@)), client_id@, false),
{
    let ghost g0 = groups_view(groups@);
    let mut muted = false;
    let mut i: usize = 0;
    while i < groups.len()
        invariant
            i <= groups@.len(),
            g0.len() == groups@.len(),
            forall|k: int| 0 <= k < i ==> #[trigger] groups@[k]@ == groups_with_volume(g0, client_id@, percent)[k],
            forall|k: int| i <= k < groups@.len() ==> #[trigger] groups@[k]@ == g0[k],
            muted == last_muted(flat(g0.take(i as int)), client_id@, false),
        decreases groups@.len() - i,
    {
        proof {
            lemma_flat_take(g0, i as int);
            lemma_last_match_concat(flat(g0.take(i as int)), g0[i as int].clients, client_id@);
        }
        muted = set_volume_in_group(&mut groups[i], client_id, percent, muted);
        i = i + 1;
    }
    proof {
        assert(g0.take(i as int) =~= g0);
        assert(groups_view(groups@) =~= groups_with_volume(g0, client_id@, percent));
    }
    muted
}

fn set_mute_in_group(g: &mut SnapGroup, client_id: &str, muted: bool, dflt: u8) -> (percent: u8)
    ensures
        final(g)@ == (SnapGroupV {
            clients: old(g)@.clients.map_values(|c: SnapClientV| client_with_mute(c, client_id@, muted)),
            ..old(g)@
        }),
        percent == last_volume(old(g)@.clients, client_id@, dflt),
{
    let ghost c0 = old(g)@.clients;
    let mut percent = dflt;
    let mut j: usize = 0;
    while j < g.clients.len()
        invariant
            j <= g.clients@.len(),
            c0.len() == g.clients@.len(),
            g.id@ == old(g)@.id,
            g.name@ == old(g)@.name,
            g.muted == old(g)@.muted,
            g.stream_id@ == old(g)@.stream_id,
            c0 == old(g)@.clients,
            forall|k: int| 0 <= k < j ==> g.clients@[k]@ == client_with_mute(c0[k], client_id@, muted),
            forall|k: int| j <= k < g.clients@.len() ==> g.clients@[k]@ == c0[k],
            percent == last_volume(c0.take(j as int), client_id@, dflt),
        decreases g.clients@.len() - j,
    {
        proof {
            assert(c0.take(j + 1) =~= c0.take(j as int).push(c0[j as int]));
            lemma_last_match_push(c0.take(j as int), c0[j as int], client_id@);
        }
        if str_eq(g.clients[j].id.as_str(), client_id) {
            g.clients[j].muted = muted;
            percent = g.clients[j].volume;
        }
        j = j + 1;
    }
    proof {
        assert(c0.take(j as int) =~= c0);
        assert(g@.clients =~= c0.map_values(|c: SnapClientV| client_with_mute(c, client_id@, muted)));
    }
    percent
}

/// Toggle the mute of client `client_id`, which was `was_muted`, in every
/// group that lists it. Returns the new state and the volume to send with
/// it: that of the last client listed with the id, 0 if none is.
pub fn toggle_client_mute(groups: &mut Vec<SnapGroup>, client_id: &str, was_muted: bool) -> (r: (bool, u8))
    ensures
        r.0 == !was_muted,
        groups_view(final(groups)@) == groups_with_client_mute(groups_view(old(groups)@), client_id@, !was_muted),
        r.1 == last_volume(flat(groups_view(old(groups)@)), client_id@, 0),
{
    let new_muted = !was_muted;
    let ghost g0 = groups_view(groups@);
    let mut percent: u8 = 0;
    let mut i: usize = 0;
    while i < groups.len()
        invariant
            i <= groups@.len(),
            g0.len() == groups@.len(),
            new_muted == !was_muted,
            forall|k: int| 0 <= k < i ==> #[trigger] groups@[k]@ == groups_with_client_mute(g0, client_id@, new_muted)[k],
            forall|k: int| i <= k < groups@.len() ==> #[trigger] groups@[k]@ == g0[k],
            percent == last_volume(flat(g0.take(i as int)), client_id@, 0),
        decreases groups@.len() - i,
    {
        proof {
            lemma_flat_take(g0, i as int);
            lemma_last_match_concat(flat(g0.take(i as int)), g0[i as int].clients, client_id@);
        }
        percent = set_mute_in_group(&mut groups[i], client_id, new_muted, percent);
        i = i + 1;
    }
    proof {
        assert(g0.take(i as int) =~= g0);
        assert(groups_view(groups@) =~= groups_with_client_mute(g0, client_id@, new_muted));
    }
    (new_muted, percent)
}

/// What the Snapcast view holds between polls.
#[derive(Debug, Clone)]
pub struct SnapcastPanel {
    pub groups: Vec<SnapGroup>,
    /// The ids of the server's streams.
    pub streams: Vec<String>,
    /// Why the server could not be reached, if it could not.
    pub error: Option<String>,
    /// Are disconnected clients listed?
    pub show_inactive: bool,
}

impl SnapcastPanel {
    /// Nothing loaded; disconnected clients hidden (a server keeps a stale
    /// entry for every device that ever connected).
    pub fn new() -> (p: SnapcastPanel)
        ensures
            p.groups@.len() == 0,
            p.streams@.len() == 0,
            p.error is None,
            !p.show_inactive,
    {
        SnapcastPanel { groups: Vec::new(), streams: Vec::new(), error: None, show_inactive: false }
    }

    /// A status arrived: it replaces what was shown, and clears any error.
    pub fn status_loaded(&mut self, groups: Vec<SnapGroup>, streams: Vec<String>)
        ensures
            final(self).groups@ == groups@,
            final(self).streams@ == streams@,
            final(self).error is None,
            final(self).show_inactive == old(self).show_inactive,
    {
        self.groups = groups;
        self.streams = streams;
        self.error = None;
    }

    /// The server could not be reached: say why (what was shown stays).
    pub fn unreachable(&mut self, message: String)
        ensures
            final(self).error == Some(message),
            final(self).groups@ == old(self).groups@,
            final(self).streams@ == old(self).streams@,
            final(self).show_inactive == old(self).show_inactive,
    {
        self.error = Some(message);
    }

    /// Show or hide the disconnected clients.
    pub fn toggle_show_inactive(&mut self)
        ensures
            final(self).show_inactive == !old(self).show_inactive,
            final(self).groups@ == old(self).groups@,
            final(self).streams@ == old(self).streams@,
            final(self).error == old(self).error,
    {
        self.show_inactive = !self.show_inactive;
    }

    /// The server changed: what was loaded belonged to the previous one.
    pub fn reset(&mut self)
        ensures
            final(self).groups@.len() == 0,
            final(self).streams@.len() == 0,
            final(self).error is None,
            final(self).show_inactive == old(self).show_inactive,
    {
        self.groups = Vec::new();
        self.streams = Vec::new();
        self.error = None;
    }
}

/// Does the Snapcast connection have to be rebuilt for `addr`? When there is
/// none yet, or it was built for another address (the host or port was
/// edited in Settings).
pub fn needs_new_client(current_addr: Option<&str>, addr: &str) -> (r: bool)
    ensures
        r == !(current_addr matches Some(a) && a@ == addr@),
{
    match current_addr {
        Some(a) => !str_eq(a, addr),
        None => true,
    }
}


/// A volume change reaches every listing of the client and nothing else:
/// the groups keep their order and their own fields, each client with the
/// id takes the new volume, and every other client is left as it was.
pub proof fn law_volume_change(gs: Seq<SnapGroupV>, id: Seq<char>, v: u8)
    ensures
        groups_with_volume(gs, id, v).len() == gs.len(),
        forall|i: int| 0 <= i < gs.len() ==> {
            let g = #[trigger] groups_with_volume(gs, id, v)[i];
            &&& g.id == gs[i].id && g.name == gs[i].name && g.muted == gs[i].muted && g.stream_id == gs[i].stream_id
            &&& g.clients.len() == gs[i].clients.len()
            &&& forall|k: int| 0 <= k < g.clients.len() ==> (if gs[i].clients[k].id == id {
                #[trigger] g.clients[k] == (SnapClientV { volume: v, ..gs[i].clients[k] })
            } else {
                g.clients[k] == gs[i].clients[k]
            })
        },
{
}

/// Muting a group touches only the groups with that id, and only their
/// muted flag; a stream change only their stream.
pub proof fn law_group_changes(g: SnapGroupV, id: Seq<char>, muted: bool, stream: Seq<char>)
    ensures
        g.id == id ==> group_with_mute(g, id, muted) == (SnapGroupV { muted, ..g }),
        g.id != id ==> group_with_mute(g, id, muted) == g,
        g.id == id ==> group_with_stream(g, id, stream) == (SnapGroupV { stream_id: stream, ..g }),
        g.id != id ==> group_with_stream(g, id, stream) == g,
{
}

/// The volume and mute sent with a change are those of the last listing of
/// the client, or the default when it is not listed at all.
pub proof fn law_sent_with_change(cs: Seq<SnapClientV>, id: Seq<char>, dflt_m: bool, dflt_v: u8)
    ensures
        (forall|k: int| 0 <= k < cs.len() ==> (#[trigger] cs[k]).id != id) ==> last_muted(cs, id, dflt_m) == dflt_m
            && last_volume(cs, id, dflt_v) == dflt_v,
        (cs.len() > 0 && cs.last().id == id) ==> last_muted(cs, id, dflt_m) == cs.last().muted
            && last_volume(cs, id, dflt_v) == cs.last().volume,
    decreases cs.len(),
{
    if cs.len() > 0 && cs.last().id != id {
        law_sent_with_change(cs.drop_last(), id, dflt_m, dflt_v);
        if forall|k: int| 0 <= k < cs.len() ==> (#[trigger] cs[k]).id != id {
            assert forall|k: int| 0 <= k < cs.drop_last().len() implies (#[trigger] cs.drop_last()[k]).id != id by {
                assert(cs.drop_last()[k] == cs[k]);
            }
        }
    }
}

} // verus!
