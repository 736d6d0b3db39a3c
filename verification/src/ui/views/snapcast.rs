//! What the Snapcast view lists and the captions it shows.
use vstd::prelude::*;
use crate::model::{groups_view, SnapClient, SnapClientV, SnapGroup, SnapGroupV};
use crate::text::{decimal, decimal_string, signed_decimal, signed_decimal_string};
use crate::ui::app::snapcast::flat;

verus! {

/// Is a client listed? Disconnected clients only when they are asked for.
pub open spec fn client_shown(c: SnapClientV, show_inactive: bool) -> bool {
    show_inactive || c.connected
}

/// Is a group listed? When inactive clients are hidden, a group whose
/// clients are all disconnected has nothing to show and is dropped.
pub open spec fn group_shown(g: SnapGroupV, show_inactive: bool) -> bool {
    show_inactive || exists|k: int| 0 <= k < g.clients.len() && (#[trigger] g.clients[k]).connected
}

/// The groups listed, in order.
pub open spec fn shown_groups(gs: Seq<SnapGroupV>, show_inactive: bool) -> Seq<SnapGroupV> {
    gs.filter(|g: SnapGroupV| group_shown(g, show_inactive))
}

/// The clients of a group listed, in order.
pub open spec fn shown_clients(cs: Seq<SnapClientV>, show_inactive: bool) -> Seq<SnapClientV> {
    cs.filter(|c: SnapClientV| client_shown(c, show_inactive))
}

/// The number of disconnected clients over all groups.
pub open spec fn inactive(gs: Seq<SnapGroupV>) -> nat {
    flat(gs).filter(|c: SnapClientV| !c.connected).len()
}

fn any_connected(clients: &Vec<SnapClient>) -> (r: bool)
    ensures
        r == exists|k: int| 0 <= k < clients@.len() && (#[trigger] clients@[k]).connected,
{
    let mut j: usize = 0;
    while j < clients.len()
        invariant
            j <= clients@.len(),
            forall|k: int| 0 <= k < j ==> !(#[trigger] clients@[k]).connected,
        decreases clients@.len() - j,
    {
        if clients[j].connected {
            return true;
        }
        j = j + 1;
    }
    false
}

/// The groups worth rendering, in order: all of them when inactive clients
/// are shown, else those with at least one connected client.
pub fn visible_groups(groups: &[SnapGroup], show_inactive: bool) -> (r: Vec<&SnapGroup>)
    ensures
        r@.map_values(|g: &SnapGroup| g@) == shown_groups(groups_view(groups@), show_inactive),
{
    let ghost gv = groups_view(groups@);
    let mut r: Vec<&SnapGroup> = Vec::new();
    let mut i: usize = 0;
    while i < groups.len()
        invariant
            i <= groups@.len(),
            gv == groups_view(groups@),
            r@.map_values(|g: &SnapGroup| g@) == shown_groups(gv.take(i as int), show_inactive),
        decreases groups@.len() - i,
    {
        let g = &groups[i];
        let keep = show_inactive || any_connected(&g.clients);
        proof {
            assert(gv.take(i + 1) =~= gv.take(i as int).push(gv[i as int]));
            gv.take(i as int).lemma_filter_push(gv[i as int], |g: SnapGroupV| group_shown(g, show_inactive));
            assert(keep == group_shown(gv[i as int], show_inactive)) by {
                if !show_inactive {
                    if keep {
                        let k = choose|k: int| 0 <= k < g.clients@.len() && (#[trigger] g.clients@[k]).connected;
                        assert(gv[i as int].clients[k] == g.clients@[k]@);
                    }
                    if group_shown(gv[i as int], show_inactive) {
                        let k = choose|k: int| 0 <= k < gv[i as int].clients.len() && (#[trigger] gv[i as int].clients[k]).connected;
                        assert(gv[i as int].clients[k] == g.clients@[k]@);
                    }
                }
            }
        }
        if keep {
            r.push(g);
        }
        proof {
            assert(r@.map_values(|g: &SnapGroup| g@) =~= shown_groups(gv.take(i + 1), show_inactive));
        }
        i = i + 1;
    }
    proof {
        assert(gv.take(i as int) =~= gv);
    }
    r
}

/// The clients of `group` worth rendering, in order.
pub fn visible_clients(group: &SnapGroup, show_inactive: bool) -> (r: Vec<&SnapClient>)
    ensures
        r@.map_values(|c: &SnapClient| c@) == shown_clients(group@.clients, show_inactive),
{
    let ghost cv = group@.clients;
    let mut r: Vec<&SnapClient> = Vec::new();
    let mut j: usize = 0;
    while j < group.clients.len()
        invariant
            j <= group.clients@.len(),
            cv == group@.clients,
            r@.map_values(|c: &SnapClient| c@) == shown_clients(cv.take(j as int), show_inactive),
        decreases group.clients@.len() - j,
    {
        let c = &group.clients[j];
        proof {
            assert(cv.take(j + 1) =~= cv.take(j as int).push(cv[j as int]));
            cv.take(j as int).lemma_filter_push(cv[j as int], |c: SnapClientV| client_shown(c, show_inactive));
        }
        if show_inactive || c.connected {
            r.push(c);
        }
        proof {
            assert(r@.map_values(|c: &SnapClient| c@) =~= shown_clients(cv.take(j + 1), show_inactive));
        }
        j = j + 1;
    }
    proof {
        assert(cv.take(j as int) =~= cv);
    }
    r
}

/// `n`, or `usize::MAX` when it is larger.
pub open spec fn capped(n: nat) -> nat {
    if n <= usize::MAX { n } else { usize::MAX as nat }
}

/// The number of disconnected clients over all groups (a count past
/// `usize::MAX`, which no memory can hold, stays at `usize::MAX`).
pub fn inactive_count(groups: &[SnapGroup]) -> (n: usize)
    ensures
        n == capped(inactive(groups_view(groups@))),
{
    let ghost gv = groups_view(groups@);
    let ghost pred = |c: SnapClientV| !c.connected;
    let mut n: usize = 0;
    let mut i: usize = 0;
    while i < groups.len()
        invariant
            i <= groups@.len(),
            gv == groups_view(groups@),
            pred == (|c: SnapClientV| !c.connected),
            n == capped(flat(gv.take(i as int)).filter(pred).len()),
        decreases groups@.len() - i,
    {
        let g = &groups[i];
        let ghost before = flat(gv.take(i as int));
        let ghost cv = gv[i as int].clients;
        proof {
            assert(gv.take(i + 1).drop_last() =~= gv.take(i as int));
            assert(flat(gv.take(i + 1)) == before + cv);
            Seq::filter_distributes_over_add(before, cv, pred);
            assert(cv == g@.clients);
        }
        let mut j: usize = 0;
        while j < g.clients.len()
            invariant
                j <= g.clients@.len(),
                cv == g@.clients,
                pred == (|c: SnapClientV| !c.connected),
                n == capped(before.filter(pred).len() + cv.take(j as int).filter(pred).len()),
            decreases g.clients@.len() - j,
        {
            proof {
                assert(cv.take(j + 1) =~= cv.take(j as int).push(cv[j as int]));
                cv.take(j as int).lemma_filter_push(cv[j as int], pred);
            }
            if !g.clients[j].connected && n < usize::MAX {
                n = n + 1;
            }
            j = j + 1;
        }
        proof {
            assert(cv.take(j as int) =~= cv);
        }
        i = i + 1;
    }
    proof {
        assert(gv.take(i as int) =~= gv);
    }
    n
}

/// The header button's caption for `count` inactive clients: none when
/// there are none, else `"Hide {count} inactive"` while they are shown and
/// `"Show {count} inactive"` while hidden.
pub fn inactive_toggle_label(count: usize, show_inactive: bool) -> (r: Option<String>)
    ensures
        count == 0 ==> r is None,
        count != 0 ==> r is Some && r->0@ == (if show_inactive { "Hide "@ } else { "Show "@ })
            + decimal(count as nat) + " inactive"@,
{
    if count == 0 {
        return None;
    }
    let mut s = if show_inactive { String::from_str("Hide ") } else { String::from_str("Show ") };
    let n = decimal_string(count as u64);
    s.append(n.as_str());
    s.append(" inactive");
    Some(s)
}

/// A client's extra latency as shown beside its name: `"+{latency}ms"`,
/// empty when there is none.
pub fn latency_label(latency: i32) -> (r: String)
    ensures
        latency == 0 ==> r@ == Seq::<char>::empty(),
        latency != 0 ==> r@ == "+"@ + signed_decimal(latency as int) + "ms"@,
{
    if latency == 0 {
        return String::new();
    }
    let mut s = String::from_str("+");
    let n = signed_decimal_string(latency as i64);
    s.append(n.as_str());
    s.append("ms");
    s
}

/// A client's volume as shown beside its slider, `"{volume}%"`.
pub fn volume_label(volume: u8) -> (r: String)
    ensures
        r@ == decimal(volume as nat) + "%"@,
{
    let mut s = decimal_string(volume as u64);
    s.append("%");
    s
}

/// The caption of a group's mute button.
pub fn group_mute_label(muted: bool) -> (r: &'static str)
    ensures
        r@ == (if muted { "Unmute Group"@ } else { "Mute Group"@ }),
{
    if muted { "Unmute Group" } else { "Mute Group" }
}

/// The caption of a client's mute button.
pub fn client_mute_label(muted: bool) -> (r: &'static str)
    ensures
        r@ == (if muted { "Unmute"@ } else { "Mute"@ }),
{
    if muted { "Unmute" } else { "Mute" }
}

/// With inactive clients hidden, no group is listed without a client to
/// show: a group whose clients are all disconnected is dropped rather than
/// drawn as an empty card.
pub proof fn law_no_empty_cards(gs: Seq<SnapGroupV>)
    ensures
        forall|i: int| 0 <= i < shown_groups(gs, false).len() ==>
            shown_clients(#[trigger] shown_groups(gs, false)[i].clients, false).len() > 0,
{
    let gpred = |g: SnapGroupV| group_shown(g, false);
    let cpred = |c: SnapClientV| client_shown(c, false);
    assert forall|i: int| 0 <= i < shown_groups(gs, false).len() implies
        shown_clients(#[trigger] shown_groups(gs, false)[i].clients, false).len() > 0 by {
        gs.lemma_filter_pred(gpred, i);
        let g = shown_groups(gs, false)[i];
        let k = choose|k: int| 0 <= k < g.clients.len() && (#[trigger] g.clients[k]).connected;
        g.clients.lemma_filter_contains(cpred, k);
        assert(shown_clients(g.clients, false).contains(g.clients[k]));
    }
}


/// Listing rules: with inactive clients shown every client and group is
/// listed; otherwise exactly the connected clients, and exactly the groups
/// with a connected client.
pub proof fn law_listing_rules(c: SnapClientV, g: SnapGroupV)
    ensures
        client_shown(c, true) && group_shown(g, true),
        client_shown(c, false) <==> c.connected,
        group_shown(g, false) <==> exists|k: int| 0 <= k < g.clients.len() && (#[trigger] g.clients[k]).connected,
{
}

} // verus!
