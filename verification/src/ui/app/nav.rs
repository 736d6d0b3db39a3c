//! Navigation between views, with a history for Back.
use vstd::prelude::*;
use crate::text::str_eq;
use crate::ui::message::View;
use vstd::view::View as DataView;

verus! {

/// The view on screen and the views Back returns to, most recent last.
pub struct Navigator {
    current: View,
    history: Vec<View>,
}

/// (view on screen, history oldest first)
pub type NavState = (View, Seq<View>);

/// The state after opening `v`: the view on screen goes onto the history.
pub open spec fn opened(s: NavState, v: View) -> NavState {
    (v, s.1.push(s.0))
}

/// The state after Back: the most recent history entry comes back on
/// screen; with no history nothing changes.
pub open spec fn went_back(s: NavState) -> NavState {
    if s.1.len() > 0 {
        (s.1.last(), s.1.drop_last())
    } else {
        s
    }
}

impl DataView for Navigator {
    type V = NavState;

    closed spec fn view(&self) -> NavState {
        (self.current, self.history@)
    }
}

impl Navigator {
    /// Start on Now Playing with no history.
    pub fn new() -> (n: Self)
        ensures
            n@ == (View::NowPlaying, Seq::<View>::empty()),
    {
        Navigator { current: View::NowPlaying, history: Vec::new() }
    }

    /// The view on screen.
    pub fn current(&self) -> (v: &View)
        ensures
            *v == self@.0,
    {
        &self.current
    }

    /// How many views Back can return to.
    pub fn depth(&self) -> (n: usize)
        ensures
            n == self@.1.len(),
    {
        self.history.len()
    }

    /// Open `view`, remembering the one it replaces for Back.
    pub fn navigate_to(&mut self, view: View)
        ensures
            final(self)@ == opened(old(self)@, view),
    {
        let mut prev = view;
        std::mem::swap(&mut self.current, &mut prev);
        self.history.push(prev);
    }

    /// Return to the most recent view in the history, if there is one.
    pub fn go_back(&mut self)
        ensures
            final(self)@ == went_back(old(self)@),
    {
        match self.history.pop() {
            Some(prev) => {
                self.current = prev;
            },
            None => {},
        }
    }

    /// A stored playlist was deleted: if its detail page is on screen, show
    /// the playlists list in its place (the history is left as it is).
    pub fn leave_deleted_playlist(&mut self, name: &str)
        ensures
            final(self)@ == (if old(self)@.0 matches View::PlaylistDetail(n) && n@ == name@ {
                (View::Playlists, old(self)@.1)
            } else {
                old(self)@
            }),
    {
        let on_it = match &self.current {
            View::PlaylistDetail(n) => str_eq(n.as_str(), name),
            _ => false,
        };
        if on_it {
            self.current = View::Playlists;
        }
    }
}

/// Back undoes opening a view — opening `v` and going back restores
/// the view on screen and the history exactly.
pub proof fn law_back_undoes_open(s: NavState, v: View)
    ensures
        went_back(opened(s, v)) == s,
{
    assert(s.1.push(s.0).drop_last() =~= s.1);
}

/// Opening views never loses history — each open adds exactly one
/// entry, so after `k` opens Back can be pressed `k` more times.
pub proof fn law_open_grows_history(s: NavState, v: View)
    ensures
        opened(s, v).1.len() == s.1.len() + 1,
        opened(s, v).0 == v,
{
}

} // verus!
