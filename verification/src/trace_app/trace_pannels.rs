//! The set of pannels of the trace front end, and the menu that adds and
//! removes them.

use vstd::prelude::*;
use crate::example_app::test_word;
use crate::trace_app::miti_ws::MitiTrace;

pub mod link_pannel;
pub mod rate_pannel;

pub use link_pannel::LinkPannel;
pub use rate_pannel::RatePannel;

verus! {

/// `"Remove LinkPannel"`
pub open spec fn remove_link_words() -> Seq<char> {
    seq!['R', 'e', 'm', 'o', 'v', 'e', ' ', 'L', 'i', 'n', 'k', 'P', 'a', 'n', 'n', 'e', 'l']
}

/// `"Add LinkPannel"`
pub open spec fn add_link_words() -> Seq<char> {
    seq!['A', 'd', 'd', ' ', 'L', 'i', 'n', 'k', 'P', 'a', 'n', 'n', 'e', 'l']
}

/// `"Remove RatePannel"`
pub open spec fn remove_rate_words() -> Seq<char> {
    seq!['R', 'e', 'm', 'o', 'v', 'e', ' ', 'R', 'a', 't', 'e', 'P', 'a', 'n', 'n', 'e', 'l']
}

/// `"Add RatePannel"`
pub open spec fn add_rate_words() -> Seq<char> {
    seq!['A', 'd', 'd', ' ', 'R', 'a', 't', 'e', 'P', 'a', 'n', 'n', 'e', 'l']
}

/// A button of the "Pannels" menu.
#[derive(Clone, Copy, Debug, PartialEq, Eq, Structural)]
pub enum PannelMenuItem {
    RemoveLinkPannel,
    AddLinkPannel,
    RemoveRatePannel,
    AddRatePannel,
}

impl PannelMenuItem {
    /// The caption of the button.
    pub open spec fn spec_caption(self) -> Seq<char> {
        match self {
            PannelMenuItem::RemoveLinkPannel => remove_link_words(),
            PannelMenuItem::AddLinkPannel => add_link_words(),
            PannelMenuItem::RemoveRatePannel => remove_rate_words(),
            PannelMenuItem::AddRatePannel => add_rate_words(),
        }
    }

    /// The caption of the button, as the menu writes it.
    pub fn caption(&self) -> (s: String)
        ensures
            s@ == self.spec_caption(),
    {
        match self {
            PannelMenuItem::RemoveLinkPannel => {
                let s = "Remove LinkPannel".to_owned();
                proof {
                    reveal_strlit("Remove LinkPannel");
                }
                assert(s@ =~= remove_link_words());
                s
            },
            PannelMenuItem::AddLinkPannel => {
                let s = "Add LinkPannel".to_owned();
                proof {
                    reveal_strlit("Add LinkPannel");
                }
                assert(s@ =~= add_link_words());
                s
            },
            PannelMenuItem::RemoveRatePannel => {
                let s = "Remove RatePannel".to_owned();
                proof {
                    reveal_strlit("Remove RatePannel");
                }
                assert(s@ =~= remove_rate_words());
                s
            },
            PannelMenuItem::AddRatePannel => {
                let s = "Add RatePannel".to_owned();
                proof {
                    reveal_strlit("Add RatePannel");
                }
                assert(s@ =~= add_rate_words());
                s
            },
        }
    }
}

/// A pannel's window as the screen shows it: its title and its one line.
pub struct PannelWindow {
    pub title: String,
    pub label: String,
}

/// The pannels of the trace front end; each may be there or not.
pub struct TracePannels {
    lpannel: Option<LinkPannel>,
    rpannel: Option<RatePannel>,
    trace: Option<MitiTrace>,
}

impl Default for TracePannels {
    fn default() -> (r: Self)
        ensures
            r.spec_lpannel() is None,
            r.spec_rpannel() is None,
            r.spec_trace() is None,
    {
        TracePannels { lpannel: None, rpannel: None, trace: None }
    }
}

impl TracePannels {
    /// The link pannel, if it is there.
    pub closed spec fn spec_lpannel(&self) -> Option<LinkPannel> {
        self.lpannel
    }

    /// The rate pannel, if it is there.
    pub closed spec fn spec_rpannel(&self) -> Option<RatePannel> {
        self.rpannel
    }

    /// The trace record the pannels hold, if any.
    pub closed spec fn spec_trace(&self) -> Option<MitiTrace> {
        self.trace
    }

    /// The windows on screen, in the order they are drawn: the link
    /// pannel's, then the rate pannel's, each where that pannel is there.
    pub open spec fn spec_windows(&self) -> Seq<(Seq<char>, Seq<char>)> {
        let l: Seq<(Seq<char>, Seq<char>)> = match self.spec_lpannel() {
            Some(p) => seq![(link_pannel::link_title(), p.spec_label())],
            None => Seq::empty(),
        };
        let r: Seq<(Seq<char>, Seq<char>)> = match self.spec_rpannel() {
            Some(p) => seq![(rate_pannel::rate_title(), p.spec_label())],
            None => Seq::empty(),
        };
        l + r
    }

    /// The button that the menu offers for the link pannel: remove it where
    /// it is there, add it where it is not.
    pub open spec fn spec_link_item(&self) -> PannelMenuItem {
        if self.spec_lpannel() is Some {
            PannelMenuItem::RemoveLinkPannel
        } else {
            PannelMenuItem::AddLinkPannel
        }
    }

    /// The button that the menu offers for the rate pannel.
    pub open spec fn spec_rate_item(&self) -> PannelMenuItem {
        if self.spec_rpannel() is Some {
            PannelMenuItem::RemoveRatePannel
        } else {
            PannelMenuItem::AddRatePannel
        }
    }

    /// `after` is what a click on `item` makes of `before`: a removed pannel
    /// is gone, an added link pannel holds the direction `Test`, an added
    /// rate pannel the rate 12; the other pannel and the trace stay.
    pub open spec fn spec_clicked(before: Self, item: PannelMenuItem, after: Self) -> bool {
        &&& after.spec_trace() == before.spec_trace()
        &&& match item {
            PannelMenuItem::RemoveLinkPannel => {
                &&& after.spec_lpannel() is None
                &&& after.spec_rpannel() == before.spec_rpannel()
            },
            PannelMenuItem::AddLinkPannel => {
                &&& after.spec_lpannel() matches Some(l)
                &&& l.spec_direction() == Some(test_word())
                &&& after.spec_rpannel() == before.spec_rpannel()
            },
            PannelMenuItem::RemoveRatePannel => {
                &&& after.spec_rpannel() is None
                &&& after.spec_lpannel() == before.spec_lpannel()
            },
            PannelMenuItem::AddRatePannel => {
                &&& after.spec_rpannel() matches Some(r)
                &&& r.spec_rate() == Some(12u16)
                &&& after.spec_lpannel() == before.spec_lpannel()
            },
        }
    }

    /// Puts `lpannel` in the link pannel's place.
    pub fn set_lpannel(&mut self, lpannel: Option<LinkPannel>)
        ensures
            final(self).spec_lpannel() == lpannel,
            final(self).spec_rpannel() == old(self).spec_rpannel(),
            final(self).spec_trace() == old(self).spec_trace(),
    {
        self.lpannel = lpannel;
    }

    /// Puts `rpannel` in the rate pannel's place.
    pub fn set_rpannel(&mut self, rpannel: Option<RatePannel>)
        ensures
            final(self).spec_rpannel() == rpannel,
            final(self).spec_lpannel() == old(self).spec_lpannel(),
            final(self).spec_trace() == old(self).spec_trace(),
    {
        self.rpannel = rpannel;
    }

    /// Whether the link pannel is there.
    pub fn is_set_lpannel(&mut self) -> (b: bool)
        ensures
            b == old(self).spec_lpannel() is Some,
            *final(self) == *old(self),
    {
        !self.lpannel.is_none()
    }

    /// Whether the rate pannel is there.
    pub fn is_set_rpannel(&mut self) -> (b: bool)
        ensures
            b == old(self).spec_rpannel() is Some,
            *final(self) == *old(self),
    {
        !self.rpannel.is_none()
    }

    /// The windows to draw, as `ui` draws them.
    pub fn windows(&self) -> (w: Vec<PannelWindow>)
        ensures
            w@.map_values(|x: PannelWindow| (x.title@, x.label@)) == self.spec_windows(),
    {
        let mut w: Vec<PannelWindow> = Vec::new();
        match &self.lpannel {
            Some(pan) => {
                w.push(PannelWindow { title: pan.title(), label: pan.label() });
            },
            None => {},
        }
        match &self.rpannel {
            Some(pan) => {
                w.push(PannelWindow { title: pan.title(), label: pan.label() });
            },
            None => {},
        }
        assert(w@.map_values(|x: PannelWindow| (x.title@, x.label@)) =~= self.spec_windows());
        w
    }

    /// The two buttons of the "Pannels" menu: the link pannel's, then the
    /// rate pannel's.
    pub fn menu_items(&mut self) -> (items: (PannelMenuItem, PannelMenuItem))
        ensures
            items == (old(self).spec_link_item(), old(self).spec_rate_item()),
            *final(self) == *old(self),
    {
        let link = if self.is_set_lpannel() {
            PannelMenuItem::RemoveLinkPannel
        } else {
            PannelMenuItem::AddLinkPannel
        };
        let rate = if self.is_set_rpannel() {
            PannelMenuItem::RemoveRatePannel
        } else {
            PannelMenuItem::AddRatePannel
        };
        (link, rate)
    }

    /// What a click on `item` does.
    pub fn click(&mut self, item: PannelMenuItem)
        ensures
            Self::spec_clicked(*old(self), item, *final(self)),
            item == PannelMenuItem::AddLinkPannel ==> (final(self).spec_lpannel() matches Some(l)
                && l.spec_direction() == Some(seq!['T', 'e', 's', 't'])),
            item == PannelMenuItem::AddRatePannel ==> (final(self).spec_rpannel() matches Some(r)
                && r.spec_rate() == Some(12u16)),
    {
        match item {
            PannelMenuItem::RemoveLinkPannel => self.set_lpannel(None),
            PannelMenuItem::AddLinkPannel => {
                let dir = "Test".to_owned();
                proof {
                    reveal_strlit("Test");
                }
                assert(dir@ =~= test_word());
                self.set_lpannel(Some(LinkPannel::new(Some(dir))));
            },
            PannelMenuItem::RemoveRatePannel => self.set_rpannel(None),
            PannelMenuItem::AddRatePannel => self.set_rpannel(Some(RatePannel::new(Some(12)))),
        }
    }
}

/// A pannel holds what was last put in its place, and putting a pannel in
/// one place leaves the other place alone.
pub proof fn lemma_set_then_is_set(
    before: TracePannels,
    lpannel: Option<LinkPannel>,
    after: TracePannels,
)
    requires
        after.spec_lpannel() == lpannel,
        after.spec_rpannel() == before.spec_rpannel(),
        after.spec_trace() == before.spec_trace(),
    ensures
        (after.spec_lpannel() is Some) == (lpannel is Some),
        (after.spec_rpannel() is Some) == (before.spec_rpannel() is Some),
        after.spec_rate_item() == before.spec_rate_item(),
{
}

/// A click on a button that the menu offers turns that pannel on where it
/// was off and off where it was on, and leaves the other pannel alone; the
/// menu then offers the opposite button.
pub proof fn lemma_click_toggles(before: TracePannels, after_link: TracePannels, after_rate: TracePannels)
    requires
        TracePannels::spec_clicked(before, before.spec_link_item(), after_link),
        TracePannels::spec_clicked(before, before.spec_rate_item(), after_rate),
    ensures
        (after_link.spec_lpannel() is Some) != (before.spec_lpannel() is Some),
        after_link.spec_rpannel() == before.spec_rpannel(),
        after_link.spec_link_item() != before.spec_link_item(),
        (after_rate.spec_rpannel() is Some) != (before.spec_rpannel() is Some),
        after_rate.spec_lpannel() == before.spec_lpannel(),
        after_rate.spec_rate_item() != before.spec_rate_item(),
{
}

/// The windows on screen: one for each pannel that is there, the link
/// pannel's first, titled `LinkPannel` and `RatePannel` and showing that
/// pannel's line; none for a pannel that is not there.
pub proof fn lemma_windows_follow_pannels(p: TracePannels)
    ensures
        p.spec_windows().len() == (if p.spec_lpannel() is Some { 1int } else { 0int }) + (if p.spec_rpannel() is Some { 1int } else { 0int }),
        p.spec_lpannel() matches Some(l) ==> p.spec_windows()[0] == (
            seq!['L', 'i', 'n', 'k', 'P', 'a', 'n', 'n', 'e', 'l'],
            l.spec_label(),
        ),
        p.spec_rpannel() matches Some(r) ==> p.spec_windows()[p.spec_windows().len() - 1] == (
            seq!['R', 'a', 't', 'e', 'P', 'a', 'n', 'n', 'e', 'l'],
            r.spec_label(),
        ),
{
}

/// Each menu button is captioned with what it does to which pannel, and the
/// menu offers to remove a pannel exactly when it is there.
pub proof fn lemma_menu_captions(p: TracePannels)
    ensures
        PannelMenuItem::RemoveLinkPannel.spec_caption() == seq![
            'R', 'e', 'm', 'o', 'v', 'e', ' ', 'L', 'i', 'n', 'k', 'P', 'a', 'n', 'n', 'e', 'l'
        ],
        PannelMenuItem::AddLinkPannel.spec_caption() == seq![
            'A', 'd', 'd', ' ', 'L', 'i', 'n', 'k', 'P', 'a', 'n', 'n', 'e', 'l'
        ],
        PannelMenuItem::RemoveRatePannel.spec_caption() == seq![
            'R', 'e', 'm', 'o', 'v', 'e', ' ', 'R', 'a', 't', 'e', 'P', 'a', 'n', 'n', 'e', 'l'
        ],
        PannelMenuItem::AddRatePannel.spec_caption() == seq![
            'A', 'd', 'd', ' ', 'R', 'a', 't', 'e', 'P', 'a', 'n', 'n', 'e', 'l'
        ],
        (p.spec_link_item() == PannelMenuItem::RemoveLinkPannel) == (p.spec_lpannel() is Some),
        (p.spec_link_item() == PannelMenuItem::AddLinkPannel) == (p.spec_lpannel() is None),
        (p.spec_rate_item() == PannelMenuItem::RemoveRatePannel) == (p.spec_rpannel() is Some),
        (p.spec_rate_item() == PannelMenuItem::AddRatePannel) == (p.spec_rpannel() is None),
{
}

/// An added link pannel holds the direction `Test` and an added rate pannel
/// the rate 12, whatever pannels were there before; adding one pannel leaves
/// the other as it was.
pub proof fn lemma_added_pannel_contents(before: TracePannels, after: TracePannels, item: PannelMenuItem)
    requires
        TracePannels::spec_clicked(before, item, after),
    ensures
        item == PannelMenuItem::AddLinkPannel ==> {
            &&& after.spec_lpannel() matches Some(l)
            &&& l.spec_direction() == Some(seq!['T', 'e', 's', 't'])
            &&& after.spec_rpannel() == before.spec_rpannel()
        },
        item == PannelMenuItem::AddRatePannel ==> {
            &&& after.spec_rpannel() matches Some(r)
            &&& r.spec_rate() == Some(12u16)
            &&& after.spec_lpannel() == before.spec_lpannel()
        },
        item == PannelMenuItem::RemoveLinkPannel ==> after.spec_lpannel() is None
            && after.spec_rpannel() == before.spec_rpannel(),
        item == PannelMenuItem::RemoveRatePannel ==> after.spec_rpannel() is None
            && after.spec_lpannel() == before.spec_lpannel(),
{
}

/// Adding a pannel that was not there and removing it again gives back the
/// pannels as they were.
pub proof fn lemma_add_then_remove_restores(p: TracePannels, q: TracePannels, r: TracePannels, link: bool)
    requires
        link ==> p.spec_lpannel() is None,
        !link ==> p.spec_rpannel() is None,
        TracePannels::spec_clicked(p, if link { p.spec_link_item() } else { p.spec_rate_item() }, q),
        TracePannels::spec_clicked(q, if link { q.spec_link_item() } else { q.spec_rate_item() }, r),
    ensures
        r == p,
{
}

} // verus!
