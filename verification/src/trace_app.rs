//! The trace front end: a window whose "Pannels" menu adds and removes the
//! link and rate pannels, which are then drawn.

use vstd::prelude::*;

pub mod miti_ws;
pub mod trace_pannels;

use trace_pannels::{PannelMenuItem, PannelWindow, TracePannels};

verus! {

/// `"ws://127.0.0.1:8002"`: the trace server's address.
pub open spec fn default_url() -> Seq<char> {
    seq!['w', 's', ':', '/', '/', '1', '2', '7', '.', '0', '.', '0', '.', '1', ':', '8', '0', '0', '2']
}

/// The trace front end.
pub struct TraceFront {
    url: String,
    pannels: TracePannels,
}

impl Default for TraceFront {
    fn default() -> (r: Self)
        ensures
            r.spec_url() == default_url(),
            r.spec_url() == seq![
                'w', 's', ':', '/', '/', '1', '2', '7', '.', '0', '.', '0', '.', '1', ':', '8', '0', '0', '2'
            ],
            r.spec_pannels().spec_lpannel() is None,
            r.spec_pannels().spec_rpannel() is None,
            r.spec_pannels().spec_trace() is None,
    {
        let url = "ws://127.0.0.1:8002".to_owned();
        proof {
            reveal_strlit("ws://127.0.0.1:8002");
        }
        assert(url@ =~= default_url());
        TraceFront { url, pannels: TracePannels::default() }
    }
}

impl TraceFront {
    /// The trace server's address.
    pub closed spec fn spec_url(&self) -> Seq<char> {
        self.url@
    }

    /// The pannels.
    pub closed spec fn spec_pannels(&self) -> TracePannels {
        self.pannels
    }

    /// The trace server's address.
    pub fn url(&self) -> (u: &String)
        ensures
            u@ == self.spec_url(),
    {
        &self.url
    }

    /// The two buttons that the "Pannels" menu offers this frame.
    pub fn menu_items(&mut self) -> (items: (PannelMenuItem, PannelMenuItem))
        ensures
            items == (old(self).spec_pannels().spec_link_item(), old(self).spec_pannels().spec_rate_item()),
            *final(self) == *old(self),
    {
        self.pannels.menu_items()
    }

    /// Acts on a click on a menu button.
    pub fn click(&mut self, item: PannelMenuItem)
        ensures
            TracePannels::spec_clicked(old(self).spec_pannels(), item, final(self).spec_pannels()),
            final(self).spec_url() == old(self).spec_url(),
    {
        self.pannels.click(item);
    }

    /// The pannel windows to draw after the menu.
    pub fn windows(&self) -> (w: Vec<PannelWindow>)
        ensures
            w@.map_values(|x: PannelWindow| (x.title@, x.label@)) == self.spec_pannels().spec_windows(),
    {
        self.pannels.windows()
    }
}

} // verus!
