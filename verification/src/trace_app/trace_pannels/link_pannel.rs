//! The pannel that shows a link direction.

use vstd::prelude::*;

verus! {

/// `"nothing"`: what a pannel shows when it has no value.
pub open spec fn nothing_word() -> Seq<char> {
    seq!['n', 'o', 't', 'h', 'i', 'n', 'g']
}

/// `"LinkPannel"`: the title of the link pannel's window.
pub open spec fn link_title() -> Seq<char> {
    seq!['L', 'i', 'n', 'k', 'P', 'a', 'n', 'n', 'e', 'l']
}

/// The text of an optional string.
pub open spec fn opt_text(o: Option<String>) -> Option<Seq<char>> {
    match o {
        Some(s) => Some(s@),
        None => None,
    }
}

/// `"nothing"`, as a `String`.
pub fn nothing_text() -> (s: String)
    ensures
        s@ == nothing_word(),
{
    let s = "nothing".to_owned();
    proof {
        reveal_strlit("nothing");
    }
    assert(s@ =~= nothing_word());
    s
}

/// A pannel that shows a direction, or `nothing`.
pub struct LinkPannel {
    direction: Option<String>,
}

impl LinkPannel {
    /// The direction the pannel holds.
    pub closed spec fn spec_direction(&self) -> Option<Seq<char>> {
        opt_text(self.direction)
    }

    /// What the pannel's window shows: the direction, or `nothing`.
    pub open spec fn spec_label(&self) -> Seq<char> {
        match self.spec_direction() {
            Some(d) => d,
            None => nothing_word(),
        }
    }

    /// A pannel that holds `dir`.
    pub fn new(dir: Option<String>) -> (r: Self)
        ensures
            r.spec_direction() == opt_text(dir),
    {
        LinkPannel { direction: dir }
    }

    /// The line that the pannel's window shows.
    pub fn label(&self) -> (s: String)
        ensures
            s@ == self.spec_label(),
    {
        match &self.direction {
            Some(a) => a.clone(),
            None => nothing_text(),
        }
    }

    /// The title of the pannel's window.
    pub fn title(&self) -> (s: String)
        ensures
            s@ == link_title(),
    {
        let s = "LinkPannel".to_owned();
        proof {
            reveal_strlit("LinkPannel");
        }
        assert(s@ =~= link_title());
        s
    }
}

/// A link pannel shows the direction it holds exactly as it is, and
/// `nothing` when it holds none.
pub proof fn lemma_link_label(p: LinkPannel)
    ensures
        p.spec_direction() matches Some(d) ==> p.spec_label() == d,
        p.spec_direction() is None ==> p.spec_label() == seq!['n', 'o', 't', 'h', 'i', 'n', 'g'],
{
}

impl Default for LinkPannel {
    fn default() -> (r: Self)
        ensures
            r.spec_direction() is None,
    {
        LinkPannel { direction: None }
    }
}

} // verus!
