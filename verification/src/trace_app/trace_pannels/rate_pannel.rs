//! The pannel that shows a rate.

use vstd::prelude::*;
use crate::text::{decimal, parse_decimal, u16_text, lemma_decimal_round_trip};
use super::link_pannel::{nothing_text, nothing_word};

verus! {

/// `"RatePannel"`: the title of the rate pannel's window.
pub open spec fn rate_title() -> Seq<char> {
    seq!['R', 'a', 't', 'e', 'P', 'a', 'n', 'n', 'e', 'l']
}

/// A pannel that shows a rate, or `nothing`.
pub struct RatePannel {
    rate: Option<u16>,
}

impl RatePannel {
    /// The rate the pannel holds.
    pub closed spec fn spec_rate(&self) -> Option<u16> {
        self.rate
    }

    /// What the pannel's window shows: the rate in decimal, or `nothing`.
    pub open spec fn spec_label(&self) -> Seq<char> {
        match self.spec_rate() {
            Some(a) => decimal(a as nat),
            None => nothing_word(),
        }
    }

    /// A pannel that holds `r`.
    pub fn new(r: Option<u16>) -> (p: Self)
        ensures
            p.spec_rate() == r,
    {
        RatePannel { rate: r }
    }

    /// The line that the pannel's window shows.
    pub fn label(&self) -> (s: String)
        ensures
            s@ == self.spec_label(),
    {
        match &self.rate {
            Some(a) => u16_text(*a),
            None => nothing_text(),
        }
    }

    /// The title of the pannel's window.
    pub fn title(&self) -> (s: String)
        ensures
            s@ == rate_title(),
    {
        let s = "RatePannel".to_owned();
        proof {
            reveal_strlit("RatePannel");
        }
        assert(s@ =~= rate_title());
        s
    }
}

/// A rate pannel shows the rate it holds in decimal digits that read back as
/// that rate, and `nothing` when it holds none.
pub proof fn lemma_rate_label(p: RatePannel)
    ensures
        p.spec_rate() matches Some(r) ==> parse_decimal(p.spec_label()) == Some(r as nat),
        p.spec_rate() is None ==> p.spec_label() == seq!['n', 'o', 't', 'h', 'i', 'n', 'g'],
{
    if let Some(r) = p.spec_rate() {
        lemma_decimal_round_trip(r as nat);
    }
}

impl Default for RatePannel {
    fn default() -> (r: Self)
        ensures
            r.spec_rate() is None,
    {
        RatePannel { rate: None }
    }
}

} // verus!
