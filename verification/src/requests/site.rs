//! The four observing sites that the mount remembers.

use crate::formats::numeral::ZERO;
use vstd::prelude::*;

verus! {

/// ASCII `W`, the letter of the command that selects a site.
pub const SELECT: u8 = 87;

/// One of the four sites.
#[derive(Clone, Copy, Debug, PartialEq, Eq, Structural)]
pub enum Site {
    One,
    Two,
    Three,
    Four,
}

impl Site {
    /// The number of the site, from 1 to 4.
    #[verifier::allow_in_spec]
    pub fn number(self) -> u8
        returns
            (match self {
                Site::One => 1u8,
                Site::Two => 2u8,
                Site::Three => 3u8,
                Site::Four => 4u8,
            }),
    {
        match self {
            Site::One => 1,
            Site::Two => 2,
            Site::Three => 3,
            Site::Four => 4,
        }
    }

    /// The name of the command that selects the site: `W1` to `W4`.
    pub open spec fn text(self) -> Seq<u8> {
        seq![SELECT, (ZERO + self.number()) as u8]
    }

    /// The name of the command that selects the site.
    pub fn format(&self) -> (out: Vec<u8>)
        ensures
            out@ == self.text(),
    {
        let mut out = Vec::new();
        out.push(SELECT);
        out.push(ZERO + self.number());
        out
    }
}

} // verus!
