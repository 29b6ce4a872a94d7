use vstd::prelude::*;

verus! {

/// Which edition of the game a browse packet asks for.
#[derive(Clone, Copy, Debug, PartialEq, Eq, Structural)]
pub enum Expansion {
    /// Reign of Chaos, the base game.
    ROC,
    /// The Frozen Throne, the expansion.
    TFT,
}

impl Expansion {
    /// The four-byte game identifier that stands at offset 4 of a browse packet.
    pub open spec fn tag(self) -> Seq<u8> {
        match self {
            Expansion::ROC => seq![0x50u8, 0x58u8, 0x33u8, 0x57u8],
            Expansion::TFT => seq![0x33u8, 0x52u8, 0x41u8, 0x57u8],
        }
    }
}

impl Default for Expansion {
    /// Hosts answer the base-game tag whichever edition they run, so that is the default.
    fn default() -> (e: Expansion)
        ensures
            e == Expansion::ROC,
    {
        Expansion::ROC
    }
}

} // verus!
