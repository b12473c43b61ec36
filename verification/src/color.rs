//! Clear colours, held as fixed-point channel intensities so that contracts
//! can speak of exact values.

use vstd::prelude::*;

verus! {

use crate::COLOR_SCALE;

/// A clear colour. Each channel is a fraction of full intensity in
/// thousandths: `0` is black/transparent, `COLOR_SCALE` is full intensity.
#[derive(Clone, Copy, Debug, PartialEq, Eq, Structural)]
pub struct Rgba {
    pub red: u16,
    pub green: u16,
    pub blue: u16,
    pub alpha: u16,
}

impl Rgba {
    /// Every channel lies in `0 ..= COLOR_SCALE`.
    pub open spec fn well_formed(self) -> bool {
        self.red <= COLOR_SCALE
            && self.green <= COLOR_SCALE
            && self.blue <= COLOR_SCALE
            && self.alpha <= COLOR_SCALE
    }

    pub fn new(red: u16, green: u16, blue: u16, alpha: u16) -> (r: Rgba)
        requires
            red <= COLOR_SCALE,
            green <= COLOR_SCALE,
            blue <= COLOR_SCALE,
            alpha <= COLOR_SCALE,
        ensures
            r == (Rgba { red, green, blue, alpha }),
            r.well_formed(),
    {
        Rgba { red, green, blue, alpha }
    }
}

/// The clear colour used when no other is requested: a dark grey,
/// mostly opaque.
pub open spec fn default_clear_spec() -> Rgba {
    Rgba { red: 100, green: 100, blue: 100, alpha: 900 }
}

pub fn default_clear() -> (r: Rgba)
    ensures
        r == default_clear_spec(),
        r.well_formed(),
{
    Rgba { red: 100, green: 100, blue: 100, alpha: 900 }
}

} // verus!
