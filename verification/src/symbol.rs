//! The encoded symbol as the renderer sees it: a square grid of modules with
//! the version and the error-correction level it was made at.

use vstd::prelude::*;

verus! {

/// Error-correction level: how much of a symbol may be damaged or covered
/// before it stops being readable.
#[derive(Clone, Copy, Debug, PartialEq, Eq, Structural)]
pub enum EcLevel {
    /// Low: about 7% of the modules.
    L,
    /// Medium: about 15%.
    M,
    /// Quartile: about 25%.
    Q,
    /// High: about 30%.
    H,
}

/// Why a payload could not be encoded.
#[derive(Clone, Copy, Debug, PartialEq, Eq, Structural)]
pub enum EncodeError {
    /// The payload does not fit the version asked for, or no version at all.
    DataTooLong,
    /// The version and the error-correction level do not go together.
    InvalidVersion,
    /// The payload holds characters that the version cannot carry.
    UnsupportedCharacterSet,
    /// An ECI designator outside 0..=999999.
    InvalidEciDesignator,
    /// A character outside the character set in use.
    InvalidCharacter,
}

/// An encoded symbol. `dark` lists the modules row by row, left to right
/// within a row; `true` is a dark module.
#[derive(Debug)]
pub struct Symbol {
    pub version: i16,
    pub level: EcLevel,
    pub width: usize,
    pub dark: Vec<bool>,
}

/// The mathematical value of a [`Symbol`].
pub struct SymbolView {
    pub version: int,
    pub level: EcLevel,
    pub width: nat,
    pub dark: Seq<bool>,
}

impl SymbolView {
    /// The grid is square: it has `width` rows of `width` modules.
    pub open spec fn wf(self) -> bool {
        self.dark.len() == self.width * self.width
    }

    /// Column of the module at position `index` of `dark`.
    pub open spec fn col(self, index: int) -> int {
        index % (self.width as int)
    }

    /// Row of the module at position `index` of `dark`.
    pub open spec fn row(self, index: int) -> int {
        index / (self.width as int)
    }

    /// The symbol is a regular (not a micro) QR symbol: its version lies in
    /// 1..=40 and fixes its width.
    pub open spec fn is_regular(self) -> bool {
        &&& self.wf()
        &&& 1 <= self.version <= 40
        &&& self.width == 4 * self.version + 17
    }
}

impl View for Symbol {
    type V = SymbolView;

    open spec fn view(&self) -> SymbolView {
        SymbolView {
            version: self.version as int,
            level: self.level,
            width: self.width as nat,
            dark: self.dark@,
        }
    }
}

impl Symbol {
    /// See [`SymbolView::wf`].
    pub open spec fn wf(&self) -> bool {
        self@.wf()
    }

    /// A symbol from its parts, if `dark` holds `width * width` modules.
    pub fn new(version: i16, level: EcLevel, width: usize, dark: Vec<bool>) -> (symbol: Option<
        Symbol,
    >)
        ensures
            symbol is Some <==> dark@.len() == width * width,
            symbol matches Some(s) ==> s.wf() && s@ == (SymbolView {
                version: version as int,
                level,
                width: width as nat,
                dark: dark@,
            }),
    {
        let count = dark.len();
        match width.checked_mul(width) {
            Some(area) => {
                assert(area == width * width);
                if count == area {
                    Some(Symbol { version, level, width, dark })
                } else {
                    None
                }
            },
            None => {
                assert(width * width > usize::MAX);
                None
            },
        }
    }
}

} // verus!
