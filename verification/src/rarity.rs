use crate::text::str_eq;
use vstd::prelude::*;

verus! {

/// An error returned when a string or number does not name a [`Rarity`].
#[derive(Debug, PartialEq, Eq, Structural)]
pub struct ParseRarityError;

/// A formatting color name, as known to the text component system.
#[derive(Clone, Copy, Debug, Hash, PartialEq, Eq, Structural)]
pub enum NamedColor {
    White,
    Yellow,
    Aqua,
    LightPurple,
}

/// The rarity of an item, which drives the color its name is shown in.
#[derive(Clone, Copy, Debug, Hash, PartialEq, Eq, Structural)]
pub enum Rarity {
    Common,
    Uncommon,
    Rare,
    Epic,
}

impl Rarity {
    /// The lower-case name of this rarity, at the specification level.
    pub open spec fn name_of(self) -> Seq<char> {
        match self {
            Rarity::Common => "common"@,
            Rarity::Uncommon => "uncommon"@,
            Rarity::Rare => "rare"@,
            Rarity::Epic => "epic"@,
        }
    }

    /// Returns the lower-case name of this rarity.
    #[must_use]
    pub fn to_str(&self) -> (r: &'static str)
        ensures
            r@ == self.name_of(),
    {
        match self {
            Self::Common => "common",
            Self::Uncommon => "uncommon",
            Self::Rare => "rare",
            Self::Epic => "epic",
        }
    }

    /// Returns the formatting [`NamedColor`] of this [`Rarity`].
    /// For example, uncommon items' names are *yellow* and rare items' names
    /// are *aqua*.
    #[must_use]
    pub fn color(&self) -> (r: NamedColor)
        ensures
            r == match self {
                Rarity::Common => NamedColor::White,
                Rarity::Uncommon => NamedColor::Yellow,
                Rarity::Rare => NamedColor::Aqua,
                Rarity::Epic => NamedColor::LightPurple,
            },
    {
        match self {
            Self::Common => NamedColor::White,
            Self::Uncommon => NamedColor::Yellow,
            Self::Rare => NamedColor::Aqua,
            Self::Epic => NamedColor::LightPurple,
        }
    }

    /// Parses a rarity from its lower-case name.
    pub fn from_name(s: &str) -> (r: Result<Self, ParseRarityError>)
        ensures
            match r {
                Ok(rarity) => rarity.name_of() == s@,
                Err(_) => forall|rarity: Rarity| rarity.name_of() != s@,
            },
    {
        if str_eq(s, "common") {
            Ok(Self::Common)
        } else if str_eq(s, "uncommon") {
            Ok(Self::Uncommon)
        } else if str_eq(s, "rare") {
            Ok(Self::Rare)
        } else if str_eq(s, "epic") {
            Ok(Self::Epic)
        } else {
            proof {
                assert forall|rarity: Rarity| rarity.name_of() != s@ by {
                    match rarity {
                        Rarity::Common => assert(rarity.name_of() == "common"@),
                        Rarity::Uncommon => assert(rarity.name_of() == "uncommon"@),
                        Rarity::Rare => assert(rarity.name_of() == "rare"@),
                        Rarity::Epic => assert(rarity.name_of() == "epic"@),
                    }
                }
            }
            Err(ParseRarityError)
        }
    }

    /// The index of this rarity, counting upward from the most common.
    pub fn index(&self) -> (r: u8)
        ensures
            r == match self {
                Rarity::Common => 0u8,
                Rarity::Uncommon => 1u8,
                Rarity::Rare => 2u8,
                Rarity::Epic => 3u8,
            },
    {
        match self {
            Self::Common => 0,
            Self::Uncommon => 1,
            Self::Rare => 2,
            Self::Epic => 3,
        }
    }

    /// Parses a rarity from its index; indexes above three name no rarity.
    pub fn from_index(n: u8) -> (r: Result<Self, ParseRarityError>)
        ensures
            match r {
                Ok(rarity) => n == match rarity {
                    Rarity::Common => 0u8,
                    Rarity::Uncommon => 1u8,
                    Rarity::Rare => 2u8,
                    Rarity::Epic => 3u8,
                },
                Err(_) => n > 3,
            },
    {
        match n {
            0 => Ok(Self::Common),
            1 => Ok(Self::Uncommon),
            2 => Ok(Self::Rare),
            3 => Ok(Self::Epic),
            _ => Err(ParseRarityError),
        }
    }
}

} // verus!
