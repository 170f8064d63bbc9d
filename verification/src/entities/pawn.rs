use vstd::prelude::*;

verus! {

/// The four colours a player can take, in their fixed order round the board.
#[derive(Default, Debug, Clone, Copy, Eq, Hash, Ord, PartialEq, PartialOrd, Structural)]
pub enum PawnColor {
    #[default]
    RED,
    GREEN,
    BLUE,
    YELLOW,
}

impl PawnColor {
    /// Position of the colour round the board, clockwise from red.
    pub open spec fn spec_ordinal(self) -> int {
        match self {
            PawnColor::RED => 0,
            PawnColor::GREEN => 1,
            PawnColor::BLUE => 2,
            PawnColor::YELLOW => 3,
        }
    }

    /// Position of the colour round the board, clockwise from red.
    pub fn ordinal(self) -> (n: usize)
        ensures
            n == self.spec_ordinal(),
    {
        match self {
            PawnColor::RED => 0,
            PawnColor::GREEN => 1,
            PawnColor::BLUE => 2,
            PawnColor::YELLOW => 3,
        }
    }

}

impl PawnColor {
    /// The colour's name, in capitals.
    pub open spec fn spec_name(self) -> Seq<char> {
        match self {
            PawnColor::RED => "RED"@,
            PawnColor::GREEN => "GREEN"@,
            PawnColor::BLUE => "BLUE"@,
            PawnColor::YELLOW => "YELLOW"@,
        }
    }

    /// The colour's name, in capitals.
    pub fn to_string(&self) -> (name: String)
        ensures
            name@ == self.spec_name(),
    {
        match self {
            PawnColor::RED => String::from_str("RED"),
            PawnColor::GREEN => String::from_str("GREEN"),
            PawnColor::BLUE => String::from_str("BLUE"),
            PawnColor::YELLOW => String::from_str("YELLOW"),
        }
    }
}

impl core::ops::Sub for PawnColor {
    type Output = isize;

    /// Signed number of quarter turns from `other` to `self`.
    fn sub(self, other: PawnColor) -> (d: isize) {
        let a: isize = match self {
            PawnColor::RED => 0,
            PawnColor::GREEN => 1,
            PawnColor::BLUE => 2,
            PawnColor::YELLOW => 3,
        };
        let b: isize = match other {
            PawnColor::RED => 0,
            PawnColor::GREEN => 1,
            PawnColor::BLUE => 2,
            PawnColor::YELLOW => 3,
        };
        a - b
    }
}

impl vstd::std_specs::ops::SubSpecImpl for PawnColor {
    open spec fn obeys_sub_spec() -> bool {
        true
    }

    open spec fn sub_req(self, other: PawnColor) -> bool {
        true
    }

    open spec fn sub_spec(self, other: PawnColor) -> isize {
        (self.spec_ordinal() - other.spec_ordinal()) as isize
    }
}

/// A colour as red, green and blue intensities.
#[derive(Default, Debug, Clone, Copy, PartialEq, Eq, Structural)]
pub struct Rgb {
    pub r: u8,
    pub g: u8,
    pub b: u8,
}

/// The three shades in which a pawn is drawn.
#[derive(Default, Debug, Clone, Copy, PartialEq)]
pub struct PawnColorPallet {
    pub primary: Rgb,
    pub hovered: Rgb,
    pub disabled: Rgb,
}

impl PawnColorPallet {
    pub fn new(primary: Rgb, hovered: Rgb, disabled: Rgb) -> (p: PawnColorPallet)
        ensures
            p == (PawnColorPallet { primary, hovered, disabled }),
    {
        PawnColorPallet { primary, hovered, disabled }
    }
}

/// The shades that belong to each pawn colour.
pub open spec fn spec_color_pallete(color: PawnColor) -> PawnColorPallet {
    match color {
        PawnColor::RED => PawnColorPallet {
            primary: Rgb { r: 255, g: 0, b: 0 },
            hovered: Rgb { r: 139, g: 0, b: 0 },
            disabled: Rgb { r: 139, g: 0, b: 0 },
        },
        PawnColor::GREEN => PawnColorPallet {
            primary: Rgb { r: 0, g: 255, b: 0 },
            hovered: Rgb { r: 1, g: 50, b: 32 },
            disabled: Rgb { r: 1, g: 50, b: 32 },
        },
        PawnColor::BLUE => PawnColorPallet {
            primary: Rgb { r: 0, g: 0, b: 255 },
            hovered: Rgb { r: 0, g: 0, b: 139 },
            disabled: Rgb { r: 0, g: 0, b: 139 },
        },
        PawnColor::YELLOW => PawnColorPallet {
            primary: Rgb { r: 255, g: 255, b: 0 },
            hovered: Rgb { r: 246, g: 190, b: 0 },
            disabled: Rgb { r: 246, g: 190, b: 0 },
        },
    }
}

/// The shades that belong to each pawn colour.
pub fn get_color_pallete(color: &PawnColor) -> (p: PawnColorPallet)
    ensures
        p == spec_color_pallete(*color),
{
    match color {
        PawnColor::RED => PawnColorPallet {
            primary: Rgb { r: 255, g: 0, b: 0 },
            hovered: Rgb { r: 139, g: 0, b: 0 },
            disabled: Rgb { r: 139, g: 0, b: 0 },
        },
        PawnColor::GREEN => PawnColorPallet {
            primary: Rgb { r: 0, g: 255, b: 0 },
            hovered: Rgb { r: 1, g: 50, b: 32 },
            disabled: Rgb { r: 1, g: 50, b: 32 },
        },
        PawnColor::BLUE => PawnColorPallet {
            primary: Rgb { r: 0, g: 0, b: 255 },
            hovered: Rgb { r: 0, g: 0, b: 139 },
            disabled: Rgb { r: 0, g: 0, b: 139 },
        },
        PawnColor::YELLOW => PawnColorPallet {
            primary: Rgb { r: 255, g: 255, b: 0 },
            hovered: Rgb { r: 246, g: 190, b: 0 },
            disabled: Rgb { r: 246, g: 190, b: 0 },
        },
    }
}

/// One of the four pieces of a player.
#[derive(Debug, Copy, Clone, PartialEq)]
pub struct Pawn {
    /// Index of the pawn among its owner's four.
    pub id: usize,
    pub color: PawnColor,
    pub color_pallete: PawnColorPallet,
    /// Index of the owning player among the players of the game.
    pub player_id: usize,
    /// Row and column of the cell the pawn stands on.
    pub position: (usize, usize),
}

impl Pawn {
    pub open spec fn spec_new(id: usize, color: PawnColor, player_id: usize, position: (usize, usize)) -> Pawn {
        Pawn { id, color, player_id, color_pallete: spec_color_pallete(color), position }
    }

    /// A pawn of `color` with the shades of that colour.
    pub fn new(id: usize, color: PawnColor, player_id: usize, position: (usize, usize)) -> (p: Pawn)
        ensures
            p == Pawn::spec_new(id, color, player_id, position),
    {
        Pawn { id, color, player_id, color_pallete: get_color_pallete(&color), position }
    }
}

impl Default for Pawn {
    fn default() -> (p: Pawn)
        ensures
            p == (Pawn {
                id: 0,
                color: PawnColor::RED,
                player_id: 0,
                position: (0usize, 0usize),
                color_pallete: PawnColorPallet {
                    primary: Rgb { r: 0, g: 0, b: 0 },
                    hovered: Rgb { r: 0, g: 0, b: 0 },
                    disabled: Rgb { r: 0, g: 0, b: 0 },
                },
            }),
    {
        let black = Rgb { r: 0, g: 0, b: 0 };
        Pawn {
            id: 0,
            color: PawnColor::RED,
            player_id: 0,
            position: (0, 0),
            color_pallete: PawnColorPallet { primary: black, hovered: black, disabled: black },
        }
    }
}

} // verus!
