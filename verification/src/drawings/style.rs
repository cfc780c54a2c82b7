//! Style values shared by every drawing that are free of floating point:
//! colors, dash patterns and which sides a line may extend to.

use vstd::prelude::*;
use crate::text::str_equal;

verus! {

/// An RGBA color, one byte per channel.
#[derive(Debug, Clone, Copy, PartialEq, Eq)]
pub struct Rgba(pub [u8; 4]);

/// Default drawing color: opaque white.
pub fn default_color() -> (c: Rgba)
    ensures
        c.0@ == seq![255u8, 255u8, 255u8, 255u8],
{
    Rgba([255, 255, 255, 255])
}

/// Color palette offered by the toolbar color popup, ordered warm to cool.
pub fn color_palette() -> (r: Vec<Rgba>)
    ensures
        r@.len() == 8,
        r@[0].0@ == seq![255u8, 255u8, 255u8, 255u8],
        r@[1].0@ == seq![255u8, 193u8, 7u8, 255u8],
        r@[2].0@ == seq![255u8, 107u8, 107u8, 255u8],
        r@[3].0@ == seq![236u8, 72u8, 153u8, 255u8],
        r@[4].0@ == seq![168u8, 85u8, 247u8, 255u8],
        r@[5].0@ == seq![88u8, 166u8, 255u8, 255u8],
        r@[6].0@ == seq![34u8, 211u8, 238u8, 255u8],
        r@[7].0@ == seq![78u8, 205u8, 196u8, 255u8],
{
    let mut v: Vec<Rgba> = Vec::new();
    v.push(Rgba([255, 255, 255, 255]));
    v.push(Rgba([255, 193, 7, 255]));
    v.push(Rgba([255, 107, 107, 255]));
    v.push(Rgba([236, 72, 153, 255]));
    v.push(Rgba([168, 85, 247, 255]));
    v.push(Rgba([88, 166, 255, 255]));
    v.push(Rgba([34, 211, 238, 255]));
    v.push(Rgba([78, 205, 196, 255]));
    v
}

/// Line pattern of a drawing.
#[derive(Debug, Clone, Copy, PartialEq, Eq, Structural)]
pub enum DashStyle {
    Solid,
    Dashed,
    Dotted,
}

/// Name under which a dash style is stored in the `drawing_defaults` table.
pub open spec fn dash_name(d: DashStyle) -> Seq<char> {
    match d {
        DashStyle::Solid => "Solid"@,
        DashStyle::Dashed => "Dashed"@,
        DashStyle::Dotted => "Dotted"@,
    }
}

/// Dash style read back from its stored name; unknown names fall back to
/// `Solid`.
pub open spec fn dash_from_name(s: Seq<char>) -> DashStyle {
    if s == "Dashed"@ {
        DashStyle::Dashed
    } else if s == "Dotted"@ {
        DashStyle::Dotted
    } else {
        DashStyle::Solid
    }
}

impl DashStyle {
    /// The stored name of this dash style.
    pub fn db_name(self) -> (r: &'static str)
        ensures
            r@ == dash_name(self),
    {
        match self {
            DashStyle::Solid => "Solid",
            DashStyle::Dashed => "Dashed",
            DashStyle::Dotted => "Dotted",
        }
    }

    /// Parse a stored name; anything unrecognised reads as `Solid`.
    pub fn from_db_name(s: &str) -> (r: DashStyle)
        ensures
            r == dash_from_name(s@),
    {
        proof {
            lemma_dash_names_distinct();
        }
        if str_equal(s, "Solid") {
            DashStyle::Solid
        } else if str_equal(s, "Dashed") {
            DashStyle::Dashed
        } else if str_equal(s, "Dotted") {
            DashStyle::Dotted
        } else {
            DashStyle::Solid
        }
    }
}

proof fn lemma_dash_names_distinct()
    ensures
        "Solid"@ != "Dashed"@,
        "Solid"@ != "Dotted"@,
        "Dashed"@ != "Dotted"@,
{
    reveal_strlit("Solid");
    reveal_strlit("Dashed");
    reveal_strlit("Dotted");
    assert("Solid"@.len() != "Dashed"@.len());
    assert("Solid"@.len() != "Dotted"@.len());
    assert("Dashed"@[1] != "Dotted"@[1]);
}

/// Storing a dash style and reading it back gives the same style.
pub proof fn lemma_dash_name_round_trip(d: DashStyle)
    ensures
        dash_from_name(dash_name(d)) == d,
{
    lemma_dash_names_distinct();
}

/// Which sides of a line a tool lets the user extend to the chart edge.
#[derive(Debug, Clone, Copy, PartialEq, Eq, Structural)]
pub struct ExtendCapabilities {
    pub left: bool,
    pub right: bool,
}

impl Default for ExtendCapabilities {
    fn default() -> (r: Self)
        ensures
            !r.left && !r.right,
    {
        ExtendCapabilities { left: false, right: false }
    }
}

} // verus!
