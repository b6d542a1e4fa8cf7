use vstd::prelude::*;

verus! {

/// What the page around the game shows: whose turn it is, in which color,
/// and that player's cannon power. A field left `None` is not updated.
#[derive(Debug)]
pub struct Ui {
    pub current_player: Option<usize>,
    pub player_color: Option<String>,
    pub cannon_power: Option<u32>,
    pub game_over: Option<bool>,
}

/// Name of the color that the player at seat `id` is drawn in.
pub open spec fn color_name(id: int) -> Seq<char> {
    if id == 0 {
        "red"@
    } else if id == 1 {
        "green"@
    } else if id == 2 {
        "blue"@
    } else if id == 3 {
        "purple"@
    } else {
        "yelow"@
    }
}

pub fn player_color(id: usize) -> (r: &'static str)
    ensures
        r@ == color_name(id as int),
{
    match id {
        0 => "red",
        1 => "green",
        2 => "blue",
        3 => "purple",
        _ => "yelow",
    }
}

} // verus!
