//! The engine-facing pieces of the configuration.
//!
//! Reading and parsing the configuration file happens outside the crate;
//! these types carry the already-parsed values the views and widgets use.
use vstd::prelude::*;
use vstd::view::View as _;

use crate::widget::PlayerStyle;

verus! {

/// Characters used to draw the progress bar.
#[derive(Debug)]
pub struct ConfigFormat {
    pub progress: char,
    pub progress_track: char,
    pub progress_thumb: String,
}

impl Default for ConfigFormat {
    /// A plain line with no thumb.
    fn default() -> (r: ConfigFormat)
        ensures
            r.progress == '-',
            r.progress_track == '-',
            r.progress_thumb@.len() == 0,
    {
        ConfigFormat { progress: '-', progress_track: '-', progress_thumb: String::new() }
    }
}

/// How the player bar is drawn.
#[derive(Debug)]
pub struct ConfigStyle {
    pub player: PlayerStyle,
}

impl Default for ConfigStyle {
    fn default() -> (r: ConfigStyle)
        ensures
            r.player == PlayerStyle::Classic,
    {
        ConfigStyle { player: PlayerStyle::Classic }
    }
}

/// Outer layout bounds of the interface, in terminal cells.
#[derive(Debug)]
pub struct ConfigLayout {
    pub max_width: u16,
    pub max_height: u16,
    pub padding_x: u16,
    pub padding_y: u16,
    pub player_max_width: u16,
}

impl Default for ConfigLayout {
    fn default() -> (r: ConfigLayout)
        ensures
            r == (ConfigLayout {
                max_width: 90u16,
                max_height: 22u16,
                padding_x: 2u16,
                padding_y: 1u16,
                player_max_width: 80u16,
            }),
    {
        ConfigLayout {
            max_width: 90,
            max_height: 22,
            padding_x: 2,
            padding_y: 1,
            player_max_width: 80,
        }
    }
}

} // verus!
