use vstd::prelude::*;

verus! {

pub const STEAM_ACHIEVEMENT_WIN_ONE_GAME: &'static str = "ACH_WIN_ONE_GAME";

pub const STEAM_ACHIEVEMENT_WIN_100_GAMES: &'static str = "ACH_WIN_100_GAMES";

pub const STEAM_ACHIEVEMENT_TRAVEL_FAR_SINGLE: &'static str = "ACH_TRAVEL_FAR_SINGLE";

/// Unlocked by progressing the `FeetTraveled` counter.
pub const STEAM_ACHIEVEMENT_TRAVEL_FAR_ACCUM: &'static str = "ACH_TRAVEL_FAR_ACCUM";

/// Counter that advances the `ACH_TRAVEL_FAR_ACCUM` flag.
pub const STEAM_STAT_FEET_TRAVELED: &'static str = "FeetTraveled";

/// The catalog's flag keys, in order.
pub fn all_steam_achievements() -> (r: Vec<&'static str>)
    ensures
        r@ == seq![
            STEAM_ACHIEVEMENT_WIN_ONE_GAME,
            STEAM_ACHIEVEMENT_WIN_100_GAMES,
            STEAM_ACHIEVEMENT_TRAVEL_FAR_SINGLE,
            STEAM_ACHIEVEMENT_TRAVEL_FAR_ACCUM,
        ],
{
    vec![
        STEAM_ACHIEVEMENT_WIN_ONE_GAME,
        STEAM_ACHIEVEMENT_WIN_100_GAMES,
        STEAM_ACHIEVEMENT_TRAVEL_FAR_SINGLE,
        STEAM_ACHIEVEMENT_TRAVEL_FAR_ACCUM,
    ]
}

/// The catalog's counter keys, in order.
pub fn all_steam_stats() -> (r: Vec<&'static str>)
    ensures
        r@ == seq![STEAM_STAT_FEET_TRAVELED],
{
    vec![STEAM_STAT_FEET_TRAVELED]
}

} // verus!
