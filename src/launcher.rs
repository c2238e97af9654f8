use vstd::prelude::*;
use vstd::string::*;

verus! {

/// Title ID of the Japanese release.
pub const TITLE_JP: u64 = 0x0004000000155A00;

/// Title ID of the North American release.
pub const TITLE_US: u64 = 0x000400000018a400;

/// Title ID of the European release.
pub const TITLE_EU: u64 = 0x000400000018a500;

/// Title ID of the Korean release.
pub const TITLE_KR: u64 = 0x000400000018a600;

/// The regional release of the game.
#[derive(Clone, Copy, Debug, PartialEq, Eq, Structural)]
pub enum GameRegion {
    JP,
    US,
    EU,
    KR,
}

/// One installed copy of the game: its region, and whether it is a digital
/// copy (on the SD card) or a physical one (on a game card).
#[derive(Clone, Copy, Debug, PartialEq, Eq, Structural)]
pub struct GameVer {
    pub region: GameRegion,
    pub is_digital: bool,
}

/// The region whose release has title ID `title`, if any.
pub open spec fn title_region(title: u64) -> Option<GameRegion> {
    if title == TITLE_JP {
        Some(GameRegion::JP)
    } else if title == TITLE_US {
        Some(GameRegion::US)
    } else if title == TITLE_EU {
        Some(GameRegion::EU)
    } else if title == TITLE_KR {
        Some(GameRegion::KR)
    } else {
        None
    }
}

/// The copies of the game among `titles`, in their order, each marked digital
/// or not as `digital` says.
pub open spec fn games_among(titles: Seq<u64>, digital: bool) -> Seq<GameVer>
    decreases titles.len(),
{
    if titles.len() == 0 {
        Seq::empty()
    } else {
        let rest = games_among(titles.drop_last(), digital);
        match title_region(titles.last()) {
            Some(region) => rest.push(GameVer { region, is_digital: digital }),
            None => rest,
        }
    }
}

/// The region whose release has title ID `title`, if any.
pub fn region_of_title(title: u64) -> (r: Option<GameRegion>)
    ensures
        r == title_region(title),
{
    if title == TITLE_JP {
        Some(GameRegion::JP)
    } else if title == TITLE_US {
        Some(GameRegion::US)
    } else if title == TITLE_EU {
        Some(GameRegion::EU)
    } else if title == TITLE_KR {
        Some(GameRegion::KR)
    } else {
        None
    }
}

/// Appends to `games` each copy of the game among `titles`.
fn push_games(games: &mut Vec<GameVer>, titles: &Vec<u64>, digital: bool)
    ensures
        final(games)@ == old(games)@ + games_among(titles@, digital),
{
    let ghost start = games@;
    let mut i: usize = 0;
    while i < titles.len()
        invariant
            i <= titles.len(),
            games@ == start + games_among(titles@.subrange(0, i as int), digital),
        decreases titles.len() - i,
    {
        assert(titles@.subrange(0, i + 1).drop_last() =~= titles@.subrange(0, i as int));
        if let Some(region) = region_of_title(titles[i]) {
            games.push(GameVer { region, is_digital: digital });
        }
        i += 1;
        assert(games@ =~= start + games_among(titles@.subrange(0, i as int), digital));
    }
    assert(titles@.subrange(0, i as int) =~= titles@);
}

/// The copies of the game among the titles installed on the SD card (digital
/// ones) and then among those on the game card (physical ones).
pub fn games_from_titles(sd_titles: &Vec<u64>, cart_titles: &Vec<u64>) -> (r: Vec<GameVer>)
    ensures
        r@ == games_among(sd_titles@, true) + games_among(cart_titles@, false),
{
    let mut games: Vec<GameVer> = Vec::new();
    push_games(&mut games, sd_titles, true);
    push_games(&mut games, cart_titles, false);
    games
}

/// The name shown for a region's release.
pub open spec fn region_name(region: GameRegion) -> Seq<char> {
    match region {
        GameRegion::JP => "RTTB+ (JP)"@,
        GameRegion::US => "RHM (US)"@,
        GameRegion::EU => "RPM (EU)"@,
        GameRegion::KR => "RSTB+ (KR)"@,
    }
}

impl GameRegion {
    /// The name shown for this region's release.
    pub fn to_display_string(&self) -> (r: String)
        ensures
            r@ == region_name(*self),
    {
        match self {
            GameRegion::JP => String::from_str("RTTB+ (JP)"),
            GameRegion::US => String::from_str("RHM (US)"),
            GameRegion::EU => String::from_str("RPM (EU)"),
            GameRegion::KR => String::from_str("RSTB+ (KR)"),
        }
    }
}

impl GameVer {
    /// The region's name, then whether the copy is digital or physical, in
    /// parentheses.
    pub fn to_display_string(&self) -> (r: String)
        ensures
            r@ == region_name(self.region) + " ("@ + (if self.is_digital {
                "Digital"@
            } else {
                "Physical"@
            }) + ")"@,
    {
        let mut s = self.region.to_display_string();
        s.append(" (");
        if self.is_digital {
            s.append("Digital");
        } else {
            s.append("Physical");
        }
        s.append(")");
        s
    }
}

} // verus!
