//! The game's characters, stages and scenes, with the identifiers the game
//! uses for them and the names and resource labels shown to players.

use vstd::prelude::*;
use vstd::string::StringSliceAdditionalSpecFns;

verus! {

/// A playable character.
#[derive(Clone, Copy, Debug, PartialEq, Eq, Structural)]
pub enum MeleeCharacter {
    DrMario,
    Mario,
    Luigi,
    Bowser,
    Peach,
    Yoshi,
    DonkeyKong,
    CaptainFalcon,
    Ganondorf,
    Falco,
    Fox,
    Ness,
    IceClimbers,
    Kirby,
    Samus,
    Zelda,
    Sheik,
    Link,
    YoungLink,
    Pichu,
    Pikachu,
    Jigglypuff,
    Mewtwo,
    MrGameAndWatch,
    Marth,
    Roy,
    Hidden,
}

/// The character identifier the game uses in match data.
pub open spec fn spec_character_code(c: MeleeCharacter) -> u8 {
    match c {
        MeleeCharacter::DrMario => 22,
        MeleeCharacter::Mario => 8,
        MeleeCharacter::Luigi => 7,
        MeleeCharacter::Bowser => 5,
        MeleeCharacter::Peach => 12,
        MeleeCharacter::Yoshi => 17,
        MeleeCharacter::DonkeyKong => 1,
        MeleeCharacter::CaptainFalcon => 0,
        MeleeCharacter::Ganondorf => 25,
        MeleeCharacter::Falco => 20,
        MeleeCharacter::Fox => 2,
        MeleeCharacter::Ness => 11,
        MeleeCharacter::IceClimbers => 14,
        MeleeCharacter::Kirby => 4,
        MeleeCharacter::Samus => 16,
        MeleeCharacter::Zelda => 18,
        MeleeCharacter::Sheik => 19,
        MeleeCharacter::Link => 6,
        MeleeCharacter::YoungLink => 21,
        MeleeCharacter::Pichu => 24,
        MeleeCharacter::Pikachu => 13,
        MeleeCharacter::Jigglypuff => 15,
        MeleeCharacter::Mewtwo => 10,
        MeleeCharacter::MrGameAndWatch => 3,
        MeleeCharacter::Marth => 9,
        MeleeCharacter::Roy => 23,
        MeleeCharacter::Hidden => 255,
    }
}

/// The character's display name.
pub open spec fn spec_character_name(c: MeleeCharacter) -> Seq<char> {
    match c {
        MeleeCharacter::DrMario => ("Dr. Mario")@,
        MeleeCharacter::Mario => ("Mario")@,
        MeleeCharacter::Luigi => ("Luigi")@,
        MeleeCharacter::Bowser => ("Bowser")@,
        MeleeCharacter::Peach => ("Peach")@,
        MeleeCharacter::Yoshi => ("Yoshi")@,
        MeleeCharacter::DonkeyKong => ("Donkey Kong")@,
        MeleeCharacter::CaptainFalcon => ("Captain Falcon")@,
        MeleeCharacter::Ganondorf => ("Ganondorf")@,
        MeleeCharacter::Falco => ("Falco")@,
        MeleeCharacter::Fox => ("Fox")@,
        MeleeCharacter::Ness => ("Ness")@,
        MeleeCharacter::IceClimbers => ("Ice Climbers")@,
        MeleeCharacter::Kirby => ("Kirby")@,
        MeleeCharacter::Samus => ("Samus")@,
        MeleeCharacter::Zelda => ("Zelda")@,
        MeleeCharacter::Sheik => ("Sheik")@,
        MeleeCharacter::Link => ("Link")@,
        MeleeCharacter::YoungLink => ("Young Link")@,
        MeleeCharacter::Pichu => ("Pichu")@,
        MeleeCharacter::Pikachu => ("Pikachu")@,
        MeleeCharacter::Jigglypuff => ("Jigglypuff")@,
        MeleeCharacter::Mewtwo => ("Mewtwo")@,
        MeleeCharacter::MrGameAndWatch => ("Mr. Game & Watch")@,
        MeleeCharacter::Marth => ("Marth")@,
        MeleeCharacter::Roy => ("Roy")@,
        MeleeCharacter::Hidden => ("Hidden")@,
    }
}

/// The label of the character's presence artwork: hidden characters stay
/// transparent, every other character is shown by its identifier.
pub open spec fn spec_character_resource(c: MeleeCharacter) -> Seq<char> {
    match c {
        MeleeCharacter::DrMario => ("char22")@,
        MeleeCharacter::Mario => ("char8")@,
        MeleeCharacter::Luigi => ("char7")@,
        MeleeCharacter::Bowser => ("char5")@,
        MeleeCharacter::Peach => ("char12")@,
        MeleeCharacter::Yoshi => ("char17")@,
        MeleeCharacter::DonkeyKong => ("char1")@,
        MeleeCharacter::CaptainFalcon => ("char0")@,
        MeleeCharacter::Ganondorf => ("char25")@,
        MeleeCharacter::Falco => ("char20")@,
        MeleeCharacter::Fox => ("char2")@,
        MeleeCharacter::Ness => ("char11")@,
        MeleeCharacter::IceClimbers => ("char14")@,
        MeleeCharacter::Kirby => ("char4")@,
        MeleeCharacter::Samus => ("char16")@,
        MeleeCharacter::Zelda => ("char18")@,
        MeleeCharacter::Sheik => ("char19")@,
        MeleeCharacter::Link => ("char6")@,
        MeleeCharacter::YoungLink => ("char21")@,
        MeleeCharacter::Pichu => ("char24")@,
        MeleeCharacter::Pikachu => ("char13")@,
        MeleeCharacter::Jigglypuff => ("char15")@,
        MeleeCharacter::Mewtwo => ("char10")@,
        MeleeCharacter::MrGameAndWatch => ("char3")@,
        MeleeCharacter::Marth => ("char9")@,
        MeleeCharacter::Roy => ("char23")@,
        MeleeCharacter::Hidden => ("transparent")@,
    }
}

impl MeleeCharacter {
    /// The character identifier the game uses in match data.
    pub fn code(&self) -> (r: u8)
        ensures
            r == spec_character_code(*self),
    {
        match self {
            MeleeCharacter::DrMario => 22,
            MeleeCharacter::Mario => 8,
            MeleeCharacter::Luigi => 7,
            MeleeCharacter::Bowser => 5,
            MeleeCharacter::Peach => 12,
            MeleeCharacter::Yoshi => 17,
            MeleeCharacter::DonkeyKong => 1,
            MeleeCharacter::CaptainFalcon => 0,
            MeleeCharacter::Ganondorf => 25,
            MeleeCharacter::Falco => 20,
            MeleeCharacter::Fox => 2,
            MeleeCharacter::Ness => 11,
            MeleeCharacter::IceClimbers => 14,
            MeleeCharacter::Kirby => 4,
            MeleeCharacter::Samus => 16,
            MeleeCharacter::Zelda => 18,
            MeleeCharacter::Sheik => 19,
            MeleeCharacter::Link => 6,
            MeleeCharacter::YoungLink => 21,
            MeleeCharacter::Pichu => 24,
            MeleeCharacter::Pikachu => 13,
            MeleeCharacter::Jigglypuff => 15,
            MeleeCharacter::Mewtwo => 10,
            MeleeCharacter::MrGameAndWatch => 3,
            MeleeCharacter::Marth => 9,
            MeleeCharacter::Roy => 23,
            MeleeCharacter::Hidden => 255,
        }
    }

    /// The character's display name.
    pub fn name(&self) -> (r: String)
        ensures
            r@ == spec_character_name(*self),
    {
        match self {
            MeleeCharacter::DrMario => ("Dr. Mario").to_owned(),
            MeleeCharacter::Mario => ("Mario").to_owned(),
            MeleeCharacter::Luigi => ("Luigi").to_owned(),
            MeleeCharacter::Bowser => ("Bowser").to_owned(),
            MeleeCharacter::Peach => ("Peach").to_owned(),
            MeleeCharacter::Yoshi => ("Yoshi").to_owned(),
            MeleeCharacter::DonkeyKong => ("Donkey Kong").to_owned(),
            MeleeCharacter::CaptainFalcon => ("Captain Falcon").to_owned(),
            MeleeCharacter::Ganondorf => ("Ganondorf").to_owned(),
            MeleeCharacter::Falco => ("Falco").to_owned(),
            MeleeCharacter::Fox => ("Fox").to_owned(),
            MeleeCharacter::Ness => ("Ness").to_owned(),
            MeleeCharacter::IceClimbers => ("Ice Climbers").to_owned(),
            MeleeCharacter::Kirby => ("Kirby").to_owned(),
            MeleeCharacter::Samus => ("Samus").to_owned(),
            MeleeCharacter::Zelda => ("Zelda").to_owned(),
            MeleeCharacter::Sheik => ("Sheik").to_owned(),
            MeleeCharacter::Link => ("Link").to_owned(),
            MeleeCharacter::YoungLink => ("Young Link").to_owned(),
            MeleeCharacter::Pichu => ("Pichu").to_owned(),
            MeleeCharacter::Pikachu => ("Pikachu").to_owned(),
            MeleeCharacter::Jigglypuff => ("Jigglypuff").to_owned(),
            MeleeCharacter::Mewtwo => ("Mewtwo").to_owned(),
            MeleeCharacter::MrGameAndWatch => ("Mr. Game & Watch").to_owned(),
            MeleeCharacter::Marth => ("Marth").to_owned(),
            MeleeCharacter::Roy => ("Roy").to_owned(),
            MeleeCharacter::Hidden => ("Hidden").to_owned(),
        }
    }

    /// The character picked on the character-select screen at this index.
    pub fn from_css(css_index: u8) -> (r: Option<Self>)
        ensures
            r == spec_from_css(css_index),
    {
        match css_index {
            0 => Some(Self::DrMario),
            1 => Some(Self::Mario),
            2 => Some(Self::Luigi),
            3 => Some(Self::Bowser),
            4 => Some(Self::Peach),
            5 => Some(Self::Yoshi),
            6 => Some(Self::DonkeyKong),
            7 => Some(Self::CaptainFalcon),
            8 => Some(Self::Ganondorf),
            9 => Some(Self::Falco),
            10 => Some(Self::Fox),
            11 => Some(Self::Ness),
            12 => Some(Self::IceClimbers),
            13 => Some(Self::Kirby),
            14 => Some(Self::Samus),
            15 => Some(Self::Zelda),
            16 => Some(Self::Link),
            17 => Some(Self::YoungLink),
            18 => Some(Self::Pichu),
            19 => Some(Self::Pikachu),
            20 => Some(Self::Jigglypuff),
            21 => Some(Self::Mewtwo),
            22 => Some(Self::MrGameAndWatch),
            23 => Some(Self::Marth),
            24 => Some(Self::Roy),
            _ => None,
        }
    }
}

/// The character picked on the character-select screen at each index.
pub open spec fn spec_from_css(css_index: u8) -> Option<MeleeCharacter> {
    if css_index == 0 {
        Some(MeleeCharacter::DrMario)
    } else if css_index == 1 {
        Some(MeleeCharacter::Mario)
    } else if css_index == 2 {
        Some(MeleeCharacter::Luigi)
    } else if css_index == 3 {
        Some(MeleeCharacter::Bowser)
    } else if css_index == 4 {
        Some(MeleeCharacter::Peach)
    } else if css_index == 5 {
        Some(MeleeCharacter::Yoshi)
    } else if css_index == 6 {
        Some(MeleeCharacter::DonkeyKong)
    } else if css_index == 7 {
        Some(MeleeCharacter::CaptainFalcon)
    } else if css_index == 8 {
        Some(MeleeCharacter::Ganondorf)
    } else if css_index == 9 {
        Some(MeleeCharacter::Falco)
    } else if css_index == 10 {
        Some(MeleeCharacter::Fox)
    } else if css_index == 11 {
        Some(MeleeCharacter::Ness)
    } else if css_index == 12 {
        Some(MeleeCharacter::IceClimbers)
    } else if css_index == 13 {
        Some(MeleeCharacter::Kirby)
    } else if css_index == 14 {
        Some(MeleeCharacter::Samus)
    } else if css_index == 15 {
        Some(MeleeCharacter::Zelda)
    } else if css_index == 16 {
        Some(MeleeCharacter::Link)
    } else if css_index == 17 {
        Some(MeleeCharacter::YoungLink)
    } else if css_index == 18 {
        Some(MeleeCharacter::Pichu)
    } else if css_index == 19 {
        Some(MeleeCharacter::Pikachu)
    } else if css_index == 20 {
        Some(MeleeCharacter::Jigglypuff)
    } else if css_index == 21 {
        Some(MeleeCharacter::Mewtwo)
    } else if css_index == 22 {
        Some(MeleeCharacter::MrGameAndWatch)
    } else if css_index == 23 {
        Some(MeleeCharacter::Marth)
    } else if css_index == 24 {
        Some(MeleeCharacter::Roy)
    } else {
        None
    }
}

/// A character that may be unknown.
#[derive(Clone, Copy, Debug, PartialEq, Eq, Structural)]
pub struct OptionalMeleeCharacter(pub Option<MeleeCharacter>);

impl OptionalMeleeCharacter {
    /// The label of the presence artwork: a question mark for an unknown
    /// character.
    pub fn as_discord_resource(&self) -> (r: String)
        ensures
            self.0 matches Some(c) ==> r@ == spec_character_resource(c),
            self.0 is None ==> r@ == ("questionmark")@,
    {
        match &self.0 {
            Some(MeleeCharacter::DrMario) => ("char22").to_owned(),
            Some(MeleeCharacter::Mario) => ("char8").to_owned(),
            Some(MeleeCharacter::Luigi) => ("char7").to_owned(),
            Some(MeleeCharacter::Bowser) => ("char5").to_owned(),
            Some(MeleeCharacter::Peach) => ("char12").to_owned(),
            Some(MeleeCharacter::Yoshi) => ("char17").to_owned(),
            Some(MeleeCharacter::DonkeyKong) => ("char1").to_owned(),
            Some(MeleeCharacter::CaptainFalcon) => ("char0").to_owned(),
            Some(MeleeCharacter::Ganondorf) => ("char25").to_owned(),
            Some(MeleeCharacter::Falco) => ("char20").to_owned(),
            Some(MeleeCharacter::Fox) => ("char2").to_owned(),
            Some(MeleeCharacter::Ness) => ("char11").to_owned(),
            Some(MeleeCharacter::IceClimbers) => ("char14").to_owned(),
            Some(MeleeCharacter::Kirby) => ("char4").to_owned(),
            Some(MeleeCharacter::Samus) => ("char16").to_owned(),
            Some(MeleeCharacter::Zelda) => ("char18").to_owned(),
            Some(MeleeCharacter::Sheik) => ("char19").to_owned(),
            Some(MeleeCharacter::Link) => ("char6").to_owned(),
            Some(MeleeCharacter::YoungLink) => ("char21").to_owned(),
            Some(MeleeCharacter::Pichu) => ("char24").to_owned(),
            Some(MeleeCharacter::Pikachu) => ("char13").to_owned(),
            Some(MeleeCharacter::Jigglypuff) => ("char15").to_owned(),
            Some(MeleeCharacter::Mewtwo) => ("char10").to_owned(),
            Some(MeleeCharacter::MrGameAndWatch) => ("char3").to_owned(),
            Some(MeleeCharacter::Marth) => ("char9").to_owned(),
            Some(MeleeCharacter::Roy) => ("char23").to_owned(),
            Some(MeleeCharacter::Hidden) => ("transparent").to_owned(),
            None => ("questionmark").to_owned(),
        }
    }

    /// The name shown for the character, or a placeholder when unknown.
    pub fn label(&self) -> (r: String)
        ensures
            self.0 matches Some(c) ==> r@ == spec_character_name(c),
            self.0 is None ==> r@ == ("Unknown character")@,
    {
        match &self.0 {
            Some(c) => c.name(),
            None => ("Unknown character").to_owned(),
        }
    }
}

/// A stage of the game.
#[derive(Clone, Copy, Debug, PartialEq, Eq, Structural)]
pub enum MeleeStage {
    Castle,
    Rcruise,
    Kongo,
    Garden,
    Greatbay,
    Shrine,
    Zebes,
    Kraid,
    Story,
    Yoster,
    Izumi,
    Greens,
    Corneria,
    Venom,
    PStad,
    Pura,
    MuteCity,
    BigBlue,
    Onett,
    Fourside,
    IceMt,
    Mk1,
    Mk2,
    Akaneia,
    FlatZone,
    OldPu,
    OldStory,
    OldKongo,
    Battle,
    FD,
    HomeRunStadium,
    MarioTargetTest,
    CaptainFalconTargetTest,
    YoungLinkTargetTest,
    DonkeyKongTargetTest,
    DrMarioTargetTest,
    FalcoTargetTest,
    FoxTargetTest,
    IceClimbersTargetTest,
    KirbyTargetTest,
    BowserTargetTest,
    LinkTargetTest,
    LuigiTargetTest,
    MarthTargetTest,
    MewtwoTargetTest,
    NessTargetTest,
    PeachTargetTest,
    PichuTargetTest,
    PikachuTargetTest,
    JigglypuffTargetTest,
    SamusTargetTest,
    SheikTargetTest,
    YoshiTargetTest,
    ZeldaTargetTest,
    MrGameAndWatchTargetTest,
    RoyTargetTest,
    GanondorfTargetTest,
}

/// The stage identifier the game uses in match data.
pub open spec fn spec_stage_code(s: MeleeStage) -> u8 {
    match s {
        MeleeStage::Castle => 2,
        MeleeStage::Rcruise => 3,
        MeleeStage::Kongo => 4,
        MeleeStage::Garden => 5,
        MeleeStage::Greatbay => 6,
        MeleeStage::Shrine => 7,
        MeleeStage::Zebes => 8,
        MeleeStage::Kraid => 9,
        MeleeStage::Story => 10,
        MeleeStage::Yoster => 11,
        MeleeStage::Izumi => 12,
        MeleeStage::Greens => 13,
        MeleeStage::Corneria => 14,
        MeleeStage::Venom => 15,
        MeleeStage::PStad => 16,
        MeleeStage::Pura => 17,
        MeleeStage::MuteCity => 18,
        MeleeStage::BigBlue => 19,
        MeleeStage::Onett => 20,
        MeleeStage::Fourside => 21,
        MeleeStage::IceMt => 22,
        MeleeStage::Mk1 => 24,
        MeleeStage::Mk2 => 25,
        MeleeStage::Akaneia => 26,
        MeleeStage::FlatZone => 27,
        MeleeStage::OldPu => 28,
        MeleeStage::OldStory => 29,
        MeleeStage::OldKongo => 30,
        MeleeStage::Battle => 36,
        MeleeStage::FD => 37,
        MeleeStage::HomeRunStadium => 67,
        MeleeStage::MarioTargetTest => 40,
        MeleeStage::CaptainFalconTargetTest => 41,
        MeleeStage::YoungLinkTargetTest => 42,
        MeleeStage::DonkeyKongTargetTest => 43,
        MeleeStage::DrMarioTargetTest => 44,
        MeleeStage::FalcoTargetTest => 45,
        MeleeStage::FoxTargetTest => 46,
        MeleeStage::IceClimbersTargetTest => 47,
        MeleeStage::KirbyTargetTest => 48,
        MeleeStage::BowserTargetTest => 49,
        MeleeStage::LinkTargetTest => 50,
        MeleeStage::LuigiTargetTest => 51,
        MeleeStage::MarthTargetTest => 52,
        MeleeStage::MewtwoTargetTest => 53,
        MeleeStage::NessTargetTest => 54,
        MeleeStage::PeachTargetTest => 55,
        MeleeStage::PichuTargetTest => 56,
        MeleeStage::PikachuTargetTest => 57,
        MeleeStage::JigglypuffTargetTest => 58,
        MeleeStage::SamusTargetTest => 59,
        MeleeStage::SheikTargetTest => 60,
        MeleeStage::YoshiTargetTest => 61,
        MeleeStage::ZeldaTargetTest => 62,
        MeleeStage::MrGameAndWatchTargetTest => 63,
        MeleeStage::RoyTargetTest => 64,
        MeleeStage::GanondorfTargetTest => 65,
    }
}

/// The stage's display name.
pub open spec fn spec_stage_name(s: MeleeStage) -> Seq<char> {
    match s {
        MeleeStage::Castle => ("Princess Peach's Castle")@,
        MeleeStage::Rcruise => ("Rainbow Cruise")@,
        MeleeStage::Kongo => ("Kongo Jungle")@,
        MeleeStage::Garden => ("Jungle Japes")@,
        MeleeStage::Greatbay => ("Great Bay")@,
        MeleeStage::Shrine => ("Temple")@,
        MeleeStage::Zebes => ("Brinstar")@,
        MeleeStage::Kraid => ("Brinstar Depths")@,
        MeleeStage::Story => ("Yoshi's Story")@,
        MeleeStage::Yoster => ("Yoshi's Island")@,
        MeleeStage::Izumi => ("Fountain of Dreams")@,
        MeleeStage::Greens => ("Green Greens")@,
        MeleeStage::Corneria => ("Corneria")@,
        MeleeStage::Venom => ("Venom")@,
        MeleeStage::PStad => ("Pokemon Stadium")@,
        MeleeStage::Pura => ("Poke Floats")@,
        MeleeStage::MuteCity => ("Mute City")@,
        MeleeStage::BigBlue => ("Big Blue")@,
        MeleeStage::Onett => ("Onett")@,
        MeleeStage::Fourside => ("Fourside")@,
        MeleeStage::IceMt => ("IcicleMountain")@,
        MeleeStage::Mk1 => ("Mushroom Kingdom")@,
        MeleeStage::Mk2 => ("Mushroom Kingdom II")@,
        MeleeStage::Akaneia => ("Akaneia")@,
        MeleeStage::FlatZone => ("Flat Zone")@,
        MeleeStage::OldPu => ("Dream Land")@,
        MeleeStage::OldStory => ("Yoshi's Island (N64)")@,
        MeleeStage::OldKongo => ("Kongo Jungle (N64)")@,
        MeleeStage::Battle => ("Battlefield")@,
        MeleeStage::FD => ("Final Destination")@,
        MeleeStage::HomeRunStadium => ("Home-Run Stadium")@,
        MeleeStage::MarioTargetTest => ("Target Test (Mario)")@,
        MeleeStage::CaptainFalconTargetTest => ("Target Test (Captain Falcon)")@,
        MeleeStage::YoungLinkTargetTest => ("Target Test (Young Link)")@,
        MeleeStage::DonkeyKongTargetTest => ("Target Test (Donkey Kong)")@,
        MeleeStage::DrMarioTargetTest => ("Target Test (Dr. Mario)")@,
        MeleeStage::FalcoTargetTest => ("Target Test (Falco)")@,
        MeleeStage::FoxTargetTest => ("Target Test (Fox)")@,
        MeleeStage::IceClimbersTargetTest => ("Target Test (Ice Climbers)")@,
        MeleeStage::KirbyTargetTest => ("Target Test (Kirby)")@,
        MeleeStage::BowserTargetTest => ("Target Test (Bowser)")@,
        MeleeStage::LinkTargetTest => ("Target Test (Link)")@,
        MeleeStage::LuigiTargetTest => ("Target Test (Luigi)")@,
        MeleeStage::MarthTargetTest => ("Target Test (Marth)")@,
        MeleeStage::MewtwoTargetTest => ("Target Test (Mewtwo)")@,
        MeleeStage::NessTargetTest => ("Target Test (Ness)")@,
        MeleeStage::PeachTargetTest => ("Target Test (Peach)")@,
        MeleeStage::PichuTargetTest => ("Target Test (Pichu)")@,
        MeleeStage::PikachuTargetTest => ("Target Test (Pikachu)")@,
        MeleeStage::JigglypuffTargetTest => ("Target Test (Jigglypuff)")@,
        MeleeStage::SamusTargetTest => ("Target Test (Samus)")@,
        MeleeStage::SheikTargetTest => ("Target Test (Sheik)")@,
        MeleeStage::YoshiTargetTest => ("Target Test (Yoshi)")@,
        MeleeStage::ZeldaTargetTest => ("Target Test (Zelda)")@,
        MeleeStage::MrGameAndWatchTargetTest => ("Target Test (Mr. Game & Watch)")@,
        MeleeStage::RoyTargetTest => ("Target Test (Roy)")@,
        MeleeStage::GanondorfTargetTest => ("Target Test (Ganondorf)")@,
    }
}

/// Whether the stage is one of the per-character target-test stages.
pub open spec fn spec_is_target_test(s: MeleeStage) -> bool {
    40 <= spec_stage_code(s) <= 65
}

/// The label of the stage's presence artwork: target-test stages share one
/// label, every other stage is shown by its identifier.
pub open spec fn spec_stage_resource(s: MeleeStage) -> Seq<char> {
    if spec_is_target_test(s) {
        ("stagebtt")@
    } else {
        match s {
            MeleeStage::Castle => ("stage2")@,
            MeleeStage::Rcruise => ("stage3")@,
            MeleeStage::Kongo => ("stage4")@,
            MeleeStage::Garden => ("stage5")@,
            MeleeStage::Greatbay => ("stage6")@,
            MeleeStage::Shrine => ("stage7")@,
            MeleeStage::Zebes => ("stage8")@,
            MeleeStage::Kraid => ("stage9")@,
            MeleeStage::Story => ("stage10")@,
            MeleeStage::Yoster => ("stage11")@,
            MeleeStage::Izumi => ("stage12")@,
            MeleeStage::Greens => ("stage13")@,
            MeleeStage::Corneria => ("stage14")@,
            MeleeStage::Venom => ("stage15")@,
            MeleeStage::PStad => ("stage16")@,
            MeleeStage::Pura => ("stage17")@,
            MeleeStage::MuteCity => ("stage18")@,
            MeleeStage::BigBlue => ("stage19")@,
            MeleeStage::Onett => ("stage20")@,
            MeleeStage::Fourside => ("stage21")@,
            MeleeStage::IceMt => ("stage22")@,
            MeleeStage::Mk1 => ("stage24")@,
            MeleeStage::Mk2 => ("stage25")@,
            MeleeStage::Akaneia => ("stage26")@,
            MeleeStage::FlatZone => ("stage27")@,
            MeleeStage::OldPu => ("stage28")@,
            MeleeStage::OldStory => ("stage29")@,
            MeleeStage::OldKongo => ("stage30")@,
            MeleeStage::Battle => ("stage36")@,
            MeleeStage::FD => ("stage37")@,
            MeleeStage::HomeRunStadium => ("stage67")@,
            _ => ("stagebtt")@,
        }
    }
}

impl MeleeStage {
    /// The stage identifier the game uses in match data.
    pub fn code(&self) -> (r: u8)
        ensures
            r == spec_stage_code(*self),
    {
        match self {
            MeleeStage::Castle => 2,
            MeleeStage::Rcruise => 3,
            MeleeStage::Kongo => 4,
            MeleeStage::Garden => 5,
            MeleeStage::Greatbay => 6,
            MeleeStage::Shrine => 7,
            MeleeStage::Zebes => 8,
            MeleeStage::Kraid => 9,
            MeleeStage::Story => 10,
            MeleeStage::Yoster => 11,
            MeleeStage::Izumi => 12,
            MeleeStage::Greens => 13,
            MeleeStage::Corneria => 14,
            MeleeStage::Venom => 15,
            MeleeStage::PStad => 16,
            MeleeStage::Pura => 17,
            MeleeStage::MuteCity => 18,
            MeleeStage::BigBlue => 19,
            MeleeStage::Onett => 20,
            MeleeStage::Fourside => 21,
            MeleeStage::IceMt => 22,
            MeleeStage::Mk1 => 24,
            MeleeStage::Mk2 => 25,
            MeleeStage::Akaneia => 26,
            MeleeStage::FlatZone => 27,
            MeleeStage::OldPu => 28,
            MeleeStage::OldStory => 29,
            MeleeStage::OldKongo => 30,
            MeleeStage::Battle => 36,
            MeleeStage::FD => 37,
            MeleeStage::HomeRunStadium => 67,
            MeleeStage::MarioTargetTest => 40,
            MeleeStage::CaptainFalconTargetTest => 41,
            MeleeStage::YoungLinkTargetTest => 42,
            MeleeStage::DonkeyKongTargetTest => 43,
            MeleeStage::DrMarioTargetTest => 44,
            MeleeStage::FalcoTargetTest => 45,
            MeleeStage::FoxTargetTest => 46,
            MeleeStage::IceClimbersTargetTest => 47,
            MeleeStage::KirbyTargetTest => 48,
            MeleeStage::BowserTargetTest => 49,
            MeleeStage::LinkTargetTest => 50,
            MeleeStage::LuigiTargetTest => 51,
            MeleeStage::MarthTargetTest => 52,
            MeleeStage::MewtwoTargetTest => 53,
            MeleeStage::NessTargetTest => 54,
            MeleeStage::PeachTargetTest => 55,
            MeleeStage::PichuTargetTest => 56,
            MeleeStage::PikachuTargetTest => 57,
            MeleeStage::JigglypuffTargetTest => 58,
            MeleeStage::SamusTargetTest => 59,
            MeleeStage::SheikTargetTest => 60,
            MeleeStage::YoshiTargetTest => 61,
            MeleeStage::ZeldaTargetTest => 62,
            MeleeStage::MrGameAndWatchTargetTest => 63,
            MeleeStage::RoyTargetTest => 64,
            MeleeStage::GanondorfTargetTest => 65,
        }
    }

    /// Whether the stage is one of the per-character target-test stages.
    pub fn is_target_test(&self) -> (r: bool)
        ensures
            r == spec_is_target_test(*self),
    {
        let code = self.code();
        40 <= code && code <= 65
    }

    /// The stage's display name.
    pub fn name(&self) -> (r: String)
        ensures
            r@ == spec_stage_name(*self),
    {
        match self {
            MeleeStage::Castle => ("Princess Peach's Castle").to_owned(),
            MeleeStage::Rcruise => ("Rainbow Cruise").to_owned(),
            MeleeStage::Kongo => ("Kongo Jungle").to_owned(),
            MeleeStage::Garden => ("Jungle Japes").to_owned(),
            MeleeStage::Greatbay => ("Great Bay").to_owned(),
            MeleeStage::Shrine => ("Temple").to_owned(),
            MeleeStage::Zebes => ("Brinstar").to_owned(),
            MeleeStage::Kraid => ("Brinstar Depths").to_owned(),
            MeleeStage::Story => ("Yoshi's Story").to_owned(),
            MeleeStage::Yoster => ("Yoshi's Island").to_owned(),
            MeleeStage::Izumi => ("Fountain of Dreams").to_owned(),
            MeleeStage::Greens => ("Green Greens").to_owned(),
            MeleeStage::Corneria => ("Corneria").to_owned(),
            MeleeStage::Venom => ("Venom").to_owned(),
            MeleeStage::PStad => ("Pokemon Stadium").to_owned(),
            MeleeStage::Pura => ("Poke Floats").to_owned(),
            MeleeStage::MuteCity => ("Mute City").to_owned(),
            MeleeStage::BigBlue => ("Big Blue").to_owned(),
            MeleeStage::Onett => ("Onett").to_owned(),
            MeleeStage::Fourside => ("Fourside").to_owned(),
            MeleeStage::IceMt => ("IcicleMountain").to_owned(),
            MeleeStage::Mk1 => ("Mushroom Kingdom").to_owned(),
            MeleeStage::Mk2 => ("Mushroom Kingdom II").to_owned(),
            MeleeStage::Akaneia => ("Akaneia").to_owned(),
            MeleeStage::FlatZone => ("Flat Zone").to_owned(),
            MeleeStage::OldPu => ("Dream Land").to_owned(),
            MeleeStage::OldStory => ("Yoshi's Island (N64)").to_owned(),
            MeleeStage::OldKongo => ("Kongo Jungle (N64)").to_owned(),
            MeleeStage::Battle => ("Battlefield").to_owned(),
            MeleeStage::FD => ("Final Destination").to_owned(),
            MeleeStage::HomeRunStadium => ("Home-Run Stadium").to_owned(),
            MeleeStage::MarioTargetTest => ("Target Test (Mario)").to_owned(),
            MeleeStage::CaptainFalconTargetTest => ("Target Test (Captain Falcon)").to_owned(),
            MeleeStage::YoungLinkTargetTest => ("Target Test (Young Link)").to_owned(),
            MeleeStage::DonkeyKongTargetTest => ("Target Test (Donkey Kong)").to_owned(),
            MeleeStage::DrMarioTargetTest => ("Target Test (Dr. Mario)").to_owned(),
            MeleeStage::FalcoTargetTest => ("Target Test (Falco)").to_owned(),
            MeleeStage::FoxTargetTest => ("Target Test (Fox)").to_owned(),
            MeleeStage::IceClimbersTargetTest => ("Target Test (Ice Climbers)").to_owned(),
            MeleeStage::KirbyTargetTest => ("Target Test (Kirby)").to_owned(),
            MeleeStage::BowserTargetTest => ("Target Test (Bowser)").to_owned(),
            MeleeStage::LinkTargetTest => ("Target Test (Link)").to_owned(),
            MeleeStage::LuigiTargetTest => ("Target Test (Luigi)").to_owned(),
            MeleeStage::MarthTargetTest => ("Target Test (Marth)").to_owned(),
            MeleeStage::MewtwoTargetTest => ("Target Test (Mewtwo)").to_owned(),
            MeleeStage::NessTargetTest => ("Target Test (Ness)").to_owned(),
            MeleeStage::PeachTargetTest => ("Target Test (Peach)").to_owned(),
            MeleeStage::PichuTargetTest => ("Target Test (Pichu)").to_owned(),
            MeleeStage::PikachuTargetTest => ("Target Test (Pikachu)").to_owned(),
            MeleeStage::JigglypuffTargetTest => ("Target Test (Jigglypuff)").to_owned(),
            MeleeStage::SamusTargetTest => ("Target Test (Samus)").to_owned(),
            MeleeStage::SheikTargetTest => ("Target Test (Sheik)").to_owned(),
            MeleeStage::YoshiTargetTest => ("Target Test (Yoshi)").to_owned(),
            MeleeStage::ZeldaTargetTest => ("Target Test (Zelda)").to_owned(),
            MeleeStage::MrGameAndWatchTargetTest => ("Target Test (Mr. Game & Watch)").to_owned(),
            MeleeStage::RoyTargetTest => ("Target Test (Roy)").to_owned(),
            MeleeStage::GanondorfTargetTest => ("Target Test (Ganondorf)").to_owned(),
        }
    }
}

/// A stage that may be unknown.
#[derive(Clone, Copy, Debug, PartialEq, Eq, Structural)]
pub struct OptionalMeleeStage(pub Option<MeleeStage>);

impl OptionalMeleeStage {
    /// The label of the presence artwork: a question mark for an unknown
    /// stage.
    pub fn as_discord_resource(&self) -> (r: String)
        ensures
            self.0 matches Some(s) ==> r@ == spec_stage_resource(s),
            self.0 is None ==> r@ == ("questionmark")@,
    {
        match &self.0 {
            Some(s) => {
                if s.is_target_test() {
                    ("stagebtt").to_owned()
                } else {
                    match s {
                        MeleeStage::Castle => ("stage2").to_owned(),
                        MeleeStage::Rcruise => ("stage3").to_owned(),
                        MeleeStage::Kongo => ("stage4").to_owned(),
                        MeleeStage::Garden => ("stage5").to_owned(),
                        MeleeStage::Greatbay => ("stage6").to_owned(),
                        MeleeStage::Shrine => ("stage7").to_owned(),
                        MeleeStage::Zebes => ("stage8").to_owned(),
                        MeleeStage::Kraid => ("stage9").to_owned(),
                        MeleeStage::Story => ("stage10").to_owned(),
                        MeleeStage::Yoster => ("stage11").to_owned(),
                        MeleeStage::Izumi => ("stage12").to_owned(),
                        MeleeStage::Greens => ("stage13").to_owned(),
                        MeleeStage::Corneria => ("stage14").to_owned(),
                        MeleeStage::Venom => ("stage15").to_owned(),
                        MeleeStage::PStad => ("stage16").to_owned(),
                        MeleeStage::Pura => ("stage17").to_owned(),
                        MeleeStage::MuteCity => ("stage18").to_owned(),
                        MeleeStage::BigBlue => ("stage19").to_owned(),
                        MeleeStage::Onett => ("stage20").to_owned(),
                        MeleeStage::Fourside => ("stage21").to_owned(),
                        MeleeStage::IceMt => ("stage22").to_owned(),
                        MeleeStage::Mk1 => ("stage24").to_owned(),
                        MeleeStage::Mk2 => ("stage25").to_owned(),
                        MeleeStage::Akaneia => ("stage26").to_owned(),
                        MeleeStage::FlatZone => ("stage27").to_owned(),
                        MeleeStage::OldPu => ("stage28").to_owned(),
                        MeleeStage::OldStory => ("stage29").to_owned(),
                        MeleeStage::OldKongo => ("stage30").to_owned(),
                        MeleeStage::Battle => ("stage36").to_owned(),
                        MeleeStage::FD => ("stage37").to_owned(),
                        MeleeStage::HomeRunStadium => ("stage67").to_owned(),
                        _ => ("stagebtt").to_owned(),
                    }
                }
            },
            None => ("questionmark").to_owned(),
        }
    }

    /// The name shown for the stage, or a placeholder when unknown.
    pub fn label(&self) -> (r: String)
        ensures
            self.0 matches Some(s) ==> r@ == spec_stage_name(s),
            self.0 is None ==> r@ == ("Unknown stage")@,
    {
        match &self.0 {
            Some(s) => s.name(),
            None => ("Unknown stage").to_owned(),
        }
    }
}


/// The matchmaking scene shown in the online menu.
#[derive(Clone, Copy, Debug, PartialEq, Eq, Structural)]
pub enum SlippiMenuScene {
    Ranked,
    Unranked,
    Direct,
    Teams,
}

/// The menu scene's display name.
pub open spec fn spec_menu_scene_label(s: SlippiMenuScene) -> Seq<char> {
    match s {
        SlippiMenuScene::Ranked => ("Ranked")@,
        SlippiMenuScene::Unranked => ("Unranked")@,
        SlippiMenuScene::Direct => ("Direct")@,
        SlippiMenuScene::Teams => ("Teams")@,
    }
}

impl SlippiMenuScene {
    /// The scene's display name.
    pub fn label(&self) -> (r: String)
        ensures
            r@ == spec_menu_scene_label(*self),
    {
        match self {
            SlippiMenuScene::Ranked => ("Ranked").to_owned(),
            SlippiMenuScene::Unranked => ("Unranked").to_owned(),
            SlippiMenuScene::Direct => ("Direct").to_owned(),
            SlippiMenuScene::Teams => ("Teams").to_owned(),
        }
    }
}

/// The variants of the multi-man mode.
#[derive(Clone, Copy, Debug, PartialEq, Eq, Structural)]
pub enum MultiManVariant {
    TenMan,
    HundredMan,
    ThreeMinute,
    FifteenMinute,
    Endless,
    Cruel,
}

/// Where in the game the player currently is.
#[derive(Clone, Copy, Debug, PartialEq, Eq, Structural)]
pub enum MeleeScene {
    MainMenu,
    VsMode,
    UnclePunch,
    TrainingMode,
    SlippiOnline(Option<SlippiMenuScene>),
    SlippiCss(Option<SlippiMenuScene>),
    HomeRunContest,
    TargetTest(Option<MeleeStage>),
    MultiManMelee(MultiManVariant),
}

/// The scene's display name. A target-test run names its stage only when
/// `show_stage_name` asks for it; the character-select scene has no name of
/// its own.
pub open spec fn spec_scene_label(s: MeleeScene, show_stage_name: bool) -> Seq<char>
    recommends
        !(s is SlippiCss),
{
    match s {
        MeleeScene::MainMenu => ("Main Menu")@,
        MeleeScene::VsMode => ("Vs. Mode")@,
        MeleeScene::UnclePunch => ("UnclePunch Training Mode")@,
        MeleeScene::TrainingMode => ("Training Mode")@,
        MeleeScene::SlippiOnline(Some(scene)) => spec_menu_scene_label(scene),
        MeleeScene::SlippiOnline(None) => ("Slippi Online")@,
        MeleeScene::HomeRunContest => ("Home-Run Contest")@,
        MeleeScene::TargetTest(Some(stage)) => if show_stage_name {
            spec_stage_name(stage)
        } else {
            ("Target Test")@
        },
        MeleeScene::TargetTest(None) => ("Target Test")@,
        MeleeScene::MultiManMelee(MultiManVariant::TenMan) => ("Multi-Man Melee (10 man)")@,
        MeleeScene::MultiManMelee(MultiManVariant::HundredMan) => ("Multi-Man Melee (100 man)")@,
        MeleeScene::MultiManMelee(MultiManVariant::ThreeMinute) => ("Multi-Man Melee (3 min)")@,
        MeleeScene::MultiManMelee(MultiManVariant::FifteenMinute) => ("Multi-Man Melee (15 min)")@,
        MeleeScene::MultiManMelee(MultiManVariant::Endless) => ("Multi-Man Melee (Endless)")@,
        MeleeScene::MultiManMelee(MultiManVariant::Cruel) => ("Multi-Man Melee (Cruel)")@,
        MeleeScene::SlippiCss(_) => Seq::<char>::empty(),
    }
}

impl MeleeScene {
    /// The scene's display name; the character-select scene is excluded, as
    /// it never reaches a presence payload.
    pub fn label(&self, show_stage_name: bool) -> (r: String)
        requires
            !(*self is SlippiCss),
        ensures
            r@ == spec_scene_label(*self, show_stage_name),
    {
        match self {
            MeleeScene::MainMenu => ("Main Menu").to_owned(),
            MeleeScene::VsMode => ("Vs. Mode").to_owned(),
            MeleeScene::UnclePunch => ("UnclePunch Training Mode").to_owned(),
            MeleeScene::TrainingMode => ("Training Mode").to_owned(),
            MeleeScene::SlippiOnline(Some(scene)) => scene.label(),
            MeleeScene::SlippiOnline(None) => ("Slippi Online").to_owned(),
            MeleeScene::HomeRunContest => ("Home-Run Contest").to_owned(),
            MeleeScene::TargetTest(Some(stage)) => {
                if show_stage_name {
                    stage.name()
                } else {
                    ("Target Test").to_owned()
                }
            },
            MeleeScene::TargetTest(None) => ("Target Test").to_owned(),
            MeleeScene::MultiManMelee(MultiManVariant::TenMan) => (
            "Multi-Man Melee (10 man)").to_owned(),
            MeleeScene::MultiManMelee(MultiManVariant::HundredMan) => (
            "Multi-Man Melee (100 man)").to_owned(),
            MeleeScene::MultiManMelee(MultiManVariant::ThreeMinute) => (
            "Multi-Man Melee (3 min)").to_owned(),
            MeleeScene::MultiManMelee(MultiManVariant::FifteenMinute) => (
            "Multi-Man Melee (15 min)").to_owned(),
            MeleeScene::MultiManMelee(MultiManVariant::Endless) => (
            "Multi-Man Melee (Endless)").to_owned(),
            MeleeScene::MultiManMelee(MultiManVariant::Cruel) => (
            "Multi-Man Melee (Cruel)").to_owned(),
            MeleeScene::SlippiCss(_) => unreached(),
        }
    }
}

/// The fields of the match-state receive block, by their byte offset. Each
/// field starts where the previous one ends; the one exception is the
/// error-message length, which is a length rather than an offset.
#[derive(Clone, Copy, Debug, PartialEq, Eq, Structural)]
pub enum MSRBOffset {
    /// Matchmaking state, one byte.
    MsrbConnectionState,
    /// Boolean byte.
    MsrbIsLocalPlayerReady,
    /// Boolean byte.
    MsrbIsRemotePlayerReady,
    /// One byte.
    MsrbLocalPlayerIndex,
    /// One byte.
    MsrbRemotePlayerIndex,
    /// Four bytes.
    MsrbRngOffset,
    /// One byte.
    MsrbDelayFrames,
    /// One byte.
    MsrbUserChatmsgId,
    /// One byte.
    MsrbOppChatmsgId,
    /// One byte.
    MsrbChatmsgPlayerIndex,
    /// Four bytes of player ports.
    MsrbVsLeftPlayers,
    /// Four bytes of player ports.
    MsrbVsRightPlayers,
    /// 31 bytes.
    MsrbLocalName,
    /// 31 bytes.
    MsrbP1Name,
    /// 31 bytes.
    MsrbP2Name,
    /// 31 bytes.
    MsrbP3Name,
    /// 31 bytes.
    MsrbP4Name,
    /// 31 bytes.
    MsrbOppName,
    /// 10 bytes, the number sign in Shift-JIS.
    MsrbP1ConnectCode,
    /// 10 bytes, the number sign in Shift-JIS.
    MsrbP2ConnectCode,
    /// 10 bytes, the number sign in Shift-JIS.
    MsrbP3ConnectCode,
    /// 10 bytes, the number sign in Shift-JIS.
    MsrbP4ConnectCode,
    /// 29 bytes.
    MsrbP1SlippiUid,
    /// 29 bytes.
    MsrbP2SlippiUid,
    /// 29 bytes.
    MsrbP3SlippiUid,
    /// 29 bytes.
    MsrbP4SlippiUid,
    /// 241 bytes.
    MsrbErrorMsg,
    /// The length of the error message field.
    ErrorMessageLen,
    /// The 0x138-byte match structure.
    MsrbGameInfoBlock,
    /// 51 bytes.
    MsrbMatchId,
    /// The size of the whole block.
    MsrbSize,
}

/// The byte offset of a match-state field (or, for the error-message
/// length, the field's size).
pub open spec fn spec_msrb_offset(o: MSRBOffset) -> u32 {
    match o {
        MSRBOffset::MsrbConnectionState => 0,
        MSRBOffset::MsrbIsLocalPlayerReady => 1,
        MSRBOffset::MsrbIsRemotePlayerReady => 2,
        MSRBOffset::MsrbLocalPlayerIndex => 3,
        MSRBOffset::MsrbRemotePlayerIndex => 4,
        MSRBOffset::MsrbRngOffset => 5,
        MSRBOffset::MsrbDelayFrames => 9,
        MSRBOffset::MsrbUserChatmsgId => 10,
        MSRBOffset::MsrbOppChatmsgId => 11,
        MSRBOffset::MsrbChatmsgPlayerIndex => 12,
        MSRBOffset::MsrbVsLeftPlayers => 13,
        MSRBOffset::MsrbVsRightPlayers => 17,
        MSRBOffset::MsrbLocalName => 21,
        MSRBOffset::MsrbP1Name => 52,
        MSRBOffset::MsrbP2Name => 83,
        MSRBOffset::MsrbP3Name => 114,
        MSRBOffset::MsrbP4Name => 145,
        MSRBOffset::MsrbOppName => 176,
        MSRBOffset::MsrbP1ConnectCode => 207,
        MSRBOffset::MsrbP2ConnectCode => 217,
        MSRBOffset::MsrbP3ConnectCode => 227,
        MSRBOffset::MsrbP4ConnectCode => 237,
        MSRBOffset::MsrbP1SlippiUid => 247,
        MSRBOffset::MsrbP2SlippiUid => 276,
        MSRBOffset::MsrbP3SlippiUid => 305,
        MSRBOffset::MsrbP4SlippiUid => 334,
        MSRBOffset::MsrbErrorMsg => 363,
        MSRBOffset::ErrorMessageLen => 241,
        MSRBOffset::MsrbGameInfoBlock => 604,
        MSRBOffset::MsrbMatchId => 916,
        MSRBOffset::MsrbSize => 967,
    }
}

impl MSRBOffset {
    /// The byte offset of the field inside the block.
    pub fn offset(&self) -> (r: u32)
        ensures
            r == spec_msrb_offset(*self),
    {
        match self {
            MSRBOffset::MsrbConnectionState => 0,
            MSRBOffset::MsrbIsLocalPlayerReady => 1,
            MSRBOffset::MsrbIsRemotePlayerReady => 2,
            MSRBOffset::MsrbLocalPlayerIndex => 3,
            MSRBOffset::MsrbRemotePlayerIndex => 4,
            MSRBOffset::MsrbRngOffset => 5,
            MSRBOffset::MsrbDelayFrames => 9,
            MSRBOffset::MsrbUserChatmsgId => 10,
            MSRBOffset::MsrbOppChatmsgId => 11,
            MSRBOffset::MsrbChatmsgPlayerIndex => 12,
            MSRBOffset::MsrbVsLeftPlayers => 13,
            MSRBOffset::MsrbVsRightPlayers => 17,
            MSRBOffset::MsrbLocalName => 21,
            MSRBOffset::MsrbP1Name => 52,
            MSRBOffset::MsrbP2Name => 83,
            MSRBOffset::MsrbP3Name => 114,
            MSRBOffset::MsrbP4Name => 145,
            MSRBOffset::MsrbOppName => 176,
            MSRBOffset::MsrbP1ConnectCode => 207,
            MSRBOffset::MsrbP2ConnectCode => 217,
            MSRBOffset::MsrbP3ConnectCode => 227,
            MSRBOffset::MsrbP4ConnectCode => 237,
            MSRBOffset::MsrbP1SlippiUid => 247,
            MSRBOffset::MsrbP2SlippiUid => 276,
            MSRBOffset::MsrbP3SlippiUid => 305,
            MSRBOffset::MsrbP4SlippiUid => 334,
            MSRBOffset::MsrbErrorMsg => 363,
            MSRBOffset::ErrorMessageLen => 241,
            MSRBOffset::MsrbGameInfoBlock => 604,
            MSRBOffset::MsrbMatchId => 916,
            MSRBOffset::MsrbSize => 967,
        }
    }
}

} // verus!
