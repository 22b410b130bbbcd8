//! Championship calendars: the career cups of each module by tier, and the
//! full championship seasons.
use vstd::prelude::*;
use crate::modules::same_text;

verus! {

/// How a championship awards points.
#[derive(Debug, Clone, Copy, PartialEq, Eq, Structural)]
pub enum PointSystem {
    FiaStandard { fastest_lap_bonus: bool },
    NascarCup { stage_win_bonus: bool },
}

/// A championship to be started: its name, calendar, laps per round, point
/// system and tier.
#[derive(Debug, Clone)]
pub struct CupPlan {
    pub name: String,
    pub track_ids: Vec<String>,
    pub laps_per_round: u32,
    pub points: PointSystem,
    pub tier: u32,
}

/// The texts of a list of strings.
pub open spec fn texts(v: Seq<String>) -> Seq<Seq<char>> {
    v.map_values(|t: String| t@)
}

/// Name of the NASCAR career cup of a tier (tiers other than 1 to 4 give the tier-5 cup).
pub open spec fn nascar_cup_name(tier: u32) -> Seq<char> {
    if tier == 1 {
        "NASCAR Weekly Short Track Series (Tier 1)"@
    } else if tier == 2 {
        "NASCAR Intermediate Oval Challenge (Tier 2)"@
    } else if tier == 3 {
        "NASCAR National Road & Oval Tour (Tier 3)"@
    } else if tier == 4 {
        "NASCAR Premier Speedway Trophy (Tier 4)"@
    } else {
        "NASCAR Cup Series Championship (Tier 5)"@
    }
}

/// Calendar of the NASCAR career cup of a tier.
pub open spec fn nascar_cup_tracks(tier: u32) -> Seq<Seq<char>> {
    if tier == 1 {
        seq!["martinsville_speedway"@, "bristol_motor_speedway"@, "eldora_speedway"@, "bowman_gray_stadium"@, "lucas_oil_irp"@]
    } else if tier == 2 {
        seq!["charlotte_motor_speedway"@, "darlington_raceway"@, "north_wilkesboro_speedway"@, "martinsville_speedway"@, "bristol_motor_speedway"@, "eldora_speedway"@, "lucas_oil_irp"@]
    } else if tier == 3 {
        seq!["iowa_speedway"@, "watkins_glen_nascar"@, "road_america"@, "charlotte_motor_speedway"@, "darlington_raceway"@, "north_wilkesboro_speedway"@, "martinsville_speedway"@, "bristol_motor_speedway"@, "lucas_oil_irp"@]
    } else if tier == 4 {
        seq!["indianapolis_motor_speedway"@, "pocono_raceway"@, "chicago_street_course"@, "iowa_speedway"@, "watkins_glen_nascar"@, "road_america"@, "charlotte_motor_speedway"@, "darlington_raceway"@, "bristol_motor_speedway"@, "martinsville_speedway"@]
    } else {
        seq!["daytona_superspeedway"@, "talladega_superspeedway"@, "phoenix_raceway"@, "indianapolis_motor_speedway"@, "pocono_raceway"@, "chicago_street_course"@, "iowa_speedway"@, "watkins_glen_nascar"@, "road_america"@, "charlotte_motor_speedway"@, "darlington_raceway"@, "martinsville_speedway"@]
    }
}

/// The NASCAR career cup of a tier: name, calendar, laps per round and points.
pub fn nascar_career_cup(tier: u32) -> (r: CupPlan)
    ensures
        r.name@ == nascar_cup_name(tier),
        texts(r.track_ids@) == nascar_cup_tracks(tier),
        r.laps_per_round == 4,
        r.points == (PointSystem::NascarCup { stage_win_bonus: true }),
        r.tier == tier,
{
    let mut v: Vec<String> = Vec::new();
    let name: String = if tier == 1 {
        v.push("martinsville_speedway".to_owned());
        v.push("bristol_motor_speedway".to_owned());
        v.push("eldora_speedway".to_owned());
        v.push("bowman_gray_stadium".to_owned());
        v.push("lucas_oil_irp".to_owned());
        assert(texts(v@) =~= seq!["martinsville_speedway"@, "bristol_motor_speedway"@, "eldora_speedway"@, "bowman_gray_stadium"@, "lucas_oil_irp"@]);
        "NASCAR Weekly Short Track Series (Tier 1)".to_owned()
    } else if tier == 2 {
        v.push("charlotte_motor_speedway".to_owned());
        v.push("darlington_raceway".to_owned());
        v.push("north_wilkesboro_speedway".to_owned());
        v.push("martinsville_speedway".to_owned());
        v.push("bristol_motor_speedway".to_owned());
        v.push("eldora_speedway".to_owned());
        v.push("lucas_oil_irp".to_owned());
        assert(texts(v@) =~= seq!["charlotte_motor_speedway"@, "darlington_raceway"@, "north_wilkesboro_speedway"@, "martinsville_speedway"@, "bristol_motor_speedway"@, "eldora_speedway"@, "lucas_oil_irp"@]);
        "NASCAR Intermediate Oval Challenge (Tier 2)".to_owned()
    } else if tier == 3 {
        v.push("iowa_speedway".to_owned());
        v.push("watkins_glen_nascar".to_owned());
        v.push("road_america".to_owned());
        v.push("charlotte_motor_speedway".to_owned());
        v.push("darlington_raceway".to_owned());
        v.push("north_wilkesboro_speedway".to_owned());
        v.push("martinsville_speedway".to_owned());
        v.push("bristol_motor_speedway".to_owned());
        v.push("lucas_oil_irp".to_owned());
        assert(texts(v@) =~= seq!["iowa_speedway"@, "watkins_glen_nascar"@, "road_america"@, "charlotte_motor_speedway"@, "darlington_raceway"@, "north_wilkesboro_speedway"@, "martinsville_speedway"@, "bristol_motor_speedway"@, "lucas_oil_irp"@]);
        "NASCAR National Road & Oval Tour (Tier 3)".to_owned()
    } else if tier == 4 {
        v.push("indianapolis_motor_speedway".to_owned());
        v.push("pocono_raceway".to_owned());
        v.push("chicago_street_course".to_owned());
        v.push("iowa_speedway".to_owned());
        v.push("watkins_glen_nascar".to_owned());
        v.push("road_america".to_owned());
        v.push("charlotte_motor_speedway".to_owned());
        v.push("darlington_raceway".to_owned());
        v.push("bristol_motor_speedway".to_owned());
        v.push("martinsville_speedway".to_owned());
        assert(texts(v@) =~= seq!["indianapolis_motor_speedway"@, "pocono_raceway"@, "chicago_street_course"@, "iowa_speedway"@, "watkins_glen_nascar"@, "road_america"@, "charlotte_motor_speedway"@, "darlington_raceway"@, "bristol_motor_speedway"@, "martinsville_speedway"@]);
        "NASCAR Premier Speedway Trophy (Tier 4)".to_owned()
    } else {
        v.push("daytona_superspeedway".to_owned());
        v.push("talladega_superspeedway".to_owned());
        v.push("phoenix_raceway".to_owned());
        v.push("indianapolis_motor_speedway".to_owned());
        v.push("pocono_raceway".to_owned());
        v.push("chicago_street_course".to_owned());
        v.push("iowa_speedway".to_owned());
        v.push("watkins_glen_nascar".to_owned());
        v.push("road_america".to_owned());
        v.push("charlotte_motor_speedway".to_owned());
        v.push("darlington_raceway".to_owned());
        v.push("martinsville_speedway".to_owned());
        assert(texts(v@) =~= seq!["daytona_superspeedway"@, "talladega_superspeedway"@, "phoenix_raceway"@, "indianapolis_motor_speedway"@, "pocono_raceway"@, "chicago_street_course"@, "iowa_speedway"@, "watkins_glen_nascar"@, "road_america"@, "charlotte_motor_speedway"@, "darlington_raceway"@, "martinsville_speedway"@]);
        "NASCAR Cup Series Championship (Tier 5)".to_owned()
    };
    CupPlan { name, track_ids: v, laps_per_round: 4, points: PointSystem::NascarCup { stage_win_bonus: true }, tier }
}

/// Name of the Rallycross career cup of a tier (tiers other than 1 to 4 give the tier-5 cup).
pub open spec fn rally_cup_name(tier: u32) -> Seq<char> {
    if tier == 1 {
        "Rallycross Grassroots Cup (Tier 1)"@
    } else if tier == 2 {
        "World Rallycross Challenge (Tier 2)"@
    } else if tier == 3 {
        "Group B Masters Series (Tier 3)"@
    } else if tier == 4 {
        "Dakar Rally Raid Trophy (Tier 4)"@
    } else {
        "Stadium Super Trucks World Series (Tier 5)"@
    }
}

/// Calendar of the Rallycross career cup of a tier.
pub open spec fn rally_cup_tracks(tier: u32) -> Seq<Seq<char>> {
    if tier == 1 {
        seq!["holjes_rx"@, "lydden_hill"@, "mettet_rx"@, "dreux_rx"@, "blyton_rx"@]
    } else if tier == 2 {
        seq!["hell_rx"@, "loheac_rx"@, "silverstone_rx"@, "holjes_rx"@, "lydden_hill"@, "mettet_rx"@, "blyton_rx"@]
    } else if tier == 3 {
        seq!["estering_rx"@, "montalegre_rx"@, "riga_rx"@, "hell_rx"@, "loheac_rx"@, "silverstone_rx"@, "holjes_rx"@, "lydden_hill"@, "mettet_rx"@]
    } else if tier == 4 {
        seq!["nyirad_rx"@, "kouvola_rx"@, "killarney_rx"@, "estering_rx"@, "montalegre_rx"@, "riga_rx"@, "hell_rx"@, "loheac_rx"@, "silverstone_rx"@, "holjes_rx"@]
    } else {
        seq!["catalunya_rx"@, "yas_marina_rx"@, "essay_rx"@, "nyirad_rx"@, "kouvola_rx"@, "killarney_rx"@, "estering_rx"@, "montalegre_rx"@, "riga_rx"@, "hell_rx"@, "loheac_rx"@, "holjes_rx"@]
    }
}

/// The Rallycross career cup of a tier: name, calendar, laps per round and points.
pub fn rally_career_cup(tier: u32) -> (r: CupPlan)
    ensures
        r.name@ == rally_cup_name(tier),
        texts(r.track_ids@) == rally_cup_tracks(tier),
        r.laps_per_round == 5,
        r.points == (PointSystem::FiaStandard { fastest_lap_bonus: true }),
        r.tier == tier,
{
    let mut v: Vec<String> = Vec::new();
    let name: String = if tier == 1 {
        v.push("holjes_rx".to_owned());
        v.push("lydden_hill".to_owned());
        v.push("mettet_rx".to_owned());
        v.push("dreux_rx".to_owned());
        v.push("blyton_rx".to_owned());
        assert(texts(v@) =~= seq!["holjes_rx"@, "lydden_hill"@, "mettet_rx"@, "dreux_rx"@, "blyton_rx"@]);
        "Rallycross Grassroots Cup (Tier 1)".to_owned()
    } else if tier == 2 {
        v.push("hell_rx".to_owned());
        v.push("loheac_rx".to_owned());
        v.push("silverstone_rx".to_owned());
        v.push("holjes_rx".to_owned());
        v.push("lydden_hill".to_owned());
        v.push("mettet_rx".to_owned());
        v.push("blyton_rx".to_owned());
        assert(texts(v@) =~= seq!["hell_rx"@, "loheac_rx"@, "silverstone_rx"@, "holjes_rx"@, "lydden_hill"@, "mettet_rx"@, "blyton_rx"@]);
        "World Rallycross Challenge (Tier 2)".to_owned()
    } else if tier == 3 {
        v.push("estering_rx".to_owned());
        v.push("montalegre_rx".to_owned());
        v.push("riga_rx".to_owned());
        v.push("hell_rx".to_owned());
        v.push("loheac_rx".to_owned());
        v.push("silverstone_rx".to_owned());
        v.push("holjes_rx".to_owned());
        v.push("lydden_hill".to_owned());
        v.push("mettet_rx".to_owned());
        assert(texts(v@) =~= seq!["estering_rx"@, "montalegre_rx"@, "riga_rx"@, "hell_rx"@, "loheac_rx"@, "silverstone_rx"@, "holjes_rx"@, "lydden_hill"@, "mettet_rx"@]);
        "Group B Masters Series (Tier 3)".to_owned()
    } else if tier == 4 {
        v.push("nyirad_rx".to_owned());
        v.push("kouvola_rx".to_owned());
        v.push("killarney_rx".to_owned());
        v.push("estering_rx".to_owned());
        v.push("montalegre_rx".to_owned());
        v.push("riga_rx".to_owned());
        v.push("hell_rx".to_owned());
        v.push("loheac_rx".to_owned());
        v.push("silverstone_rx".to_owned());
        v.push("holjes_rx".to_owned());
        assert(texts(v@) =~= seq!["nyirad_rx"@, "kouvola_rx"@, "killarney_rx"@, "estering_rx"@, "montalegre_rx"@, "riga_rx"@, "hell_rx"@, "loheac_rx"@, "silverstone_rx"@, "holjes_rx"@]);
        "Dakar Rally Raid Trophy (Tier 4)".to_owned()
    } else {
        v.push("catalunya_rx".to_owned());
        v.push("yas_marina_rx".to_owned());
        v.push("essay_rx".to_owned());
        v.push("nyirad_rx".to_owned());
        v.push("kouvola_rx".to_owned());
        v.push("killarney_rx".to_owned());
        v.push("estering_rx".to_owned());
        v.push("montalegre_rx".to_owned());
        v.push("riga_rx".to_owned());
        v.push("hell_rx".to_owned());
        v.push("loheac_rx".to_owned());
        v.push("holjes_rx".to_owned());
        assert(texts(v@) =~= seq!["catalunya_rx"@, "yas_marina_rx"@, "essay_rx"@, "nyirad_rx"@, "kouvola_rx"@, "killarney_rx"@, "estering_rx"@, "montalegre_rx"@, "riga_rx"@, "hell_rx"@, "loheac_rx"@, "holjes_rx"@]);
        "Stadium Super Trucks World Series (Tier 5)".to_owned()
    };
    CupPlan { name, track_ids: v, laps_per_round: 5, points: PointSystem::FiaStandard { fastest_lap_bonus: true }, tier }
}

/// Name of the Karting career cup of a tier (tiers other than 1 to 4 give the tier-5 cup).
pub open spec fn kart_cup_name(tier: u32) -> Seq<char> {
    if tier == 1 {
        "Rotax Junior Academy (Tier 1)"@
    } else if tier == 2 {
        "National Kart Championship (Tier 2)"@
    } else if tier == 3 {
        "Continental Rotax Trophy (Tier 3)"@
    } else if tier == 4 {
        "FIA Karting European Championship (Tier 4)"@
    } else {
        "FIA Karting World Championship (Tier 5)"@
    }
}

/// Calendar of the Karting career cup of a tier.
pub open spec fn kart_cup_tracks(tier: u32) -> Seq<Seq<char>> {
    if tier == 1 {
        seq!["lonato"@, "genk"@, "wackersdorf"@, "laval_kart"@, "whilton_mill"@]
    } else if tier == 2 {
        seq!["sarno"@, "kristianstad"@, "seven_laghi"@, "lonato"@, "genk"@, "wackersdorf"@, "whilton_mill"@]
    } else if tier == 3 {
        seq!["pfi"@, "franciacorta"@, "ampfing"@, "sarno"@, "kristianstad"@, "seven_laghi"@, "lonato"@, "genk"@, "wackersdorf"@]
    } else if tier == 4 {
        seq!["zuera"@, "silverstone_national_kart"@, "le_mans_kart"@, "pfi"@, "franciacorta"@, "ampfing"@, "sarno"@, "kristianstad"@, "seven_laghi"@, "lonato"@]
    } else {
        seq!["portimao_kart"@, "valencia_kart"@, "campillos"@, "zuera"@, "silverstone_national_kart"@, "le_mans_kart"@, "pfi"@, "franciacorta"@, "ampfing"@, "sarno"@, "kristianstad"@, "lonato"@]
    }
}

/// The Karting career cup of a tier: name, calendar, laps per round and points.
pub fn kart_career_cup(tier: u32) -> (r: CupPlan)
    ensures
        r.name@ == kart_cup_name(tier),
        texts(r.track_ids@) == kart_cup_tracks(tier),
        r.laps_per_round == 5,
        r.points == (PointSystem::FiaStandard { fastest_lap_bonus: true }),
        r.tier == tier,
{
    let mut v: Vec<String> = Vec::new();
    let name: String = if tier == 1 {
        v.push("lonato".to_owned());
        v.push("genk".to_owned());
        v.push("wackersdorf".to_owned());
        v.push("laval_kart".to_owned());
        v.push("whilton_mill".to_owned());
        assert(texts(v@) =~= seq!["lonato"@, "genk"@, "wackersdorf"@, "laval_kart"@, "whilton_mill"@]);
        "Rotax Junior Academy (Tier 1)".to_owned()
    } else if tier == 2 {
        v.push("sarno".to_owned());
        v.push("kristianstad".to_owned());
        v.push("seven_laghi".to_owned());
        v.push("lonato".to_owned());
        v.push("genk".to_owned());
        v.push("wackersdorf".to_owned());
        v.push("whilton_mill".to_owned());
        assert(texts(v@) =~= seq!["sarno"@, "kristianstad"@, "seven_laghi"@, "lonato"@, "genk"@, "wackersdorf"@, "whilton_mill"@]);
        "National Kart Championship (Tier 2)".to_owned()
    } else if tier == 3 {
        v.push("pfi".to_owned());
        v.push("franciacorta".to_owned());
        v.push("ampfing".to_owned());
        v.push("sarno".to_owned());
        v.push("kristianstad".to_owned());
        v.push("seven_laghi".to_owned());
        v.push("lonato".to_owned());
        v.push("genk".to_owned());
        v.push("wackersdorf".to_owned());
        assert(texts(v@) =~= seq!["pfi"@, "franciacorta"@, "ampfing"@, "sarno"@, "kristianstad"@, "seven_laghi"@, "lonato"@, "genk"@, "wackersdorf"@]);
        "Continental Rotax Trophy (Tier 3)".to_owned()
    } else if tier == 4 {
        v.push("zuera".to_owned());
        v.push("silverstone_national_kart".to_owned());
        v.push("le_mans_kart".to_owned());
        v.push("pfi".to_owned());
        v.push("franciacorta".to_owned());
        v.push("ampfing".to_owned());
        v.push("sarno".to_owned());
        v.push("kristianstad".to_owned());
        v.push("seven_laghi".to_owned());
        v.push("lonato".to_owned());
        assert(texts(v@) =~= seq!["zuera"@, "silverstone_national_kart"@, "le_mans_kart"@, "pfi"@, "franciacorta"@, "ampfing"@, "sarno"@, "kristianstad"@, "seven_laghi"@, "lonato"@]);
        "FIA Karting European Championship (Tier 4)".to_owned()
    } else {
        v.push("portimao_kart".to_owned());
        v.push("valencia_kart".to_owned());
        v.push("campillos".to_owned());
        v.push("zuera".to_owned());
        v.push("silverstone_national_kart".to_owned());
        v.push("le_mans_kart".to_owned());
        v.push("pfi".to_owned());
        v.push("franciacorta".to_owned());
        v.push("ampfing".to_owned());
        v.push("sarno".to_owned());
        v.push("kristianstad".to_owned());
        v.push("lonato".to_owned());
        assert(texts(v@) =~= seq!["portimao_kart"@, "valencia_kart"@, "campillos"@, "zuera"@, "silverstone_national_kart"@, "le_mans_kart"@, "pfi"@, "franciacorta"@, "ampfing"@, "sarno"@, "kristianstad"@, "lonato"@]);
        "FIA Karting World Championship (Tier 5)".to_owned()
    };
    CupPlan { name, track_ids: v, laps_per_round: 5, points: PointSystem::FiaStandard { fastest_lap_bonus: true }, tier }
}

/// Name of the Extreme Off-Road career cup of a tier (tiers other than 1 to 4 give the tier-5 cup).
pub open spec fn offroad_cup_name(tier: u32) -> Seq<char> {
    if tier == 1 {
        "Desert Sand Sprint Series (Tier 1)"@
    } else if tier == 2 {
        "Red Rock Canyon Raid (Tier 2)"@
    } else if tier == 3 {
        "Arctic Glacial Challenge (Tier 3)"@
    } else if tier == 4 {
        "Supercross & Mud Masters (Tier 4)"@
    } else {
        "Extreme Off-Road Ultimate Championship (Tier 5)"@
    }
}

/// Calendar of the Extreme Off-Road career cup of a tier.
pub open spec fn offroad_cup_tracks(tier: u32) -> Seq<Seq<char>> {
    if tier == 1 {
        seq!["sahara_dune_crossing"@, "dirt_figure_eight"@, "atacama_sand_basin"@, "glamis_dunes"@, "crandon_short_course"@]
    } else if tier == 2 {
        seq!["red_rock_canyon"@, "mud_slough_arena"@, "baja_500_desert_scrub"@, "sahara_dune_crossing"@, "dirt_figure_eight"@, "atacama_sand_basin"@, "crandon_short_course"@]
    } else if tier == 3 {
        seq!["arctic_frozen_lake"@, "alpine_snow_ridge"@, "rovaniemi_ice_ring"@, "red_rock_canyon"@, "mud_slough_arena"@, "baja_500_desert_scrub"@, "sahara_dune_crossing"@, "dirt_figure_eight"@, "crandon_short_course"@]
    } else if tier == 4 {
        seq!["supercross_stadium_arena"@, "gravel_quarry_chasm"@, "louisiana_mud_swampland"@, "arctic_frozen_lake"@, "alpine_snow_ridge"@, "red_rock_canyon"@, "mud_slough_arena"@, "rovaniemi_ice_ring"@, "baja_500_desert_scrub"@, "sahara_dune_crossing"@]
    } else {
        seq!["monster_colosseum"@, "glacier_crest_pass"@, "stunt_city_megastructure"@, "supercross_stadium_arena"@, "gravel_quarry_chasm"@, "arctic_frozen_lake"@, "alpine_snow_ridge"@, "louisiana_mud_swampland"@, "red_rock_canyon"@, "rovaniemi_ice_ring"@, "baja_500_desert_scrub"@, "sahara_dune_crossing"@]
    }
}

/// The Extreme Off-Road career cup of a tier: name, calendar, laps per round and points.
pub fn offroad_career_cup(tier: u32) -> (r: CupPlan)
    ensures
        r.name@ == offroad_cup_name(tier),
        texts(r.track_ids@) == offroad_cup_tracks(tier),
        r.laps_per_round == 3,
        r.points == (PointSystem::FiaStandard { fastest_lap_bonus: false }),
        r.tier == tier,
{
    let mut v: Vec<String> = Vec::new();
    let name: String = if tier == 1 {
        v.push("sahara_dune_crossing".to_owned());
        v.push("dirt_figure_eight".to_owned());
        v.push("atacama_sand_basin".to_owned());
        v.push("glamis_dunes".to_owned());
        v.push("crandon_short_course".to_owned());
        assert(texts(v@) =~= seq!["sahara_dune_crossing"@, "dirt_figure_eight"@, "atacama_sand_basin"@, "glamis_dunes"@, "crandon_short_course"@]);
        "Desert Sand Sprint Series (Tier 1)".to_owned()
    } else if tier == 2 {
        v.push("red_rock_canyon".to_owned());
        v.push("mud_slough_arena".to_owned());
        v.push("baja_500_desert_scrub".to_owned());
        v.push("sahara_dune_crossing".to_owned());
        v.push("dirt_figure_eight".to_owned());
        v.push("atacama_sand_basin".to_owned());
        v.push("crandon_short_course".to_owned());
        assert(texts(v@) =~= seq!["red_rock_canyon"@, "mud_slough_arena"@, "baja_500_desert_scrub"@, "sahara_dune_crossing"@, "dirt_figure_eight"@, "atacama_sand_basin"@, "crandon_short_course"@]);
        "Red Rock Canyon Raid (Tier 2)".to_owned()
    } else if tier == 3 {
        v.push("arctic_frozen_lake".to_owned());
        v.push("alpine_snow_ridge".to_owned());
        v.push("rovaniemi_ice_ring".to_owned());
        v.push("red_rock_canyon".to_owned());
        v.push("mud_slough_arena".to_owned());
        v.push("baja_500_desert_scrub".to_owned());
        v.push("sahara_dune_crossing".to_owned());
        v.push("dirt_figure_eight".to_owned());
        v.push("crandon_short_course".to_owned());
        assert(texts(v@) =~= seq!["arctic_frozen_lake"@, "alpine_snow_ridge"@, "rovaniemi_ice_ring"@, "red_rock_canyon"@, "mud_slough_arena"@, "baja_500_desert_scrub"@, "sahara_dune_crossing"@, "dirt_figure_eight"@, "crandon_short_course"@]);
        "Arctic Glacial Challenge (Tier 3)".to_owned()
    } else if tier == 4 {
        v.push("supercross_stadium_arena".to_owned());
        v.push("gravel_quarry_chasm".to_owned());
        v.push("louisiana_mud_swampland".to_owned());
        v.push("arctic_frozen_lake".to_owned());
        v.push("alpine_snow_ridge".to_owned());
        v.push("red_rock_canyon".to_owned());
        v.push("mud_slough_arena".to_owned());
        v.push("rovaniemi_ice_ring".to_owned());
        v.push("baja_500_desert_scrub".to_owned());
        v.push("sahara_dune_crossing".to_owned());
        assert(texts(v@) =~= seq!["supercross_stadium_arena"@, "gravel_quarry_chasm"@, "louisiana_mud_swampland"@, "arctic_frozen_lake"@, "alpine_snow_ridge"@, "red_rock_canyon"@, "mud_slough_arena"@, "rovaniemi_ice_ring"@, "baja_500_desert_scrub"@, "sahara_dune_crossing"@]);
        "Supercross & Mud Masters (Tier 4)".to_owned()
    } else {
        v.push("monster_colosseum".to_owned());
        v.push("glacier_crest_pass".to_owned());
        v.push("stunt_city_megastructure".to_owned());
        v.push("supercross_stadium_arena".to_owned());
        v.push("gravel_quarry_chasm".to_owned());
        v.push("arctic_frozen_lake".to_owned());
        v.push("alpine_snow_ridge".to_owned());
        v.push("louisiana_mud_swampland".to_owned());
        v.push("red_rock_canyon".to_owned());
        v.push("rovaniemi_ice_ring".to_owned());
        v.push("baja_500_desert_scrub".to_owned());
        v.push("sahara_dune_crossing".to_owned());
        assert(texts(v@) =~= seq!["monster_colosseum"@, "glacier_crest_pass"@, "stunt_city_megastructure"@, "supercross_stadium_arena"@, "gravel_quarry_chasm"@, "arctic_frozen_lake"@, "alpine_snow_ridge"@, "louisiana_mud_swampland"@, "red_rock_canyon"@, "rovaniemi_ice_ring"@, "baja_500_desert_scrub"@, "sahara_dune_crossing"@]);
        "Extreme Off-Road Ultimate Championship (Tier 5)".to_owned()
    };
    CupPlan { name, track_ids: v, laps_per_round: 3, points: PointSystem::FiaStandard { fastest_lap_bonus: false }, tier }
}

/// Calendar of the full GT World Challenge season.
pub open spec fn gt_season_tracks() -> Seq<Seq<char>> {
    seq!["monza"@, "spa"@, "silverstone"@, "classic_grand_prix"@]
}

/// The full GT World Challenge season: name, calendar, laps per round, points and tier.
pub fn gt_season() -> (r: CupPlan)
    ensures
        r.name@ == "GT World Challenge Championship 2026"@,
        texts(r.track_ids@) == gt_season_tracks(),
        r.laps_per_round == 3,
        r.points == (PointSystem::FiaStandard { fastest_lap_bonus: true }),
        r.tier == 2,
{
    let mut v: Vec<String> = Vec::new();
    v.push("monza".to_owned());
    v.push("spa".to_owned());
    v.push("silverstone".to_owned());
    v.push("classic_grand_prix".to_owned());
    assert(texts(v@) =~= gt_season_tracks());
    CupPlan { name: "GT World Challenge Championship 2026".to_owned(), track_ids: v, laps_per_round: 3, points: PointSystem::FiaStandard { fastest_lap_bonus: true }, tier: 2 }
}

/// Calendar of the full NASCAR Cup Series season.
pub open spec fn nascar_season_tracks() -> Seq<Seq<char>> {
    seq!["daytona_superspeedway"@, "talladega_superspeedway"@, "eldora_speedway"@, "iowa_speedway"@, "indianapolis_motor_speedway"@, "charlotte_motor_speedway"@, "darlington_raceway"@, "bristol_motor_speedway"@, "martinsville_speedway"@, "road_america"@, "chicago_street_course"@, "watkins_glen_nascar"@]
}

/// The full NASCAR Cup Series season: name, calendar, laps per round, points and tier.
pub fn nascar_season() -> (r: CupPlan)
    ensures
        r.name@ == "NASCAR Cup Series Championship 2026"@,
        texts(r.track_ids@) == nascar_season_tracks(),
        r.laps_per_round == 4,
        r.points == (PointSystem::NascarCup { stage_win_bonus: true }),
        r.tier == 5,
{
    let mut v: Vec<String> = Vec::new();
    v.push("daytona_superspeedway".to_owned());
    v.push("talladega_superspeedway".to_owned());
    v.push("eldora_speedway".to_owned());
    v.push("iowa_speedway".to_owned());
    v.push("indianapolis_motor_speedway".to_owned());
    v.push("charlotte_motor_speedway".to_owned());
    v.push("darlington_raceway".to_owned());
    v.push("bristol_motor_speedway".to_owned());
    v.push("martinsville_speedway".to_owned());
    v.push("road_america".to_owned());
    v.push("chicago_street_course".to_owned());
    v.push("watkins_glen_nascar".to_owned());
    assert(texts(v@) =~= nascar_season_tracks());
    CupPlan { name: "NASCAR Cup Series Championship 2026".to_owned(), track_ids: v, laps_per_round: 4, points: PointSystem::NascarCup { stage_win_bonus: true }, tier: 5 }
}

/// Calendar of the full Extreme Off-Road World Series season.
pub open spec fn offroad_season_tracks() -> Seq<Seq<char>> {
    seq!["sahara_dune_crossing"@, "dirt_figure_eight"@, "atacama_sand_basin"@, "red_rock_canyon"@, "mud_slough_arena"@, "baja_500_desert_scrub"@, "arctic_frozen_lake"@, "alpine_snow_ridge"@, "rovaniemi_ice_ring"@, "supercross_stadium_arena"@, "gravel_quarry_chasm"@, "louisiana_mud_swampland"@, "monster_colosseum"@, "glacier_crest_pass"@, "stunt_city_megastructure"@]
}

/// The full Extreme Off-Road World Series season: name, calendar, laps per round, points and tier.
pub fn offroad_season() -> (r: CupPlan)
    ensures
        r.name@ == "Extreme Off-Road World Series 2026"@,
        texts(r.track_ids@) == offroad_season_tracks(),
        r.laps_per_round == 3,
        r.points == (PointSystem::FiaStandard { fastest_lap_bonus: false }),
        r.tier == 1,
{
    let mut v: Vec<String> = Vec::new();
    v.push("sahara_dune_crossing".to_owned());
    v.push("dirt_figure_eight".to_owned());
    v.push("atacama_sand_basin".to_owned());
    v.push("red_rock_canyon".to_owned());
    v.push("mud_slough_arena".to_owned());
    v.push("baja_500_desert_scrub".to_owned());
    v.push("arctic_frozen_lake".to_owned());
    v.push("alpine_snow_ridge".to_owned());
    v.push("rovaniemi_ice_ring".to_owned());
    v.push("supercross_stadium_arena".to_owned());
    v.push("gravel_quarry_chasm".to_owned());
    v.push("louisiana_mud_swampland".to_owned());
    v.push("monster_colosseum".to_owned());
    v.push("glacier_crest_pass".to_owned());
    v.push("stunt_city_megastructure".to_owned());
    assert(texts(v@) =~= offroad_season_tracks());
    CupPlan { name: "Extreme Off-Road World Series 2026".to_owned(), track_ids: v, laps_per_round: 3, points: PointSystem::FiaStandard { fastest_lap_bonus: false }, tier: 1 }
}

/// Laps of an off-road round on circuit `id`: five on the short arenas,
/// four on the technical circuits, three elsewhere.
pub open spec fn offroad_round_laps_spec(id: Seq<char>) -> u32 {
    if id == "supercross_stadium_arena"@ || id == "arctic_frozen_lake"@ || id == "dirt_figure_eight"@ {
        5
    } else if id == "rovaniemi_ice_ring"@ || id == "louisiana_mud_swampland"@ || id == "red_rock_canyon"@ || id == "gravel_quarry_chasm"@ || id == "alpine_snow_ridge"@ || id == "glacier_crest_pass"@ {
        4
    } else {
        3
    }
}

/// Laps of an off-road round on circuit `id`.
pub fn offroad_round_laps(id: &String) -> (r: u32)
    ensures
        r == offroad_round_laps_spec(id@),
{
    let s: &str = id.as_str();
    if same_text(s, "supercross_stadium_arena") || same_text(s, "arctic_frozen_lake") || same_text(s, "dirt_figure_eight") {
        5
    } else if same_text(s, "rovaniemi_ice_ring") || same_text(s, "louisiana_mud_swampland") || same_text(s, "red_rock_canyon") || same_text(s, "gravel_quarry_chasm") || same_text(s, "alpine_snow_ridge") || same_text(s, "glacier_crest_pass") {
        4
    } else {
        3
    }
}

/// Laps of every round of an off-road calendar.
pub fn offroad_calendar_laps(track_ids: &Vec<String>) -> (r: Vec<u32>)
    ensures
        r.len() == track_ids.len(),
        forall|k: int| 0 <= k < track_ids.len() ==> r@[k] == offroad_round_laps_spec(#[trigger] track_ids@[k]@),
{
    let mut r: Vec<u32> = Vec::new();
    let mut k: usize = 0;
    while k < track_ids.len()
        invariant
            k <= track_ids.len(),
            r.len() == k,
            forall|j: int| 0 <= j < k ==> r@[j] == offroad_round_laps_spec(#[trigger] track_ids@[j]@),
        decreases track_ids.len() - k,
    {
        r.push(offroad_round_laps(&track_ids[k]));
        k = k + 1;
    }
    r
}

/// Each circuit of `upper` past its first three is also a circuit of `lower`.
pub open spec fn carries_over(upper: Seq<Seq<char>>, lower: Seq<Seq<char>>) -> bool {
    upper.len() >= 3 && forall|k: int| 3 <= k < upper.len() ==> lower.contains(#[trigger] upper[k])
}

/// The Rallycross cups grow with the tier: 5, 7, 9, 10 and 12
/// rounds; each cup above the first opens with three circuits and carries
/// the rest over from the cup below
/// and the tier-3 cup opens with three circuits followed by the first 6 of the tier-2 cup; the tier-4 cup opens with three circuits followed by the first 7 of the tier-3 cup.
pub proof fn lemma_rally_cups_climb()
    ensures
        rally_cup_tracks(1).len() == 5,
        rally_cup_tracks(2).len() == 7,
        rally_cup_tracks(3).len() == 9,
        rally_cup_tracks(4).len() == 10,
        rally_cup_tracks(5).len() == 12,
        carries_over(rally_cup_tracks(2), rally_cup_tracks(1)),
        carries_over(rally_cup_tracks(3), rally_cup_tracks(2)),
        carries_over(rally_cup_tracks(4), rally_cup_tracks(3)),
        carries_over(rally_cup_tracks(5), rally_cup_tracks(4)),
        rally_cup_tracks(3).subrange(3, 9) == rally_cup_tracks(2).take(6),
        rally_cup_tracks(4).subrange(3, 10) == rally_cup_tracks(3).take(7),
{
    assert(rally_cup_tracks(3).subrange(3, 9) =~= rally_cup_tracks(2).take(6));
    assert(rally_cup_tracks(4).subrange(3, 10) =~= rally_cup_tracks(3).take(7));
    assert(carries_over(rally_cup_tracks(2), rally_cup_tracks(1))) by {
        let up = rally_cup_tracks(2);
        let lo = rally_cup_tracks(1);
        assert(lo[0] == up[3]);
        assert(lo[1] == up[4]);
        assert(lo[2] == up[5]);
        assert(lo[4] == up[6]);
    }
    assert(carries_over(rally_cup_tracks(3), rally_cup_tracks(2))) by {
        let up = rally_cup_tracks(3);
        let lo = rally_cup_tracks(2);
        assert(lo[0] == up[3]);
        assert(lo[1] == up[4]);
        assert(lo[2] == up[5]);
        assert(lo[3] == up[6]);
        assert(lo[4] == up[7]);
        assert(lo[5] == up[8]);
    }
    assert(carries_over(rally_cup_tracks(4), rally_cup_tracks(3))) by {
        let up = rally_cup_tracks(4);
        let lo = rally_cup_tracks(3);
        assert(lo[0] == up[3]);
        assert(lo[1] == up[4]);
        assert(lo[2] == up[5]);
        assert(lo[3] == up[6]);
        assert(lo[4] == up[7]);
        assert(lo[5] == up[8]);
        assert(lo[6] == up[9]);
    }
    assert(carries_over(rally_cup_tracks(5), rally_cup_tracks(4))) by {
        let up = rally_cup_tracks(5);
        let lo = rally_cup_tracks(4);
        assert(lo[0] == up[3]);
        assert(lo[1] == up[4]);
        assert(lo[2] == up[5]);
        assert(lo[3] == up[6]);
        assert(lo[4] == up[7]);
        assert(lo[5] == up[8]);
        assert(lo[6] == up[9]);
        assert(lo[7] == up[10]);
        assert(lo[9] == up[11]);
    }
}

/// The NASCAR cups grow with the tier: 5, 7, 9, 10 and 12
/// rounds; each cup above the first opens with three circuits and carries
/// the rest over from the cup below.
pub proof fn lemma_nascar_cups_climb()
    ensures
        nascar_cup_tracks(1).len() == 5,
        nascar_cup_tracks(2).len() == 7,
        nascar_cup_tracks(3).len() == 9,
        nascar_cup_tracks(4).len() == 10,
        nascar_cup_tracks(5).len() == 12,
        carries_over(nascar_cup_tracks(2), nascar_cup_tracks(1)),
        carries_over(nascar_cup_tracks(3), nascar_cup_tracks(2)),
        carries_over(nascar_cup_tracks(4), nascar_cup_tracks(3)),
        carries_over(nascar_cup_tracks(5), nascar_cup_tracks(4)),
{
    assert(carries_over(nascar_cup_tracks(2), nascar_cup_tracks(1))) by {
        let up = nascar_cup_tracks(2);
        let lo = nascar_cup_tracks(1);
        assert(lo[0] == up[3]);
        assert(lo[1] == up[4]);
        assert(lo[2] == up[5]);
        assert(lo[4] == up[6]);
    }
    assert(carries_over(nascar_cup_tracks(3), nascar_cup_tracks(2))) by {
        let up = nascar_cup_tracks(3);
        let lo = nascar_cup_tracks(2);
        assert(lo[0] == up[3]);
        assert(lo[1] == up[4]);
        assert(lo[2] == up[5]);
        assert(lo[3] == up[6]);
        assert(lo[4] == up[7]);
        assert(lo[6] == up[8]);
    }
    assert(carries_over(nascar_cup_tracks(4), nascar_cup_tracks(3))) by {
        let up = nascar_cup_tracks(4);
        let lo = nascar_cup_tracks(3);
        assert(lo[0] == up[3]);
        assert(lo[1] == up[4]);
        assert(lo[2] == up[5]);
        assert(lo[3] == up[6]);
        assert(lo[4] == up[7]);
        assert(lo[7] == up[8]);
        assert(lo[6] == up[9]);
    }
    assert(carries_over(nascar_cup_tracks(5), nascar_cup_tracks(4))) by {
        let up = nascar_cup_tracks(5);
        let lo = nascar_cup_tracks(4);
        assert(lo[0] == up[3]);
        assert(lo[1] == up[4]);
        assert(lo[2] == up[5]);
        assert(lo[3] == up[6]);
        assert(lo[4] == up[7]);
        assert(lo[5] == up[8]);
        assert(lo[6] == up[9]);
        assert(lo[7] == up[10]);
        assert(lo[9] == up[11]);
    }
}

/// The Karting cups grow with the tier: 5, 7, 9, 10 and 12
/// rounds; each cup above the first opens with three circuits and carries
/// the rest over from the cup below
/// and the tier-3 cup opens with three circuits followed by the first 6 of the tier-2 cup; the tier-4 cup opens with three circuits followed by the first 7 of the tier-3 cup.
pub proof fn lemma_kart_cups_climb()
    ensures
        kart_cup_tracks(1).len() == 5,
        kart_cup_tracks(2).len() == 7,
        kart_cup_tracks(3).len() == 9,
        kart_cup_tracks(4).len() == 10,
        kart_cup_tracks(5).len() == 12,
        carries_over(kart_cup_tracks(2), kart_cup_tracks(1)),
        carries_over(kart_cup_tracks(3), kart_cup_tracks(2)),
        carries_over(kart_cup_tracks(4), kart_cup_tracks(3)),
        carries_over(kart_cup_tracks(5), kart_cup_tracks(4)),
        kart_cup_tracks(3).subrange(3, 9) == kart_cup_tracks(2).take(6),
        kart_cup_tracks(4).subrange(3, 10) == kart_cup_tracks(3).take(7),
{
    assert(kart_cup_tracks(3).subrange(3, 9) =~= kart_cup_tracks(2).take(6));
    assert(kart_cup_tracks(4).subrange(3, 10) =~= kart_cup_tracks(3).take(7));
    assert(carries_over(kart_cup_tracks(2), kart_cup_tracks(1))) by {
        let up = kart_cup_tracks(2);
        let lo = kart_cup_tracks(1);
        assert(lo[0] == up[3]);
        assert(lo[1] == up[4]);
        assert(lo[2] == up[5]);
        assert(lo[4] == up[6]);
    }
    assert(carries_over(kart_cup_tracks(3), kart_cup_tracks(2))) by {
        let up = kart_cup_tracks(3);
        let lo = kart_cup_tracks(2);
        assert(lo[0] == up[3]);
        assert(lo[1] == up[4]);
        assert(lo[2] == up[5]);
        assert(lo[3] == up[6]);
        assert(lo[4] == up[7]);
        assert(lo[5] == up[8]);
    }
    assert(carries_over(kart_cup_tracks(4), kart_cup_tracks(3))) by {
        let up = kart_cup_tracks(4);
        let lo = kart_cup_tracks(3);
        assert(lo[0] == up[3]);
        assert(lo[1] == up[4]);
        assert(lo[2] == up[5]);
        assert(lo[3] == up[6]);
        assert(lo[4] == up[7]);
        assert(lo[5] == up[8]);
        assert(lo[6] == up[9]);
    }
    assert(carries_over(kart_cup_tracks(5), kart_cup_tracks(4))) by {
        let up = kart_cup_tracks(5);
        let lo = kart_cup_tracks(4);
        assert(lo[0] == up[3]);
        assert(lo[1] == up[4]);
        assert(lo[2] == up[5]);
        assert(lo[3] == up[6]);
        assert(lo[4] == up[7]);
        assert(lo[5] == up[8]);
        assert(lo[6] == up[9]);
        assert(lo[7] == up[10]);
        assert(lo[9] == up[11]);
    }
}

/// The Extreme Off-Road cups grow with the tier: 5, 7, 9, 10 and 12
/// rounds; each cup above the first opens with three circuits and carries
/// the rest over from the cup below.
pub proof fn lemma_offroad_cups_climb()
    ensures
        offroad_cup_tracks(1).len() == 5,
        offroad_cup_tracks(2).len() == 7,
        offroad_cup_tracks(3).len() == 9,
        offroad_cup_tracks(4).len() == 10,
        offroad_cup_tracks(5).len() == 12,
        carries_over(offroad_cup_tracks(2), offroad_cup_tracks(1)),
        carries_over(offroad_cup_tracks(3), offroad_cup_tracks(2)),
        carries_over(offroad_cup_tracks(4), offroad_cup_tracks(3)),
        carries_over(offroad_cup_tracks(5), offroad_cup_tracks(4)),
{
    assert(carries_over(offroad_cup_tracks(2), offroad_cup_tracks(1))) by {
        let up = offroad_cup_tracks(2);
        let lo = offroad_cup_tracks(1);
        assert(lo[0] == up[3]);
        assert(lo[1] == up[4]);
        assert(lo[2] == up[5]);
        assert(lo[4] == up[6]);
    }
    assert(carries_over(offroad_cup_tracks(3), offroad_cup_tracks(2))) by {
        let up = offroad_cup_tracks(3);
        let lo = offroad_cup_tracks(2);
        assert(lo[0] == up[3]);
        assert(lo[1] == up[4]);
        assert(lo[2] == up[5]);
        assert(lo[3] == up[6]);
        assert(lo[4] == up[7]);
        assert(lo[6] == up[8]);
    }
    assert(carries_over(offroad_cup_tracks(4), offroad_cup_tracks(3))) by {
        let up = offroad_cup_tracks(4);
        let lo = offroad_cup_tracks(3);
        assert(lo[0] == up[3]);
        assert(lo[1] == up[4]);
        assert(lo[3] == up[5]);
        assert(lo[4] == up[6]);
        assert(lo[2] == up[7]);
        assert(lo[5] == up[8]);
        assert(lo[6] == up[9]);
    }
    assert(carries_over(offroad_cup_tracks(5), offroad_cup_tracks(4))) by {
        let up = offroad_cup_tracks(5);
        let lo = offroad_cup_tracks(4);
        assert(lo[0] == up[3]);
        assert(lo[1] == up[4]);
        assert(lo[3] == up[5]);
        assert(lo[4] == up[6]);
        assert(lo[2] == up[7]);
        assert(lo[5] == up[8]);
        assert(lo[7] == up[9]);
        assert(lo[8] == up[10]);
        assert(lo[9] == up[11]);
    }
}

} // verus!
