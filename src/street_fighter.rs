use rand::rngs::StdRng;
use vstd::prelude::*;

use crate::battle::Fighter;
use crate::random::draw_below;
use crate::types::{Colored, GenerateRandomly};

verus! {

/// Number of characters in the tier list.
pub const STREET_FIGHTER_TYPE_COUNT: usize = 39;

/// The characters of a fighting game's tier list (Super Street Fighter 4
/// Arcade Edition v2012).
#[derive(Clone, Copy, Debug, PartialEq, Eq, Structural)]
pub enum StreetFighterType {
    Seth,
    CViper,
    Cammy,
    Akuma,
    FLong,
    Rufus,
    Sagat,
    Balrog,
    Adon,
    Ibuki,
    Abel,
    Blanka,
    Makoto,
    Bison,
    Ryu,
    Ken,
    Yun,
    Zangief,
    Dhalsim,
    Guile,
    Sakura,
    ChunLi,
    DeeJay,
    Juri,
    Rose,
    Gouken,
    Guy,
    Cody,
    Fuerte,
    Yang,
    EHonda,
    Gen,
    Vega,
    Dudley,
    Oni,
    EvilRyu,
    Hakan,
    THawk,
    Dan,
}

impl StreetFighterType {
    /// Position of the kind in declaration order.
    pub open spec fn index(self) -> nat {
        match self {
            StreetFighterType::Seth => 0,
            StreetFighterType::CViper => 1,
            StreetFighterType::Cammy => 2,
            StreetFighterType::Akuma => 3,
            StreetFighterType::FLong => 4,
            StreetFighterType::Rufus => 5,
            StreetFighterType::Sagat => 6,
            StreetFighterType::Balrog => 7,
            StreetFighterType::Adon => 8,
            StreetFighterType::Ibuki => 9,
            StreetFighterType::Abel => 10,
            StreetFighterType::Blanka => 11,
            StreetFighterType::Makoto => 12,
            StreetFighterType::Bison => 13,
            StreetFighterType::Ryu => 14,
            StreetFighterType::Ken => 15,
            StreetFighterType::Yun => 16,
            StreetFighterType::Zangief => 17,
            StreetFighterType::Dhalsim => 18,
            StreetFighterType::Guile => 19,
            StreetFighterType::Sakura => 20,
            StreetFighterType::ChunLi => 21,
            StreetFighterType::DeeJay => 22,
            StreetFighterType::Juri => 23,
            StreetFighterType::Rose => 24,
            StreetFighterType::Gouken => 25,
            StreetFighterType::Guy => 26,
            StreetFighterType::Cody => 27,
            StreetFighterType::Fuerte => 28,
            StreetFighterType::Yang => 29,
            StreetFighterType::EHonda => 30,
            StreetFighterType::Gen => 31,
            StreetFighterType::Vega => 32,
            StreetFighterType::Dudley => 33,
            StreetFighterType::Oni => 34,
            StreetFighterType::EvilRyu => 35,
            StreetFighterType::Hakan => 36,
            StreetFighterType::THawk => 37,
            StreetFighterType::Dan => 38,
        }
    }

    /// The kind at position `repr` in declaration order, if any.
    pub fn from_repr(repr: usize) -> (r: Option<StreetFighterType>)
        ensures
            r is Some <==> repr < 39,
            r matches Some(k) ==> k.index() == repr,
    {
        match repr {
            0 => Some(StreetFighterType::Seth),
            1 => Some(StreetFighterType::CViper),
            2 => Some(StreetFighterType::Cammy),
            3 => Some(StreetFighterType::Akuma),
            4 => Some(StreetFighterType::FLong),
            5 => Some(StreetFighterType::Rufus),
            6 => Some(StreetFighterType::Sagat),
            7 => Some(StreetFighterType::Balrog),
            8 => Some(StreetFighterType::Adon),
            9 => Some(StreetFighterType::Ibuki),
            10 => Some(StreetFighterType::Abel),
            11 => Some(StreetFighterType::Blanka),
            12 => Some(StreetFighterType::Makoto),
            13 => Some(StreetFighterType::Bison),
            14 => Some(StreetFighterType::Ryu),
            15 => Some(StreetFighterType::Ken),
            16 => Some(StreetFighterType::Yun),
            17 => Some(StreetFighterType::Zangief),
            18 => Some(StreetFighterType::Dhalsim),
            19 => Some(StreetFighterType::Guile),
            20 => Some(StreetFighterType::Sakura),
            21 => Some(StreetFighterType::ChunLi),
            22 => Some(StreetFighterType::DeeJay),
            23 => Some(StreetFighterType::Juri),
            24 => Some(StreetFighterType::Rose),
            25 => Some(StreetFighterType::Gouken),
            26 => Some(StreetFighterType::Guy),
            27 => Some(StreetFighterType::Cody),
            28 => Some(StreetFighterType::Fuerte),
            29 => Some(StreetFighterType::Yang),
            30 => Some(StreetFighterType::EHonda),
            31 => Some(StreetFighterType::Gen),
            32 => Some(StreetFighterType::Vega),
            33 => Some(StreetFighterType::Dudley),
            34 => Some(StreetFighterType::Oni),
            35 => Some(StreetFighterType::EvilRyu),
            36 => Some(StreetFighterType::Hakan),
            37 => Some(StreetFighterType::THawk),
            38 => Some(StreetFighterType::Dan),
            _ => None,
        }
    }

    /// Position of the kind in declaration order.
    pub fn to_index(self) -> (r: usize)
        ensures
            r == self.index(),
    {
        match self {
            StreetFighterType::Seth => 0,
            StreetFighterType::CViper => 1,
            StreetFighterType::Cammy => 2,
            StreetFighterType::Akuma => 3,
            StreetFighterType::FLong => 4,
            StreetFighterType::Rufus => 5,
            StreetFighterType::Sagat => 6,
            StreetFighterType::Balrog => 7,
            StreetFighterType::Adon => 8,
            StreetFighterType::Ibuki => 9,
            StreetFighterType::Abel => 10,
            StreetFighterType::Blanka => 11,
            StreetFighterType::Makoto => 12,
            StreetFighterType::Bison => 13,
            StreetFighterType::Ryu => 14,
            StreetFighterType::Ken => 15,
            StreetFighterType::Yun => 16,
            StreetFighterType::Zangief => 17,
            StreetFighterType::Dhalsim => 18,
            StreetFighterType::Guile => 19,
            StreetFighterType::Sakura => 20,
            StreetFighterType::ChunLi => 21,
            StreetFighterType::DeeJay => 22,
            StreetFighterType::Juri => 23,
            StreetFighterType::Rose => 24,
            StreetFighterType::Gouken => 25,
            StreetFighterType::Guy => 26,
            StreetFighterType::Cody => 27,
            StreetFighterType::Fuerte => 28,
            StreetFighterType::Yang => 29,
            StreetFighterType::EHonda => 30,
            StreetFighterType::Gen => 31,
            StreetFighterType::Vega => 32,
            StreetFighterType::Dudley => 33,
            StreetFighterType::Oni => 34,
            StreetFighterType::EvilRyu => 35,
            StreetFighterType::Hakan => 36,
            StreetFighterType::THawk => 37,
            StreetFighterType::Dan => 38,
        }
    }
    /// The kind's display colour.
    pub open spec fn spec_color(self) -> Seq<u8> {
        match self {
            StreetFighterType::Seth => seq![100, 122, 4],
            StreetFighterType::CViper => seq![105, 78, 203],
            StreetFighterType::Cammy => seq![107, 255, 138],
            StreetFighterType::Akuma => seq![136, 41, 110],
            StreetFighterType::FLong => seq![145, 143, 47],
            StreetFighterType::Rufus => seq![15, 0, 158],
            StreetFighterType::Sagat => seq![158, 102, 221],
            StreetFighterType::Balrog => seq![170, 122, 61],
            StreetFighterType::Adon => seq![172, 195, 17],
            StreetFighterType::Ibuki => seq![172, 244, 210],
            StreetFighterType::Abel => seq![180, 0, 170],
            StreetFighterType::Blanka => seq![180, 234, 210],
            StreetFighterType::Makoto => seq![189, 94, 2],
            StreetFighterType::Bison => seq![196, 103, 77],
            StreetFighterType::Ryu => seq![196, 238, 203],
            StreetFighterType::Ken => seq![198, 250, 237],
            StreetFighterType::Yun => seq![20, 184, 104],
            StreetFighterType::Zangief => seq![236, 120, 183],
            StreetFighterType::Dhalsim => seq![236, 231, 122],
            StreetFighterType::Guile => seq![240, 211, 242],
            StreetFighterType::Sakura => seq![242, 255, 43],
            StreetFighterType::ChunLi => seq![244, 214, 202],
            StreetFighterType::DeeJay => seq![254, 177, 238],
            StreetFighterType::Juri => seq![255, 139, 106],
            StreetFighterType::Rose => seq![27, 228, 98],
            StreetFighterType::Gouken => seq![56, 205, 99],
            StreetFighterType::Guy => seq![56, 43, 146],
            StreetFighterType::Cody => seq![75, 245, 255],
            StreetFighterType::Fuerte => seq![84, 123, 12],
            StreetFighterType::Yang => seq![96, 186, 0],
            StreetFighterType::EHonda => seq![241, 204, 245],
            StreetFighterType::Gen => seq![176, 43, 196],
            StreetFighterType::Vega => seq![175, 74, 207],
            StreetFighterType::Dudley => seq![116, 252, 200],
            StreetFighterType::Oni => seq![187, 241, 212],
            StreetFighterType::EvilRyu => seq![137, 215, 168],
            StreetFighterType::Hakan => seq![97, 148, 5],
            StreetFighterType::THawk => seq![250, 254, 145],
            StreetFighterType::Dan => seq![136, 51, 0],
        }
    }

    /// The kind's display colour as red, green and blue.
    pub fn color(self) -> (r: [u8; 3])
        ensures
            r@ == self.spec_color(),
    {
        match self {
            StreetFighterType::Seth => [100, 122, 4],
            StreetFighterType::CViper => [105, 78, 203],
            StreetFighterType::Cammy => [107, 255, 138],
            StreetFighterType::Akuma => [136, 41, 110],
            StreetFighterType::FLong => [145, 143, 47],
            StreetFighterType::Rufus => [15, 0, 158],
            StreetFighterType::Sagat => [158, 102, 221],
            StreetFighterType::Balrog => [170, 122, 61],
            StreetFighterType::Adon => [172, 195, 17],
            StreetFighterType::Ibuki => [172, 244, 210],
            StreetFighterType::Abel => [180, 0, 170],
            StreetFighterType::Blanka => [180, 234, 210],
            StreetFighterType::Makoto => [189, 94, 2],
            StreetFighterType::Bison => [196, 103, 77],
            StreetFighterType::Ryu => [196, 238, 203],
            StreetFighterType::Ken => [198, 250, 237],
            StreetFighterType::Yun => [20, 184, 104],
            StreetFighterType::Zangief => [236, 120, 183],
            StreetFighterType::Dhalsim => [236, 231, 122],
            StreetFighterType::Guile => [240, 211, 242],
            StreetFighterType::Sakura => [242, 255, 43],
            StreetFighterType::ChunLi => [244, 214, 202],
            StreetFighterType::DeeJay => [254, 177, 238],
            StreetFighterType::Juri => [255, 139, 106],
            StreetFighterType::Rose => [27, 228, 98],
            StreetFighterType::Gouken => [56, 205, 99],
            StreetFighterType::Guy => [56, 43, 146],
            StreetFighterType::Cody => [75, 245, 255],
            StreetFighterType::Fuerte => [84, 123, 12],
            StreetFighterType::Yang => [96, 186, 0],
            StreetFighterType::EHonda => [241, 204, 245],
            StreetFighterType::Gen => [176, 43, 196],
            StreetFighterType::Vega => [175, 74, 207],
            StreetFighterType::Dudley => [116, 252, 200],
            StreetFighterType::Oni => [187, 241, 212],
            StreetFighterType::EvilRyu => [137, 215, 168],
            StreetFighterType::Hakan => [97, 148, 5],
            StreetFighterType::THawk => [250, 254, 145],
            StreetFighterType::Dan => [136, 51, 0],
        }
    }

    /// A character drawn uniformly from `rng`.
    pub fn random(rng: &mut StdRng) -> (r: Self) {
        let value = draw_below(rng, STREET_FIGHTER_TYPE_COUNT);
        StreetFighterType::from_repr(value).unwrap()
    }
}

/// The row of `attacker` in the effectiveness table, indexed by defender.
pub open spec fn matchup_row(attacker: StreetFighterType) -> Seq<i32> {
    match attacker {
        StreetFighterType::Seth => seq![ 0, 40, 40, 50, 40, 50, 50, 50, 40, 50, 50, 50, 50, 60, 60, 50, 60, 70, 60, 60, 40, 60, 50, 60, 60, 60, 40, 60, 50, 60, 60, 50, 60, 60, 60, 50, 60, 70, 70],
        StreetFighterType::CViper => seq![60,  0, 60, 60, 50, 50, 60, 40, 50, 40, 60, 50, 60, 40, 60, 60, 50, 40, 70, 60, 50, 60, 50, 40, 60, 60, 50, 60, 50, 50, 50, 60, 50, 50, 60, 60, 50, 60, 60],
        StreetFighterType::Cammy => seq![60, 40,  0, 60, 40, 50, 60, 40, 50, 60, 60, 60, 60, 40, 60, 50, 50, 40, 60, 40, 50, 50, 40, 60, 60, 60, 50, 60, 60, 50, 60, 60, 60, 50, 60, 60, 60, 60, 60],
        StreetFighterType::Akuma => seq![50, 40, 40,  0, 50, 50, 60, 50, 50, 50, 60, 50, 50, 50, 50, 50, 40, 60, 60, 60, 60, 60, 50, 50, 50, 60, 60, 50, 60, 50, 60, 60, 60, 50, 50, 60, 60, 60, 60],
        StreetFighterType::FLong => seq![60, 50, 60, 50,  0, 50, 60, 40, 50, 50, 50, 60, 50, 50, 60, 50, 50, 60, 60, 50, 50, 60, 60, 60, 40, 50, 50, 50, 50, 50, 60, 50, 50, 50, 60, 50, 60, 60, 60],
        StreetFighterType::Rufus => seq![50, 50, 50, 50, 50,  0, 40, 50, 50, 60, 60, 50, 60, 50, 40, 50, 60, 30, 60, 40, 60, 60, 40, 50, 70, 40, 40, 50, 60, 60, 60, 50, 60, 50, 60, 60, 60, 50, 70],
        StreetFighterType::Sagat => seq![50, 40, 40, 40, 40, 60,  0, 60, 50, 40, 50, 50, 50, 50, 50, 60, 60, 70, 50, 50, 60, 40, 50, 40, 60, 50, 60, 60, 50, 60, 60, 50, 60, 40, 50, 60, 60, 70, 60],
        StreetFighterType::Balrog => seq![50, 60, 60, 50, 60, 50, 40,  0, 60, 50, 50, 60, 60, 50, 50, 50, 50, 40, 40, 40, 60, 40, 50, 50, 60, 50, 60, 50, 50, 60, 50, 50, 50, 60, 60, 50, 50, 50, 60],
        StreetFighterType::Adon => seq![60, 50, 50, 50, 50, 50, 50, 40,  0, 50, 50, 60, 50, 50, 60, 50, 50, 40, 40, 60, 60, 50, 50, 50, 60, 60, 50, 50, 60, 50, 40, 50, 50, 50, 50, 60, 60, 40, 60],
        StreetFighterType::Ibuki => seq![50, 60, 40, 50, 50, 40, 60, 50, 50,  0, 50, 40, 50, 40, 50, 50, 50, 40, 60, 60, 50, 50, 60, 50, 50, 50, 60, 50, 50, 50, 50, 50, 60, 50, 60, 60, 60, 40, 60],
        StreetFighterType::Abel => seq![50, 40, 40, 40, 50, 40, 50, 50, 50, 50,  0, 60, 50, 50, 60, 50, 50, 40, 70, 60, 50, 40, 50, 40, 50, 60, 50, 50, 50, 50, 60, 60, 60, 50, 60, 60, 60, 40, 50],
        StreetFighterType::Blanka => seq![50, 50, 40, 50, 40, 50, 50, 40, 40, 60, 40,  0, 50, 40, 50, 50, 50, 60, 40, 60, 50, 50, 60, 60, 60, 60, 60, 60, 60, 40, 50, 50, 40, 50, 50, 50, 40, 80, 60],
        StreetFighterType::Makoto => seq![50, 40, 40, 50, 50, 40, 50, 40, 50, 50, 50, 50,  0, 50, 50, 50, 50, 40, 60, 60, 50, 40, 50, 50, 60, 50, 50, 50, 60, 50, 40, 50, 60, 60, 60, 50, 60, 60, 70],
        StreetFighterType::Bison => seq![40, 60, 60, 50, 50, 50, 50, 50, 50, 60, 50, 60, 50,  0, 50, 50, 40, 40, 50, 30, 60, 50, 60, 60, 50, 50, 50, 50, 60, 50, 40, 50, 50, 50, 50, 50, 60, 50, 60],
        StreetFighterType::Ryu => seq![40, 40, 40, 50, 40, 60, 50, 50, 40, 50, 40, 50, 50, 50,  0, 50, 60, 60, 40, 50, 60, 50, 50, 50, 40, 50, 50, 50, 50, 50, 60, 50, 60, 50, 60, 60, 60, 60, 70],
        StreetFighterType::Ken => seq![50, 40, 50, 50, 50, 50, 40, 50, 50, 50, 50, 50, 50, 50, 50,  0, 60, 50, 40, 40, 50, 60, 60, 50, 40, 50, 50, 60, 50, 60, 50, 60, 50, 50, 50, 50, 60, 50, 60],
        StreetFighterType::Yun => seq![40, 50, 50, 60, 50, 40, 40, 50, 50, 50, 50, 50, 50, 60, 40, 40,  0, 40, 70, 60, 50, 60, 50, 50, 60, 40, 50, 50, 50, 50, 60, 60, 60, 50, 50, 50, 50, 40, 60],
        StreetFighterType::Zangief => seq![30, 60, 60, 40, 40, 70, 30, 60, 60, 60, 60, 40, 60, 60, 40, 50, 60,  0, 40, 40, 50, 30, 40, 40, 40, 40, 70, 60, 50, 60, 50, 40, 50, 60, 60, 50, 60, 50, 70],
        StreetFighterType::Dhalsim => seq![40, 30, 40, 40, 40, 40, 50, 60, 60, 40, 30, 60, 40, 50, 60, 60, 30, 60,  0, 60, 40, 60, 60, 40, 50, 60, 50, 60, 50, 40, 70, 50, 50, 60, 50, 60, 50, 60, 70],
        StreetFighterType::Guile => seq![40, 40, 60, 40, 50, 60, 50, 60, 40, 40, 40, 40, 40, 70, 50, 60, 40, 60, 40,  0, 50, 60, 50, 60, 40, 50, 40, 50, 40, 50, 60, 50, 50, 60, 50, 50, 60, 70, 60],
        StreetFighterType::Sakura => seq![60, 50, 50, 40, 50, 40, 40, 40, 40, 50, 50, 50, 50, 40, 40, 50, 50, 50, 60, 50,  0, 50, 50, 60, 50, 60, 50, 50, 50, 50, 40, 60, 50, 50, 60, 60, 60, 60, 60],
        StreetFighterType::ChunLi => seq![40, 40, 50, 40, 40, 40, 60, 60, 50, 50, 60, 50, 60, 50, 50, 40, 40, 70, 40, 40, 50,  0, 50, 50, 50, 50, 50, 50, 60, 50, 60, 50, 50, 50, 50, 50, 50, 60, 60],
        StreetFighterType::DeeJay => seq![50, 50, 60, 50, 40, 60, 50, 50, 50, 40, 50, 40, 50, 40, 50, 40, 50, 60, 40, 50, 50, 50,  0, 50, 40, 50, 50, 50, 50, 60, 60, 50, 50, 50, 50, 50, 50, 70, 60],
        StreetFighterType::Juri => seq![40, 60, 40, 50, 40, 50, 60, 50, 50, 50, 60, 40, 50, 40, 50, 50, 50, 60, 60, 40, 40, 50, 50,  0, 50, 50, 50, 50, 40, 40, 40, 50, 50, 50, 60, 60, 60, 70, 60],
        StreetFighterType::Rose => seq![40, 40, 40, 50, 60, 30, 40, 40, 40, 50, 50, 40, 40, 50, 60, 60, 40, 60, 50, 60, 50, 50, 60, 50,  0, 60, 60, 50, 60, 40, 40, 50, 50, 60, 50, 50, 60, 60, 60],
        StreetFighterType::Gouken => seq![40, 40, 40, 40, 50, 60, 50, 50, 40, 50, 40, 40, 50, 50, 50, 50, 60, 60, 40, 50, 40, 50, 50, 50, 40,  0, 40, 40, 60, 60, 60, 50, 50, 60, 60, 60, 50, 60, 60],
        StreetFighterType::Guy => seq![60, 50, 50, 40, 50, 60, 40, 40, 50, 40, 50, 40, 50, 50, 50, 50, 50, 30, 50, 60, 50, 50, 50, 50, 40, 60,  0, 40, 50, 60, 50, 50, 50, 50, 60, 60, 60, 40, 60],
        StreetFighterType::Cody => seq![40, 40, 40, 50, 50, 50, 40, 50, 50, 50, 50, 40, 50, 50, 50, 40, 50, 40, 40, 50, 50, 50, 50, 50, 50, 60, 60,  0, 40, 40, 50, 50, 50, 60, 60, 60, 60, 60, 60],
        StreetFighterType::Fuerte => seq![50, 50, 40, 40, 50, 40, 50, 50, 40, 50, 50, 40, 40, 40, 50, 50, 50, 50, 50, 60, 50, 40, 50, 60, 40, 40, 50, 60,  0, 60, 50, 50, 50, 50, 60, 60, 50, 60, 50],
        StreetFighterType::Yang => seq![40, 50, 50, 50, 50, 40, 40, 40, 50, 50, 50, 60, 50, 50, 50, 40, 50, 40, 60, 50, 50, 50, 40, 60, 60, 40, 40, 60, 40,  0, 50, 60, 50, 50, 50, 50, 60, 40, 60],
        StreetFighterType::EHonda => seq![40, 50, 40, 40, 40, 40, 40, 50, 60, 50, 40, 50, 60, 60, 40, 50, 40, 50, 30, 40, 60, 40, 40, 60, 60, 40, 50, 50, 50, 50,  0, 60, 60, 50, 50, 50, 60, 60, 60],
        StreetFighterType::Gen => seq![50, 40, 40, 40, 50, 50, 50, 50, 50, 50, 40, 50, 50, 50, 50, 40, 40, 60, 50, 50, 40, 50, 50, 50, 50, 50, 50, 50, 50, 40, 40,  0, 50, 50, 50, 50, 50, 70, 60],
        StreetFighterType::Vega => seq![40, 50, 40, 40, 50, 40, 40, 50, 50, 40, 40, 60, 40, 50, 40, 50, 40, 50, 50, 50, 50, 50, 50, 50, 50, 50, 50, 50, 50, 50, 40, 50,  0, 50, 50, 50, 60, 60, 60],
        StreetFighterType::Dudley => seq![40, 50, 50, 50, 50, 50, 60, 40, 50, 50, 50, 50, 40, 50, 50, 50, 50, 40, 40, 40, 50, 50, 50, 50, 40, 40, 50, 40, 50, 50, 50, 50, 50,  0, 50, 50, 50, 40, 60],
        StreetFighterType::Oni => seq![40, 40, 40, 50, 40, 40, 50, 40, 50, 40, 40, 50, 40, 50, 40, 50, 50, 40, 50, 50, 40, 50, 50, 40, 50, 40, 40, 40, 40, 50, 50, 50, 50, 50,  0, 60, 50, 60, 60],
        StreetFighterType::EvilRyu => seq![50, 40, 40, 40, 50, 40, 40, 50, 40, 40, 40, 50, 50, 50, 40, 50, 50, 50, 40, 50, 40, 50, 50, 40, 50, 40, 40, 40, 40, 50, 50, 50, 50, 50, 40,  0, 50, 60, 60],
        StreetFighterType::Hakan => seq![40, 50, 40, 40, 40, 40, 40, 50, 40, 40, 40, 60, 40, 40, 40, 40, 50, 40, 50, 40, 40, 50, 50, 40, 40, 50, 40, 40, 50, 40, 40, 50, 40, 50, 50, 50,  0, 50, 60],
        StreetFighterType::THawk => seq![30, 40, 40, 40, 40, 50, 30, 50, 60, 60, 60, 20, 40, 50, 40, 50, 60, 50, 40, 30, 40, 40, 30, 30, 40, 40, 60, 40, 40, 60, 40, 30, 40, 60, 40, 40, 50,  0, 60],
        StreetFighterType::Dan => seq![30, 40, 40, 40, 40, 30, 40, 40, 40, 40, 50, 40, 30, 40, 30, 40, 40, 30, 30, 40, 40, 40, 40, 40, 40, 40, 40, 40, 50, 40, 40, 40, 40, 40, 40, 40, 40, 40,  0],
    }
}

fn matchup_row_of(attacker: StreetFighterType) -> (r: [i32; 39])
    ensures
        r@ == matchup_row(attacker),
{
    match attacker {
        StreetFighterType::Seth => [ 0, 40, 40, 50, 40, 50, 50, 50, 40, 50, 50, 50, 50, 60, 60, 50, 60, 70, 60, 60, 40, 60, 50, 60, 60, 60, 40, 60, 50, 60, 60, 50, 60, 60, 60, 50, 60, 70, 70],
        StreetFighterType::CViper => [60,  0, 60, 60, 50, 50, 60, 40, 50, 40, 60, 50, 60, 40, 60, 60, 50, 40, 70, 60, 50, 60, 50, 40, 60, 60, 50, 60, 50, 50, 50, 60, 50, 50, 60, 60, 50, 60, 60],
        StreetFighterType::Cammy => [60, 40,  0, 60, 40, 50, 60, 40, 50, 60, 60, 60, 60, 40, 60, 50, 50, 40, 60, 40, 50, 50, 40, 60, 60, 60, 50, 60, 60, 50, 60, 60, 60, 50, 60, 60, 60, 60, 60],
        StreetFighterType::Akuma => [50, 40, 40,  0, 50, 50, 60, 50, 50, 50, 60, 50, 50, 50, 50, 50, 40, 60, 60, 60, 60, 60, 50, 50, 50, 60, 60, 50, 60, 50, 60, 60, 60, 50, 50, 60, 60, 60, 60],
        StreetFighterType::FLong => [60, 50, 60, 50,  0, 50, 60, 40, 50, 50, 50, 60, 50, 50, 60, 50, 50, 60, 60, 50, 50, 60, 60, 60, 40, 50, 50, 50, 50, 50, 60, 50, 50, 50, 60, 50, 60, 60, 60],
        StreetFighterType::Rufus => [50, 50, 50, 50, 50,  0, 40, 50, 50, 60, 60, 50, 60, 50, 40, 50, 60, 30, 60, 40, 60, 60, 40, 50, 70, 40, 40, 50, 60, 60, 60, 50, 60, 50, 60, 60, 60, 50, 70],
        StreetFighterType::Sagat => [50, 40, 40, 40, 40, 60,  0, 60, 50, 40, 50, 50, 50, 50, 50, 60, 60, 70, 50, 50, 60, 40, 50, 40, 60, 50, 60, 60, 50, 60, 60, 50, 60, 40, 50, 60, 60, 70, 60],
        StreetFighterType::Balrog => [50, 60, 60, 50, 60, 50, 40,  0, 60, 50, 50, 60, 60, 50, 50, 50, 50, 40, 40, 40, 60, 40, 50, 50, 60, 50, 60, 50, 50, 60, 50, 50, 50, 60, 60, 50, 50, 50, 60],
        StreetFighterType::Adon => [60, 50, 50, 50, 50, 50, 50, 40,  0, 50, 50, 60, 50, 50, 60, 50, 50, 40, 40, 60, 60, 50, 50, 50, 60, 60, 50, 50, 60, 50, 40, 50, 50, 50, 50, 60, 60, 40, 60],
        StreetFighterType::Ibuki => [50, 60, 40, 50, 50, 40, 60, 50, 50,  0, 50, 40, 50, 40, 50, 50, 50, 40, 60, 60, 50, 50, 60, 50, 50, 50, 60, 50, 50, 50, 50, 50, 60, 50, 60, 60, 60, 40, 60],
        StreetFighterType::Abel => [50, 40, 40, 40, 50, 40, 50, 50, 50, 50,  0, 60, 50, 50, 60, 50, 50, 40, 70, 60, 50, 40, 50, 40, 50, 60, 50, 50, 50, 50, 60, 60, 60, 50, 60, 60, 60, 40, 50],
        StreetFighterType::Blanka => [50, 50, 40, 50, 40, 50, 50, 40, 40, 60, 40,  0, 50, 40, 50, 50, 50, 60, 40, 60, 50, 50, 60, 60, 60, 60, 60, 60, 60, 40, 50, 50, 40, 50, 50, 50, 40, 80, 60],
        StreetFighterType::Makoto => [50, 40, 40, 50, 50, 40, 50, 40, 50, 50, 50, 50,  0, 50, 50, 50, 50, 40, 60, 60, 50, 40, 50, 50, 60, 50, 50, 50, 60, 50, 40, 50, 60, 60, 60, 50, 60, 60, 70],
        StreetFighterType::Bison => [40, 60, 60, 50, 50, 50, 50, 50, 50, 60, 50, 60, 50,  0, 50, 50, 40, 40, 50, 30, 60, 50, 60, 60, 50, 50, 50, 50, 60, 50, 40, 50, 50, 50, 50, 50, 60, 50, 60],
        StreetFighterType::Ryu => [40, 40, 40, 50, 40, 60, 50, 50, 40, 50, 40, 50, 50, 50,  0, 50, 60, 60, 40, 50, 60, 50, 50, 50, 40, 50, 50, 50, 50, 50, 60, 50, 60, 50, 60, 60, 60, 60, 70],
        StreetFighterType::Ken => [50, 40, 50, 50, 50, 50, 40, 50, 50, 50, 50, 50, 50, 50, 50,  0, 60, 50, 40, 40, 50, 60, 60, 50, 40, 50, 50, 60, 50, 60, 50, 60, 50, 50, 50, 50, 60, 50, 60],
        StreetFighterType::Yun => [40, 50, 50, 60, 50, 40, 40, 50, 50, 50, 50, 50, 50, 60, 40, 40,  0, 40, 70, 60, 50, 60, 50, 50, 60, 40, 50, 50, 50, 50, 60, 60, 60, 50, 50, 50, 50, 40, 60],
        StreetFighterType::Zangief => [30, 60, 60, 40, 40, 70, 30, 60, 60, 60, 60, 40, 60, 60, 40, 50, 60,  0, 40, 40, 50, 30, 40, 40, 40, 40, 70, 60, 50, 60, 50, 40, 50, 60, 60, 50, 60, 50, 70],
        StreetFighterType::Dhalsim => [40, 30, 40, 40, 40, 40, 50, 60, 60, 40, 30, 60, 40, 50, 60, 60, 30, 60,  0, 60, 40, 60, 60, 40, 50, 60, 50, 60, 50, 40, 70, 50, 50, 60, 50, 60, 50, 60, 70],
        StreetFighterType::Guile => [40, 40, 60, 40, 50, 60, 50, 60, 40, 40, 40, 40, 40, 70, 50, 60, 40, 60, 40,  0, 50, 60, 50, 60, 40, 50, 40, 50, 40, 50, 60, 50, 50, 60, 50, 50, 60, 70, 60],
        StreetFighterType::Sakura => [60, 50, 50, 40, 50, 40, 40, 40, 40, 50, 50, 50, 50, 40, 40, 50, 50, 50, 60, 50,  0, 50, 50, 60, 50, 60, 50, 50, 50, 50, 40, 60, 50, 50, 60, 60, 60, 60, 60],
        StreetFighterType::ChunLi => [40, 40, 50, 40, 40, 40, 60, 60, 50, 50, 60, 50, 60, 50, 50, 40, 40, 70, 40, 40, 50,  0, 50, 50, 50, 50, 50, 50, 60, 50, 60, 50, 50, 50, 50, 50, 50, 60, 60],
        StreetFighterType::DeeJay => [50, 50, 60, 50, 40, 60, 50, 50, 50, 40, 50, 40, 50, 40, 50, 40, 50, 60, 40, 50, 50, 50,  0, 50, 40, 50, 50, 50, 50, 60, 60, 50, 50, 50, 50, 50, 50, 70, 60],
        StreetFighterType::Juri => [40, 60, 40, 50, 40, 50, 60, 50, 50, 50, 60, 40, 50, 40, 50, 50, 50, 60, 60, 40, 40, 50, 50,  0, 50, 50, 50, 50, 40, 40, 40, 50, 50, 50, 60, 60, 60, 70, 60],
        StreetFighterType::Rose => [40, 40, 40, 50, 60, 30, 40, 40, 40, 50, 50, 40, 40, 50, 60, 60, 40, 60, 50, 60, 50, 50, 60, 50,  0, 60, 60, 50, 60, 40, 40, 50, 50, 60, 50, 50, 60, 60, 60],
        StreetFighterType::Gouken => [40, 40, 40, 40, 50, 60, 50, 50, 40, 50, 40, 40, 50, 50, 50, 50, 60, 60, 40, 50, 40, 50, 50, 50, 40,  0, 40, 40, 60, 60, 60, 50, 50, 60, 60, 60, 50, 60, 60],
        StreetFighterType::Guy => [60, 50, 50, 40, 50, 60, 40, 40, 50, 40, 50, 40, 50, 50, 50, 50, 50, 30, 50, 60, 50, 50, 50, 50, 40, 60,  0, 40, 50, 60, 50, 50, 50, 50, 60, 60, 60, 40, 60],
        StreetFighterType::Cody => [40, 40, 40, 50, 50, 50, 40, 50, 50, 50, 50, 40, 50, 50, 50, 40, 50, 40, 40, 50, 50, 50, 50, 50, 50, 60, 60,  0, 40, 40, 50, 50, 50, 60, 60, 60, 60, 60, 60],
        StreetFighterType::Fuerte => [50, 50, 40, 40, 50, 40, 50, 50, 40, 50, 50, 40, 40, 40, 50, 50, 50, 50, 50, 60, 50, 40, 50, 60, 40, 40, 50, 60,  0, 60, 50, 50, 50, 50, 60, 60, 50, 60, 50],
        StreetFighterType::Yang => [40, 50, 50, 50, 50, 40, 40, 40, 50, 50, 50, 60, 50, 50, 50, 40, 50, 40, 60, 50, 50, 50, 40, 60, 60, 40, 40, 60, 40,  0, 50, 60, 50, 50, 50, 50, 60, 40, 60],
        StreetFighterType::EHonda => [40, 50, 40, 40, 40, 40, 40, 50, 60, 50, 40, 50, 60, 60, 40, 50, 40, 50, 30, 40, 60, 40, 40, 60, 60, 40, 50, 50, 50, 50,  0, 60, 60, 50, 50, 50, 60, 60, 60],
        StreetFighterType::Gen => [50, 40, 40, 40, 50, 50, 50, 50, 50, 50, 40, 50, 50, 50, 50, 40, 40, 60, 50, 50, 40, 50, 50, 50, 50, 50, 50, 50, 50, 40, 40,  0, 50, 50, 50, 50, 50, 70, 60],
        StreetFighterType::Vega => [40, 50, 40, 40, 50, 40, 40, 50, 50, 40, 40, 60, 40, 50, 40, 50, 40, 50, 50, 50, 50, 50, 50, 50, 50, 50, 50, 50, 50, 50, 40, 50,  0, 50, 50, 50, 60, 60, 60],
        StreetFighterType::Dudley => [40, 50, 50, 50, 50, 50, 60, 40, 50, 50, 50, 50, 40, 50, 50, 50, 50, 40, 40, 40, 50, 50, 50, 50, 40, 40, 50, 40, 50, 50, 50, 50, 50,  0, 50, 50, 50, 40, 60],
        StreetFighterType::Oni => [40, 40, 40, 50, 40, 40, 50, 40, 50, 40, 40, 50, 40, 50, 40, 50, 50, 40, 50, 50, 40, 50, 50, 40, 50, 40, 40, 40, 40, 50, 50, 50, 50, 50,  0, 60, 50, 60, 60],
        StreetFighterType::EvilRyu => [50, 40, 40, 40, 50, 40, 40, 50, 40, 40, 40, 50, 50, 50, 40, 50, 50, 50, 40, 50, 40, 50, 50, 40, 50, 40, 40, 40, 40, 50, 50, 50, 50, 50, 40,  0, 50, 60, 60],
        StreetFighterType::Hakan => [40, 50, 40, 40, 40, 40, 40, 50, 40, 40, 40, 60, 40, 40, 40, 40, 50, 40, 50, 40, 40, 50, 50, 40, 40, 50, 40, 40, 50, 40, 40, 50, 40, 50, 50, 50,  0, 50, 60],
        StreetFighterType::THawk => [30, 40, 40, 40, 40, 50, 30, 50, 60, 60, 60, 20, 40, 50, 40, 50, 60, 50, 40, 30, 40, 40, 30, 30, 40, 40, 60, 40, 40, 60, 40, 30, 40, 60, 40, 40, 50,  0, 60],
        StreetFighterType::Dan => [30, 40, 40, 40, 40, 30, 40, 40, 40, 40, 50, 40, 30, 40, 30, 40, 40, 30, 30, 40, 40, 40, 40, 40, 40, 40, 40, 40, 50, 40, 40, 40, 40, 40, 40, 40, 40, 40,  0],
    }
}

/// The chance, in percent, that `attacker` wins a match against `defender`.
pub open spec fn matchup(attacker: StreetFighterType, defender: StreetFighterType) -> int {
    matchup_row(attacker)[defender.index() as int] as int
}

/// Every win chance is a percentage.
pub proof fn lemma_matchup_percent(attacker: StreetFighterType, defender: StreetFighterType)
    ensures
        0 <= matchup(attacker, defender) <= 100,
{
}

fn get_effectiveness(attacker: StreetFighterType, defender: StreetFighterType) -> (r: i32)
    ensures
        r == matchup(attacker, defender),
{
    let row = matchup_row_of(attacker);
    row[defender.to_index()]
}

/// A character whose matches are decided by a roll against its win chance.
#[derive(Clone, Copy, Debug, PartialEq, Eq, Structural)]
pub struct StreetFighter {
    pub kind: StreetFighterType,
}

impl StreetFighter {
    pub fn new(kind: StreetFighterType) -> (r: Self)
        ensures
            r.kind == kind,
    {
        StreetFighter { kind }
    }

    /// Turns this fighter into the character `kind`.
    pub fn reset(&mut self, kind: StreetFighterType)
        ensures
            final(self).kind == kind,
    {
        self.kind = kind;
    }
}

impl Fighter for StreetFighter {
    open spec fn valid(&self) -> bool {
        true
    }

    open spec fn spec_should_fight(&self, defender: &Self) -> bool {
        self.kind != defender.kind
    }

    open spec fn spec_effectiveness(&self, defender: &Self) -> int {
        matchup(self.kind, defender.kind)
    }

    /// The defender loses, and becomes the attacker's character, exactly
    /// when the roll falls below the attacker's win chance.
    open spec fn spec_fight(&self, defender: &Self, roll: int) -> (StreetFighter, bool) {
        if roll < matchup(self.kind, defender.kind) {
            (StreetFighter { kind: self.kind }, true)
        } else {
            (*defender, false)
        }
    }

    fn should_fight(&self, defender: &Self) -> (r: bool) {
        self.kind != defender.kind
    }

    fn get_effectiveness(&self, defender: &Self) -> (r: i32) {
        get_effectiveness(self.kind, defender.kind)
    }

    fn fight(&self, defender: &mut Self, roll: u8) -> (dead: bool) {
        let effectiveness = self.get_effectiveness(defender);
        if (roll as i32) < effectiveness {
            defender.reset(self.kind);
            true
        } else {
            false
        }
    }
}

/// Whatever the roll in `0..100`, a defender against which the attacker has
/// no chance survives, and one against which it has a certain win dies.
pub proof fn lemma_chance_extremes(attacker: StreetFighter, defender: StreetFighter, roll: int)
    requires
        0 <= roll < 100,
    ensures
        attacker.spec_effectiveness(&defender) == 0 ==> !attacker.spec_fight(&defender, roll).1
            && attacker.spec_fight(&defender, roll).0 == defender,
        attacker.spec_effectiveness(&defender) == 100 ==> attacker.spec_fight(&defender, roll).1
            && attacker.spec_fight(&defender, roll).0.kind == attacker.kind,
{
}

impl GenerateRandomly for StreetFighter {
    fn generate_randomly(rng: &mut StdRng) -> (r: Self) {
        StreetFighter::new(StreetFighterType::random(rng))
    }
}

impl Colored for StreetFighter {
    fn color(&self) -> (r: [u8; 3])
        ensures
            r@ == self.kind.spec_color(),
    {
        self.kind.color()
    }
}

} // verus!
