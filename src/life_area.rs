//! The areas of life that the twelve houses govern.
use vstd::prelude::*;

verus! {

/// Life areas, one per astrological house.
#[derive(Debug, Clone, Copy, PartialEq, Eq, Hash, Structural)]
pub enum LifeArea {
    /// 1st house: self, identity, appearance, first impressions.
    Identity,
    /// 2nd house: money, possessions, values, self-worth.
    Finances,
    /// 3rd house: communication, siblings, short trips, learning.
    Communication,
    /// 4th house: home, family, roots, emotional foundation.
    Home,
    /// 5th house: creativity, romance, children, pleasure.
    Romance,
    /// 6th house: work, health, daily routines, service.
    Work,
    /// 7th house: partnerships, marriage, open enemies, contracts.
    Partnerships,
    /// 8th house: transformation, shared resources, intimacy, death and rebirth.
    Transformation,
    /// 9th house: higher education, travel, philosophy, spirituality.
    Spirituality,
    /// 10th house: career, public image, reputation, authority.
    Career,
    /// 11th house: friends, groups, hopes, social causes.
    Community,
    /// 12th house: subconscious, hidden matters, isolation, endings.
    Subconscious,
}

/// Every life area, in house order.
pub open spec fn all_life_areas() -> Seq<LifeArea> {
    seq![
        LifeArea::Identity,
        LifeArea::Finances,
        LifeArea::Communication,
        LifeArea::Home,
        LifeArea::Romance,
        LifeArea::Work,
        LifeArea::Partnerships,
        LifeArea::Transformation,
        LifeArea::Spirituality,
        LifeArea::Career,
        LifeArea::Community,
        LifeArea::Subconscious,
    ]
}

impl LifeArea {
    /// The house (1 to 12) that governs the area.
    pub open spec fn spec_house_number(self) -> u8 {
        match self {
            LifeArea::Identity => 1,
            LifeArea::Finances => 2,
            LifeArea::Communication => 3,
            LifeArea::Home => 4,
            LifeArea::Romance => 5,
            LifeArea::Work => 6,
            LifeArea::Partnerships => 7,
            LifeArea::Transformation => 8,
            LifeArea::Spirituality => 9,
            LifeArea::Career => 10,
            LifeArea::Community => 11,
            LifeArea::Subconscious => 12,
        }
    }

    pub open spec fn spec_description(self) -> Seq<char> {
        match self {
            LifeArea::Identity => "Self, identity, appearance, first impressions"@,
            LifeArea::Finances => "Money, possessions, values, self-worth"@,
            LifeArea::Communication => "Communication, siblings, short trips, learning"@,
            LifeArea::Home => "Home, family, roots, emotional foundation"@,
            LifeArea::Romance => "Creativity, romance, children, pleasure"@,
            LifeArea::Work => "Work, health, daily routines, service"@,
            LifeArea::Partnerships => "Partnerships, marriage, contracts"@,
            LifeArea::Transformation => "Transformation, shared resources, intimacy"@,
            LifeArea::Spirituality => "Higher education, travel, philosophy, beliefs"@,
            LifeArea::Career => "Career, public image, reputation, authority"@,
            LifeArea::Community => "Friends, groups, hopes, social causes"@,
            LifeArea::Subconscious => "Subconscious, hidden matters, isolation, endings"@,
        }
    }

    pub open spec fn spec_name(self) -> Seq<char> {
        match self {
            LifeArea::Identity => "Identity"@,
            LifeArea::Finances => "Finances"@,
            LifeArea::Communication => "Communication"@,
            LifeArea::Home => "Home"@,
            LifeArea::Romance => "Romance"@,
            LifeArea::Work => "Work"@,
            LifeArea::Partnerships => "Partnerships"@,
            LifeArea::Transformation => "Transformation"@,
            LifeArea::Spirituality => "Spirituality"@,
            LifeArea::Career => "Career"@,
            LifeArea::Community => "Community"@,
            LifeArea::Subconscious => "Subconscious"@,
        }
    }

    /// The area that house `house` governs; `None` outside 1 to 12.
    pub fn from_house(house: u8) -> (r: Option<LifeArea>)
        ensures
            r.is_some() == (1 <= house <= 12),
            r.is_some() ==> r.unwrap().spec_house_number() == house,
    {
        match house {
            1 => Some(LifeArea::Identity),
            2 => Some(LifeArea::Finances),
            3 => Some(LifeArea::Communication),
            4 => Some(LifeArea::Home),
            5 => Some(LifeArea::Romance),
            6 => Some(LifeArea::Work),
            7 => Some(LifeArea::Partnerships),
            8 => Some(LifeArea::Transformation),
            9 => Some(LifeArea::Spirituality),
            10 => Some(LifeArea::Career),
            11 => Some(LifeArea::Community),
            12 => Some(LifeArea::Subconscious),
            _ => None,
        }
    }

    /// The house (1 to 12) that governs the area.
    pub fn house_number(&self) -> (r: u8)
        ensures
            r == self.spec_house_number(),
            1 <= r <= 12,
    {
        match self {
            LifeArea::Identity => 1,
            LifeArea::Finances => 2,
            LifeArea::Communication => 3,
            LifeArea::Home => 4,
            LifeArea::Romance => 5,
            LifeArea::Work => 6,
            LifeArea::Partnerships => 7,
            LifeArea::Transformation => 8,
            LifeArea::Spirituality => 9,
            LifeArea::Career => 10,
            LifeArea::Community => 11,
            LifeArea::Subconscious => 12,
        }
    }

    /// What the area governs.
    pub fn description(&self) -> (r: &'static str)
        ensures
            r@ == self.spec_description(),
    {
        match self {
            LifeArea::Identity => "Self, identity, appearance, first impressions",
            LifeArea::Finances => "Money, possessions, values, self-worth",
            LifeArea::Communication => "Communication, siblings, short trips, learning",
            LifeArea::Home => "Home, family, roots, emotional foundation",
            LifeArea::Romance => "Creativity, romance, children, pleasure",
            LifeArea::Work => "Work, health, daily routines, service",
            LifeArea::Partnerships => "Partnerships, marriage, contracts",
            LifeArea::Transformation => "Transformation, shared resources, intimacy",
            LifeArea::Spirituality => "Higher education, travel, philosophy, beliefs",
            LifeArea::Career => "Career, public image, reputation, authority",
            LifeArea::Community => "Friends, groups, hopes, social causes",
            LifeArea::Subconscious => "Subconscious, hidden matters, isolation, endings",
        }
    }

    /// Every life area, in house order.
    pub fn all() -> (r: Vec<LifeArea>)
        ensures
            r@ == all_life_areas(),
    {
        let r = vec![
            LifeArea::Identity,
            LifeArea::Finances,
            LifeArea::Communication,
            LifeArea::Home,
            LifeArea::Romance,
            LifeArea::Work,
            LifeArea::Partnerships,
            LifeArea::Transformation,
            LifeArea::Spirituality,
            LifeArea::Career,
            LifeArea::Community,
            LifeArea::Subconscious,
        ];
        assert(r@ =~= all_life_areas());
        r
    }

    /// The name of the area.
    pub fn name(&self) -> (r: &'static str)
        ensures
            r@ == self.spec_name(),
    {
        match self {
            LifeArea::Identity => "Identity",
            LifeArea::Finances => "Finances",
            LifeArea::Communication => "Communication",
            LifeArea::Home => "Home",
            LifeArea::Romance => "Romance",
            LifeArea::Work => "Work",
            LifeArea::Partnerships => "Partnerships",
            LifeArea::Transformation => "Transformation",
            LifeArea::Spirituality => "Spirituality",
            LifeArea::Career => "Career",
            LifeArea::Community => "Community",
            LifeArea::Subconscious => "Subconscious",
        }
    }
}

} // verus!
