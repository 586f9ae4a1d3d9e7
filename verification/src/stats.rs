//! The player's nine stats.
use vstd::prelude::*;

verus! {

/// Every stat stays at or below this, so that each sum the game forms from stats
/// (vitals, modifiers plus a roll, stamina regained) fits in an `i32`.
pub const STAT_LIMIT: i32 = 500_000_000;

/// One of the player's stats, in the order the stats panel lists them.
#[derive(Clone, Copy, Debug, PartialEq, Eq, Hash, Structural)]
pub enum Stat {
    Intelligence,
    Instinct,
    Focus,
    Luck,
    Strength,
    Dexterity,
    Sight,
    Endurance,
    Regeneration,
}

/// The stat at position `i` of the panel.
pub open spec fn stat_at(i: int) -> Stat {
    if i == 0 {
        Stat::Intelligence
    } else if i == 1 {
        Stat::Instinct
    } else if i == 2 {
        Stat::Focus
    } else if i == 3 {
        Stat::Luck
    } else if i == 4 {
        Stat::Strength
    } else if i == 5 {
        Stat::Dexterity
    } else if i == 6 {
        Stat::Sight
    } else if i == 7 {
        Stat::Endurance
    } else {
        Stat::Regeneration
    }
}

/// The field name of a stat, as the panel and the evolution buttons show it.
pub open spec fn stat_name(s: Stat) -> Seq<char> {
    match s {
        Stat::Intelligence => "intelligence"@,
        Stat::Instinct => "instinct"@,
        Stat::Focus => "focus"@,
        Stat::Luck => "luck"@,
        Stat::Strength => "strength"@,
        Stat::Dexterity => "dexterity"@,
        Stat::Sight => "sight"@,
        Stat::Endurance => "endurance"@,
        Stat::Regeneration => "regeneration"@,
    }
}

/// The tooltip of a stat: what it increases or contributes to, and the deaths it is
/// gained from.
pub open spec fn stat_description(s: Stat) -> Seq<char> {
    match s {
        Stat::Intelligence => "Contributes to [AncientInscriptions]\nGained from [Chasm]"@,
        Stat::Instinct =>
            "Increases Saturation; Contributes to [FindFood, WildThreat, Climbing]\nGained from [WildThreat, Starvation]"@,
        Stat::Focus => "Increases low rolls\nGained from [Chasm, Exhaustion]"@,
        Stat::Luck => "Increases high rolls\nGained from [FallingRock]"@,
        Stat::Strength =>
            "Increases Health and Stamina; Contributes to [WildThreat, Climbing]\nGained from [WildThreat]"@,
        Stat::Dexterity =>
            "Increases Stamina; Contributes to [FallingRock]\nGained from [FallingRock]"@,
        Stat::Sight => "Contributes to [Mirage, FindFood]\nGained from [Chasm, WildThreat]"@,
        Stat::Endurance =>
            "Contributes to [Mirage]; Increases Health and Saturation\nGained from [Exhaustion, Starvation]"@,
        Stat::Regeneration =>
            "Increases Stamina regeneration; Contributes to [Restoration]\nGained from [Exhaustion, Starvation]"@,
    }
}

impl Stat {
    /// The stat at position `i` of the panel, `None` past the ninth.
    pub fn at(i: usize) -> (s: Option<Stat>)
        ensures
            i < 9 ==> s == Some(stat_at(i as int)),
            i >= 9 ==> s is None,
    {
        if i == 0 {
            Some(Stat::Intelligence)
        } else if i == 1 {
            Some(Stat::Instinct)
        } else if i == 2 {
            Some(Stat::Focus)
        } else if i == 3 {
            Some(Stat::Luck)
        } else if i == 4 {
            Some(Stat::Strength)
        } else if i == 5 {
            Some(Stat::Dexterity)
        } else if i == 6 {
            Some(Stat::Sight)
        } else if i == 7 {
            Some(Stat::Endurance)
        } else if i == 8 {
            Some(Stat::Regeneration)
        } else {
            None
        }
    }

    /// The field name of the stat.
    pub fn name(self) -> (n: String)
        ensures
            n@ == stat_name(self),
    {
        match self {
            Stat::Intelligence => String::from_str("intelligence"),
            Stat::Instinct => String::from_str("instinct"),
            Stat::Focus => String::from_str("focus"),
            Stat::Luck => String::from_str("luck"),
            Stat::Strength => String::from_str("strength"),
            Stat::Dexterity => String::from_str("dexterity"),
            Stat::Sight => String::from_str("sight"),
            Stat::Endurance => String::from_str("endurance"),
            Stat::Regeneration => String::from_str("regeneration"),
        }
    }

    /// The tooltip text of the stat.
    pub fn description(self) -> (d: String)
        ensures
            d@ == stat_description(self),
    {
        match self {
            Stat::Intelligence => String::from_str(
                "Contributes to [AncientInscriptions]\nGained from [Chasm]",
            ),
            Stat::Instinct => String::from_str(
                "Increases Saturation; Contributes to [FindFood, WildThreat, Climbing]\nGained from [WildThreat, Starvation]",
            ),
            Stat::Focus => String::from_str("Increases low rolls\nGained from [Chasm, Exhaustion]"),
            Stat::Luck => String::from_str("Increases high rolls\nGained from [FallingRock]"),
            Stat::Strength => String::from_str(
                "Increases Health and Stamina; Contributes to [WildThreat, Climbing]\nGained from [WildThreat]",
            ),
            Stat::Dexterity => String::from_str(
                "Increases Stamina; Contributes to [FallingRock]\nGained from [FallingRock]",
            ),
            Stat::Sight => String::from_str(
                "Contributes to [Mirage, FindFood]\nGained from [Chasm, WildThreat]",
            ),
            Stat::Endurance => String::from_str(
                "Contributes to [Mirage]; Increases Health and Saturation\nGained from [Exhaustion, Starvation]",
            ),
            Stat::Regeneration => String::from_str(
                "Increases Stamina regeneration; Contributes to [Restoration]\nGained from [Exhaustion, Starvation]",
            ),
        }
    }
}

/// The player's stats; each starts at zero and grows by evolving after a death.
#[derive(Clone, Copy, Debug)]
pub struct PlayerStats {
    pub intelligence: i32,
    pub instinct: i32,
    pub focus: i32,
    pub luck: i32,
    pub strength: i32,
    pub dexterity: i32,
    pub sight: i32,
    pub endurance: i32,
    pub regeneration: i32,
}

impl Default for PlayerStats {
    fn default() -> (s: PlayerStats)
        ensures
            forall|t: Stat| #[trigger] s.value(t) == 0,
            s == (PlayerStats {
                intelligence: 0,
                instinct: 0,
                focus: 0,
                luck: 0,
                strength: 0,
                dexterity: 0,
                sight: 0,
                endurance: 0,
                regeneration: 0,
            }),
            s.within_limits(),
    {
        PlayerStats {
            intelligence: 0,
            instinct: 0,
            focus: 0,
            luck: 0,
            strength: 0,
            dexterity: 0,
            sight: 0,
            endurance: 0,
            regeneration: 0,
        }
    }
}

impl PlayerStats {
    /// The value of stat `s`.
    pub open spec fn value(self, s: Stat) -> i32 {
        match s {
            Stat::Intelligence => self.intelligence,
            Stat::Instinct => self.instinct,
            Stat::Focus => self.focus,
            Stat::Luck => self.luck,
            Stat::Strength => self.strength,
            Stat::Dexterity => self.dexterity,
            Stat::Sight => self.sight,
            Stat::Endurance => self.endurance,
            Stat::Regeneration => self.regeneration,
        }
    }

    /// Every stat lies in `0..=STAT_LIMIT`.
    pub open spec fn within_limits(self) -> bool {
        forall|s: Stat| 0 <= #[trigger] self.value(s) <= STAT_LIMIT
    }

    /// Each field of stats within their limits lies in `0..=STAT_LIMIT`.
    pub proof fn lemma_fields_within_limits(self)
        requires
            self.within_limits(),
        ensures
            0 <= self.intelligence <= STAT_LIMIT,
            0 <= self.instinct <= STAT_LIMIT,
            0 <= self.focus <= STAT_LIMIT,
            0 <= self.luck <= STAT_LIMIT,
            0 <= self.strength <= STAT_LIMIT,
            0 <= self.dexterity <= STAT_LIMIT,
            0 <= self.sight <= STAT_LIMIT,
            0 <= self.endurance <= STAT_LIMIT,
            0 <= self.regeneration <= STAT_LIMIT,
    {
        assert(0 <= self.value(Stat::Intelligence) <= STAT_LIMIT);
        assert(0 <= self.value(Stat::Instinct) <= STAT_LIMIT);
        assert(0 <= self.value(Stat::Focus) <= STAT_LIMIT);
        assert(0 <= self.value(Stat::Luck) <= STAT_LIMIT);
        assert(0 <= self.value(Stat::Strength) <= STAT_LIMIT);
        assert(0 <= self.value(Stat::Dexterity) <= STAT_LIMIT);
        assert(0 <= self.value(Stat::Sight) <= STAT_LIMIT);
        assert(0 <= self.value(Stat::Endurance) <= STAT_LIMIT);
        assert(0 <= self.value(Stat::Regeneration) <= STAT_LIMIT);
    }

    /// The stats with `s` raised by one and the others unchanged.
    pub open spec fn raised(self, s: Stat) -> PlayerStats {
        PlayerStats {
            intelligence: if s == Stat::Intelligence { (self.intelligence + 1) as i32 } else { self.intelligence },
            instinct: if s == Stat::Instinct { (self.instinct + 1) as i32 } else { self.instinct },
            focus: if s == Stat::Focus { (self.focus + 1) as i32 } else { self.focus },
            luck: if s == Stat::Luck { (self.luck + 1) as i32 } else { self.luck },
            strength: if s == Stat::Strength { (self.strength + 1) as i32 } else { self.strength },
            dexterity: if s == Stat::Dexterity { (self.dexterity + 1) as i32 } else { self.dexterity },
            sight: if s == Stat::Sight { (self.sight + 1) as i32 } else { self.sight },
            endurance: if s == Stat::Endurance { (self.endurance + 1) as i32 } else { self.endurance },
            regeneration: if s == Stat::Regeneration { (self.regeneration + 1) as i32 } else { self.regeneration },
        }
    }

    /// The value of stat `s`.
    pub fn get(&self, s: Stat) -> (v: i32)
        ensures
            v == self.value(s),
    {
        match s {
            Stat::Intelligence => self.intelligence,
            Stat::Instinct => self.instinct,
            Stat::Focus => self.focus,
            Stat::Luck => self.luck,
            Stat::Strength => self.strength,
            Stat::Dexterity => self.dexterity,
            Stat::Sight => self.sight,
            Stat::Endurance => self.endurance,
            Stat::Regeneration => self.regeneration,
        }
    }

    /// Raises stat `s` by one.
    pub fn increase(&mut self, s: Stat)
        requires
            old(self).value(s) < i32::MAX,
        ensures
            *final(self) == old(self).raised(s),
    {
        match s {
            Stat::Intelligence => self.intelligence = self.intelligence + 1,
            Stat::Instinct => self.instinct = self.instinct + 1,
            Stat::Focus => self.focus = self.focus + 1,
            Stat::Luck => self.luck = self.luck + 1,
            Stat::Strength => self.strength = self.strength + 1,
            Stat::Dexterity => self.dexterity = self.dexterity + 1,
            Stat::Sight => self.sight = self.sight + 1,
            Stat::Endurance => self.endurance = self.endurance + 1,
            Stat::Regeneration => self.regeneration = self.regeneration + 1,
        }
    }

    /// Whether every stat lies in `0..=STAT_LIMIT`.
    pub fn is_within_limits(&self) -> (b: bool)
        ensures
            b == self.within_limits(),
    {
        let b = 0 <= self.intelligence && self.intelligence <= STAT_LIMIT && 0 <= self.instinct
            && self.instinct <= STAT_LIMIT && 0 <= self.focus && self.focus <= STAT_LIMIT && 0
            <= self.luck && self.luck <= STAT_LIMIT && 0 <= self.strength && self.strength
            <= STAT_LIMIT && 0 <= self.dexterity && self.dexterity <= STAT_LIMIT && 0 <= self.sight
            && self.sight <= STAT_LIMIT && 0 <= self.endurance && self.endurance <= STAT_LIMIT && 0
            <= self.regeneration && self.regeneration <= STAT_LIMIT;
        proof {
            if !b {
                if !(0 <= self.intelligence <= STAT_LIMIT) {
                    assert(!(0 <= self.value(Stat::Intelligence) <= STAT_LIMIT));
                } else if !(0 <= self.instinct <= STAT_LIMIT) {
                    assert(!(0 <= self.value(Stat::Instinct) <= STAT_LIMIT));
                } else if !(0 <= self.focus <= STAT_LIMIT) {
                    assert(!(0 <= self.value(Stat::Focus) <= STAT_LIMIT));
                } else if !(0 <= self.luck <= STAT_LIMIT) {
                    assert(!(0 <= self.value(Stat::Luck) <= STAT_LIMIT));
                } else if !(0 <= self.strength <= STAT_LIMIT) {
                    assert(!(0 <= self.value(Stat::Strength) <= STAT_LIMIT));
                } else if !(0 <= self.dexterity <= STAT_LIMIT) {
                    assert(!(0 <= self.value(Stat::Dexterity) <= STAT_LIMIT));
                } else if !(0 <= self.sight <= STAT_LIMIT) {
                    assert(!(0 <= self.value(Stat::Sight) <= STAT_LIMIT));
                } else if !(0 <= self.endurance <= STAT_LIMIT) {
                    assert(!(0 <= self.value(Stat::Endurance) <= STAT_LIMIT));
                } else {
                    assert(!(0 <= self.value(Stat::Regeneration) <= STAT_LIMIT));
                }
            }
        }
        b
    }

    /// The number of stats.
    pub fn field_len(&self) -> (n: usize)
        ensures
            n == 9,
    {
        9
    }

    /// The field name of the stat at position `i`, `None` past the ninth.
    pub fn name_at(&self, i: usize) -> (n: Option<String>)
        ensures
            i < 9 ==> n is Some && n->0@ == stat_name(stat_at(i as int)),
            i >= 9 ==> n is None,
    {
        match Stat::at(i) {
            Some(s) => Some(s.name()),
            None => None,
        }
    }

    /// The value of the stat at position `i`, `None` past the ninth.
    pub fn field_at(&self, i: usize) -> (v: Option<i32>)
        ensures
            i < 9 ==> v == Some(self.value(stat_at(i as int))),
            i >= 9 ==> v is None,
    {
        match Stat::at(i) {
            Some(s) => Some(self.get(s)),
            None => None,
        }
    }
}

} // verus!
