//! What kills the player, and the evolutions a death offers.
use vstd::prelude::*;

use crate::dice::random_usize;
use crate::stats::{stat_name, PlayerStats, Stat};

verus! {

/// The causes of death. Each one grants a set of stats to evolve from.
#[derive(Clone, Copy, Debug, PartialEq, Eq, Structural)]
pub enum DeathReason {
    WildThreat,
    Exhaustion,
    Starvation,
    Chasm,
    FallingRock,
}

/// The stats a death of this kind can raise, in the order a draw indexes them.
pub open spec fn gains(reason: DeathReason) -> Seq<Stat> {
    match reason {
        DeathReason::WildThreat => seq![Stat::Instinct, Stat::Strength, Stat::Sight],
        DeathReason::Exhaustion => seq![Stat::Focus, Stat::Endurance, Stat::Regeneration],
        DeathReason::Starvation => seq![Stat::Endurance, Stat::Regeneration, Stat::Instinct],
        DeathReason::Chasm => seq![Stat::Intelligence, Stat::Focus, Stat::Sight],
        DeathReason::FallingRock => seq![Stat::Dexterity, Stat::Luck],
    }
}

/// The name the log gives the cause of death.
pub open spec fn reason_name(reason: DeathReason) -> Seq<char> {
    match reason {
        DeathReason::WildThreat => "WildThreat"@,
        DeathReason::Exhaustion => "Exhaustion"@,
        DeathReason::Starvation => "Starvation"@,
        DeathReason::Chasm => "Chasm"@,
        DeathReason::FallingRock => "FallingRock"@,
    }
}

/// The stat that a draw `r` picks among those of `reason`.
pub open spec fn picked_gain(reason: DeathReason, r: int) -> Stat {
    gains(reason)[r % (gains(reason).len() as int)]
}

/// Raising one stat by one.
#[derive(Clone, Copy, Debug, PartialEq, Eq, Structural)]
pub struct StatIncrease {
    pub stat: Stat,
}

/// A choice offered after a death: two stat increases, applied together.
#[derive(Clone, Copy, Debug, PartialEq, Eq, Structural)]
pub struct EvolveOption {
    pub first: StatIncrease,
    pub second: StatIncrease,
}

/// The button text of an option: `name++` when both increases raise the same stat,
/// else `first+ second+`.
pub open spec fn option_description(o: EvolveOption) -> Seq<char> {
    if o.first.stat == o.second.stat {
        stat_name(o.first.stat) + "++"@
    } else {
        stat_name(o.first.stat) + "+ "@ + stat_name(o.second.stat) + "+"@
    }
}

/// The two options a death offers, from four draws.
pub open spec fn options_from(reason: DeathReason, picks: Seq<int>) -> Seq<EvolveOption> {
    seq![
        EvolveOption {
            first: StatIncrease { stat: picked_gain(reason, picks[0]) },
            second: StatIncrease { stat: picked_gain(reason, picks[1]) },
        },
        EvolveOption {
            first: StatIncrease { stat: picked_gain(reason, picks[2]) },
            second: StatIncrease { stat: picked_gain(reason, picks[3]) },
        },
    ]
}

impl StatIncrease {
    /// The name of the raised stat.
    pub fn field(&self) -> (n: String)
        ensures
            n@ == stat_name(self.stat),
    {
        self.stat.name()
    }

    /// Applies the increase.
    pub fn apply(&self, stats: &mut PlayerStats)
        requires
            old(stats).value(self.stat) < i32::MAX,
        ensures
            *final(stats) == old(stats).raised(self.stat),
    {
        stats.increase(self.stat);
    }
}

impl EvolveOption {
    /// The stats after applying both increases.
    pub open spec fn applied_to(self, stats: PlayerStats) -> PlayerStats {
        stats.raised(self.first.stat).raised(self.second.stat)
    }

    /// The text of the option's button.
    pub fn description(&self) -> (d: String)
        ensures
            d@ == option_description(*self),
    {
        let mut d = self.first.field();
        if self.first.stat == self.second.stat {
            d.append("++");
        } else {
            d.append("+ ");
            let second = self.second.field();
            d.append(second.as_str());
            d.append("+");
        }
        d
    }

    /// Raises both stats of the option.
    pub fn evolve(&self, player_stats: &mut PlayerStats)
        requires
            self.first.stat == self.second.stat ==> old(player_stats).value(self.first.stat) < i32::MAX - 1,
            old(player_stats).value(self.first.stat) < i32::MAX,
            old(player_stats).value(self.second.stat) < i32::MAX,
        ensures
            *final(player_stats) == self.applied_to(*old(player_stats)),
    {
        self.first.apply(player_stats);
        self.second.apply(player_stats);
    }
}

impl DeathReason {
    /// The name the log gives this cause of death.
    pub fn name(self) -> (n: String)
        ensures
            n@ == reason_name(self),
    {
        match self {
            DeathReason::WildThreat => String::from_str("WildThreat"),
            DeathReason::Exhaustion => String::from_str("Exhaustion"),
            DeathReason::Starvation => String::from_str("Starvation"),
            DeathReason::Chasm => String::from_str("Chasm"),
            DeathReason::FallingRock => String::from_str("FallingRock"),
        }
    }

    /// The number of stats this death can raise.
    pub fn gain_count(self) -> (n: usize)
        ensures
            n == gains(self).len(),
    {
        match self {
            DeathReason::FallingRock => 2,
            _ => 3,
        }
    }

    /// The stat at position `i` of those this death can raise.
    pub fn gain_at(self, i: usize) -> (s: Stat)
        requires
            i < gains(self).len(),
        ensures
            s == gains(self)[i as int],
    {
        match self {
            DeathReason::WildThreat => if i == 0 {
                Stat::Instinct
            } else if i == 1 {
                Stat::Strength
            } else {
                Stat::Sight
            },
            DeathReason::Exhaustion => if i == 0 {
                Stat::Focus
            } else if i == 1 {
                Stat::Endurance
            } else {
                Stat::Regeneration
            },
            DeathReason::Starvation => if i == 0 {
                Stat::Endurance
            } else if i == 1 {
                Stat::Regeneration
            } else {
                Stat::Instinct
            },
            DeathReason::Chasm => if i == 0 {
                Stat::Intelligence
            } else if i == 1 {
                Stat::Focus
            } else {
                Stat::Sight
            },
            DeathReason::FallingRock => if i == 0 {
                Stat::Dexterity
            } else {
                Stat::Luck
            },
        }
    }

    /// The increase that the draw `r` picks: the stat at `r` modulo the number of stats.
    pub fn stat_increase_from(self, r: usize) -> (inc: StatIncrease)
        ensures
            inc.stat == picked_gain(self, r as int),
    {
        let count = self.gain_count();
        StatIncrease { stat: self.gain_at(r % count) }
    }

    /// A random increase among the stats this death can raise.
    pub fn stat_increase(self) -> (inc: StatIncrease)
        ensures
            gains(self).contains(inc.stat),
    {
        let r = random_usize();
        let inc = self.stat_increase_from(r);
        assert(gains(self)[r as int % (gains(self).len() as int)] == inc.stat);
        inc
    }

    /// The option made of the increases that draws `r1` and `r2` pick.
    pub fn evolve_option_from(self, r1: usize, r2: usize) -> (o: EvolveOption)
        ensures
            o.first.stat == picked_gain(self, r1 as int),
            o.second.stat == picked_gain(self, r2 as int),
    {
        EvolveOption { first: self.stat_increase_from(r1), second: self.stat_increase_from(r2) }
    }

    /// A random option: two random increases among the stats this death can raise.
    pub fn evolve_option(self) -> (o: EvolveOption)
        ensures
            gains(self).contains(o.first.stat),
            gains(self).contains(o.second.stat),
    {
        EvolveOption { first: self.stat_increase(), second: self.stat_increase() }
    }

    /// The two options that the four draws in `picks` make.
    pub fn evolve_options_from(self, picks: [usize; 4]) -> (os: [EvolveOption; 2])
        ensures
            os@ == options_from(self, picks@.map_values(|p: usize| p as int)),
    {
        let os = [
            self.evolve_option_from(picks[0], picks[1]),
            self.evolve_option_from(picks[2], picks[3]),
        ];
        assert(os@ =~= options_from(self, picks@.map_values(|p: usize| p as int)));
        os
    }

    /// Two random options.
    pub fn evolve_options(self) -> (os: [EvolveOption; 2])
        ensures
            forall|i: int|
                0 <= i < 2 ==> gains(self).contains(#[trigger] os@[i].first.stat) && gains(
                    self,
                ).contains(os@[i].second.stat),
    {
        let os = [self.evolve_option(), self.evolve_option()];
        assert(os@[0] == os[0]);
        assert(os@[1] == os[1]);
        os
    }
}

} // verus!
