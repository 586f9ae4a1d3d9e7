//! Health, stamina and saturation, and the requests that change them.
use vstd::prelude::*;

use crate::coords::HexCoord;
use crate::stats::PlayerStats;

verus! {

/// Full health for these stats: strength and endurance increase it.
pub open spec fn health_of(s: PlayerStats) -> int {
    3 + s.endurance + s.strength
}

/// Full stamina for these stats: strength and dexterity increase it.
pub open spec fn stamina_of(s: PlayerStats) -> int {
    3 + s.strength + s.dexterity
}

/// Full saturation for these stats: endurance and instinct increase it.
pub open spec fn saturation_of(s: PlayerStats) -> int {
    3 + s.endurance + s.instinct
}

/// A pool (stamina or saturation) is exhausted by `delta` when it would go below zero.
pub open spec fn pool_depleted(current: int, delta: int) -> bool {
    -delta > current
}

/// The value of a pool after `delta`: zero when exhausted, otherwise the sum capped at `max`.
pub open spec fn pool_after(current: int, max: int, delta: int) -> int {
    if pool_depleted(current, delta) {
        0
    } else if current + delta > max {
        max
    } else {
        current + delta
    }
}

/// Where the player stands.
#[derive(Clone, Copy, Debug)]
pub struct PlayerPosition(pub HexCoord);

/// Whether the player is dead (or has won): then the world accepts no moves.
#[derive(Clone, Copy, Debug)]
pub struct IsDead(pub bool);

/// How many times the player has died.
#[derive(Clone, Copy, Debug)]
pub struct TotalDeaths(pub u32);

#[derive(Clone, Copy, Debug)]
pub struct Health {
    pub current: i32,
    pub max: i32,
}

#[derive(Clone, Copy, Debug)]
pub struct Stamina {
    pub current: i32,
    pub max: i32,
}

#[derive(Clone, Copy, Debug)]
pub struct Saturation {
    pub current: i32,
    pub max: i32,
}

impl Health {
    /// Health after healing by `value`, capped at the maximum.
    pub open spec fn increased(self, value: u32) -> Health {
        let c = self.current + (value as i32);
        Health { current: if c > self.max { self.max } else { c as i32 }, max: self.max }
    }

    /// Health after losing `amount`.
    pub open spec fn reduced(self, amount: i32) -> Health {
        Health { current: (self.current - amount) as i32, max: self.max }
    }

    /// Full health for `stats`.
    pub fn from_stats(stats: &PlayerStats) -> (h: Health)
        requires
            i32::MIN <= 3 + stats.endurance <= i32::MAX,
            i32::MIN <= health_of(*stats) <= i32::MAX,
        ensures
            h.current == health_of(*stats),
            h.max == health_of(*stats),
    {
        let value = 3 + stats.endurance + stats.strength;
        Health { current: value, max: value }
    }

    /// Heals by `value`, never above the maximum.
    pub fn increase(&mut self, value: u32)
        requires
            i32::MIN <= old(self).current + (value as i32) <= i32::MAX,
        ensures
            *final(self) == old(self).increased(value),
    {
        self.current = self.current + value as i32;
        if self.current > self.max {
            self.current = self.max;
        }
    }

    /// Loses `amount`; the result tells whether health dropped to zero or below.
    pub fn reduce(&mut self, amount: i32) -> (died: bool)
        requires
            i32::MIN <= old(self).current - amount <= i32::MAX,
        ensures
            *final(self) == old(self).reduced(amount),
            died == (final(self).current <= 0),
    {
        self.current = self.current - amount;
        self.current <= 0
    }
}

/// Changes a pool by `delta` as stamina and saturation do: to zero when it would go
/// negative (and then reports exhaustion), else by `delta` capped at `max`.
fn change_pool(current: i32, max: i32, delta: i32) -> (res: (i32, bool))
    requires
        delta > i32::MIN,
        pool_depleted(current as int, delta as int) || current + delta <= i32::MAX,
    ensures
        res.0 == pool_after(current as int, max as int, delta as int),
        res.1 == pool_depleted(current as int, delta as int),
{
    if -delta > current {
        return (0, true);
    }
    let mut c = current + delta;
    if c > max {
        c = max;
    }
    (c, false)
}

impl Stamina {
    /// Full stamina for `stats`.
    pub fn from_stats(stats: &PlayerStats) -> (s: Stamina)
        requires
            i32::MIN <= 3 + stats.strength <= i32::MAX,
            i32::MIN <= stamina_of(*stats) <= i32::MAX,
        ensures
            s.current == stamina_of(*stats),
            s.max == stamina_of(*stats),
    {
        let value = 3 + stats.strength + stats.dexterity;
        Stamina { current: value, max: value }
    }

    /// Stamina after `delta`.
    pub open spec fn changed(self, delta: i32) -> Stamina {
        Stamina {
            current: pool_after(self.current as int, self.max as int, delta as int) as i32,
            max: self.max,
        }
    }

    /// Changes stamina by `delta`; the result tells whether the player is exhausted.
    pub fn change(&mut self, delta: i32) -> (exhausted: bool)
        requires
            delta > i32::MIN,
            pool_depleted(old(self).current as int, delta as int) || old(self).current + delta
                <= i32::MAX,
        ensures
            *final(self) == old(self).changed(delta),
            exhausted == pool_depleted(old(self).current as int, delta as int),
            final(self).max == old(self).max,
            0 <= old(self).current <= old(self).max ==> 0 <= final(self).current <= final(self).max,
    {
        let (c, exhausted) = change_pool(self.current, self.max, delta);
        self.current = c;
        exhausted
    }
}

impl Saturation {
    /// Full saturation for `stats`.
    pub fn from_stats(stats: &PlayerStats) -> (s: Saturation)
        requires
            i32::MIN <= 3 + stats.endurance <= i32::MAX,
            i32::MIN <= saturation_of(*stats) <= i32::MAX,
        ensures
            s.current == saturation_of(*stats),
            s.max == saturation_of(*stats),
    {
        let value = 3 + stats.endurance + stats.instinct;
        Saturation { current: value, max: value }
    }

    /// Saturation after `delta`.
    pub open spec fn changed(self, delta: i32) -> Saturation {
        Saturation {
            current: pool_after(self.current as int, self.max as int, delta as int) as i32,
            max: self.max,
        }
    }

    /// Changes saturation by `delta`; the result tells whether the player is starving.
    pub fn change(&mut self, delta: i32) -> (starving: bool)
        requires
            delta > i32::MIN,
            pool_depleted(old(self).current as int, delta as int) || old(self).current + delta
                <= i32::MAX,
        ensures
            *final(self) == old(self).changed(delta),
            starving == pool_depleted(old(self).current as int, delta as int),
            final(self).max == old(self).max,
            0 <= old(self).current <= old(self).max ==> 0 <= final(self).current <= final(self).max,
    {
        let (c, starving) = change_pool(self.current, self.max, delta);
        self.current = c;
        starving
    }
}

/// A request to heal the player.
#[derive(Clone, Copy, Debug)]
pub struct IncreaseHealth {
    value: u32,
}

impl IncreaseHealth {
    pub closed spec fn amount(self) -> u32 {
        self.value
    }

    pub fn new(value: u32) -> (e: IncreaseHealth)
        ensures
            e.amount() == value,
    {
        IncreaseHealth { value }
    }

    pub fn value(&self) -> (v: u32)
        ensures
            v == self.amount(),
    {
        self.value
    }
}

/// A request to change the player's stamina.
#[derive(Clone, Copy, Debug)]
pub struct ChangeStamina {
    delta: i32,
}

impl ChangeStamina {
    pub closed spec fn amount(self) -> i32 {
        self.delta
    }

    pub fn new(delta: i32) -> (e: ChangeStamina)
        ensures
            e.amount() == delta,
    {
        ChangeStamina { delta }
    }

    pub fn delta(&self) -> (d: i32)
        ensures
            d == self.amount(),
    {
        self.delta
    }
}

/// A request to change the player's saturation.
#[derive(Clone, Copy, Debug)]
pub struct ChangeSaturation {
    delta: i32,
}

impl ChangeSaturation {
    pub closed spec fn amount(self) -> i32 {
        self.delta
    }

    pub fn new(delta: i32) -> (e: ChangeSaturation)
        ensures
            e.amount() == delta,
    {
        ChangeSaturation { delta }
    }

    pub fn delta(&self) -> (d: i32)
        ensures
            d == self.amount(),
    {
        self.delta
    }
}

} // verus!
