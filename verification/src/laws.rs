//! Properties of the rules that hold for every input.
use vstd::prelude::*;

use crate::checks::{contributing, modifier_total, roll_high, roll_low, CheckKind};
use crate::coords::{hex_distance, lemma_hex_len_is_max, lemma_hex_len_triangle, HexCoord};
use crate::death::{gains, picked_gain, DeathReason, EvolveOption};
use crate::game::GameView;
use crate::game_map::key_of;
use crate::stats::{PlayerStats, Stat};
use crate::checks::{check_passes, Direction};
use crate::tiles::{kind_base_resting, Chasm, Desert, Forest, Fountain, Mountain, Plain, Tile};
use crate::death::options_from;
use crate::game::TurnDraws;
use crate::vitals::pool_depleted;
use crate::vitals::{health_of, pool_after, saturation_of, stamina_of};

verus! {

/// The sum of all nine stats.
pub open spec fn stat_points(p: PlayerStats) -> int {
    p.intelligence + p.instinct + p.focus + p.luck + p.strength + p.dexterity + p.sight
        + p.endurance + p.regeneration
}

/// Strength and endurance increase health, strength and dexterity increase stamina,
/// endurance and instinct increase saturation: raising a stat by one raises each of those
/// maxima by one and leaves the others alone.
pub proof fn law_stats_raise_vitals(p: PlayerStats, s: Stat)
    requires
        p.value(s) < i32::MAX,
    ensures
        health_of(p.raised(s)) == health_of(p) + (if s == Stat::Strength || s == Stat::Endurance {
            1int
        } else {
            0int
        }),
        stamina_of(p.raised(s)) == stamina_of(p) + (if s == Stat::Strength || s == Stat::Dexterity {
            1int
        } else {
            0int
        }),
        saturation_of(p.raised(s)) == saturation_of(p) + (if s == Stat::Endurance || s
            == Stat::Instinct {
            1int
        } else {
            0int
        }),
{
}

/// Focus raises the lowest roll and luck the highest, each by one per point, and no other
/// stat moves them.
pub proof fn law_focus_and_luck_move_rolls(p: PlayerStats, s: Stat)
    requires
        p.value(s) < i32::MAX,
    ensures
        roll_low(p.raised(s)) == roll_low(p) + (if s == Stat::Focus {
            1int
        } else {
            0int
        }),
        roll_high(p.raised(s)) == roll_high(p) + (if s == Stat::Luck {
            1int
        } else {
            0int
        }),
{
}

/// A stat contributes to a check exactly when raising it by one raises the check's modifier
/// by one; otherwise the modifier is unchanged.
pub proof fn law_contributing_stats_raise_modifiers(p: PlayerStats, s: Stat, kind: CheckKind)
    requires
        p.value(s) < i32::MAX,
    ensures
        modifier_total(p.raised(s), contributing(kind)) == modifier_total(p, contributing(kind))
            + (if contributing(kind).contains(s) {
            1int
        } else {
            0int
        }),
{
    reveal_with_fuel(modifier_total, 3);
    let ss = contributing(kind);
    assert(ss.len() <= 2);
    if ss.len() == 2 {
        assert(ss.drop_last().drop_last() =~= Seq::<Stat>::empty());
        assert(ss.drop_last().last() == ss[0]);
        assert(ss.contains(s) <==> (ss[0] == s || ss[1] == s));
        if ss.contains(s) {
            let i = choose|i: int| 0 <= i < ss.len() && ss[i] == s;
            assert(i == 0 || i == 1);
        }
    } else {
        assert(ss.drop_last() =~= Seq::<Stat>::empty());
        assert(ss.contains(s) <==> ss[0] == s);
        if ss.contains(s) {
            let i = choose|i: int| 0 <= i < ss.len() && ss[i] == s;
            assert(i == 0);
        }
    }
}

/// Every evolution adds exactly two points to the stats, and only to stats the death that
/// offered it can raise.
pub proof fn law_evolution_adds_two_points(
    p: PlayerStats,
    reason: DeathReason,
    r1: int,
    r2: int,
)
    requires
        r1 >= 0,
        r2 >= 0,
        p.within_limits(),
    ensures
        ({
            let o = EvolveOption {
                first: crate::death::StatIncrease { stat: picked_gain(reason, r1) },
                second: crate::death::StatIncrease { stat: picked_gain(reason, r2) },
            };
            &&& stat_points(o.applied_to(p)) == stat_points(p) + 2
            &&& gains(reason).contains(o.first.stat)
            &&& gains(reason).contains(o.second.stat)
        }),
{
    let n = gains(reason).len() as int;
    assert(0 <= r1 % n < n);
    assert(0 <= r2 % n < n);
    assert(gains(reason)[r1 % n] == picked_gain(reason, r1));
    assert(gains(reason)[r2 % n] == picked_gain(reason, r2));
    assert(0 <= p.value(picked_gain(reason, r1)) <= crate::stats::STAT_LIMIT);
    assert(0 <= p.value(picked_gain(reason, r2)) <= crate::stats::STAT_LIMIT);
}

/// Stamina and saturation never leave `0..=max`, whatever the change.
pub proof fn law_pools_stay_in_bounds(current: int, max: int, delta: int)
    requires
        0 <= current <= max,
    ensures
        0 <= pool_after(current, max, delta) <= max,
{
}

/// The distance between hexagons is a metric: zero exactly from a hexagon to itself,
/// symmetric, and never more than a detour.
pub proof fn law_distance_is_a_metric(a: HexCoord, b: HexCoord, c: HexCoord)
    ensures
        hex_distance(a, a) == 0,
        hex_distance(a, b) == 0 ==> a == b,
        hex_distance(a, b) == hex_distance(b, a),
        hex_distance(a, c) <= hex_distance(a, b) + hex_distance(b, c),
{
    lemma_hex_len_is_max(a.q - b.q, a.r - b.r);
    lemma_hex_len_triangle(a.q - b.q, a.r - b.r, 0, 0);
    lemma_hex_len_triangle(a.q - b.q, a.r - b.r, b.q - c.q, b.r - c.r);
}

/// Stepping onto the fountain ends the game: whatever the draws, after the move the world
/// accepts no more turns, and the last line of the log announces the win.
pub proof fn law_reaching_the_fountain_wins(s: GameView, target: HexCoord, d: crate::game::TurnDraws)
    requires
        !s.is_dead,
        s.tiles.contains_key(key_of(target)),
        s.tiles[key_of(target)] == Tile::Fountain(Fountain),
    ensures
        s.moved(target, d).is_dead,
        s.moved(target, d).logs.last().0 == "You win!"@,
{
}

/// The deaths a stat's description says it is gained from.
pub open spec fn described_sources(s: Stat) -> Seq<DeathReason> {
    match s {
        Stat::Intelligence => seq![DeathReason::Chasm],
        Stat::Instinct => seq![DeathReason::WildThreat, DeathReason::Starvation],
        Stat::Focus => seq![DeathReason::Chasm, DeathReason::Exhaustion],
        Stat::Luck => seq![DeathReason::FallingRock],
        Stat::Strength => seq![DeathReason::WildThreat],
        Stat::Dexterity => seq![DeathReason::FallingRock],
        Stat::Sight => seq![DeathReason::Chasm, DeathReason::WildThreat],
        Stat::Endurance => seq![DeathReason::Exhaustion, DeathReason::Starvation],
        Stat::Regeneration => seq![DeathReason::Exhaustion, DeathReason::Starvation],
    }
}

/// The checks a stat's description says it contributes to.
pub open spec fn described_checks(s: Stat) -> Seq<CheckKind> {
    match s {
        Stat::Intelligence => seq![CheckKind::AncientInscriptions],
        Stat::Instinct => seq![CheckKind::FindFood, CheckKind::WildThreat, CheckKind::Climbing],
        Stat::Focus => seq![],
        Stat::Luck => seq![],
        Stat::Strength => seq![CheckKind::WildThreat, CheckKind::Climbing],
        Stat::Dexterity => seq![CheckKind::FallingRock],
        Stat::Sight => seq![CheckKind::Mirage, CheckKind::FindFood],
        Stat::Endurance => seq![CheckKind::Mirage],
        Stat::Regeneration => seq![CheckKind::Restoration],
    }
}

/// Membership in a sequence of at most three items, item by item.
proof fn lemma_contains_short<A>(s: Seq<A>, x: A)
    requires
        s.len() <= 3,
    ensures
        s.contains(x) <==> ((s.len() > 0 && s[0] == x) || (s.len() > 1 && s[1] == x) || (s.len()
            > 2 && s[2] == x)),
{
    if s.contains(x) {
        let i = choose|i: int| 0 <= i < s.len() && s[i] == x;
        assert(i == 0 || i == 1 || i == 2);
    }
    if s.len() > 0 && s[0] == x {
        assert(s.contains(x));
    }
    if s.len() > 1 && s[1] == x {
        assert(s.contains(x));
    }
    if s.len() > 2 && s[2] == x {
        assert(s.contains(x));
    }
}

/// A death can raise a stat exactly when the stat's description lists that death among
/// the ones it is gained from.
pub proof fn law_deaths_grant_the_described_stats(s: Stat, reason: DeathReason)
    ensures
        gains(reason).contains(s) <==> described_sources(s).contains(reason),
{
    lemma_contains_short(gains(reason), s);
    lemma_contains_short(described_sources(s), reason);
}

/// A stat adds to a check exactly when the stat's description lists that check among the
/// ones it contributes to.
pub proof fn law_checks_use_the_described_stats(s: Stat, kind: CheckKind)
    ensures
        contributing(kind).contains(s) <==> described_checks(s).contains(kind),
{
    lemma_contains_short(contributing(kind), s);
    lemma_contains_short(described_checks(s), kind);
}

/// Every food found in a forest makes the next search there one harder; a failed search
/// leaves the forest as it was.
pub proof fn law_found_food_makes_the_next_search_harder(
    s: GameView,
    key: crate::game_map::TileKey,
    f: Forest,
    roll: int,
    picks: Seq<int>,
)
    requires
        s.tiles.contains_key(key),
        s.tiles[key] == Tile::Forest(f),
    ensures
        ({
            let after = s.food_searched(key, f, roll, picks);
            &&& after.tiles.contains_key(key)
            &&& if check_passes(CheckKind::FindFood, f.find_food.difficulty as int, s.stats, roll) {
                after.tiles[key] == Tile::Forest(
                    Forest {
                        wild_threat: f.wild_threat,
                        find_food: crate::checks::FindFood { difficulty: (f.find_food.difficulty + 1) as i32 },
                    },
                )
            } else {
                after.tiles[key] == s.tiles[key]
            }
        }),
{
}

/// Once a plain's inscriptions are deciphered they stay so: resting there again only
/// repeats the same direction, whatever the new hint.
pub proof fn law_deciphered_inscriptions_stay(
    s: GameView,
    key: crate::game_map::TileKey,
    p: Plain,
    roll: int,
    hint: Direction,
)
    requires
        p.ancient_inscriptions.deciphered is Some,
    ensures
        s.plain_rested(key, p, roll, hint).tiles == s.tiles,
        s.plain_rested(key, p, roll, hint).logs == s.logs.push(
            (
                crate::checks::inscription_text(p.ancient_inscriptions.deciphered->0),
                "Nothing changed..."@,
            ),
        ),
{
}

/// A move onto a desert costs two stamina for the sand, and the mirage costs one more
/// only when the first roll does not see through it: a passed mirage changes no vital.
pub proof fn law_only_a_failed_mirage_costs_stamina(s: GameView, target: HexCoord, de: Desert, d: TurnDraws)
    requires
        !s.is_dead,
        s.vitals_ok(),
        s.tiles.contains_key(key_of(target)),
        s.tiles[key_of(target)] == Tile::Desert(de),
    ensures
        ({
            let after = s.moved(target, d);
            let sand = pool_after(s.stamina.current as int, s.stamina.max as int, -2);
            let seen_through = check_passes(
                CheckKind::Mirage,
                de.mirage.difficulty as int,
                s.stats,
                d.first_roll as int,
            );
            &&& after.stamina.max == s.stamina.max
            &&& seen_through ==> after.stamina.current == sand
            &&& !seen_through ==> after.stamina.current == pool_after(sand, s.stamina.max as int, -1)
            &&& seen_through && s.saturation.current >= 1 && s.stamina.current >= 2 ==> {
                &&& after.health == s.health
                &&& after.saturation.current == s.saturation.current - 1
                &&& !after.is_dead
            }
        }),
{
}

/// Resting gives back the tile's base resting plus the player's regeneration in stamina,
/// capped at the maximum, whatever else the tile does.
pub proof fn law_rest_regains_base_resting_plus_regeneration(
    s: GameView,
    target: HexCoord,
    hint: Direction,
    d: TurnDraws,
)
    requires
        !s.is_dead,
        s.vitals_ok(),
        s.tiles.contains_key(key_of(target)),
    ensures
        s.rested(target, hint, d).stamina.max == s.stamina.max,
        s.rested(target, hint, d).stamina.current == pool_after(
            s.stamina.current as int,
            s.stamina.max as int,
            kind_base_resting(s.tiles[key_of(target)].kind_of()) + s.stats.regeneration,
        ),
{
    s.stats.lemma_fields_within_limits();
}

/// Resting on an undeciphered plain deciphers it only when the inscriptions check passes
/// with the second roll: then the plain keeps the hint and the log ends with it; otherwise
/// the map is left as it was and the log ends with the failure.
pub proof fn law_inscriptions_are_deciphered_only_on_success(
    s: GameView,
    target: HexCoord,
    p: Plain,
    hint: Direction,
    d: TurnDraws,
)
    requires
        !s.is_dead,
        s.vitals_ok(),
        s.tiles.contains_key(key_of(target)),
        s.tiles[key_of(target)] == Tile::Plain(p),
        p.ancient_inscriptions.deciphered is None,
    ensures
        ({
            let after = s.rested(target, hint, d);
            let ai = p.ancient_inscriptions;
            if check_passes(CheckKind::AncientInscriptions, ai.difficulty as int, s.stats, d.second_roll as int) {
                &&& after.tiles == s.tiles.insert(
                    key_of(target),
                    Tile::Plain(Plain { ancient_inscriptions: crate::checks::AncientInscriptions { difficulty: ai.difficulty, deciphered: Some(hint) } }),
                )
                &&& after.logs.last() == (crate::checks::inscription_text(hint), "I wonder if it's right..."@)
            } else {
                &&& after.tiles == s.tiles
                &&& after.logs.last().0 == "You cannot decipher the message"@
            }
        }),
{
}

/// Running stamina out costs one health, and when that kills a living player the death is
/// one of exhaustion: counted once, logged with that reason, and answered with the
/// evolutions exhaustion grants.
pub proof fn law_running_out_of_stamina_is_exhaustion(s: GameView, delta: i32, picks: Seq<int>)
    requires
        !s.is_dead,
        s.total_deaths < u32::MAX,
        s.health.current > i32::MIN,
    ensures
        ({
            let after = s.stamina_changed(delta, picks);
            &&& pool_depleted(s.stamina.current as int, delta as int) ==> after.health.current == s.health.current - 1
            &&& !pool_depleted(s.stamina.current as int, delta as int) ==> after.health == s.health && !after.is_dead
            &&& pool_depleted(s.stamina.current as int, delta as int) && s.health.current <= 1 ==> {
                &&& after.is_dead
                &&& after.total_deaths == s.total_deaths + 1
                &&& after.logs == s.logs.push(("You died!"@, "death reason: "@ + "Exhaustion"@))
                &&& after.choices == s.choices + options_from(DeathReason::Exhaustion, picks)
            }
        }),
{
}

/// Running saturation out costs one health, and when that kills a living player the death
/// is one of starvation.
pub proof fn law_running_out_of_saturation_is_starvation(s: GameView, delta: i32, picks: Seq<int>)
    requires
        !s.is_dead,
        s.total_deaths < u32::MAX,
        s.health.current > i32::MIN,
    ensures
        ({
            let after = s.saturation_changed(delta, picks);
            &&& pool_depleted(s.saturation.current as int, delta as int) ==> after.health.current == s.health.current - 1
            &&& !pool_depleted(s.saturation.current as int, delta as int) ==> after.health == s.health && !after.is_dead
            &&& pool_depleted(s.saturation.current as int, delta as int) && s.health.current <= 1 ==> {
                &&& after.is_dead
                &&& after.total_deaths == s.total_deaths + 1
                &&& after.logs == s.logs.push(("You died!"@, "death reason: "@ + "Starvation"@))
                &&& after.choices == s.choices + options_from(DeathReason::Starvation, picks)
            }
        }),
{
}

/// Every death of a living player is counted once; a dead player cannot die again.
pub proof fn law_each_death_counts_once(s: GameView, reason: DeathReason, picks: Seq<int>)
    requires
        s.total_deaths < u32::MAX,
    ensures
        !s.is_dead ==> s.died(reason, picks).is_dead && s.died(reason, picks).total_deaths
            == s.total_deaths + 1,
        s.is_dead ==> s.died(reason, picks) == s,
{
}

/// Dying, evolving and dying again counts two deaths: a new life keeps the count.
pub proof fn law_deaths_add_up_across_lives(
    s: GameView,
    first: DeathReason,
    second: DeathReason,
    i: int,
    p1: Seq<int>,
    p2: Seq<int>,
)
    requires
        !s.is_dead,
        s.total_deaths < u32::MAX - 1,
    ensures
        s.died(first, p1).evolved(i).total_deaths == s.total_deaths + 1,
        s.died(first, p1).evolved(i).died(second, p2).total_deaths == s.total_deaths + 2,
{
}

/// A move onto a forest costs one saturation and one stamina; the beast takes one health
/// when the first roll fails against it, and food found with the second roll gives back two
/// saturation, capped at the maximum.
pub proof fn law_forest_move_vitals(s: GameView, target: HexCoord, f: Forest, d: TurnDraws)
    requires
        !s.is_dead,
        s.vitals_ok(),
        s.health.current > 1,
        s.saturation.current >= 1,
        s.stamina.current >= 1,
        s.tiles.contains_key(key_of(target)),
        s.tiles[key_of(target)] == Tile::Forest(f),
    ensures
        ({
            let after = s.moved(target, d);
            let beaten = check_passes(CheckKind::WildThreat, f.wild_threat.difficulty as int, s.stats, d.first_roll as int);
            let fed = check_passes(CheckKind::FindFood, f.find_food.difficulty as int, s.stats, d.second_roll as int);
            &&& after.health.current == s.health.current - (if beaten { 0int } else { 1int })
            &&& after.stamina.current == s.stamina.current - 1
            &&& after.saturation.current == (if fed {
                pool_after(s.saturation.current - 1, s.saturation.max as int, 2)
            } else {
                s.saturation.current - 1
            })
            &&& !after.is_dead
            &&& after.position == target
        }),
{
}

/// A move onto a mountain costs one saturation and two stamina, and the falling rock takes
/// three health when the second roll fails against it; the climb changes no vital.
pub proof fn law_mountain_move_vitals(s: GameView, target: HexCoord, m: Mountain, d: TurnDraws)
    requires
        !s.is_dead,
        s.vitals_ok(),
        s.health.current > 3,
        s.saturation.current >= 1,
        s.stamina.current >= 2,
        s.tiles.contains_key(key_of(target)),
        s.tiles[key_of(target)] == Tile::Mountain(m),
    ensures
        ({
            let after = s.moved(target, d);
            let dodged = check_passes(CheckKind::FallingRock, m.falling_rock.difficulty as int, s.stats, d.second_roll as int);
            &&& after.health.current == s.health.current - (if dodged { 0int } else { 3int })
            &&& after.stamina.current == s.stamina.current - 2
            &&& after.saturation.current == s.saturation.current - 1
            &&& !after.is_dead
        }),
{
}

/// A move into a chasm takes 999 health: a player with no more than that dies there, and
/// the death is counted once and blamed on the chasm.
pub proof fn law_chasm_is_deadly(s: GameView, target: HexCoord, d: TurnDraws)
    requires
        !s.is_dead,
        s.vitals_ok(),
        0 < s.health.current <= 999,
        s.saturation.current >= 1,
        s.stamina.current >= 1,
        s.total_deaths < u32::MAX,
        s.tiles.contains_key(key_of(target)),
        s.tiles[key_of(target)] == Tile::Chasm(Chasm),
    ensures
        ({
            let after = s.moved(target, d);
            &&& after.health.current == s.health.current - 999
            &&& after.is_dead
            &&& after.total_deaths == s.total_deaths + 1
            &&& after.logs.last() == ("You died!"@, "death reason: "@ + "Chasm"@)
            &&& after.choices == s.choices + options_from(DeathReason::Chasm, d.picks())
        }),
{
}

/// Reaching the fountain ends the game with a line that counts the deaths so far.
pub proof fn law_the_win_counts_the_deaths(s: GameView, target: HexCoord, d: TurnDraws)
    requires
        !s.is_dead,
        s.vitals_ok(),
        s.health.current > 1,
        s.saturation.current >= 1,
        s.stamina.current >= 1,
        s.tiles.contains_key(key_of(target)),
        s.tiles[key_of(target)] == Tile::Fountain(Fountain),
    ensures
        s.moved(target, d).is_dead,
        s.moved(target, d).total_deaths == s.total_deaths,
        s.moved(target, d).logs == s.logs.push(
            ("You win!"@, "total deaths: "@ + crate::text::digits(s.total_deaths as nat)),
        ),
{
}

/// A rest costs one saturation and heals one health, up to the maximum, when the
/// restoration check passes with the first roll; outside forests it changes saturation by
/// nothing more.
pub proof fn law_rest_heals_on_restoration(s: GameView, target: HexCoord, hint: Direction, d: TurnDraws)
    requires
        !s.is_dead,
        s.vitals_ok(),
        s.health.current > 0,
        s.saturation.current >= 1,
        s.tiles.contains_key(key_of(target)),
        target.len() <= crate::game::PLAY_RADIUS,
        !(s.tiles[key_of(target)] is Forest),
        kind_base_resting(s.tiles[key_of(target)].kind_of()) + s.stats.regeneration >= -s.stamina.current,
    ensures
        ({
            let after = s.rested(target, hint, d);
            let healed = check_passes(
                CheckKind::Restoration,
                crate::tiles::base_difficulty(target),
                s.stats,
                d.first_roll as int,
            );
            &&& after.health.current == (if healed && s.health.current < s.health.max {
                s.health.current + 1
            } else {
                s.health.current as int
            })
            &&& after.saturation.current == s.saturation.current - 1
            &&& !after.is_dead
        }),
{
    s.stats.lemma_fields_within_limits();
    crate::coords::lemma_hex_len_is_max(target.q as int, target.r as int);
}

} // verus!
