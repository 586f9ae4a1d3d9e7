//! The state of a game and the turns that change it.
use vstd::prelude::*;

use crate::checks::{
    check_passes, check_summary, contributing, lemma_modifier_total_bounds, outcome_text, roll,
    valid_roll, CheckKind, Direction, Restoration, inscription_text,
};
use crate::coords::{hex_distance, lex_lt, HexCoord};
use crate::death::{options_from, reason_name, DeathReason, EvolveOption};
use crate::game_map::{key_of, GameMap, TileKey};
use crate::stats::{PlayerStats, STAT_LIMIT};
use crate::text::{digits, push_digits};
use crate::tiles::{
    base_difficulty, fresh_tile, generated_kind, kind_base_resting, kind_terrain_difficulty,
    random_kind, Forest, Mountain, Plain, Tile, TileKind,
};
use crate::vitals::{
    health_of, pool_depleted, saturation_of, stamina_of, ChangeSaturation, ChangeStamina, Health,
    IncreaseHealth, IsDead, PlayerPosition, Saturation, Stamina, TotalDeaths,
};
use crate::dice::random_usize;

verus! {

/// A line of the event log, with the longer text of its tooltip.
#[derive(Clone, Debug)]
pub struct Log {
    pub text: String,
    pub expanded_text: String,
}

/// How many lines the event log shows at once.
pub const MAX_LOG_ITEMS: u32 = 10;

/// Where a shown log line moves when a new line arrives at position 0: one place up, or
/// out of the log once it would reach `MAX_LOG_ITEMS`.
pub fn shifted_entry(idx: u32) -> (r: Option<u32>)
    ensures
        r == (if idx + 1 >= MAX_LOG_ITEMS { None } else { Some((idx + 1) as u32) }),
{
    if idx >= MAX_LOG_ITEMS - 1 {
        None
    } else {
        Some(idx + 1)
    }
}

/// Where the fountain stands.
#[derive(Clone, Copy, Debug)]
pub struct FountainPosition(pub HexCoord);

/// A request to take damage, with the cause of death it would be.
#[derive(Clone, Copy, Debug)]
pub struct ReduceHealth {
    amount: i32,
    reason: DeathReason,
}

impl ReduceHealth {
    pub closed spec fn damage(self) -> i32 {
        self.amount
    }

    pub closed spec fn cause(self) -> DeathReason {
        self.reason
    }

    pub fn new(damage: i32, reason: DeathReason) -> (e: ReduceHealth)
        ensures
            e.damage() == damage,
            e.cause() == reason,
    {
        ReduceHealth { amount: damage, reason }
    }

    pub fn amount(&self) -> (a: i32)
        ensures
            a == self.damage(),
    {
        self.amount
    }

    pub fn reason(&self) -> (r: DeathReason)
        ensures
            r == self.cause(),
    {
        self.reason
    }
}

/// How far around the player the map is shown (and generated).
pub const VIEW_DISTANCE: u32 = 2;

/// How far from the origin the fountain is placed.
pub const FOUNTAIN_DISTANCE: u32 = 15;

/// The game is played on hexagons at most this many steps from the origin, so that every
/// coordinate the game computes fits in an `i32`.
pub const PLAY_RADIUS: i32 = 500_000_000;

/// No turn can take health below this: a turn starts with positive health and deals at
/// most a thousand damage.
pub const HEALTH_FLOOR: i32 = -10_000;

/// The random values one turn may use, drawn before it starts: the kind of a tile that
/// has to be generated, the rolls of at most two checks, and the four draws of the
/// evolution options of at most one death.
#[derive(Clone, Copy, Debug)]
pub struct TurnDraws {
    pub tile_kind: TileKind,
    pub first_roll: i32,
    pub second_roll: i32,
    pub death_picks: [usize; 4],
}

impl TurnDraws {
    /// The draws are ones the dice can give for these stats.
    pub open spec fn valid(self, stats: PlayerStats) -> bool {
        &&& generated_kind(self.tile_kind)
        &&& valid_roll(stats, self.first_roll as int)
        &&& valid_roll(stats, self.second_roll as int)
    }

    /// The four death draws as integers.
    pub open spec fn picks(self) -> Seq<int> {
        self.death_picks@.map_values(|p: usize| p as int)
    }

    /// Draws everything a turn may need.
    pub fn draw(stats: &PlayerStats) -> (d: TurnDraws)
        requires
            stats.within_limits(),
        ensures
            d.valid(*stats),
    {
        let tile_kind = random_kind();
        let (_, first_roll) = roll(stats);
        let (_, second_roll) = roll(stats);
        let death_picks = [random_usize(), random_usize(), random_usize(), random_usize()];
        TurnDraws { tile_kind, first_roll, second_roll, death_picks }
    }
}

/// A tile as the map shows it: where, what, and whether the player has been there.
#[derive(Clone, Copy, Debug)]
pub struct TileView {
    pub coord: HexCoord,
    pub kind: TileKind,
    pub visited: bool,
}

/// The abstract state of a game.
#[verifier::ext_equal]
pub struct GameView {
    pub position: HexCoord,
    pub health: Health,
    pub stamina: Stamina,
    pub saturation: Saturation,
    pub stats: PlayerStats,
    pub is_dead: bool,
    pub total_deaths: u32,
    pub tiles: Map<TileKey, Tile>,
    pub visited: Set<TileKey>,
    pub fountain: HexCoord,
    pub logs: Seq<(Seq<char>, Seq<char>)>,
    pub choices: Seq<EvolveOption>,
}

impl GameView {
    /// The invariant of a game between turns: stats within their limits, stamina and
    /// saturation between zero and their maximum, health at most its maximum and above
    /// the floor, positive unless the player is dead, and the player on the playing field.
    pub open spec fn wf(self) -> bool {
        &&& self.vitals_ok()
        &&& HEALTH_FLOOR <= self.health.current
        &&& (self.is_dead || self.health.current > 0)
        &&& self.position.len() <= PLAY_RADIUS
    }

    /// Stats within limits and vitals within their bounds.
    pub open spec fn vitals_ok(self) -> bool {
        &&& self.stats.within_limits()
        &&& 0 <= self.stamina.current <= self.stamina.max <= 3 + 2 * STAT_LIMIT
        &&& 0 <= self.saturation.current <= self.saturation.max <= 3 + 2 * STAT_LIMIT
        &&& self.health.current <= self.health.max <= 3 + 2 * STAT_LIMIT
    }

    /// Enough room for a step of a turn: vitals in bounds, health well above the floor, and
    /// room to count one more death.
    pub open spec fn step_ready(self) -> bool {
        &&& self.vitals_ok()
        &&& -5_000 <= self.health.current
        &&& (!self.is_dead ==> self.total_deaths < u32::MAX)
    }

    /// `new` follows `self` by a step of a turn that deals at most `k` damage.
    pub open spec fn step_to(self, new: GameView, k: int) -> bool {
        &&& new.vitals_ok()
        &&& new.health.current >= self.health.current - k
        &&& (self.is_dead || self.health.current > 0) ==> (new.is_dead || new.health.current > 0)
        &&& self.is_dead ==> new.is_dead && new.total_deaths == self.total_deaths
        &&& !new.is_dead ==> new.total_deaths == self.total_deaths
        &&& new.total_deaths <= self.total_deaths + 1
        &&& new.stats == self.stats
        &&& new.position == self.position
        &&& new.visited == self.visited
        &&& new.fountain == self.fountain
        &&& new.health.max == self.health.max
    }

    /// A line added to the log.
    pub open spec fn logged(self, text: Seq<char>, expanded: Seq<char>) -> GameView {
        GameView { logs: self.logs.push((text, expanded)), ..self }
    }

    /// The player dies of `reason`, unless already dead: counted, logged, and offered the
    /// two evolutions that the draws pick.
    pub open spec fn died(self, reason: DeathReason, picks: Seq<int>) -> GameView {
        if self.is_dead {
            self
        } else {
            GameView {
                is_dead: true,
                total_deaths: (self.total_deaths + 1) as u32,
                logs: self.logs.push(("You died!"@, "death reason: "@ + reason_name(reason))),
                choices: self.choices + options_from(reason, picks),
                ..self
            }
        }
    }

    /// Health drops by `amount`; at zero or below the player dies of `reason`.
    pub open spec fn health_reduced(self, amount: i32, reason: DeathReason, picks: Seq<int>) -> GameView {
        let s = GameView { health: self.health.reduced(amount), ..self };
        if s.health.current <= 0 {
            s.died(reason, picks)
        } else {
            s
        }
    }

    /// Health rises by `value`, capped at the maximum.
    pub open spec fn health_increased(self, value: u32) -> GameView {
        GameView { health: self.health.increased(value), ..self }
    }

    /// Stamina changes by `delta`; exhausting it costs one health (death by exhaustion).
    pub open spec fn stamina_changed(self, delta: i32, picks: Seq<int>) -> GameView {
        let s = GameView { stamina: self.stamina.changed(delta), ..self };
        if pool_depleted(self.stamina.current as int, delta as int) {
            s.health_reduced(1, DeathReason::Exhaustion, picks)
        } else {
            s
        }
    }

    /// Saturation changes by `delta`; exhausting it costs one health (death by starvation).
    pub open spec fn saturation_changed(self, delta: i32, picks: Seq<int>) -> GameView {
        let s = GameView { saturation: self.saturation.changed(delta), ..self };
        if pool_depleted(self.saturation.current as int, delta as int) {
            s.health_reduced(1, DeathReason::Starvation, picks)
        } else {
            s
        }
    }

    /// Whether a check passes with this roll under the current stats.
    pub open spec fn passes(self, kind: CheckKind, difficulty: i32, roll: int) -> bool {
        check_passes(kind, difficulty as int, self.stats, roll)
    }

    /// The log line of a check, if its outcome has one, with the summary as tooltip.
    pub open spec fn check_logged(self, kind: CheckKind, difficulty: i32, roll: int) -> GameView {
        match outcome_text(kind, self.passes(kind, difficulty, roll)) {
            Some(t) => self.logged(t, check_summary(kind, difficulty as int, self.stats, roll)),
            None => self,
        }
    }

    /// The tile at `key` replaced by `t`.
    pub open spec fn tile_set(self, key: TileKey, t: Tile) -> GameView {
        GameView { tiles: self.tiles.insert(key, t), ..self }
    }

    /// Looking for food in forest `f`: on success the next search there is harder and
    /// saturation rises by two.
    pub open spec fn food_searched(self, key: TileKey, f: Forest, roll: int, picks: Seq<int>) -> GameView {
        let d = f.find_food.difficulty;
        let s = self.check_logged(CheckKind::FindFood, d, roll);
        if self.passes(CheckKind::FindFood, d, roll) {
            s.tile_set(
                key,
                Tile::Forest(Forest { wild_threat: f.wild_threat, find_food: crate::checks::FindFood { difficulty: (d + 1) as i32 } }),
            ).saturation_changed(2, picks)
        } else {
            s
        }
    }

    /// Entering forest `f`: a wild beast (one damage on failure), then a search for food.
    pub open spec fn forest_entered(self, key: TileKey, f: Forest, d: TurnDraws) -> GameView {
        let wd = f.wild_threat.difficulty;
        let s = self.check_logged(CheckKind::WildThreat, wd, d.first_roll as int);
        let s2 = if self.passes(CheckKind::WildThreat, wd, d.first_roll as int) {
            s
        } else {
            s.health_reduced(1, DeathReason::WildThreat, d.picks())
        };
        s2.food_searched(key, f, d.second_roll as int, d.picks())
    }

    /// Entering mountain `m`: a climb, then a falling rock (three damage on failure).
    pub open spec fn mountain_entered(self, m: Mountain, d: TurnDraws) -> GameView {
        let s = self.check_logged(CheckKind::Climbing, m.climbing.difficulty, d.first_roll as int);
        let rd = m.falling_rock.difficulty;
        let s2 = s.check_logged(CheckKind::FallingRock, rd, d.second_roll as int);
        if self.passes(CheckKind::FallingRock, rd, d.second_roll as int) {
            s2
        } else {
            s2.health_reduced(3, DeathReason::FallingRock, d.picks())
        }
    }

    /// Entering a desert with a mirage of difficulty `md`: one stamina lost on failure.
    pub open spec fn desert_entered(self, md: i32, d: TurnDraws) -> GameView {
        let s = self.check_logged(CheckKind::Mirage, md, d.first_roll as int);
        if self.passes(CheckKind::Mirage, md, d.first_roll as int) {
            s
        } else {
            s.stamina_changed(-1i32, d.picks())
        }
    }

    /// Entering plain `p`: the deciphered text, if any, is shown again.
    pub open spec fn plain_entered(self, p: Plain) -> GameView {
        match p.ancient_inscriptions.deciphered {
            Some(dir) => self.logged(inscription_text(dir), "Nothing changed..."@),
            None => self,
        }
    }

    /// Reaching the fountain: the game is won and the world stops.
    pub open spec fn fountain_entered(self) -> GameView {
        let s = self.logged("You win!"@, "total deaths: "@ + digits(self.total_deaths as nat));
        GameView { is_dead: true, ..s }
    }

    /// What entering `tile` at `key` does.
    pub open spec fn tile_entered(self, key: TileKey, tile: Tile, d: TurnDraws) -> GameView {
        match tile {
            Tile::Forest(f) => self.forest_entered(key, f, d),
            Tile::Desert(de) => self.desert_entered(de.mirage.difficulty, d),
            Tile::Fountain(_) => self.fountain_entered(),
            Tile::Chasm(_) => self.health_reduced(999, DeathReason::Chasm, d.picks()),
            Tile::Plain(p) => self.plain_entered(p),
            Tile::Mountain(m) => self.mountain_entered(m, d),
        }
    }

    /// Resting on plain `p`: the deciphered text is shown again; otherwise the inscriptions
    /// are checked and, once deciphered, point towards `hint`.
    pub open spec fn plain_rested(self, key: TileKey, p: Plain, roll: int, hint: Direction) -> GameView {
        let ai = p.ancient_inscriptions;
        match ai.deciphered {
            Some(dir) => self.logged(inscription_text(dir), "Nothing changed..."@),
            None => {
                let s = self.check_logged(CheckKind::AncientInscriptions, ai.difficulty, roll);
                if self.passes(CheckKind::AncientInscriptions, ai.difficulty, roll) {
                    s.tile_set(
                        key,
                        Tile::Plain(Plain { ancient_inscriptions: crate::checks::AncientInscriptions { difficulty: ai.difficulty, deciphered: Some(hint) } }),
                    ).logged(inscription_text(hint), "I wonder if it's right..."@)
                } else {
                    s
                }
            },
        }
    }

    /// What resting on `tile` at `key` does beyond regaining stamina and health.
    pub open spec fn tile_rested(self, key: TileKey, tile: Tile, hint: Direction, d: TurnDraws) -> GameView {
        match tile {
            Tile::Forest(f) => self.food_searched(key, f, d.second_roll as int, d.picks()),
            Tile::Plain(p) => self.plain_rested(key, p, d.second_roll as int, hint),
            _ => self,
        }
    }

    /// The tiles with one of kind `kind` generated at `c` when there was none.
    pub open spec fn tiles_with(self, c: HexCoord, kind: TileKind) -> Map<TileKey, Tile> {
        if self.tiles.contains_key(key_of(c)) {
            self.tiles
        } else {
            self.tiles.insert(key_of(c), fresh_tile(kind, c))
        }
    }

    /// A move to `target`: the player stands and has been there, the turn costs one
    /// saturation, entering costs the terrain's stamina, then the tile acts. Nothing
    /// happens when the player is dead or has won.
    pub open spec fn moved(self, target: HexCoord, d: TurnDraws) -> GameView {
        if self.is_dead {
            self
        } else {
            let key = key_of(target);
            let tiles = self.tiles_with(target, d.tile_kind);
            let tile = tiles[key];
            let s1 = GameView { position: target, tiles: tiles, visited: self.visited.insert(key), ..self };
            let s2 = s1.saturation_changed(-1i32, d.picks());
            let s3 = s2.stamina_changed((-(kind_terrain_difficulty(tile.kind_of()) as int)) as i32, d.picks());
            s3.tile_entered(key, tile, d)
        }
    }

    /// A rest on `target`: the turn costs one saturation, the terrain and regeneration give
    /// back stamina, a restoration check may heal one health, then the tile acts. Nothing
    /// happens when the player is dead or has won.
    pub open spec fn rested(self, target: HexCoord, hint: Direction, d: TurnDraws) -> GameView {
        if self.is_dead {
            self
        } else {
            let key = key_of(target);
            let s1 = self.saturation_changed(-1i32, d.picks());
            let tiles = s1.tiles_with(target, d.tile_kind);
            let tile = tiles[key];
            let s2 = GameView { tiles: tiles, ..s1 };
            let s3 = s2.stamina_changed(
                (kind_base_resting(tile.kind_of()) + self.stats.regeneration) as i32,
                d.picks(),
            );
            let rd = base_difficulty(target) as i32;
            let s4 = s3.check_logged(CheckKind::Restoration, rd, d.first_roll as int);
            let s5 = if s3.passes(CheckKind::Restoration, rd, d.first_roll as int) {
                s4.health_increased(1)
            } else {
                s4
            };
            s5.tile_rested(key, tile, hint, d)
        }
    }

    /// A new life: alive at the origin with full vitals for the current stats.
    pub open spec fn restarted(self) -> GameView {
        GameView {
            is_dead: false,
            position: HexCoord { q: 0, r: 0 },
            health: Health { current: health_of(self.stats) as i32, max: health_of(self.stats) as i32 },
            stamina: Stamina { current: stamina_of(self.stats) as i32, max: stamina_of(self.stats) as i32 },
            saturation: Saturation {
                current: saturation_of(self.stats) as i32,
                max: saturation_of(self.stats) as i32,
            },
            ..self
        }
    }

    /// Choosing evolution `i`: its stats are raised, the choices are gone, a new life starts.
    pub open spec fn evolved(self, i: int) -> GameView {
        GameView { stats: self.choices[i].applied_to(self.stats), choices: Seq::empty(), ..self }.restarted()
    }
}

/// A whole game: the player, the map and what the interface shows.
pub struct Game {
    pub position: PlayerPosition,
    pub health: Health,
    pub stamina: Stamina,
    pub saturation: Saturation,
    pub player_stats: PlayerStats,
    pub is_dead: IsDead,
    pub total_deaths: TotalDeaths,
    pub map: GameMap,
    pub fountain: FountainPosition,
    pub logs: Vec<Log>,
    pub evolve_buttons: Vec<EvolveOption>,
}

/// The text and tooltip of a log line.
pub open spec fn log_view(l: Log) -> (Seq<char>, Seq<char>) {
    (l.text@, l.expanded_text@)
}

impl View for Game {
    type V = GameView;

    open spec fn view(&self) -> GameView {
        GameView {
            position: self.position.0,
            health: self.health,
            stamina: self.stamina,
            saturation: self.saturation,
            stats: self.player_stats,
            is_dead: self.is_dead.0,
            total_deaths: self.total_deaths.0,
            tiles: self.map.tiles(),
            visited: self.map.visited(),
            fountain: self.fountain.0,
            logs: self.logs@.map_values(|l: Log| log_view(l)),
            choices: self.evolve_buttons@,
        }
    }
}

impl Game {
    /// Adds a line to the log.
    fn push_log(&mut self, text: String, expanded_text: String)
        ensures
            final(self)@ == old(self)@.logged(text@, expanded_text@),
    {
        let ghost before = self.logs@;
        self.logs.push(Log { text, expanded_text });
        assert(self.logs@.map_values(|l: Log| log_view(l)) =~= before.map_values(
            |l: Log| log_view(l),
        ).push((text@, expanded_text@)));
    }

    /// The player dies of `reason` unless already dead: the death is counted and logged,
    /// and the two evolutions that `picks` choose are offered.
    pub fn on_death(&mut self, reason: DeathReason, picks: [usize; 4])
        requires
            !old(self).is_dead.0 ==> old(self).total_deaths.0 < u32::MAX,
        ensures
            final(self)@ == old(self)@.died(reason, picks@.map_values(|p: usize| p as int)),
    {
        if self.is_dead.0 {
            return ;
        }
        self.is_dead.0 = true;
        self.total_deaths.0 = self.total_deaths.0 + 1;
        let mut expanded_text = String::from_str("death reason: ");
        let name = reason.name();
        expanded_text.append(name.as_str());
        self.push_log(String::from_str("You died!"), expanded_text);
        let options = reason.evolve_options_from(picks);
        let ghost before = self.evolve_buttons@;
        self.evolve_buttons.push(options[0]);
        self.evolve_buttons.push(options[1]);
        assert(self.evolve_buttons@ =~= before + options@);
    }

    /// Takes damage; at zero health or below the player dies of its cause.
    pub fn reduce_health(&mut self, event: ReduceHealth, picks: [usize; 4])
        requires
            i32::MIN <= old(self).health.current - event.damage() <= i32::MAX,
            !old(self).is_dead.0 ==> old(self).total_deaths.0 < u32::MAX,
        ensures
            final(self)@ == old(self)@.health_reduced(
                event.damage(),
                event.cause(),
                picks@.map_values(|p: usize| p as int),
            ),
            old(self)@.step_ready() && 0 <= event.damage() <= 1_000 ==> old(self)@.step_to(
                final(self)@,
                event.damage() as int,
            ),
    {
        let died = self.health.reduce(event.amount());
        if died {
            self.on_death(event.reason(), picks);
        }
    }

    /// Heals, never above the maximum.
    pub fn increase_health(&mut self, event: IncreaseHealth)
        requires
            i32::MIN <= old(self).health.current + (event.amount() as i32) <= i32::MAX,
        ensures
            final(self)@ == old(self)@.health_increased(event.amount()),
            old(self)@.step_ready() && event.amount() <= 1_000 ==> old(self)@.step_to(
                final(self)@,
                0,
            ),
    {
        self.health.increase(event.value());
    }

    /// Changes stamina; exhausting it costs one health.
    pub fn change_stamina(&mut self, event: ChangeStamina, picks: [usize; 4])
        requires
            event.amount() > i32::MIN,
            pool_depleted(old(self).stamina.current as int, event.amount() as int) || old(
                self,
            ).stamina.current + event.amount() <= i32::MAX,
            old(self).health.current > i32::MIN,
            !old(self).is_dead.0 ==> old(self).total_deaths.0 < u32::MAX,
        ensures
            final(self)@ == old(self)@.stamina_changed(
                event.amount(),
                picks@.map_values(|p: usize| p as int),
            ),
            old(self)@.step_ready() && -STAT_LIMIT <= event.amount() <= STAT_LIMIT + 3 ==> old(
                self,
            )@.step_to(final(self)@, 1),
            final(self).stamina.max == old(self).stamina.max,
            0 <= old(self).stamina.current <= old(self).stamina.max ==> 0 <= final(self).stamina.current
                <= final(self).stamina.max,
    {
        let exhausted = self.stamina.change(event.delta());
        if exhausted {
            self.reduce_health(ReduceHealth::new(1, DeathReason::Exhaustion), picks);
        }
    }

    /// Changes saturation; exhausting it costs one health.
    pub fn change_saturation(&mut self, event: ChangeSaturation, picks: [usize; 4])
        requires
            event.amount() > i32::MIN,
            pool_depleted(old(self).saturation.current as int, event.amount() as int) || old(
                self,
            ).saturation.current + event.amount() <= i32::MAX,
            old(self).health.current > i32::MIN,
            !old(self).is_dead.0 ==> old(self).total_deaths.0 < u32::MAX,
        ensures
            final(self)@ == old(self)@.saturation_changed(
                event.amount(),
                picks@.map_values(|p: usize| p as int),
            ),
            old(self)@.step_ready() && -STAT_LIMIT <= event.amount() <= STAT_LIMIT + 3 ==> old(
                self,
            )@.step_to(final(self)@, 1),
            final(self).saturation.max == old(self).saturation.max,
            0 <= old(self).saturation.current <= old(self).saturation.max ==> 0 <= final(self).saturation.current
                <= final(self).saturation.max,
    {
        let starving = self.saturation.change(event.delta());
        if starving {
            self.reduce_health(ReduceHealth::new(1, DeathReason::Starvation), picks);
        }
    }

    /// Runs a check of `kind` against `difficulty` with the given roll and logs its line,
    /// if its outcome has one; tells whether it passed.
    fn run_check(&mut self, kind: CheckKind, difficulty: i32, roll: i32) -> (passed: bool)
        requires
            old(self)@.vitals_ok(),
            valid_roll(old(self).player_stats, roll as int),
        ensures
            final(self)@ == old(self)@.check_logged(kind, difficulty, roll as int),
            passed == old(self)@.passes(kind, difficulty, roll as int),
    {
        proof {
            self.player_stats.lemma_fields_within_limits();
        }
        let (summary, ok) = kind.sum_with_roll(difficulty, &self.player_stats, roll);
        let message = if ok {
            kind.success_message()
        } else {
            kind.failure_message()
        };
        match message {
            Some(text) => self.push_log(text, summary),
            None => {},
        }
        ok
    }

    /// Looks for food in forest `f` at `coord`.
    fn search_food(&mut self, coord: HexCoord, f: Forest, roll: i32, picks: [usize; 4])
        requires
            old(self)@.step_ready(),
            valid_roll(old(self).player_stats, roll as int),
        ensures
            final(self)@ == old(self)@.food_searched(
                key_of(coord),
                f,
                roll as int,
                picks@.map_values(|p: usize| p as int),
            ),
            old(self)@.step_to(final(self)@, 1),
    {
        let d = f.find_food.difficulty;
        let passed = self.run_check(CheckKind::FindFood, d, roll);
        if passed {
            proof {
                lemma_modifier_total_bounds(self.player_stats, contributing(CheckKind::FindFood));
                assert(contributing(CheckKind::FindFood).len() == 2);
                self.player_stats.lemma_fields_within_limits();
            }
            let harder = Forest { wild_threat: f.wild_threat, find_food: crate::checks::FindFood::new(d + 1) };
            self.map.insert(coord, Tile::Forest(harder));
            self.change_saturation(ChangeSaturation::new(2), picks);
        }
    }

    /// Enters forest `f` at `coord`.
    fn enter_forest(&mut self, coord: HexCoord, f: Forest, draws: &TurnDraws)
        requires
            old(self)@.step_ready(),
            old(self).health.current >= -4_000,
            draws.valid(old(self).player_stats),
        ensures
            final(self)@ == old(self)@.forest_entered(key_of(coord), f, *draws),
            old(self)@.step_to(final(self)@, 2),
    {
        let passed = self.run_check(CheckKind::WildThreat, f.wild_threat.difficulty, draws.first_roll);
        if !passed {
            self.reduce_health(ReduceHealth::new(1, DeathReason::WildThreat), draws.death_picks);
        }
        self.search_food(coord, f, draws.second_roll, draws.death_picks);
    }

    /// Enters mountain `m`.
    fn enter_mountain(&mut self, m: Mountain, draws: &TurnDraws)
        requires
            old(self)@.step_ready(),
            old(self).health.current >= -4_000,
            draws.valid(old(self).player_stats),
        ensures
            final(self)@ == old(self)@.mountain_entered(m, *draws),
            old(self)@.step_to(final(self)@, 3),
    {
        self.run_check(CheckKind::Climbing, m.climbing.difficulty, draws.first_roll);
        let passed = self.run_check(CheckKind::FallingRock, m.falling_rock.difficulty, draws.second_roll);
        if !passed {
            self.reduce_health(ReduceHealth::new(3, DeathReason::FallingRock), draws.death_picks);
        }
    }

    /// Enters a desert whose mirage has difficulty `difficulty`.
    fn enter_desert(&mut self, difficulty: i32, draws: &TurnDraws)
        requires
            old(self)@.step_ready(),
            draws.valid(old(self).player_stats),
        ensures
            final(self)@ == old(self)@.desert_entered(difficulty, *draws),
            old(self)@.step_to(final(self)@, 1),
    {
        let passed = self.run_check(CheckKind::Mirage, difficulty, draws.first_roll);
        if !passed {
            self.change_stamina(ChangeStamina::new(-1), draws.death_picks);
        }
    }

    /// Enters plain `p`.
    fn enter_plain(&mut self, p: Plain)
        ensures
            final(self)@ == old(self)@.plain_entered(p),
    {
        match p.ancient_inscriptions.deciphered {
            Some(dir) => self.push_log(dir.message(), String::from_str("Nothing changed...")),
            None => {},
        }
    }

    /// Reaches the fountain.
    fn enter_fountain(&mut self)
        ensures
            final(self)@ == old(self)@.fountain_entered(),
    {
        let mut expanded_text = String::from_str("total deaths: ");
        push_digits(&mut expanded_text, self.total_deaths.0);
        self.push_log(String::from_str("You win!"), expanded_text);
        self.is_dead.0 = true;
    }

    /// What entering `tile` at `coord` does.
    fn enter_tile(&mut self, coord: HexCoord, tile: Tile, draws: &TurnDraws)
        requires
            old(self)@.step_ready(),
            old(self).health.current >= -4_000,
            draws.valid(old(self).player_stats),
        ensures
            final(self)@ == old(self)@.tile_entered(key_of(coord), tile, *draws),
            old(self)@.step_to(final(self)@, 999),
    {
        match tile {
            Tile::Forest(f) => self.enter_forest(coord, f, draws),
            Tile::Desert(d) => self.enter_desert(d.mirage.difficulty, draws),
            Tile::Fountain(_) => self.enter_fountain(),
            Tile::Chasm(_) => self.reduce_health(ReduceHealth::new(999, DeathReason::Chasm), draws.death_picks),
            Tile::Plain(p) => self.enter_plain(p),
            Tile::Mountain(m) => self.enter_mountain(m, draws),
        }
    }

    /// Rests on plain `p` at `coord`.
    fn rest_on_plain(&mut self, coord: HexCoord, p: Plain, roll: i32, hint: Direction)
        requires
            old(self)@.vitals_ok(),
            valid_roll(old(self).player_stats, roll as int),
        ensures
            final(self)@ == old(self)@.plain_rested(key_of(coord), p, roll as int, hint),
    {
        let ai = p.ancient_inscriptions;
        match ai.deciphered {
            Some(dir) => self.push_log(dir.message(), String::from_str("Nothing changed...")),
            None => {
                let passed = self.run_check(CheckKind::AncientInscriptions, ai.difficulty, roll);
                if passed {
                    let deciphered = crate::checks::AncientInscriptions { difficulty: ai.difficulty, deciphered: Some(hint) };
                    self.map.insert(coord, Tile::Plain(Plain { ancient_inscriptions: deciphered }));
                    self.push_log(hint.message(), String::from_str("I wonder if it's right..."));
                }
            },
        }
    }

    /// What resting on `tile` at `coord` does beyond regaining stamina and health.
    fn rest_on_tile(&mut self, coord: HexCoord, tile: Tile, hint: Direction, draws: &TurnDraws)
        requires
            old(self)@.step_ready(),
            draws.valid(old(self).player_stats),
        ensures
            final(self)@ == old(self)@.tile_rested(key_of(coord), tile, hint, *draws),
            old(self)@.step_to(final(self)@, 1),
    {
        match tile {
            Tile::Forest(f) => self.search_food(coord, f, draws.second_roll, draws.death_picks),
            Tile::Plain(p) => self.rest_on_plain(coord, p, draws.second_roll, hint),
            _ => {},
        }
    }

    /// The start of every turn: one saturation is spent.
    fn next_turn(&mut self, picks: [usize; 4])
        requires
            old(self)@.step_ready(),
        ensures
            final(self)@ == old(self)@.saturation_changed(-1i32, picks@.map_values(|p: usize| p as int)),
            old(self)@.step_to(final(self)@, 1),
    {
        self.change_saturation(ChangeSaturation::new(-1), picks);
    }

    /// Moves to `target` with the given draws.
    pub fn move_player_with(&mut self, target: HexCoord, draws: &TurnDraws)
        requires
            old(self)@.wf(),
            target.len() <= PLAY_RADIUS,
            draws.valid(old(self).player_stats),
            !old(self).is_dead.0 ==> old(self).total_deaths.0 < u32::MAX,
        ensures
            final(self)@ == old(self)@.moved(target, *draws),
            final(self)@.wf(),
            old(self).is_dead.0 ==> final(self)@ == old(self)@,
            final(self).total_deaths.0 <= old(self).total_deaths.0 + 1,
            final(self).total_deaths.0 == old(self).total_deaths.0 + 1 ==> final(self).is_dead.0,
    {
        if self.is_dead.0 {
            return ;
        }
        proof {
            crate::coords::lemma_hex_len_is_max(target.q as int, target.r as int);
        }
        self.position.0 = target;
        let tile = self.map.get_with(target, draws.tile_kind);
        self.map.visit(target);
        self.next_turn(draws.death_picks);
        let cost = tile.terrain_difficulty() as i32;
        self.change_stamina(ChangeStamina::new(-cost), draws.death_picks);
        self.enter_tile(target, tile, draws);
    }

    /// Moves to `target`: the draws the turn uses are random.
    pub fn move_player(&mut self, target: HexCoord)
        requires
            old(self)@.wf(),
            target.len() <= PLAY_RADIUS,
            !old(self).is_dead.0 ==> old(self).total_deaths.0 < u32::MAX,
        ensures
            exists|d: TurnDraws|
                d.valid(old(self).player_stats) && final(self)@ == old(self)@.moved(target, d),
            final(self)@.wf(),
            old(self).is_dead.0 ==> final(self)@ == old(self)@,
            final(self).total_deaths.0 <= old(self).total_deaths.0 + 1,
            final(self).total_deaths.0 == old(self).total_deaths.0 + 1 ==> final(self).is_dead.0,
    {
        let draws = TurnDraws::draw(&self.player_stats);
        self.move_player_with(target, &draws);
    }

    /// Rests on `target` with the given draws; `hint` is where deciphered inscriptions
    /// point.
    pub fn rest_with(&mut self, target: HexCoord, hint: Direction, draws: &TurnDraws)
        requires
            old(self)@.wf(),
            target.len() <= PLAY_RADIUS,
            draws.valid(old(self).player_stats),
            !old(self).is_dead.0 ==> old(self).total_deaths.0 < u32::MAX,
        ensures
            final(self)@ == old(self)@.rested(target, hint, *draws),
            final(self)@.wf(),
            old(self).is_dead.0 ==> final(self)@ == old(self)@,
            final(self).total_deaths.0 <= old(self).total_deaths.0 + 1,
            final(self).total_deaths.0 == old(self).total_deaths.0 + 1 ==> final(self).is_dead.0,
    {
        if self.is_dead.0 {
            return ;
        }
        proof {
            crate::coords::lemma_hex_len_is_max(target.q as int, target.r as int);
        }
        self.next_turn(draws.death_picks);
        let tile = self.map.get_with(target, draws.tile_kind);
        let stats = self.player_stats;
        proof {
            stats.lemma_fields_within_limits();
        }
        self.change_stamina(ChangeStamina::new(tile.base_resting() + stats.regeneration), draws.death_picks);
        let restoration = Restoration::new(2 + target.check_modifier());
        let passed = self.run_check(CheckKind::Restoration, restoration.difficulty, draws.first_roll);
        if passed {
            self.increase_health(IncreaseHealth::new(1));
        }
        self.rest_on_tile(target, tile, hint, draws);
    }

    /// Rests on `target`: the draws the turn uses are random; `hint` is where deciphered
    /// inscriptions point.
    pub fn rest(&mut self, target: HexCoord, hint: Direction)
        requires
            old(self)@.wf(),
            target.len() <= PLAY_RADIUS,
            !old(self).is_dead.0 ==> old(self).total_deaths.0 < u32::MAX,
        ensures
            exists|d: TurnDraws|
                d.valid(old(self).player_stats) && final(self)@ == old(self)@.rested(target, hint, d),
            final(self)@.wf(),
            old(self).is_dead.0 ==> final(self)@ == old(self)@,
            final(self).total_deaths.0 <= old(self).total_deaths.0 + 1,
            final(self).total_deaths.0 == old(self).total_deaths.0 + 1 ==> final(self).is_dead.0,
    {
        let draws = TurnDraws::draw(&self.player_stats);
        self.rest_with(target, hint, &draws);
    }

    /// A new life: alive at the origin, with full vitals for the current stats. The map,
    /// the stats, the deaths and the log are kept.
    pub fn new_game(&mut self)
        requires
            old(self).player_stats.within_limits(),
        ensures
            final(self)@ == old(self)@.restarted(),
    {
        let stats = self.player_stats;
        proof {
            stats.lemma_fields_within_limits();
        }
        self.is_dead.0 = false;
        self.position.0 = HexCoord::new(0, 0);
        self.health = Health::from_stats(&stats);
        self.stamina = Stamina::from_stats(&stats);
        self.saturation = Saturation::from_stats(&stats);
    }

    /// Whether evolution `index` is offered and keeps every stat within its limit.
    pub fn can_evolve(&self, index: usize) -> (b: bool)
        requires
            self.player_stats.within_limits(),
        ensures
            b == (index < self@.choices.len() && self@.choices[index as int].applied_to(
                self.player_stats,
            ).within_limits()),
    {
        if index >= self.evolve_buttons.len() {
            return false;
        }
        let option = self.evolve_buttons[index];
        let mut stats = self.player_stats;
        assert(0 <= stats.value(option.first.stat) <= STAT_LIMIT);
        assert(0 <= stats.value(option.second.stat) <= STAT_LIMIT);
        option.evolve(&mut stats);
        stats.is_within_limits()
    }

    /// Takes evolution `index`: its stats are raised, every choice is withdrawn, and a new
    /// life starts.
    pub fn choose_evolution(&mut self, index: usize)
        requires
            old(self).player_stats.within_limits(),
            index < old(self)@.choices.len(),
            old(self)@.choices[index as int].applied_to(old(self).player_stats).within_limits(),
        ensures
            final(self)@ == old(self)@.evolved(index as int),
            old(self)@.wf() ==> final(self)@.wf(),
    {
        let option = self.evolve_buttons[index];
        assert(0 <= self.player_stats.value(option.first.stat) <= STAT_LIMIT);
        assert(0 <= self.player_stats.value(option.second.stat) <= STAT_LIMIT);
        option.evolve(&mut self.player_stats);
        self.evolve_buttons = Vec::new();
        self.new_game();
        proof {
            self.player_stats.lemma_fields_within_limits();
            assert(self@.position.len() == 0);
        }
    }

    /// Hands over the log lines written so far, leaving the log empty.
    pub fn take_logs(&mut self) -> (logs: Vec<Log>)
        ensures
            logs@.map_values(|l: Log| log_view(l)) == old(self)@.logs,
            final(self)@ == (GameView { logs: Seq::empty(), ..old(self)@ }),
    {
        let mut logs: Vec<Log> = Vec::new();
        std::mem::swap(&mut logs, &mut self.logs);
        assert(self.logs@.map_values(|l: Log| log_view(l)) =~= Seq::empty());
        logs
    }
}

/// The state at the start of a game with the fountain at `fountain`.
pub open spec fn initial_view(fountain: HexCoord) -> GameView {
    let origin = HexCoord { q: 0, r: 0 };
    GameView {
        position: origin,
        health: Health { current: 3, max: 3 },
        stamina: Stamina { current: 3, max: 3 },
        saturation: Saturation { current: 3, max: 3 },
        stats: PlayerStats {
            intelligence: 0,
            instinct: 0,
            focus: 0,
            luck: 0,
            strength: 0,
            dexterity: 0,
            sight: 0,
            endurance: 0,
            regeneration: 0,
        },
        is_dead: false,
        total_deaths: 0,
        tiles: Map::empty().insert(key_of(origin), fresh_tile(TileKind::Forest, origin)).insert(
            key_of(fountain),
            fresh_tile(TileKind::Fountain, fountain),
        ),
        visited: Set::empty().insert(key_of(origin)),
        fountain: fountain,
        logs: Seq::empty(),
        choices: Seq::empty(),
    }
}

impl Game {
    /// A new game with the fountain placed at `fountain`.
    pub fn new_with(fountain: HexCoord) -> (g: Game)
        ensures
            g@ == initial_view(fountain),
            g@.wf(),
    {
        let player_stats = PlayerStats::default();
        proof {
            player_stats.lemma_fields_within_limits();
        }
        let mut map = GameMap::new();
        map.insert(fountain, crate::tiles::Fountain::new(fountain));
        Game {
            position: PlayerPosition(HexCoord::new(0, 0)),
            health: Health::from_stats(&player_stats),
            stamina: Stamina::from_stats(&player_stats),
            saturation: Saturation::from_stats(&player_stats),
            player_stats,
            is_dead: IsDead(false),
            total_deaths: TotalDeaths(0),
            map,
            fountain: FountainPosition(fountain),
            logs: Vec::new(),
            evolve_buttons: Vec::new(),
        }
    }

    /// A new game with the fountain placed at random, `FOUNTAIN_DISTANCE` steps from the
    /// origin.
    pub fn new() -> (g: Game)
        ensures
            g@ == initial_view(g@.fountain),
            g@.fountain.len() == FOUNTAIN_DISTANCE,
            g@.wf(),
    {
        let fountain = HexCoord::random_in_distance(FOUNTAIN_DISTANCE);
        Game::new_with(fountain)
    }
}

/// The hexagon that a map key names.
pub open spec fn coord_of(k: TileKey) -> HexCoord {
    HexCoord { q: k.0, r: k.1 }
}

/// A tile that `update_tiles` may add: fresh, of a generated kind, in view of `center`.
pub open spec fn revealed_tile(t: Tile, k: TileKey, center: HexCoord) -> bool {
    &&& generated_kind(t.kind_of())
    &&& t == fresh_tile(t.kind_of(), coord_of(k))
    &&& hex_distance(coord_of(k), center) <= VIEW_DISTANCE
}

/// The hexagons a list of tile views shows, in order.
pub open spec fn view_coords(views: Seq<TileView>) -> Seq<HexCoord> {
    views.map_values(|v: TileView| v.coord)
}

/// What pressing a tile does.
#[derive(Clone, Copy, Debug, PartialEq, Eq, Structural)]
pub enum TileAction {
    Nothing,
    Move,
    Rest,
}

/// Pressing the player's own tile rests there; pressing a neighbour moves there.
pub open spec fn action_for(coord: HexCoord, player: HexCoord) -> TileAction {
    if coord == player {
        TileAction::Rest
    } else if hex_distance(coord, player) == 1 {
        TileAction::Move
    } else {
        TileAction::Nothing
    }
}

/// What pressing the tile at `coord` does when the player stands at `player`.
pub fn tile_action(coord: HexCoord, player: HexCoord) -> (a: TileAction)
    requires
        i32::MIN <= coord.q - player.q <= i32::MAX,
        i32::MIN <= coord.r - player.r <= i32::MAX,
        coord.minus(player).norm_fits(),
    ensures
        a == action_for(coord, player),
{
    let d = coord.distance(player);
    if d == 1 {
        TileAction::Move
    } else if coord == player {
        TileAction::Rest
    } else {
        TileAction::Nothing
    }
}

/// Whether the tile at `coord` lights up under the pointer: the player's tile and its
/// neighbours do.
pub fn is_highlighted(coord: HexCoord, player: HexCoord) -> (b: bool)
    requires
        i32::MIN <= coord.q - player.q <= i32::MAX,
        i32::MIN <= coord.r - player.r <= i32::MAX,
        coord.minus(player).norm_fits(),
    ensures
        b == (hex_distance(coord, player) <= 1),
{
    coord.distance(player) <= 1
}

impl Game {
    /// Makes sure every hexagon within `VIEW_DISTANCE` of the player has a tile, generating
    /// the missing ones at random, and lists them for display.
    pub fn update_tiles(&mut self) -> (views: Vec<TileView>)
        requires
            old(self)@.position.len() <= PLAY_RADIUS,
        ensures
            final(self)@ == (GameView { tiles: final(self)@.tiles, ..old(self)@ }),
            forall|k: TileKey|
                old(self)@.tiles.contains_key(k) ==> #[trigger] final(self)@.tiles.contains_key(k)
                    && final(self)@.tiles[k] == old(self)@.tiles[k],
            forall|k: TileKey|
                #[trigger] final(self)@.tiles.contains_key(k) && !old(self)@.tiles.contains_key(k)
                    ==> revealed_tile(final(self)@.tiles[k], k, old(self)@.position),
            forall|c: HexCoord|
                hex_distance(c, old(self)@.position) <= VIEW_DISTANCE ==> final(self)@.tiles.contains_key(
                    #[trigger] key_of(c),
                ),
            forall|i: int|
                0 <= i < views.len() ==> {
                    &&& hex_distance(#[trigger] views[i].coord, old(self)@.position) <= VIEW_DISTANCE
                    &&& views[i].kind == final(self)@.tiles[key_of(views[i].coord)].kind_of()
                    &&& views[i].visited == final(self)@.visited.contains(key_of(views[i].coord))
                },
            forall|c: HexCoord|
                hex_distance(c, old(self)@.position) <= VIEW_DISTANCE ==> #[trigger] view_coords(views@).contains(c),
            forall|i: int, j: int| 0 <= i < j < views.len() ==> lex_lt(views[i].coord, views[j].coord),
    {
        let center = self.position.0;
        proof {
            crate::coords::lemma_hex_len_is_max(center.q as int, center.r as int);
        }
        let coords = center.within_distance(VIEW_DISTANCE);
        let mut views: Vec<TileView> = Vec::new();
        let ghost start = self@;
        let mut i: usize = 0;
        while i < coords.len()
            invariant
                0 <= i <= coords.len(),
                views.len() == i,
                center == start.position,
                start.position.len() <= PLAY_RADIUS,
                forall|j: int| 0 <= j < coords.len() ==> hex_distance(#[trigger] coords[j], center) <= VIEW_DISTANCE,
                self@ == (GameView { tiles: self@.tiles, ..start }),
                forall|k: TileKey|
                    start.tiles.contains_key(k) ==> #[trigger] self@.tiles.contains_key(k)
                        && self@.tiles[k] == start.tiles[k],
                forall|k: TileKey|
                    #[trigger] self@.tiles.contains_key(k) && !start.tiles.contains_key(k)
                        ==> revealed_tile(self@.tiles[k], k, center),
                forall|j: int|
                    #![trigger coords@[j]]
                    0 <= j < i ==> {
                        &&& views@[j].coord == coords@[j]
                        &&& self@.tiles.contains_key(key_of(coords@[j]))
                        &&& views@[j].kind == self@.tiles[key_of(coords@[j])].kind_of()
                        &&& views@[j].visited == self@.visited.contains(key_of(coords@[j]))
                    },
            decreases coords.len() - i,
        {
            let c = coords[i];
            proof {
                crate::coords::lemma_hex_len_triangle(c.q - center.q, c.r - center.r, center.q as int, center.r as int);
                crate::coords::lemma_hex_len_is_max(c.q as int, c.r as int);
            }
            let ghost before = self@;
            let tile = self.map.get(c);
            let visited = self.map.is_visited(c);
            views.push(TileView { coord: c, kind: tile.kind(), visited });
            proof {
                assert forall|j: int| #![trigger coords@[j]] 0 <= j < i + 1 implies {
                    &&& views@[j].coord == coords@[j]
                    &&& self@.tiles.contains_key(key_of(coords@[j]))
                    &&& views@[j].kind == self@.tiles[key_of(coords@[j])].kind_of()
                    &&& views@[j].visited == self@.visited.contains(key_of(coords@[j]))
                } by {
                    if j < i {
                        assert(before.tiles.contains_key(key_of(coords@[j])));
                    }
                }
            }
            i = i + 1;
        }
        proof {
            assert forall|c: HexCoord|
                hex_distance(c, start.position) <= VIEW_DISTANCE implies #[trigger] view_coords(views@).contains(c) && self@.tiles.contains_key(key_of(c)) by {
                assert(coords@.contains(c));
                let j = choose|j: int| 0 <= j < coords.len() && coords@[j] == c;
                assert(views@[j].coord == coords@[j]);
                assert(view_coords(views@)[j] == c);
            }
            assert forall|c: HexCoord|
                hex_distance(c, start.position) <= VIEW_DISTANCE implies self@.tiles.contains_key(
                    #[trigger] key_of(c),
                ) by {
                assert(view_coords(views@).contains(c));
            }
            assert forall|k: int| 0 <= k < views.len() implies {
                &&& hex_distance(#[trigger] views[k].coord, start.position) <= VIEW_DISTANCE
                &&& views[k].kind == self@.tiles[key_of(views[k].coord)].kind_of()
                &&& views[k].visited == self@.visited.contains(key_of(views[k].coord))
            } by {
                assert(views@[k].coord == coords@[k]);
            }
            assert forall|a: int, b: int| 0 <= a < b < views.len() implies lex_lt(views[a].coord, views[b].coord) by {
                assert(views@[a].coord == coords@[a]);
                assert(views@[b].coord == coords@[b]);
            }
        }
        views
    }
}

} // verus!
