//! Checks: a roll plus the contributing stats against a difficulty.
use vstd::prelude::*;

use crate::dice::gen_range_inclusive;
use crate::stats::{stat_name, PlayerStats, Stat, STAT_LIMIT};
use crate::text::{decimal, push_decimal};

verus! {

/// The kinds of check that tiles roll.
#[derive(Clone, Copy, Debug, PartialEq, Eq, Structural)]
pub enum CheckKind {
    AncientInscriptions,
    FallingRock,
    FindFood,
    Mirage,
    Restoration,
    WildThreat,
    Climbing,
}

/// The stats added to the roll of a check, in the order the summary lists them.
pub open spec fn contributing(kind: CheckKind) -> Seq<Stat> {
    match kind {
        CheckKind::AncientInscriptions => seq![Stat::Intelligence],
        CheckKind::FallingRock => seq![Stat::Dexterity],
        CheckKind::FindFood => seq![Stat::Instinct, Stat::Sight],
        CheckKind::Mirage => seq![Stat::Sight, Stat::Endurance],
        CheckKind::Restoration => seq![Stat::Regeneration],
        CheckKind::WildThreat => seq![Stat::Instinct, Stat::Strength],
        CheckKind::Climbing => seq![Stat::Instinct, Stat::Strength],
    }
}

/// `(name: value)` for one contributing stat.
pub open spec fn stat_term(p: PlayerStats, s: Stat) -> Seq<char> {
    "("@ + stat_name(s) + ": "@ + decimal(p.value(s) as int) + ")"@
}

/// The terms of the contributing stats joined by ` + `.
pub open spec fn modifier_formula(p: PlayerStats, ss: Seq<Stat>) -> Seq<char>
    decreases ss.len(),
{
    if ss.len() == 0 {
        Seq::empty()
    } else if ss.len() == 1 {
        stat_term(p, ss[0])
    } else {
        modifier_formula(p, ss.drop_last()) + " + "@ + stat_term(p, ss.last())
    }
}

/// The sum of the contributing stats.
pub open spec fn modifier_total(p: PlayerStats, ss: Seq<Stat>) -> int
    decreases ss.len(),
{
    if ss.len() == 0 {
        0
    } else {
        modifier_total(p, ss.drop_last()) + p.value(ss.last())
    }
}

/// The lowest roll: focus raises it.
pub open spec fn roll_low(p: PlayerStats) -> int {
    1 + p.focus
}

/// The highest roll: luck raises it.
pub open spec fn roll_high(p: PlayerStats) -> int {
    6 + p.luck
}

/// A roll the dice can give: within `roll_low..=roll_high`, or exactly `roll_high` when
/// that range has a single value or none.
pub open spec fn valid_roll(p: PlayerStats, v: int) -> bool {
    if roll_low(p) < roll_high(p) {
        roll_low(p) <= v <= roll_high(p)
    } else {
        v == roll_high(p)
    }
}

/// `(roll: v)`.
pub open spec fn roll_formula(v: int) -> Seq<char> {
    "(roll: "@ + decimal(v) + ")"@
}

/// `success` or `failure`.
pub open spec fn outcome_word(success: bool) -> Seq<char> {
    if success {
        "success"@
    } else {
        "failure"@
    }
}

/// Whether a check of `kind` against `difficulty` passes with this roll.
pub open spec fn check_passes(kind: CheckKind, difficulty: int, p: PlayerStats, roll: int) -> bool {
    modifier_total(p, contributing(kind)) + roll >= difficulty
}

/// The summary line of a check: `outcome: modifiers + (roll: v) vs difficulty`.
pub open spec fn check_summary(kind: CheckKind, difficulty: int, p: PlayerStats, roll: int) -> Seq<
    char,
> {
    outcome_word(check_passes(kind, difficulty, p, roll)) + ": "@ + modifier_formula(
        p,
        contributing(kind),
    ) + " + "@ + roll_formula(roll) + " vs "@ + decimal(difficulty)
}

/// The log line of a passed check, if it has one.
pub open spec fn success_text(kind: CheckKind) -> Option<Seq<char>> {
    match kind {
        CheckKind::AncientInscriptions => Some("You deciphered a message!"@),
        CheckKind::FindFood => Some("You found some food!"@),
        CheckKind::Restoration => Some("You healed 1 hp while resting"@),
        _ => None,
    }
}

/// The log line of a failed check, if it has one.
pub open spec fn failure_text(kind: CheckKind) -> Option<Seq<char>> {
    match kind {
        CheckKind::AncientInscriptions => Some("You cannot decipher the message"@),
        CheckKind::FallingRock => Some("A boulder fell on you and crushed you"@),
        CheckKind::Mirage => Some("A mirage tricked you into walking in circles"@),
        CheckKind::WildThreat => Some("A wild beast attacked you in the forest"@),
        _ => None,
    }
}

/// The log line of a check with this outcome, if it has one.
pub open spec fn outcome_text(kind: CheckKind, success: bool) -> Option<Seq<char>> {
    if success {
        success_text(kind)
    } else {
        failure_text(kind)
    }
}

pub proof fn lemma_modifier_total_bounds(p: PlayerStats, ss: Seq<Stat>)
    requires
        p.within_limits(),
    ensures
        0 <= modifier_total(p, ss) <= ss.len() * STAT_LIMIT,
    decreases ss.len(),
{
    if ss.len() > 0 {
        lemma_modifier_total_bounds(p, ss.drop_last());
        assert(0 <= p.value(ss.last()) <= STAT_LIMIT);
    }
}

impl CheckKind {
    /// The contributing stats as a vector.
    pub fn contributing_stats(self) -> (ss: Vec<Stat>)
        ensures
            ss@ == contributing(self),
            ss@.len() <= 2,
    {
        let ss = match self {
            CheckKind::AncientInscriptions => vec![Stat::Intelligence],
            CheckKind::FallingRock => vec![Stat::Dexterity],
            CheckKind::FindFood => vec![Stat::Instinct, Stat::Sight],
            CheckKind::Mirage => vec![Stat::Sight, Stat::Endurance],
            CheckKind::Restoration => vec![Stat::Regeneration],
            CheckKind::WildThreat => vec![Stat::Instinct, Stat::Strength],
            CheckKind::Climbing => vec![Stat::Instinct, Stat::Strength],
        };
        assert(ss@ =~= contributing(self));
        ss
    }

    /// The summary of the modifiers and their sum.
    pub fn sum_modifiers(self, player: &PlayerStats) -> (res: (String, i32))
        requires
            player.within_limits(),
        ensures
            res.0@ == modifier_formula(*player, contributing(self)),
            res.1 == modifier_total(*player, contributing(self)),
    {
        let ss = self.contributing_stats();
        let mut formula = String::new();
        let mut total: i32 = 0;
        let mut i: usize = 0;
        while i < ss.len()
            invariant
                0 <= i <= ss.len(),
                ss@ == contributing(self),
                ss@.len() <= 2,
                player.within_limits(),
                formula@ == modifier_formula(*player, ss@.take(i as int)),
                total == modifier_total(*player, ss@.take(i as int)),
            decreases ss.len() - i,
        {
            proof {
                lemma_modifier_total_bounds(*player, ss@.take(i as int));
                assert(ss@.take(i + 1).drop_last() =~= ss@.take(i as int));
                assert(ss@.take(i + 1).last() == ss@[i as int]);
            }
            let s = ss[i];
            if i > 0 {
                formula.append(" + ");
            }
            formula.append("(");
            let name = s.name();
            formula.append(name.as_str());
            formula.append(": ");
            push_decimal(&mut formula, player.get(s));
            formula.append(")");
            total = total + player.get(s);
            proof {
                if i == 0 {
                    assert(ss@.take(1) =~= seq![ss@[0]]);
                }
            }
            i = i + 1;
        }
        assert(ss@.take(ss.len() as int) =~= ss@);
        (formula, total)
    }

    /// The log line of a passed check.
    pub fn success_message(self) -> (m: Option<String>)
        ensures
            m is Some <==> success_text(self) is Some,
            m matches Some(t) ==> t@ == success_text(self)->0,
    {
        match self {
            CheckKind::AncientInscriptions => Some(String::from_str("You deciphered a message!")),
            CheckKind::FindFood => Some(String::from_str("You found some food!")),
            CheckKind::Restoration => Some(String::from_str("You healed 1 hp while resting")),
            _ => None,
        }
    }

    /// The log line of a failed check.
    pub fn failure_message(self) -> (m: Option<String>)
        ensures
            m is Some <==> failure_text(self) is Some,
            m matches Some(t) ==> t@ == failure_text(self)->0,
    {
        match self {
            CheckKind::AncientInscriptions => Some(
                String::from_str("You cannot decipher the message"),
            ),
            CheckKind::FallingRock => Some(
                String::from_str("A boulder fell on you and crushed you"),
            ),
            CheckKind::Mirage => Some(
                String::from_str("A mirage tricked you into walking in circles"),
            ),
            CheckKind::WildThreat => Some(
                String::from_str("A wild beast attacked you in the forest"),
            ),
            _ => None,
        }
    }

    /// The summary and outcome of a check against `difficulty` with the given roll.
    pub fn sum_with_roll(self, difficulty: i32, player: &PlayerStats, roll_value: i32) -> (res: (
        String,
        bool,
    ))
        requires
            player.within_limits(),
            0 <= roll_value <= STAT_LIMIT + 6,
        ensures
            res.0@ == check_summary(self, difficulty as int, *player, roll_value as int),
            res.1 == check_passes(self, difficulty as int, *player, roll_value as int),
    {
        proof {
            lemma_modifier_total_bounds(*player, contributing(self));
        }
        let (modifier_formula, modifier_value) = self.sum_modifiers(player);
        let total_value = modifier_value + roll_value;
        let (success_formula, success) = success(total_value, difficulty);
        let mut summary = success_formula;
        summary.append(": ");
        summary.append(modifier_formula.as_str());
        summary.append(" + ");
        let roll_text = roll_formula_string(roll_value);
        summary.append(roll_text.as_str());
        summary.append(" vs ");
        push_decimal(&mut summary, difficulty);
        (summary, success)
    }

    /// The summary and outcome of a check against `difficulty`, rolling the dice.
    pub fn sum(self, difficulty: i32, player: &PlayerStats) -> (res: (String, bool))
        requires
            player.within_limits(),
        ensures
            exists|v: int|
                valid_roll(*player, v) && res.0@ == check_summary(self, difficulty as int, *player, v)
                    && res.1 == check_passes(self, difficulty as int, *player, v),
    {
        let (_, roll_value) = roll(player);
        self.sum_with_roll(difficulty, player, roll_value)
    }
}

/// `(roll: v)` as a string.
pub fn roll_formula_string(v: i32) -> (s: String)
    ensures
        s@ == roll_formula(v as int),
{
    let mut s = String::from_str("(roll: ");
    push_decimal(&mut s, v);
    s.append(")");
    s
}

/// Rolls the dice: uniform in `1 + focus ..= 6 + luck` when that range has two values or
/// more, else `6 + luck`. Returns the roll's summary and its value.
pub fn roll(player: &PlayerStats) -> (res: (String, i32))
    requires
        player.within_limits(),
    ensures
        valid_roll(*player, res.1 as int),
        0 <= res.1 <= STAT_LIMIT + 6,
        res.0@ == roll_formula(res.1 as int),
{
    proof {
        player.lemma_fields_within_limits();
    }
    let (min, max) = (1 + player.focus, 6 + player.luck);
    let roll_value = if min < max {
        gen_range_inclusive(min, max)
    } else {
        max
    };
    (roll_formula_string(roll_value), roll_value)
}

/// Whether `total_value` meets `difficulty`, with the word the summary uses.
pub fn success(total_value: i32, difficulty: i32) -> (res: (String, bool))
    ensures
        res.1 == (total_value >= difficulty),
        res.0@ == outcome_word(res.1),
{
    if total_value >= difficulty {
        (String::from_str("success"), true)
    } else {
        (String::from_str("failure"), false)
    }
}

/// A direction the ancient inscriptions can point to.
#[derive(Clone, Copy, Debug, PartialEq, Eq, Structural)]
pub enum Direction {
    North,
    East,
    South,
    West,
}

/// The deciphered text for a direction.
pub open spec fn inscription_text(d: Direction) -> Seq<char> {
    "The ancient inscriptions suggest your destination is "@ + match d {
        Direction::North => "NORTH"@,
        Direction::East => "EAST"@,
        Direction::South => "SOUTH"@,
        Direction::West => "WEST"@,
    }
}

impl Direction {
    /// The deciphered text for this direction.
    pub fn message(self) -> (m: String)
        ensures
            m@ == inscription_text(self),
    {
        let mut m = String::from_str("The ancient inscriptions suggest your destination is ");
        match self {
            Direction::North => m.append("NORTH"),
            Direction::East => m.append("EAST"),
            Direction::South => m.append("SOUTH"),
            Direction::West => m.append("WEST"),
        }
        m
    }
}

/// Deciphering inscriptions on a plain; once deciphered, the direction is kept.
#[derive(Clone, Copy, Debug, PartialEq, Eq, Structural)]
pub struct AncientInscriptions {
    pub difficulty: i32,
    pub deciphered: Option<Direction>,
}

/// Dodging a falling rock on a mountain.
#[derive(Clone, Copy, Debug, PartialEq, Eq, Structural)]
pub struct FallingRock {
    pub difficulty: i32,
}

/// Finding food in a forest; each success makes the next one harder.
#[derive(Clone, Copy, Debug, PartialEq, Eq, Structural)]
pub struct FindFood {
    pub difficulty: i32,
}

/// Seeing through a mirage in a desert.
#[derive(Clone, Copy, Debug, PartialEq, Eq, Structural)]
pub struct Mirage {
    pub difficulty: i32,
}

/// Healing while resting.
#[derive(Clone, Copy, Debug, PartialEq, Eq, Structural)]
pub struct Restoration {
    pub difficulty: i32,
}

/// Fending off a wild beast in a forest.
#[derive(Clone, Copy, Debug, PartialEq, Eq, Structural)]
pub struct WildThreat {
    pub difficulty: i32,
}

/// Climbing a mountain.
#[derive(Clone, Copy, Debug, PartialEq, Eq, Structural)]
pub struct Climbing {
    pub difficulty: i32,
}

impl AncientInscriptions {
    pub fn new(difficulty: i32) -> (c: AncientInscriptions)
        ensures
            c.difficulty == difficulty,
            c.deciphered is None,
    {
        AncientInscriptions { difficulty, deciphered: None }
    }

    pub fn difficulty(&self) -> (d: i32)
        ensures
            d == self.difficulty,
    {
        self.difficulty
    }

    /// The deciphered text, once there is one.
    pub fn deciphered_message(&self) -> (m: Option<String>)
        ensures
            m is Some <==> self.deciphered is Some,
            m matches Some(t) ==> t@ == inscription_text(self.deciphered->0),
    {
        match self.deciphered {
            Some(d) => Some(d.message()),
            None => None,
        }
    }
}

impl FallingRock {
    pub fn new(difficulty: i32) -> (c: FallingRock)
        ensures
            c.difficulty == difficulty,
    {
        FallingRock { difficulty }
    }

    pub fn difficulty(&self) -> (d: i32)
        ensures
            d == self.difficulty,
    {
        self.difficulty
    }
}

impl FindFood {
    pub fn new(difficulty: i32) -> (c: FindFood)
        ensures
            c.difficulty == difficulty,
    {
        FindFood { difficulty }
    }

    pub fn difficulty(&self) -> (d: i32)
        ensures
            d == self.difficulty,
    {
        self.difficulty
    }
}

impl Mirage {
    pub fn new(difficulty: i32) -> (c: Mirage)
        ensures
            c.difficulty == difficulty,
    {
        Mirage { difficulty }
    }

    pub fn difficulty(&self) -> (d: i32)
        ensures
            d == self.difficulty,
    {
        self.difficulty
    }
}

impl Restoration {
    pub fn new(difficulty: i32) -> (c: Restoration)
        ensures
            c.difficulty == difficulty,
    {
        Restoration { difficulty }
    }

    pub fn difficulty(&self) -> (d: i32)
        ensures
            d == self.difficulty,
    {
        self.difficulty
    }
}

impl WildThreat {
    pub fn new(difficulty: i32) -> (c: WildThreat)
        ensures
            c.difficulty == difficulty,
    {
        WildThreat { difficulty }
    }

    pub fn difficulty(&self) -> (d: i32)
        ensures
            d == self.difficulty,
    {
        self.difficulty
    }
}

impl Climbing {
    pub fn new(difficulty: i32) -> (c: Climbing)
        ensures
            c.difficulty == difficulty,
    {
        Climbing { difficulty }
    }

    pub fn difficulty(&self) -> (d: i32)
        ensures
            d == self.difficulty,
    {
        self.difficulty
    }
}

} // verus!
