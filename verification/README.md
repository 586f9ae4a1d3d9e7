# survival

The rules of a small survival game played on a hexagonal map, verified with Verus.

The player walks from tile to tile looking for a fountain placed fifteen steps from the
start. Every turn costs saturation, walking costs stamina, and each kind of terrain rolls
checks (a die plus some of the player's stats against a difficulty): a forest hides wild
beasts and food, a desert mirages, a mountain falling rocks, a plain ancient inscriptions
that hint at the fountain, and a chasm is deadly. Dying offers two evolutions that raise
the stats the death is linked to, and a new life starts at the origin with the map kept.

- `src/` is the verified library: coordinates (`coords`), stats (`stats`), vitals
  (`vitals`), checks (`checks`), deaths and evolutions (`death`), terrain (`tiles`), the
  map (`game_map`), whole turns (`game`), properties that hold for all inputs (`laws`),
  and decimal rendering of numbers (`text`). Random draws and the map's hash collections
  are the only calls it trusts.
- `tests/` runs the library on concrete games.
- `app/` is the Bevy front end: rendering, input and the floating-point parts (screen
  positions, bar sizes, colours, the weighting of the inscriptions' hint).
