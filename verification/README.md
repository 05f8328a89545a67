# baylee_engine

A deterministic rules kernel for two-player Magic: The Gathering games,
centred on lands and the mana they make, written in Verus: every function of
the library is verified against its `requires` / `ensures` contract. The
helpers that play a whole scripted game (a filter land, a counted land)
state less than they check; their outcome rests on the engine's contracts.

A game is an `Engine`. It says what it waits for (`Engine::pending`: a hand to
keep, priority, or a question such as a colour, targets, cards, attackers or
blockers), and the only way to move it on is `Engine::apply(player, action)`.
An action that does not answer what the engine waits for, or that the rules
forbid, is refused with an `EngineError` and changes nothing.

## Layout

| Module | What it holds |
|---|---|
| `ids`, `sets`, `mana` | seats, objects, card types, subtypes, keywords, colours; mana costs and the mana pool with its payments |
| `cards`, `cardkit`, `catalog` | the card model and the cards the engine knows, with their abilities |
| `state`, `board`, `turn` | the game state, its primitive changes, the untap and cleanup steps |
| `query`, `rules`, `legal` | what the board says: counts, conditions, entry rules, targets, what a player may do |
| `engine`, `actions`, `choices`, `effects`, `flow`, `combat` | the engine: actions, answers, effects, priority and steps, combat |
| `laws` | properties that hold of every board and every payment |
| `testkit`, `helpers` | building duels and walking them to a point of interest |

## What is proved

Besides the absence of overflow and panics, the contracts state among other
things:

- for `Engine::apply`: that a refused action changes nothing and that only
  offered answers are accepted; exactly when playing a land, activating an
  ability and casting a spell are accepted; that a plain land, once played,
  stands on the battlefield tapped exactly when its entry rule says so; that
  a first pass with no work in hand hands priority to the other player and
  changes nothing else; that a pass with an empty stack moves the game to the
  next step, or the next turn to the other player; that a land tapped for
  the one colour its basic land types give adds one mana of that colour and
  nothing else; that a mana ability that costs at most its tap makes exactly
  its fixed amount, or one for each permanent its filter counts; that
  announcing how many counters to remove takes exactly that many; and that
  an ability that
  removes any number of counters asks for a number from zero to the counters
  on its permanent;
- the entry rules of lands ("enters tapped unless …", never counting the
  land itself), what a player may target (exactly the legal targets), and
  when a cost can be paid;
- how mana is added and paid, each kind of mana effect exactly, with restricted mana spent only on what its restriction allows and a
  payment taking exactly its cost;
- the untap and cleanup steps, and pools emptying between steps;
- combat: who may attack and block, and the damage dealt.

Games are two-player: a table of more players, and the cards that count
opponents across one, are not modelled.

The tests under `tests/` play cards through whole turns.
