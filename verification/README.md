# match_strategies

The decision logic of the defending side of a football match engine,
verified with Verus: the exertion tiers and the condition ledger, the
engagement rules (who may challenge the man on the ball, when a challenge
or a contact foul is decided, whether a foul would be a penalty), the
overrides applied where every state's movement converges (kick-off,
throw-in, restart carry, corner hold, a goalkeeper's release space), the
team-level reads (score, possession, the wide channel, positional
discipline, the goalkeeper's organising call) and the state machine of
every defender state.

- `src/` — the verified library. Every function works on plain values:
  identifiers, tick counters, enums, and the outcomes of geometric tests
  taken against the pitch. Each public function states its result exactly
  in its contract; the properties that span functions are public proof
  functions (`lemma_*`) next to the code they speak of.
- `tests/` — tests of the library on concrete values.
- `app/` — ordinary Rust around the library: the floating-point side
  (distances, speeds, effort and fatigue, probabilities and the rolls
  taken against them) and the switches read from the environment. It
  produces the facts the library decides on and applies what it decides.
