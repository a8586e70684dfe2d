# manim_lint

Rules that find defects in Manim scenes before they are rendered. A rule reads
facts about a project (calls, lifecycle events, costs, literals, syntax) and
reports diagnostics. Every rule says in its contract which diagnostics it owes
for which facts, in which order, with which message, evidence, and fix.

## Layout

- `src/` is the verified library.
  - `text`, `numbers`, `json`, `source`, `diagnostic`: values rules work with.
    Doubles are compared through their bit patterns.
  - `config`, `knowledge`, `frontend`, `semantic`, `render_order`, `cost`,
    `literals`, `ast`, `supplied`: the facts. Facts that nobody computed mean silence.
  - `ordered`, `graph`: sorted lists without repetition, and reachability.
  - `thresholds`: the limits that performance rules cite.
  - `rules/`: the rules by group (`lifecycle`, `rendering`, `performance`,
    `portability`), their registry, and the laws about all of them
    (`registry_laws`, `silence`, `stamps`, `scopes`, `places`).
- `tests/` runs the rules on small projects.
- `app/` parses Python, probes the file system, adds up doubles, and writes
  diagnostics as JSON.

A rule is a type with the trait `Rule`: `metadata()` describes it, `run()`
reports. `RegisteredRule` lists them; `registry::enabled_rules` gives those
that a selection of ids and families (`MLC`, `MLR`, `MLP`, `MLD`) turns on,
together with the rules that supersede them.

## Rules with findings from outside

The registry reserves the ids `MLC101` to `MLC129`, `MLR101` to `MLR127`,
`MLP201` to `MLP227`, and `MLD301` to `MLD307`. All of them have a rule, save
for `MLR109`, `MLR118`, `MLR122`, and `MLR123`, whose facts do not exist yet.

What `MLC114`, `MLR102`, `MLR107`, `MLR108`, `MLR110` to `MLR114`, `MLR116`,
`MLR119` to `MLR121`, `MLR125`, and `MLR127` look for is decided outside the
library. Their findings come with the context as plain facts
(`RuleContext::with_supplied`), and the rules turn them into diagnostics. Of
their metadata only id and phase are fixed.
