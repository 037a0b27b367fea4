# lightningcss_node

The decision logic of the bridge that runs JavaScript visitors over a
lightningcss style sheet, written in Verus with its contracts proved.

- `src/visitors.rs`: enter/exit visitor pairs and the rule that a visitor for
  a node's own name wins over the general one.
- `src/plan.rs`: how each property of a JavaScript visitor object is kept (as
  a function, as an object of visitors by name, or not at all), and which node
  kinds are visited (`VisitTypes`).
- `src/routes.rs`: for every kind of node and stage, which kept property holds
  its general visitor and which holds its visitors by name.
- `src/types.rs`: the library's view of lightningcss's `VisitTypes`.
- `src/list.rs`: the steps of a walk over a list of nodes (what an answer or
  an error does to the list, what an enter answer sends on to the exit
  visitor, what answer stands in the end), and proofs over models of the walk
  built from those steps: with `map_step`/`try_map_step` every original node
  is visited once and in order, and a failure stops the walk leaving the later
  nodes untouched; with `fill_step` (rule lists) every original rule is
  visited once, plus one visit of each placeholder left by an empty answer.
  The loop that runs the steps lives in `app/`.
- `src/dispatch.rs`: the names under which rule and token visitors are looked
  up, and what an `env()` in a media query may become.
- `src/outcome.rs`: how answers and errors of single calls are applied.
- `app/lib.rs`: the napi side: reading the visitor object, calling
  JavaScript, serde conversions, and lightningcss's `Visitor` trait.
