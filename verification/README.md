# protocol

Part of the wire protocol of a multiplayer survival game server: many of the
records it exchanges and stores (accounts, chat, moderation, item groups,
worldgen catalogs, items, missions, player commands) and the rules each of
them must keep before it is accepted. World events, replication and world
snapshots, and private character inspection are not covered here.

The library under `src/` is written in Verus. Every validator returns a
`bool` (or an `Option`) whose meaning is stated exactly in its `ensures`
clause over `open spec` functions, so the rule a record must satisfy can be
read off the contract rather than the code.

## Layout

- `ids`, `geometry`, `time`, `text`, `text_map` — stable identifiers, world
  coordinates, the calendar, text predicates and a sorted text-keyed map.
- `accounts`, `control`, `characters`, `commands` — account, report,
  moderation and chat records, player commands, the control-stream messages
  that carry them, and their bounds.
- `items`, `prototypes`, `creatures`, `item_snapshots`, `item_sameness`,
  `item_combining`, `item_components`, `disassembly`, `healing`, `bash`,
  `recipes` — item containment, static item prototypes, corpses, concrete
  item instances and when two stacks merge, the components a crafted item
  keeps, crafting, disassembly, reading and construction.
- `item_group_*`, `item_groups`, `description` — normalized item-group
  graphs: shape, evaluation with its output, depth and containment bounds,
  the catalog check, the exact named closure of a set of sources, and item
  description templates.
- `worldgen*`, `overmap`, `monsters`, `npc_names`, `graph` — the worldgen
  catalog: overmap layout, cities, rivers, specials, templates, monster
  groups and name tables.
- `missions` — per-actor mission state against mission definitions, and
  kill tallies.
- `world_item_groups` — a world's item-group catalog against every drop and
  placement that draws from it.
- `laws`, `catalog_laws` — properties that relate several functions or
  states, and what a successful catalog validation guarantees.

`app/` holds the Postcard framing of control messages and client datagrams:
serde mirrors of the library's message types (`wire`, `command_wire`) and
`encode`/`decode` functions that accept a frame only when the library says
it is within bounds.
