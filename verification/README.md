# bevy_immediate

Immediate mode entity trees for Bevy: UI code describes its entity tree every frame, and the
library keeps the same entities alive across frames by giving every entity a stable id.

`src/` is the verified core, checked with Verus:

- `hashing`, `id`: ids are `ahash` digests (fixed seeds) of the writes that hashing a value
  makes; combining an id with a child value, auto generated ids of siblings.
- `tree`: the walk through the tree (current parent, child scopes) and the decision whether a
  child is a reused entity, possibly re-parented, or a new one, and the upkeep iteration its
  marker is stamped with.
- `entity_mapping`, `cached_hash`, `utils`: the id to entity mapping, the per-entity cache of
  hashed values and the hashed local memory built on it.
- `hotpatching`, `change`, `access`: hotpatch counting, change detection, the access that
  capabilities request to components and resources.
- `ui`: anchors, the tooltip state machine and the widget decisions (checked, selected,
  disabled, activation, radio buttons, value widgets, window resize handles).

`app/` holds the Bevy side: plugins, systems, observers, system params and the entity builder,
which hand plain values to the library and carry out its decisions. `tests/` exercises the
library.
