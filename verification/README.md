# shredder

Rules of a small shredder game, verified with Verus.

- `src/keys.rs`: the keys a jammed shredder asks for and the draw that picks one.
- `src/resource.rs`: the objects of the five stages and what shredding each one is worth.
- `src/scraper.rs`: the shredder itself (stats, shred timing, jams) and its laws.
- `src/world.rs`: the game world, its stages and states, and its laws.
- `src/hud.rs`: what the screen shows of the rules (office clock, warning lights, panel).
- `app/`: sound, random draws, object sizes and positions, the camera and the per-frame driver.
