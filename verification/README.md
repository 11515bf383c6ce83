# PersonaFlux core, verified

A deterministic social-affect simulation core, written in Verus and proved
against its contracts.

- `src/` is the verified library. Binary32 numbers are held as their bit
  patterns (`binary32`) and read exactly; normalized values (`values`, `pad`),
  directed relationships on three layers (`relationship`), the simulation
  (`simulation`): factions, members, relationships, direct-witness deed
  submission (single and atomic batch, once per observer and deed), the
  dynamic affinities and PAD it updates, memories with a lifetime, the
  logical clock that expires them, and the event queue; the logical clock
  itself (`time`), the v1 direct-witness evaluation decisions (`evaluation`),
  deeds (`deed`), memory retention (`memory`), the C ABI v0 decisions and
  wire encoding (`abi`), and laws that relate several operations (`laws`).
- The binary32 multiplications of the evaluation model and the bounded
  update of a value are the host's: the library takes the products, and
  calls the host's functions for the updates, and states what it does with
  whatever they return.
- `app/` is the C ABI itself: raw pointers, `#[repr(C)]` records, the
  per-thread diagnostic slot, panic containment, and those binary32
  functions.
- `tests/` exercises the library on concrete values.
