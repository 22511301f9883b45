# souls_patch

Mods for a game executable, each applied as a small library loaded into the
game's process. A mod either replaces a few instruction bytes at a fixed
offset from the executable's base (durability, equip load, souls loss) or
hooks one instruction and sends it through a stub in freshly allocated
executable memory (fall damage).

`src/` is verified with Verus:

- `patch`: the guard that compares the bytes in place with the bytes a patch
  was written for, the byte copy, and the laws on writing, reading back and
  restoring memory.
- `encoding`: little-endian fields and `jmp rel32` encodings, with the proof
  that an encoded jump lands on its target.
- `fall_damage`: the hook and the stub, with their layout proofs.
- `hook`: the steps of installing and removing the hook, decided from the
  state and the outcome of the previous step, with their order proved.
- `mods`: the patch tables; `opcodes`: the instruction bytes they use.
- `error`, `hex`: the error texts, numbers and byte lists in upper-case hex.
- `dll`: what the libraries do on each loader notification.
- `patch_run`: the steps of applying or restoring a patch, with their order
  and their effect on memory proved.
- `memory`: executable memory through the `region` crate, with a length that
  covers the size asked for and the access whose protection was requested.

`app/` holds what needs raw addresses or the operating system: the module
base, page protection, reading and writing the game's code, and the loader
entry points.
