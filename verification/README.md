# kernel_tcb

The decision-making core of a Linux kernel-module framework that hosts
replaceable "domains" (a logger, a test device, block devices), written in
Verus and proved against its contracts.

## Layout

- `src/` — the verified library.
  - `error.rs` — kernel error codes and their errno values.
  - `assoc.rs` — association lists (first binding wins) and their lemmas.
  - `buf.rs` — kernel/user slice cursors and the bounds of each read and write.
  - `block/gen_disk.rs` — disk queue limits, block-size validation and the
    ordered setup steps of a generic disk.
  - `pci.rs` — device ids and the BAR-mapping state machine.
  - `fs/iomap.rs` — iomap records and their builders.
  - `mm/` — page bounds checks, cache-line padding, allocator choice.
  - `channel.rs` — the sysctl command channel: parsed commands in, domain
    operations and responses out.
  - `domain.rs` — domain kinds, the load/unload checks, and the steps of
    updating a running domain to a new image (look it up, create the new
    domain, let its proxy swap it in, move its record).
  - `domain/` — the ELF-image registry, the table of running domains, the
    loaded domains and their shims, the storage databases that move from a
    replaced domain to its successor, frame requests, the proxy switch that
    initialises and swaps a running domain, and the stand-in domains used
    when no image is available.
  - `elf.rs` — which ELF images (32- or 64-bit) the loader can read: the
    program and section header tables, the UTF-8 section names and the
    `.rela.dyn` table lie inside the image and are aligned relative to its
    start.
  - `loader.rs` — load planning for a domain image (segments, text range,
    relocations), over the ELF reader of `xmas_elf` and the alignment
    helpers of `memory_addr`.
  - `kshim.rs` — the answer buffer of the test device.
- `tests/` — tests run against the compiled library.
- `app/` — the unverified shell: raw memory copies, kernel calls, and the
  loops that perform the actions the library decides (command channel,
  BAR mapping, loading an image, updating, loading and unloading domains).

## What is assumed of the ELF reader

`xmas_elf` reads the header structures of an image in place and asserts
that they are aligned in memory. The library checks every offset relative
to the start of the image, and hands `xmas_elf` only whole `Vec<u8>`
buffers, which start where their heap allocation starts. That the start of
such an allocation is 8-byte aligned is a property of the allocator (the
kernel's kmalloc and vmalloc, or the system allocator of a test run), not
of Rust: no contract of the library states it, because reading an address
needs raw pointers, which this library does not use. On an allocator that
gave a less aligned buffer, loading an image would panic inside `xmas_elf`
even though the contracts admit the image. The shell in `app/` checks the
alignment before loading and panics with its own message.
