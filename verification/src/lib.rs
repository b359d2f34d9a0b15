//! Machine-mode firmware logic for a 64-bit multi-hart RISC-V system: trap
//! emulation, inter-hart calls, the supervisor call interface and the
//! boot-time loading of a kernel, stated over plain values and proved against
//! their contracts.
//!
//! The trap side: [`handler`] picks what a trap needs, [`interp`], [`fp`] and
//! [`misalign`] emulate instructions, [`trap`] reflects traps to the
//! supervisor, [`sbi`] serves its calls, [`ipi`] and [`hart_mask`] reach other
//! harts, [`memory`] reads the outcome of guarded accesses.
//!
//! The boot side: [`boot`] sequences, [`inflate`] and [`elf`] unpack and place
//! the kernel, [`p9`], [`tcp`] and [`xae`] fetch it from the network, [`sd`], [`part`],
//! [`fat`] and [`ext`] from a card; [`allocator`] keeps the books of the
//! memory lent for that.
//!
//! The devices: [`iomem`] checks register accesses, [`uart`] and [`fbcon`]
//! serve the console, [`video`] the display, [`timer`] the clock.

pub mod allocator;
pub mod boot;
pub mod bytes;
pub mod elf;
pub mod ext;
pub mod fat;
pub mod fbcon;
pub mod fp;
pub mod handler;
pub mod hart_mask;
pub mod inflate;
pub mod interp;
pub mod io;
pub mod iomem;
pub mod ipi;
pub mod le;
pub mod memory;
pub mod misalign;
pub mod op;
pub mod p9;
pub mod part;
pub mod sbi;
pub mod sd;
pub mod softfloat;
pub mod tcp;
pub mod timer;
pub mod trap;
pub mod uart;
pub mod video;
pub mod xae;
