//! A verified core for a firmware-resident boot loader.
//!
//! The library holds the logic of a kernel boot launcher: parsing and
//! validating the boot header of a Linux x86 kernel image, building the boot
//! parameter block ("zero page"), translating the firmware memory map into
//! legacy records, laying out an identity-mapped page-table hierarchy and a
//! flat descriptor table, and deciding between the two supported handover
//! protocols.  Everything that talks to the firmware itself (allocation,
//! file reads, the final jump) lives outside this crate and consumes the
//! values computed here.

pub mod bytes;
pub mod disk;
pub mod errors;
pub mod fs;
pub mod gdt;
pub mod kernel;
pub mod kernel_params;
pub mod paging;
pub mod shell;
pub mod zero_page;
