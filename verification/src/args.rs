//! What the host decides before power-on.

use vstd::prelude::*;
use crate::cpu::Cpu;
use crate::error::CoreError;
use crate::gpu::Ppu;
use crate::mbc::cartridge_of;
use crate::memory::{BusState, Memory};

verus! {

/// The choices of a run.
#[derive(Debug, Clone)]
pub struct Args {
    /// Where the cartridge image lies.
    pub rom_name: String,
    /// Whether the machine starts as the boot program leaves it.
    pub booted: bool,
    /// Whether the cartridge RAM is to be kept between runs.
    pub save: bool,
}

/// Builds the three parts of the machine for a cartridge image, as the
/// `booted` choice asks. Fails with `UnsupportedCartridge` where the image
/// cannot be used.
pub fn power_on(args: &Args, rom: Vec<u8>) -> (r: Result<(Cpu, Memory, Ppu), CoreError>)
    ensures
        r.is_ok() == cartridge_of(Memory::image(rom@, args.booted)).is_some(),
        r.is_err() ==> r.unwrap_err() == CoreError::UnsupportedCartridge,
        r.is_ok() ==> ({
            let (cpu, memory, ppu) = r.unwrap();
            &&& cpu == Cpu::initial(args.booted)
            &&& ppu == Ppu::initial()
            &&& ppu.wf()
            &&& memory.wf()
            &&& exists|padding: Seq<u8>|
                padding.len() == 0xFE00 && memory@ == #[trigger] BusState::initial(
                    cartridge_of(Memory::image(rom@, args.booted)).unwrap(),
                    padding,
                    args.booted,
                )
        }),
{
    let memory = match Memory::new(rom, args.booted) {
        Ok(m) => m,
        Err(e) => {
            return Err(e);
        },
    };
    Ok((Cpu::new(args.booted), memory, Ppu::default()))
}

} // verus!
