//! External synchronous DRAM: controller bring-up and bounds- and
//! alignment-checked word access.
//!
//! The memory is one contiguous bank of `SDRAM_SIZE` bytes accessed in
//! 4-byte words, modelled by [`SdRamBank`].  The controller is modelled by
//! [`FmcRegs`]; its command register is a write-to-issue port, so the model
//! records every command written to it in `cmds`, oldest first — the
//! initialization contract pins the exact command order, which the hardware
//! forbids to reorder.

use vstd::prelude::*;

use crate::gpio;
use crate::gpio::GpioPort;
use crate::rcc;
use crate::rcc::RccRegs;
use crate::reg;

verus! {

/// Size of the bank in bytes.
pub const SDRAM_SIZE: u32 = 0x800000;

/// Physical base address of the bank.
pub const SDRAM_BANK_ADDR: u32 = 0xD0000000;

/// Size of the bank in 4-byte words.
pub const SDRAM_WORDS: usize = 0x200000;

/// Busy flag in the controller's status register.
pub const SDSR_BUSY_BIT: u32 = 5;

/// Refresh-error flag in the controller's status register.
pub const SDSR_RE_BIT: u32 = 0;

/// Errors of the word access path.
#[derive(Clone, Copy, PartialEq, Eq, Structural, Debug)]
pub enum SdRamError {
    /// The access runs past the end of the bank; carries the number of
    /// bytes by which it overruns.
    OutOfBoundsAccess(u32),
    /// The controller reported a missed refresh cycle.
    RefreshError,
    /// The byte offset is not 4-byte aligned; carries the next aligned
    /// offset.
    UnalignedAccess(u32),
}

/// Register block of the external-memory controller's DRAM path.
pub struct FmcRegs {
    /// Control register of the first bank pair member.
    pub sdcr1: u32,
    /// Control register of the second bank pair member.
    pub sdcr2: u32,
    /// Timing register of the first bank pair member.
    pub sdtr1: u32,
    /// Timing register of the second bank pair member.
    pub sdtr2: u32,
    /// Command register; writing it issues a command.
    pub sdcmr: u32,
    /// Refresh timer register.
    pub sdrtr: u32,
    /// Status register: busy and refresh-error flags.
    pub sdsr: u32,
    /// Commands issued through the command register, oldest first.
    pub cmds: Vec<u32>,
}

impl FmcRegs {
    /// A controller with cleared registers and no command issued yet.
    pub fn new() -> (f: FmcRegs)
        ensures
            f.sdcr1 == 0,
            f.sdcr2 == 0,
            f.sdtr1 == 0,
            f.sdtr2 == 0,
            f.sdcmr == 0,
            f.sdrtr == 0,
            f.sdsr == 0,
            f.cmds@ == Seq::<u32>::empty(),
    {
        FmcRegs {
            sdcr1: 0,
            sdcr2: 0,
            sdtr1: 0,
            sdtr2: 0,
            sdcmr: 0,
            sdrtr: 0,
            sdsr: 0,
            cmds: Vec::new(),
        }
    }
}

/// The word contents of the bank.
pub struct SdRamBank {
    /// One entry per 4-byte word of the bank.
    pub words: Vec<u32>,
}

impl SdRamBank {
    /// Well-formedness: the bank covers exactly its fixed size.
    pub open spec fn wf(self) -> bool {
        self.words@.len() == SDRAM_WORDS
    }

    /// A bank of cleared words.
    pub fn new() -> (b: SdRamBank)
        ensures
            b.wf(),
            forall|i: int| 0 <= i < SDRAM_WORDS ==> b.words@[i] == 0u32,
    {
        let mut words: Vec<u32> = Vec::new();
        let mut i: usize = 0;
        while i < SDRAM_WORDS
            invariant
                i <= SDRAM_WORDS,
                words@.len() == i,
                forall|j: int| 0 <= j < i ==> words@[j] == 0u32,
            decreases SDRAM_WORDS - i,
        {
            words.push(0u32);
            i = i + 1;
        }
        SdRamBank { words }
    }
}

/// One pin after it was routed to the external-memory-interface function at
/// high speed, push-pull, no pull.
pub open spec fn spec_fmc_pin(p: GpioPort, pin: u8) -> GpioPort {
    gpio::spec_set_alt_fn(
        gpio::spec_configure(
            p,
            pin,
            gpio::Mode::AltFn,
            gpio::OutType::PushPull,
            gpio::OutSpeed::High,
            gpio::PullType::NoPull,
        ),
        pin,
        gpio::AltFn::FmcSdioOtg2Fs,
    )
}

/// Configure one pin of the external-memory bus.
fn fmc_pin(port: &mut GpioPort, pin: u8)
    requires
        pin <= 15,
    ensures
        *final(port) == spec_fmc_pin(*old(port), pin),
{
    let _ = gpio::configure(
        port,
        pin,
        gpio::Mode::AltFn,
        gpio::OutType::PushPull,
        gpio::OutSpeed::High,
        gpio::PullType::NoPull,
    );
    let _ = gpio::set_alt_fn(port, pin, gpio::AltFn::FmcSdioOtg2Fs);
}

/// Port B after its external-memory pins were configured.
pub open spec fn spec_fmc_port_b(p: GpioPort) -> GpioPort {
    spec_fmc_pin(spec_fmc_pin(p, 5), 6)
}

/// Port C after its external-memory pin was configured.
pub open spec fn spec_fmc_port_c(p: GpioPort) -> GpioPort {
    spec_fmc_pin(p, 0)
}

/// Port D after its external-memory pins were configured.
pub open spec fn spec_fmc_port_d(p: GpioPort) -> GpioPort {
    spec_fmc_pin(
        spec_fmc_pin(
            spec_fmc_pin(
                spec_fmc_pin(spec_fmc_pin(spec_fmc_pin(spec_fmc_pin(p, 0), 1), 8), 9),
                10,
            ),
            14,
        ),
        15,
    )
}

/// Port E after its external-memory pins were configured.
pub open spec fn spec_fmc_port_e(p: GpioPort) -> GpioPort {
    spec_fmc_pin(
        spec_fmc_pin(
            spec_fmc_pin(
                spec_fmc_pin(
                    spec_fmc_pin(
                        spec_fmc_pin(
                            spec_fmc_pin(
                                spec_fmc_pin(
                                    spec_fmc_pin(spec_fmc_pin(spec_fmc_pin(p, 0), 1), 7),
                                    8,
                                ),
                                9,
                            ),
                            10,
                        ),
                        11,
                    ),
                    12,
                ),
                13,
            ),
            14,
        ),
        15,
    )
}

/// Port F after its external-memory pins were configured.
pub open spec fn spec_fmc_port_f(p: GpioPort) -> GpioPort {
    spec_fmc_pin(
        spec_fmc_pin(
            spec_fmc_pin(
                spec_fmc_pin(
                    spec_fmc_pin(
                        spec_fmc_pin(
                            spec_fmc_pin(
                                spec_fmc_pin(
                                    spec_fmc_pin(spec_fmc_pin(spec_fmc_pin(p, 0), 1), 2),
                                    3,
                                ),
                                4,
                            ),
                            5,
                        ),
                        11,
                    ),
                    12,
                ),
                13,
            ),
            14,
        ),
        15,
    )
}

/// Port G after its external-memory pins were configured.
pub open spec fn spec_fmc_port_g(p: GpioPort) -> GpioPort {
    spec_fmc_pin(
        spec_fmc_pin(spec_fmc_pin(spec_fmc_pin(spec_fmc_pin(spec_fmc_pin(p, 0), 1), 4), 5), 8),
        15,
    )
}

/// Route every pin of the external-memory bus to its alternate function:
/// ports B through G are clocked, and each wired pin is put in
/// alternate-function mode at high speed with no pull.
pub fn init_gpios(
    rcc: &mut RccRegs,
    pb: &mut GpioPort,
    pc: &mut GpioPort,
    pd: &mut GpioPort,
    pe: &mut GpioPort,
    pf: &mut GpioPort,
    pg: &mut GpioPort,
)
    ensures
        *final(rcc) == (RccRegs {
            ahb1enr: old(rcc).ahb1enr | (rcc::AHB1_GPIOB | rcc::AHB1_GPIOC | rcc::AHB1_GPIOD
                | rcc::AHB1_GPIOE | rcc::AHB1_GPIOF | rcc::AHB1_GPIOG),
            ..*old(rcc)
        }),
        *final(pb) == spec_fmc_port_b(*old(pb)),
        *final(pc) == spec_fmc_port_c(*old(pc)),
        *final(pd) == spec_fmc_port_d(*old(pd)),
        *final(pe) == spec_fmc_port_e(*old(pe)),
        *final(pf) == spec_fmc_port_f(*old(pf)),
        *final(pg) == spec_fmc_port_g(*old(pg)),
{
    rcc::set_ahb1_periph_clk(
        rcc,
        rcc::AHB1_GPIOB | rcc::AHB1_GPIOC | rcc::AHB1_GPIOD | rcc::AHB1_GPIOE | rcc::AHB1_GPIOF
            | rcc::AHB1_GPIOG,
        true,
    );
    fmc_pin(pb, 5);
    fmc_pin(pb, 6);
    fmc_pin(pc, 0);
    fmc_pin(pd, 0);
    fmc_pin(pd, 1);
    fmc_pin(pd, 8);
    fmc_pin(pd, 9);
    fmc_pin(pd, 10);
    fmc_pin(pd, 14);
    fmc_pin(pd, 15);
    fmc_pin(pe, 0);
    fmc_pin(pe, 1);
    fmc_pin(pe, 7);
    fmc_pin(pe, 8);
    fmc_pin(pe, 9);
    fmc_pin(pe, 10);
    fmc_pin(pe, 11);
    fmc_pin(pe, 12);
    fmc_pin(pe, 13);
    fmc_pin(pe, 14);
    fmc_pin(pe, 15);
    fmc_pin(pf, 0);
    fmc_pin(pf, 1);
    fmc_pin(pf, 2);
    fmc_pin(pf, 3);
    fmc_pin(pf, 4);
    fmc_pin(pf, 5);
    fmc_pin(pf, 11);
    fmc_pin(pf, 12);
    fmc_pin(pf, 13);
    fmc_pin(pf, 14);
    fmc_pin(pf, 15);
    fmc_pin(pg, 0);
    fmc_pin(pg, 1);
    fmc_pin(pg, 4);
    fmc_pin(pg, 5);
    fmc_pin(pg, 8);
    fmc_pin(pg, 15);
}

/// A command word over the previous command-register value: mode, target
/// bank, number of auto-refresh cycles and mode-register payload.
pub open spec fn spec_sdram_cmd(prev: u32, mrd: u32, nrfs: u32, ctb2: bool, mode: u32) -> u32 {
    reg::with_field(
        reg::with_bit(
            reg::with_bit(
                reg::with_field(reg::with_field(prev, 9, 13, mrd), 5, 4, nrfs),
                4,
                false,
            ),
            3,
            ctb2,
        ),
        0,
        3,
        mode,
    )
}

/// Issue one command: wait for the controller to report not-busy, then write
/// the command register, which the model records in the issue history.
#[verifier::loop_isolation(false)]
fn fmc_command(fmc: &mut FmcRegs, mrd: u32, nrfs: u32, ctb2: bool, mode: u32)
    requires
        !reg::get_bit(old(fmc).sdsr, SDSR_BUSY_BIT),
    ensures
        final(fmc).sdcmr == spec_sdram_cmd(old(fmc).sdcmr, mrd, nrfs, ctb2, mode),
        final(fmc).cmds@ == old(fmc).cmds@.push(
            spec_sdram_cmd(old(fmc).sdcmr, mrd, nrfs, ctb2, mode),
        ),
        final(fmc).sdcr1 == old(fmc).sdcr1,
        final(fmc).sdcr2 == old(fmc).sdcr2,
        final(fmc).sdtr1 == old(fmc).sdtr1,
        final(fmc).sdtr2 == old(fmc).sdtr2,
        final(fmc).sdrtr == old(fmc).sdrtr,
        final(fmc).sdsr == old(fmc).sdsr,
{
    while reg::read_bit(fmc.sdsr, SDSR_BUSY_BIT)
        decreases 0int,
    {
    }
    reg::modify_field(&mut fmc.sdcmr, 9, 13, mrd);
    reg::modify_field(&mut fmc.sdcmr, 5, 4, nrfs);
    reg::modify_bit(&mut fmc.sdcmr, 4, false);
    reg::modify_bit(&mut fmc.sdcmr, 3, ctb2);
    reg::modify_field(&mut fmc.sdcmr, 0, 3, mode);
    let issued = fmc.sdcmr;
    fmc.cmds.push(issued);
}

/// The issue history appended by [`init_sequence`]: clock enable, all-banks
/// precharge, two auto-refresh commands, and the mode-register-set command,
/// in that order and no other.
pub open spec fn spec_init_cmds(prev_sdcmr: u32) -> Seq<u32> {
    let c1 = spec_sdram_cmd(prev_sdcmr, 0, 1, true, 0b001);
    let c2 = spec_sdram_cmd(c1, 0, 1, true, 0b010);
    let c3 = spec_sdram_cmd(c2, 0, 4, true, 0b011);
    let c4 = spec_sdram_cmd(c3, 0, 4, true, 0b011);
    let c5 = spec_sdram_cmd(c4, 0x231, 1, true, 0b100);
    seq![c1, c2, c3, c4, c5]
}

/// Run the power-up command sequence of the memory device: clock enable,
/// all-banks precharge, two consecutive auto-refresh commands, and the
/// mode-register-set command carrying burst length, burst type and latency;
/// then program the refresh interval timer and lift write protection.
///
/// Every command is issued only after the controller reports not-busy, and
/// the order must not change; the contract states it over the issue
/// history.  On hardware a fixed delay follows the clock-enable command,
/// which the unverified shell provides.
pub fn init_sequence(fmc: &mut FmcRegs)
    requires
        !reg::get_bit(old(fmc).sdsr, SDSR_BUSY_BIT),
    ensures
        final(fmc).cmds@ == old(fmc).cmds@ + spec_init_cmds(old(fmc).sdcmr),
        final(fmc).sdcmr == spec_init_cmds(old(fmc).sdcmr)[4],
        final(fmc).sdrtr == reg::with_field(old(fmc).sdrtr, 1, 13, 1366),
        final(fmc).sdcr2 == reg::with_bit(old(fmc).sdcr2, 9, false),
        final(fmc).sdcr1 == old(fmc).sdcr1,
        final(fmc).sdtr1 == old(fmc).sdtr1,
        final(fmc).sdtr2 == old(fmc).sdtr2,
        final(fmc).sdsr == old(fmc).sdsr,
{
    fmc_command(fmc, 0, 1, true, 0b001);
    fmc_command(fmc, 0, 1, true, 0b010);
    fmc_command(fmc, 0, 4, true, 0b011);
    fmc_command(fmc, 0, 4, true, 0b011);
    fmc_command(fmc, 0x231, 1, true, 0b100);
    reg::modify_field(&mut fmc.sdrtr, 1, 13, 1366);
    reg::modify_bit(&mut fmc.sdcr2, 9, false);
    proof {
        assert(final(fmc).cmds@ =~= old(fmc).cmds@ + spec_init_cmds(old(fmc).sdcmr));
    }
}

/// Bring the external memory up: route the bus pins, program the
/// controller's control and timing registers, then run the power-up command
/// sequence.
///
/// The control registers select one clock-cycle read pipe delay, a clock at
/// half the bus rate, three-cycle latency, four internal banks, a 16-bit
/// data bus, twelve row and eight column address bits; the timing registers
/// hold the precharge, activate, refresh and mode-register-set cycle
/// counts.
pub fn init(
    rcc: &mut RccRegs,
    fmc: &mut FmcRegs,
    pb: &mut GpioPort,
    pc: &mut GpioPort,
    pd: &mut GpioPort,
    pe: &mut GpioPort,
    pf: &mut GpioPort,
    pg: &mut GpioPort,
)
    requires
        !reg::get_bit(old(fmc).sdsr, SDSR_BUSY_BIT),
    ensures
        *final(rcc) == (RccRegs {
            ahb1enr: old(rcc).ahb1enr | (rcc::AHB1_GPIOB | rcc::AHB1_GPIOC | rcc::AHB1_GPIOD
                | rcc::AHB1_GPIOE | rcc::AHB1_GPIOF | rcc::AHB1_GPIOG),
            ahb3enr: rcc::AHB3_FMC,
            ..*old(rcc)
        }),
        *final(pb) == spec_fmc_port_b(*old(pb)),
        *final(pc) == spec_fmc_port_c(*old(pc)),
        *final(pd) == spec_fmc_port_d(*old(pd)),
        *final(pe) == spec_fmc_port_e(*old(pe)),
        *final(pf) == spec_fmc_port_f(*old(pf)),
        *final(pg) == spec_fmc_port_g(*old(pg)),
        final(fmc).sdcr1 == reg::with_field(
            reg::with_bit(reg::with_field(old(fmc).sdcr1, 13, 2, 0b01), 12, false),
            10,
            2,
            0b10,
        ),
        final(fmc).sdcr2 == reg::with_bit(spec_sdcr2_cfg(old(fmc).sdcr2), 9, false),
        final(fmc).sdtr1 == reg::with_field(
            reg::with_field(old(fmc).sdtr1, 20, 4, 2),
            12,
            4,
            7,
        ),
        final(fmc).sdtr2 == spec_sdtr2_cfg(old(fmc).sdtr2),
        final(fmc).cmds@ == old(fmc).cmds@ + spec_init_cmds(old(fmc).sdcmr),
        final(fmc).sdcmr == spec_init_cmds(old(fmc).sdcmr)[4],
        final(fmc).sdrtr == reg::with_field(old(fmc).sdrtr, 1, 13, 1366),
        final(fmc).sdsr == old(fmc).sdsr,
{
    init_gpios(rcc, pb, pc, pd, pe, pf, pg);
    // The controller's clock domain; a full write, so the other enables of
    // its bus are cleared.
    rcc.ahb3enr = rcc::AHB3_FMC;
    reg::modify_field(&mut fmc.sdcr1, 13, 2, 0b01);
    reg::modify_bit(&mut fmc.sdcr1, 12, false);
    reg::modify_field(&mut fmc.sdcr1, 10, 2, 0b10);
    reg::modify_field(&mut fmc.sdcr2, 7, 2, 0b11);
    reg::modify_bit(&mut fmc.sdcr2, 6, true);
    reg::modify_field(&mut fmc.sdcr2, 4, 2, 0b01);
    reg::modify_field(&mut fmc.sdcr2, 2, 2, 0b01);
    reg::modify_field(&mut fmc.sdcr2, 0, 2, 0b00);
    reg::modify_field(&mut fmc.sdtr1, 20, 4, 2);
    reg::modify_field(&mut fmc.sdtr1, 12, 4, 7);
    reg::modify_field(&mut fmc.sdtr2, 24, 4, 2);
    reg::modify_field(&mut fmc.sdtr2, 16, 4, 2);
    reg::modify_field(&mut fmc.sdtr2, 8, 4, 4);
    reg::modify_field(&mut fmc.sdtr2, 4, 4, 7);
    reg::modify_field(&mut fmc.sdtr2, 0, 4, 2);
    init_sequence(fmc);
}

/// The second control register after the bring-up values, before write
/// protection is lifted.
pub open spec fn spec_sdcr2_cfg(prev: u32) -> u32 {
    reg::with_field(
        reg::with_field(
            reg::with_field(
                reg::with_bit(reg::with_field(prev, 7, 2, 0b11), 6, true),
                4,
                2,
                0b01,
            ),
            2,
            2,
            0b01,
        ),
        0,
        2,
        0b00,
    )
}

/// The second timing register after the bring-up values.
pub open spec fn spec_sdtr2_cfg(prev: u32) -> u32 {
    reg::with_field(
        reg::with_field(
            reg::with_field(reg::with_field(reg::with_field(prev, 24, 4, 2), 16, 4, 2), 8, 4, 4),
            4,
            4,
            7,
        ),
        0,
        4,
        2,
    )
}

/// The bank contents after `data` was stored word-by-word from word index
/// `start`.
pub open spec fn spec_store_words(w: Seq<u32>, start: int, data: Seq<u32>) -> Seq<u32> {
    Seq::new(
        w.len(),
        |i: int|
            if start <= i < start + data.len() {
                data[i - start]
            } else {
                w[i]
            },
    )
}

/// The `n` words of the bank starting at word index `start`.
pub open spec fn spec_read_words(w: Seq<u32>, start: int, n: nat) -> Seq<u32> {
    Seq::new(n, |i: int| w[start + i])
}

/// Copy `buf` into the bank at byte offset `addr`.
///
/// The access fails before any memory is touched when it runs past the end
/// of the bank (carrying the exact overrun byte count) or when the offset is
/// not 4-byte aligned (carrying the next aligned offset); it fails after the
/// not-busy wait when the controller reports a missed refresh cycle.
/// Otherwise the words are stored in order and every word outside the span
/// keeps its value.
#[verifier::loop_isolation(false)]
pub fn write_buffer(bank: &mut SdRamBank, fmc: &FmcRegs, buf: &[u32], addr: u32) -> (r: Result<
    (),
    SdRamError,
>)
    requires
        old(bank).wf(),
        addr + buf@.len() * 4 <= u32::MAX,
        addr + buf@.len() * 4 <= SDRAM_SIZE && addr % 4 == 0 ==> !reg::get_bit(
            fmc.sdsr,
            SDSR_BUSY_BIT,
        ),
    ensures
        final(bank).wf(),
        addr + buf@.len() * 4 > SDRAM_SIZE ==> r == Err::<(), SdRamError>(
            SdRamError::OutOfBoundsAccess((addr + buf@.len() * 4 - SDRAM_SIZE) as u32),
        ) && *final(bank) == *old(bank),
        addr + buf@.len() * 4 <= SDRAM_SIZE && addr % 4 != 0 ==> r == Err::<(), SdRamError>(
            SdRamError::UnalignedAccess((addr + (4 - addr % 4)) as u32),
        ) && *final(bank) == *old(bank),
        addr + buf@.len() * 4 <= SDRAM_SIZE && addr % 4 == 0 && reg::get_bit(
            fmc.sdsr,
            SDSR_RE_BIT,
        ) ==> r == Err::<(), SdRamError>(SdRamError::RefreshError) && *final(bank) == *old(bank),
        addr + buf@.len() * 4 <= SDRAM_SIZE && addr % 4 == 0 && !reg::get_bit(
            fmc.sdsr,
            SDSR_RE_BIT,
        ) ==> r == Ok::<(), SdRamError>(()) && final(bank).words@ == spec_store_words(
            old(bank).words@,
            addr as int / 4,
            buf@,
        ),
{
    let len: usize = buf.len();
    let end: u32 = addr + (len as u32) * 4;
    if end > SDRAM_SIZE {
        return Err(SdRamError::OutOfBoundsAccess(end - SDRAM_SIZE));
    }
    let align: u32 = addr % 4;
    if align != 0 {
        return Err(SdRamError::UnalignedAccess(addr + (4 - align)));
    }
    while reg::read_bit(fmc.sdsr, SDSR_BUSY_BIT)
        decreases 0int,
    {
    }
    if reg::read_bit(fmc.sdsr, SDSR_RE_BIT) {
        return Err(SdRamError::RefreshError);
    }
    let start: usize = (addr / 4) as usize;
    let mut i: usize = 0;
    while i < len
        invariant
            i <= len,
            bank.words@.len() == SDRAM_WORDS,
            forall|j: int|
                0 <= j < SDRAM_WORDS && !(start <= j < start + i) ==> bank.words@[j] == old(
                    bank,
                ).words@[j],
            forall|j: int| 0 <= j < i ==> bank.words@[start + j] == buf@[j],
        decreases len - i,
    {
        let w: u32 = buf[i];
        bank.words[start + i] = w;
        i = i + 1;
    }
    proof {
        assert(final(bank).words@ =~= spec_store_words(old(bank).words@, addr as int / 4, buf@));
    }
    Ok(())
}

/// Fill `buf` from the bank at byte offset `addr`, reading as many words as
/// `buf` holds.
///
/// The access fails before any memory is touched when it runs past the end
/// of the bank (carrying the exact overrun byte count) or when the offset is
/// not 4-byte aligned (carrying the next aligned offset); otherwise, after
/// the not-busy wait, the words are copied in order.
#[verifier::loop_isolation(false)]
pub fn read_buffer(bank: &SdRamBank, fmc: &FmcRegs, buf: &mut Vec<u32>, addr: u32) -> (r: Result<
    (),
    SdRamError,
>)
    requires
        bank.wf(),
        addr + old(buf)@.len() * 4 <= u32::MAX,
        addr + old(buf)@.len() * 4 <= SDRAM_SIZE && addr % 4 == 0 ==> !reg::get_bit(
            fmc.sdsr,
            SDSR_BUSY_BIT,
        ),
    ensures
        addr + old(buf)@.len() * 4 > SDRAM_SIZE ==> r == Err::<(), SdRamError>(
            SdRamError::OutOfBoundsAccess((addr + old(buf)@.len() * 4 - SDRAM_SIZE) as u32),
        ) && *final(buf) == *old(buf),
        addr + old(buf)@.len() * 4 <= SDRAM_SIZE && addr % 4 != 0 ==> r == Err::<(), SdRamError>(
            SdRamError::UnalignedAccess((addr + (4 - addr % 4)) as u32),
        ) && *final(buf) == *old(buf),
        addr + old(buf)@.len() * 4 <= SDRAM_SIZE && addr % 4 == 0 ==> r == Ok::<(), SdRamError>(())
            && final(buf)@ == spec_read_words(bank.words@, addr as int / 4, old(buf)@.len()),
        final(buf)@.len() == old(buf)@.len(),
{
    let len: usize = buf.len();
    let end: u32 = addr + (len as u32) * 4;
    if end > SDRAM_SIZE {
        return Err(SdRamError::OutOfBoundsAccess(end - SDRAM_SIZE));
    }
    let align: u32 = addr % 4;
    if align != 0 {
        return Err(SdRamError::UnalignedAccess(addr + (4 - align)));
    }
    while reg::read_bit(fmc.sdsr, SDSR_BUSY_BIT)
        decreases 0int,
    {
    }
    let start: usize = (addr / 4) as usize;
    let mut i: usize = 0;
    while i < len
        invariant
            i <= len,
            buf@.len() == len,
            forall|j: int| 0 <= j < i ==> buf@[j] == bank.words@[start + j],
        decreases len - i,
    {
        let w: u32 = bank.words[start + i];
        buf[i] = w;
        i = i + 1;
    }
    proof {
        assert(final(buf)@ =~= spec_read_words(bank.words@, addr as int / 4, old(buf)@.len()));
    }
    Ok(())
}

/// Law: a buffer written to a valid, aligned, in-bounds offset and read back
/// over the same span reproduces the written values exactly.
pub proof fn lemma_write_read_roundtrip(w: Seq<u32>, data: Seq<u32>, start: int)
    requires
        0 <= start,
        start + data.len() <= w.len(),
    ensures
        spec_read_words(spec_store_words(w, start, data), start, data.len()) == data,
{
    assert(spec_read_words(spec_store_words(w, start, data), start, data.len()) =~= data);
}

} // verus!
