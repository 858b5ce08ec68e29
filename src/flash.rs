//! Flash interface: a model of the FLASH registers as decoded fields,
//! with the lock and option-lock sequences as ownership of handles.
use crate::pwr::Vos;
use crate::signature::FlashSize;
use crate::time::Hertz;
use vstd::prelude::*;

verus! {

/// Total number of pages, indexed 0 to 255.
pub const NUM_PAGES: usize = 256;

/// Page size in bytes.
pub const PAGE_SIZE: usize = 0x0000_1000;

/// Address of the first flash byte.
pub const FLASH_BASE_ADDR: usize = 0x0800_0000;

/// Address of the last flash byte of a device with `size` of flash.
pub fn flash_end(size: &FlashSize) -> (r: usize)
    ensures
        r == FLASH_BASE_ADDR + size.spec_kilo_bytes() * 1024 - 1,
{
    FLASH_BASE_ADDR + size.bytes() - 1
}

/// The two unique-id words of the flash.
#[derive(Clone, Copy, Debug)]
pub struct FlashUid {
    pub reg_1: u32,
    pub reg_2: u32,
}

impl FlashUid {
    pub fn uid(&self) -> (r: u32)
        ensures
            r == self.reg_1,
    {
        self.reg_1
    }

    /// Low byte of the second word.
    pub fn dev_id(&self) -> (r: u8)
        ensures
            r == self.reg_2 % 256,
    {
        let w = self.reg_2;
        let v = w & 0xFF;
        assert(v == w % 256) by (bit_vector)
            requires
                v == w & 0xFF,
        ;
        v as u8
    }

    /// Upper three bytes of the second word.
    pub fn manufacturer(&self) -> (r: u32)
        ensures
            r == self.reg_2 / 256,
    {
        let w = self.reg_2;
        let v = (w & 0xFFFF_FF00) >> 8;
        assert(v == w / 256) by (bit_vector)
            requires
                v == (w & 0xFFFF_FF00) >> 8,
        ;
        v
    }

    /// Both words as one, the first one high.
    pub fn uid64(&self) -> (r: u64)
        ensures
            r == self.reg_1 as u64 * 0x1_0000_0000 + self.reg_2 as u64,
    {
        let a = self.reg_1 as u64;
        let b = self.reg_2 as u64;
        let v = (a << 32u64) | b;
        assert(v == a * 0x1_0000_0000 + b) by (bit_vector)
            requires
                v == (a << 32u64) | b,
                a < 0x1_0000_0000,
                b < 0x1_0000_0000,
        ;
        v
    }
}

/// Why a flash operation failed.
pub enum Error {
    /// Program or erase operation suspended.
    OperationSuspended,
    /// Access to secured pages.
    SecureFlashError,
    /// Error with the status register.
    Status(Status),
}

/// Why a cache reset was refused.
#[derive(Clone, Copy, Debug, PartialEq, Eq, Structural)]
pub enum ConfigError {
    CacheEnabled,
}

/// Status register flags.
#[derive(Clone, Copy, Debug, PartialEq, Eq, Structural)]
pub struct FlashSr {
    pub bsy: bool,
    pub eop: bool,
    pub pesd: bool,
    pub sizerr: bool,
    pub miserr: bool,
    pub fasterr: bool,
    pub wrperr: bool,
    pub pgaerr: bool,
    pub pgserr: bool,
    pub progerr: bool,
}

/// A status register snapshot.
#[derive(Clone, Copy, Debug, PartialEq, Eq, Structural)]
pub struct Status {
    pub r: FlashSr,
}

impl Status {
    /// The status register.
    pub fn r(&self) -> (r: &FlashSr)
        ensures
            *r == self.r,
    {
        &self.r
    }

    /// Any programming error flag is set.
    pub fn prog_err(&self) -> (r: bool)
        ensures
            r == (self.r.sizerr || self.r.miserr || self.r.fasterr || self.r.wrperr
                || self.r.pgaerr || self.r.pgserr || self.r.progerr),
    {
        self.r.sizerr || self.r.miserr || self.r.fasterr || self.r.wrperr || self.r.pgaerr
            || self.r.pgserr || self.r.progerr
    }
}

/// Access control register.
#[derive(Clone, Copy, Debug, PartialEq, Eq, Structural)]
pub struct FlashAcr {
    pub latency: Latency,
    pub prften: bool,
    pub icen: bool,
    pub icrst: bool,
    pub dcen: bool,
    pub dcrst: bool,
    pub pes: bool,
    pub empty: bool,
}

/// Control register.
#[derive(Clone, Copy, Debug, PartialEq, Eq, Structural)]
pub struct FlashCr {
    pub lock: bool,
    pub optlock: bool,
    pub obl_launch: bool,
    pub pnb: u8,
    pub mer: bool,
    pub per: bool,
    pub pg: bool,
    pub fstpg: bool,
    pub strt: bool,
}

/// Option registers.
#[derive(Clone, Copy, Debug, PartialEq, Eq, Structural)]
pub struct FlashOptions {
    pub rdp: RdpLevel,
    pub ese: bool,
    pub bor_lev: BorResetLevel,
    pub n_rst_stop: bool,
    pub n_rst_stdby: bool,
    pub n_rst_shdw: bool,
    pub idwg_sw: bool,
    pub iwdg_stop: bool,
    pub iwdg_stdby: bool,
    pub wwdg_sw: bool,
    pub n_boot1: bool,
    pub sram2_pe: bool,
    pub sram2_rst: bool,
    pub n_swboot0: bool,
    pub n_boot0: bool,
    pub agc_trim: u8,
    pub pcrop_rdp: bool,
    pub pcrop1a_strt: u16,
    pub pcrop1a_end: u16,
    pub pcrop1b_strt: u16,
    pub pcrop1b_end: u16,
    pub wrp1a_strt: u8,
    pub wrp1a_end: u8,
    pub wrp1b_strt: u8,
    pub wrp1b_end: u8,
    pub ipccdba: u16,
    pub fsd: bool,
    pub dds: bool,
    pub sfsa: u8,
    pub c2opt: bool,
    pub sbrv: u32,
    pub sbrsa: u8,
    pub brsd: bool,
    pub snbrsa: u8,
    pub nbrsd: bool,
}

/// Something that can be turned into the flash handle.
pub trait FlashExt {
    fn constrain(self) -> Flash;
}

/// The flash: its registers and its size.
#[derive(Clone, Copy, Debug, PartialEq, Eq, Structural)]
pub struct Flash {
    pub acr: FlashAcr,
    pub cr: FlashCr,
    pub sr: FlashSr,
    pub options: FlashOptions,
    pub size: FlashSize,
    pub uid: FlashUid2,
}

/// The unique-id words as held by the flash handle.
#[derive(Clone, Copy, Debug, PartialEq, Eq, Structural)]
pub struct FlashUid2 {
    pub reg_1: u32,
    pub reg_2: u32,
}

impl Flash {
    pub fn new(acr: FlashAcr, cr: FlashCr, sr: FlashSr, options: FlashOptions, size: FlashSize, uid: FlashUid2) -> (r: Flash)
        ensures
            r == (Flash { acr, cr, sr, options, size, uid }),
    {
        Flash { acr, cr, sr, options, size, uid }
    }

    pub fn address(&self) -> (r: usize)
        ensures
            r == FLASH_BASE_ADDR,
    {
        FLASH_BASE_ADDR
    }

    /// Size of the flash in bytes.
    pub fn len(&self) -> (r: usize)
        ensures
            r == self.size.spec_kilo_bytes() * 1024,
    {
        self.size.bytes()
    }

    /// The page holding byte `offset`, if `offset` is inside the flash and
    /// the page number fits a byte.
    pub fn page(&self, offset: usize) -> (r: Option<u8>)
        ensures
            r == (if offset >= self.size.spec_kilo_bytes() * 1024 || offset / PAGE_SIZE >= 256 {
                None
            } else {
                Some((offset / PAGE_SIZE) as u8)
            }),
    {
        if offset >= self.len() {
            return None;
        }
        let p = offset / PAGE_SIZE;
        if p >= 256 {
            None
        } else {
            Some(p as u8)
        }
    }

    /// The 64-bit unique id.
    pub fn uid(&self) -> (r: u64)
        ensures
            r == self.uid.reg_1 as u64 * 0x1_0000_0000 + self.uid.reg_2 as u64,
    {
        let u = FlashUid { reg_1: self.uid.reg_1, reg_2: self.uid.reg_2 };
        u.uid64()
    }

    /// Unlocks the flash with the key sequence.
    pub fn unlock(&mut self)
        ensures
            *final(self) == (Flash { cr: FlashCr { lock: false, ..old(self).cr }, ..*old(self) }),
    {
        self.cr = FlashCr { lock: false, ..self.cr };
    }

    /// Locks the flash.
    pub fn lock(&mut self)
        ensures
            *final(self) == (Flash { cr: FlashCr { lock: true, ..old(self).cr }, ..*old(self) }),
    {
        self.cr = FlashCr { lock: true, ..self.cr };
    }

    /// A handle to the unlocked flash, which locks it again when given back.
    pub fn unlocked(self) -> (r: UnlockedFlash)
        ensures
            r.flash == (Flash { cr: FlashCr { lock: false, ..self.cr }, ..self }),
            r.autolock,
    {
        let mut f = self;
        if f.cr.lock {
            f.unlock();
        }
        UnlockedFlash { flash: f, autolock: true }
    }

    /// A handle to the flash, which must be unlocked already; it is not
    /// locked when given back.
    pub fn as_unlocked(self) -> (r: UnlockedFlash)
        requires
            !self.cr.lock,
        ensures
            r.flash == self,
            !r.autolock,
    {
        UnlockedFlash { flash: self, autolock: false }
    }

    /// Launches the option byte loading.
    pub fn load_option_bytes(&mut self)
        ensures
            *final(self) == (Flash { cr: FlashCr { obl_launch: true, ..old(self).cr }, ..*old(self) }),
    {
        self.cr = FlashCr { obl_launch: true, ..self.cr };
    }

    /// Prefetch.
    pub fn prefetch_enable(&mut self, en: bool)
        ensures
            *final(self) == (Flash { acr: FlashAcr { prften: en, ..old(self).acr }, ..*old(self) }),
    {
        self.acr = FlashAcr { prften: en, ..self.acr };
    }

    /// Instruction cache.
    pub fn instruction_cache_enable(&mut self, en: bool)
        ensures
            *final(self) == (Flash { acr: FlashAcr { icen: en, ..old(self).acr }, ..*old(self) }),
    {
        self.acr = FlashAcr { icen: en, ..self.acr };
    }

    /// Data cache.
    pub fn data_cache_enable(&mut self, en: bool)
        ensures
            *final(self) == (Flash { acr: FlashAcr { dcen: en, ..old(self).acr }, ..*old(self) }),
    {
        self.acr = FlashAcr { dcen: en, ..self.acr };
    }

    /// Suspends programming and erasing.
    pub fn suspend_programming_erase(&mut self, suspend: bool)
        ensures
            *final(self) == (Flash { acr: FlashAcr { pes: suspend, ..old(self).acr }, ..*old(self) }),
    {
        self.acr = FlashAcr { pes: suspend, ..self.acr };
    }

    /// Resets the instruction cache; refused while the cache is on. The
    /// reset bit is pulsed and ends cleared.
    pub fn instruction_cache_reset(&mut self) -> (r: Result<(), ConfigError>)
        ensures
            (r is Err) == old(self).acr.icen,
            r is Err ==> r == Err::<(), ConfigError>(ConfigError::CacheEnabled) && *final(self) == *old(self),
            r is Ok ==> *final(self) == (Flash { acr: FlashAcr { icrst: false, ..old(self).acr }, ..*old(self) }),
    {
        if self.acr.icen {
            return Err(ConfigError::CacheEnabled);
        }
        self.acr = FlashAcr { icrst: true, ..self.acr };
        self.acr = FlashAcr { icrst: false, ..self.acr };
        Ok(())
    }

    /// Resets the data cache; refused while the cache is on. The reset bit
    /// is pulsed and ends cleared.
    pub fn data_cache_reset(&mut self) -> (r: Result<(), ConfigError>)
        ensures
            (r is Err) == old(self).acr.dcen,
            r is Err ==> r == Err::<(), ConfigError>(ConfigError::CacheEnabled) && *final(self) == *old(self),
            r is Ok ==> *final(self) == (Flash { acr: FlashAcr { dcrst: false, ..old(self).acr }, ..*old(self) }),
    {
        if self.acr.dcen {
            return Err(ConfigError::CacheEnabled);
        }
        self.acr = FlashAcr { dcrst: true, ..self.acr };
        self.acr = FlashAcr { dcrst: false, ..self.acr };
        Ok(())
    }

    /// The flash reads as erased.
    pub fn is_empty(&self) -> (r: bool)
        ensures
            r == self.acr.empty,
    {
        self.acr.empty
    }

    /// The configured wait states.
    pub fn latency(&self) -> (r: Latency)
        ensures
            r == self.acr.latency,
    {
        self.acr.latency
    }

    /// Sets the wait states.
    pub fn set_latency(&mut self, latency: Latency)
        ensures
            *final(self) == (Flash { acr: FlashAcr { latency, ..old(self).acr }, ..*old(self) }),
    {
        self.acr = FlashAcr { latency, ..self.acr };
    }
}

/// The flash while unlocked.
pub struct UnlockedFlash {
    pub flash: Flash,
    pub autolock: bool,
}

impl UnlockedFlash {
    /// Gives the flash back, locked again if this handle locks on return.
    pub fn relock(self) -> (r: Flash)
        ensures
            r == (if self.autolock {
                Flash { cr: FlashCr { lock: true, ..self.flash.cr }, ..self.flash }
            } else {
                self.flash
            }),
    {
        let mut f = self.flash;
        if self.autolock {
            f.lock();
        }
        f
    }

    /// Unlocks the option bytes with the key sequence.
    pub fn options_unlocked(self) -> (r: OptionsUnlocked)
        ensures
            r.flash.flash == (Flash { cr: FlashCr { optlock: false, ..self.flash.cr }, ..self.flash }),
            r.flash.autolock == self.autolock,
    {
        let mut u = self;
        u.flash.cr = FlashCr { optlock: false, ..u.flash.cr };
        OptionsUnlocked { flash: u }
    }
}

/// Little-endian 32-bit value of the four bytes of `d` from `i` on.
pub open spec fn le32(d: Seq<u8>, i: int) -> int {
    d[i] as int + 256 * d[i + 1] as int + 65536 * d[i + 2] as int + 16777216 * d[i + 3] as int
}

/// The status register after writing its flags back, which clears every
/// error and end-of-operation flag that was set.
pub open spec fn cleared(sr: FlashSr) -> FlashSr {
    FlashSr {
        eop: false,
        sizerr: false,
        miserr: false,
        fasterr: false,
        wrperr: false,
        pgaerr: false,
        pgserr: false,
        progerr: false,
        ..sr
    }
}

/// `data` as little-endian words, four bytes each.
pub fn le_words(data: &[u8]) -> (r: Vec<u32>)
    requires
        data@.len() % 4 == 0,
    ensures
        r@.len() == data@.len() / 4,
        forall|k: int| 0 <= k < r@.len() ==> r@[k] as int == le32(data@, 4 * k),
{
    let mut out: Vec<u32> = Vec::new();
    let mut i: usize = 0;
    while i < data.len()
        invariant
            data@.len() % 4 == 0,
            i % 4 == 0,
            i <= data@.len(),
            out@.len() == i / 4,
            forall|k: int| 0 <= k < out@.len() ==> out@[k] as int == le32(data@, 4 * k),
        decreases data@.len() - i,
    {
        let w = data[i] as u32 + 256 * data[i + 1] as u32 + 65536 * data[i + 2] as u32
            + 16777216 * data[i + 3] as u32;
        out.push(w);
        proof {
            assert(out@[out@.len() - 1] as int == le32(data@, 4 * (i / 4) as int));
        }
        i = i + 4;
    }
    out
}

impl UnlockedFlash {
    /// Writes the status flags back, clearing those that were set.
    pub fn clear_sr(&mut self)
        ensures
            final(self).flash == (Flash { sr: cleared(old(self).flash.sr), ..old(self).flash }),
            final(self).autolock == old(self).autolock,
    {
        self.flash.sr = FlashSr {
            eop: false,
            sizerr: false,
            miserr: false,
            fasterr: false,
            wrperr: false,
            pgaerr: false,
            pgserr: false,
            progerr: false,
            ..self.flash.sr
        };
    }

    /// Starts erasing page `page`, unless an operation is suspended.
    pub fn page_erase(&mut self, page: u8) -> (r: Result<(), Error>)
        ensures
            (r is Err) == old(self).flash.sr.pesd,
            r is Err ==> (r matches Err(Error::OperationSuspended) && final(self).flash == old(self).flash),
            r is Ok ==> final(self).flash == (Flash {
                sr: cleared(old(self).flash.sr),
                cr: FlashCr { pnb: page, mer: false, per: true, pg: false, fstpg: false, strt: true, ..old(self).flash.cr },
                ..old(self).flash
            }),
            final(self).autolock == old(self).autolock,
    {
        if self.flash.sr.pesd {
            return Err(Error::OperationSuspended);
        }
        self.clear_sr();
        self.flash.cr = FlashCr { pnb: page, mer: false, per: true, pg: false, fstpg: false, strt: true, ..self.flash.cr };
        Ok(())
    }

    /// Starts erasing the whole flash.
    pub fn mass_erase(&mut self)
        ensures
            final(self).flash == (Flash {
                sr: cleared(old(self).flash.sr),
                cr: FlashCr { mer: true, per: false, pg: false, fstpg: false, strt: true, ..old(self).flash.cr },
                ..old(self).flash
            }),
            final(self).autolock == old(self).autolock,
    {
        self.clear_sr();
        self.flash.cr = FlashCr { mer: true, per: false, pg: false, fstpg: false, strt: true, ..self.flash.cr };
    }

    /// Enters standard programming and returns the words to write from
    /// `offset` on: `data` must be whole double words at a double-word
    /// offset.
    pub fn program(&mut self, offset: usize, data: &[u8]) -> (r: Vec<u32>)
        requires
            data@.len() % 8 == 0,
            offset % 8 == 0,
        ensures
            final(self).flash == (Flash {
                sr: cleared(old(self).flash.sr),
                cr: FlashCr { pg: true, per: false, mer: false, fstpg: false, ..old(self).flash.cr },
                ..old(self).flash
            }),
            final(self).autolock == old(self).autolock,
            r@.len() == data@.len() / 4,
            forall|k: int| 0 <= k < r@.len() ==> r@[k] as int == le32(data@, 4 * k),
    {
        self.clear_sr();
        self.flash.cr = FlashCr { pg: true, per: false, mer: false, fstpg: false, ..self.flash.cr };
        le_words(data)
    }

    /// Fast programming: requests a mass erase of the whole flash, then
    /// enters fast programming, and returns the words to write from
    /// `offset` on. `data` must be whole rows of 512 bytes at a row offset;
    /// the caller waits for the erase to end before writing the rows.
    pub fn fast_program(&mut self, offset: usize, data: &[u8]) -> (r: Vec<u32>)
        requires
            data@.len() % 512 == 0,
            offset % 512 == 0,
        ensures
            final(self).flash == (Flash {
                sr: cleared(old(self).flash.sr),
                cr: FlashCr { mer: false, per: false, pg: false, fstpg: true, strt: true, ..old(self).flash.cr },
                ..old(self).flash
            }),
            final(self).autolock == old(self).autolock,
            r@.len() == data@.len() / 4,
            forall|k: int| 0 <= k < r@.len() ==> r@[k] as int == le32(data@, 4 * k),
    {
        self.mass_erase();
        self.clear_sr();
        self.flash.cr = FlashCr { fstpg: true, pg: false, mer: false, per: false, ..self.flash.cr };
        le_words(data)
    }

    /// After a write has finished: acknowledges the end of operation, or
    /// fails with the status register when it did not end.
    pub fn end_of_write(&mut self) -> (r: Result<(), Error>)
        ensures
            (r is Ok) == old(self).flash.sr.eop,
            r is Ok ==> final(self).flash == (Flash { sr: FlashSr { eop: false, ..old(self).flash.sr }, ..old(self).flash }),
            r is Err ==> final(self).flash == old(self).flash && (r matches Err(Error::Status(s)) && s.r == old(self).flash.sr),
            final(self).autolock == old(self).autolock,
    {
        if self.flash.sr.eop {
            self.flash.sr = FlashSr { eop: false, ..self.flash.sr };
            Ok(())
        } else {
            Err(Error::Status(Status { r: self.flash.sr }))
        }
    }

    /// Leaves standard and fast programming.
    pub fn end_programming(&mut self)
        ensures
            final(self).flash == (Flash { cr: FlashCr { pg: false, fstpg: false, ..old(self).flash.cr }, ..old(self).flash }),
            final(self).autolock == old(self).autolock,
    {
        self.flash.cr = FlashCr { pg: false, fstpg: false, ..self.flash.cr };
    }
}

/// The flash with its option bytes unlocked.
pub struct OptionsUnlocked {
    pub flash: UnlockedFlash,
}

/// `f` with option registers `o`.
pub open spec fn with_options(u: UnlockedFlash, o: FlashOptions) -> UnlockedFlash {
    UnlockedFlash { flash: Flash { options: o, ..u.flash }, ..u }
}

impl OptionsUnlocked {
    /// Locks the option bytes again and gives the unlocked flash back.
    pub fn lock_options(self) -> (r: UnlockedFlash)
        ensures
            r.flash == (Flash { cr: FlashCr { optlock: true, ..self.flash.flash.cr }, ..self.flash.flash }),
            r.autolock == self.flash.autolock,
    {
        let mut u = self.flash;
        u.flash.cr = FlashCr { optlock: true, ..u.flash.cr };
        u
    }

    /// Read protection level.
    pub fn read_protection(&mut self, rdp: RdpLevel)
        ensures
            final(self).flash == with_options(old(self).flash, FlashOptions { rdp: rdp, ..old(self).flash.flash.options }),
    {
        self.flash.flash.options = FlashOptions { rdp: rdp, ..self.flash.flash.options };
    }

    /// System security.
    pub fn system_security_enabled(&mut self, en: bool)
        ensures
            final(self).flash == with_options(old(self).flash, FlashOptions { ese: en, ..old(self).flash.flash.options }),
    {
        self.flash.flash.options = FlashOptions { ese: en, ..self.flash.flash.options };
    }

    /// Brown-out reset threshold.
    pub fn bor_level(&mut self, level: BorResetLevel)
        ensures
            final(self).flash == with_options(old(self).flash, FlashOptions { bor_lev: level, ..old(self).flash.flash.options }),
    {
        self.flash.flash.options = FlashOptions { bor_lev: level, ..self.flash.flash.options };
    }

    /// Reset on entering stop mode.
    pub fn reset_on_stop(&mut self, rst: bool)
        ensures
            final(self).flash == with_options(old(self).flash, FlashOptions { n_rst_stop: !rst, ..old(self).flash.flash.options }),
    {
        self.flash.flash.options = FlashOptions { n_rst_stop: !rst, ..self.flash.flash.options };
    }

    /// Reset on entering standby mode.
    pub fn reset_on_standby(&mut self, rst: bool)
        ensures
            final(self).flash == with_options(old(self).flash, FlashOptions { n_rst_stdby: !rst, ..old(self).flash.flash.options }),
    {
        self.flash.flash.options = FlashOptions { n_rst_stdby: !rst, ..self.flash.flash.options };
    }

    /// Reset on entering shutdown mode.
    pub fn reset_on_shutdown(&mut self, rst: bool)
        ensures
            final(self).flash == with_options(old(self).flash, FlashOptions { n_rst_shdw: !rst, ..old(self).flash.flash.options }),
    {
        self.flash.flash.options = FlashOptions { n_rst_shdw: !rst, ..self.flash.flash.options };
    }

    /// Independent watchdog started by software or hardware.
    pub fn independent_watchdog(&mut self, wd: Watchdog)
        ensures
            final(self).flash == with_options(old(self).flash, FlashOptions { idwg_sw: wd == Watchdog::Software, ..old(self).flash.flash.options }),
    {
        self.flash.flash.options = FlashOptions { idwg_sw: wd == Watchdog::Software, ..self.flash.flash.options };
    }

    /// Independent watchdog counter in stop mode.
    pub fn independent_watchdog_counter_stop(&mut self, cnt: WatchdogCounter)
        ensures
            final(self).flash == with_options(old(self).flash, FlashOptions { iwdg_stop: cnt == WatchdogCounter::Running, ..old(self).flash.flash.options }),
    {
        self.flash.flash.options = FlashOptions { iwdg_stop: cnt == WatchdogCounter::Running, ..self.flash.flash.options };
    }

    /// Independent watchdog counter in standby mode.
    pub fn independent_watchdog_counter_standby(&mut self, cnt: WatchdogCounter)
        ensures
            final(self).flash == with_options(old(self).flash, FlashOptions { iwdg_stdby: cnt == WatchdogCounter::Running, ..old(self).flash.flash.options }),
    {
        self.flash.flash.options = FlashOptions { iwdg_stdby: cnt == WatchdogCounter::Running, ..self.flash.flash.options };
    }

    /// Window watchdog started by software or hardware.
    pub fn window_watchdog(&mut self, wd: Watchdog)
        ensures
            final(self).flash == with_options(old(self).flash, FlashOptions { wwdg_sw: wd == Watchdog::Software, ..old(self).flash.flash.options }),
    {
        self.flash.flash.options = FlashOptions { wwdg_sw: wd == Watchdog::Software, ..self.flash.flash.options };
    }

    /// Boot configuration bit 1.
    pub fn boot_1(&mut self, boot: bool)
        ensures
            final(self).flash == with_options(old(self).flash, FlashOptions { n_boot1: !boot, ..old(self).flash.flash.options }),
    {
        self.flash.flash.options = FlashOptions { n_boot1: !boot, ..self.flash.flash.options };
    }

    /// SRAM2 parity check.
    pub fn sram2_parity_check_enable(&mut self, en: bool)
        ensures
            final(self).flash == with_options(old(self).flash, FlashOptions { sram2_pe: !en, ..old(self).flash.flash.options }),
    {
        self.flash.flash.options = FlashOptions { sram2_pe: !en, ..self.flash.flash.options };
    }

    /// SRAM2 erased on system reset.
    pub fn sram2_erased_on_reset(&mut self, erased: bool)
        ensures
            final(self).flash == with_options(old(self).flash, FlashOptions { sram2_rst: !erased, ..old(self).flash.flash.options }),
    {
        self.flash.flash.options = FlashOptions { sram2_rst: !erased, ..self.flash.flash.options };
    }

    /// Radio automatic gain control trimming.
    pub fn agc_trim(&mut self, trim: u8)
        requires
            trim < 8,
        ensures
            final(self).flash == with_options(old(self).flash, FlashOptions { agc_trim: trim, ..old(self).flash.flash.options }),
    {
        self.flash.flash.options = FlashOptions { agc_trim: trim, ..self.flash.flash.options };
    }

    /// Offset of the IPCC mailbox data buffer.
    pub fn ipcc(&mut self, offset: usize)
        requires
            offset < 0x4000,
        ensures
            final(self).flash == with_options(old(self).flash, FlashOptions { ipccdba: offset as u16, ..old(self).flash.flash.options }),
    {
        self.flash.flash.options = FlashOptions { ipccdba: offset as u16, ..self.flash.flash.options };
    }

    /// Flash security.
    pub fn flash_security_enable(&mut self, en: bool)
        ensures
            final(self).flash == with_options(old(self).flash, FlashOptions { fsd: !en, ..old(self).flash.flash.options }),
    {
        self.flash.flash.options = FlashOptions { fsd: !en, ..self.flash.flash.options };
    }

    /// Debug access of the second core.
    pub fn cpu2_debug_access_disabled(&mut self, disabled: bool)
        ensures
            final(self).flash == with_options(old(self).flash, FlashOptions { dds: disabled, ..old(self).flash.flash.options }),
    {
        self.flash.flash.options = FlashOptions { dds: disabled, ..self.flash.flash.options };
    }

    /// First page of secure flash.
    pub fn secure_flash_start(&mut self, page: Page)
        ensures
            final(self).flash == with_options(old(self).flash, FlashOptions { sfsa: page.spec_get(), ..old(self).flash.flash.options }),
    {
        self.flash.flash.options = FlashOptions { sfsa: page.get(), ..self.flash.flash.options };
    }

    /// First page of secure SRAM2a.
    pub fn secure_sram2a_start(&mut self, sram_page: SramPage)
        ensures
            final(self).flash == with_options(old(self).flash, FlashOptions { sbrsa: sram_page.spec_get(), ..old(self).flash.flash.options }),
    {
        self.flash.flash.options = FlashOptions { sbrsa: sram_page.get(), ..self.flash.flash.options };
    }

    /// Disables SRAM2a security.
    pub fn sram2a_security_disable(&mut self, disable: bool)
        ensures
            final(self).flash == with_options(old(self).flash, FlashOptions { brsd: disable, ..old(self).flash.flash.options }),
    {
        self.flash.flash.options = FlashOptions { brsd: disable, ..self.flash.flash.options };
    }

    /// First page of secure SRAM2b.
    pub fn secure_sram2b_start(&mut self, sram_page: SramPage)
        ensures
            final(self).flash == with_options(old(self).flash, FlashOptions { snbrsa: sram_page.spec_get(), ..old(self).flash.flash.options }),
    {
        self.flash.flash.options = FlashOptions { snbrsa: sram_page.get(), ..self.flash.flash.options };
    }

    /// Disables SRAM2b security.
    pub fn sram2b_security_disable(&mut self, disable: bool)
        ensures
            final(self).flash == with_options(old(self).flash, FlashOptions { nbrsd: disable, ..old(self).flash.flash.options }),
    {
        self.flash.flash.options = FlashOptions { nbrsd: disable, ..self.flash.flash.options };
    }

    /// Erases the proprietary code area when read protection is lowered.
    pub fn pcrop_erase_on_rdp_decrease(&mut self)
        ensures
            final(self).flash == with_options(old(self).flash, FlashOptions { pcrop_rdp: true, ..old(self).flash.flash.options }),
    {
        self.flash.flash.options = FlashOptions { pcrop_rdp: true, ..self.flash.flash.options };
    }

    /// Where boot pin 0 is taken from.
    pub fn boot0(&mut self, boot: Boot0)
        ensures
            final(self).flash == with_options(old(self).flash, match boot {
                Boot0::Software(b) => FlashOptions { n_swboot0: false, n_boot0: b, ..old(self).flash.flash.options },
                Boot0::Pin => FlashOptions { n_swboot0: true, ..old(self).flash.flash.options },
            }),
    {
        match boot {
            Boot0::Software(b) => {
                self.flash.flash.options = FlashOptions { n_swboot0: false, n_boot0: b, ..self.flash.flash.options };
            },
            Boot0::Pin => {
                self.flash.flash.options = FlashOptions { n_swboot0: true, ..self.flash.flash.options };
            },
        }
    }

    /// Proprietary code area A, from half-page `start_hp` to `end_hp`.
    pub fn pcrop1a(&mut self, start_hp: HalfPage, end_hp: HalfPage)
        ensures
            final(self).flash == with_options(old(self).flash, FlashOptions { pcrop1a_strt: start_hp.spec_get(), pcrop1a_end: end_hp.spec_get(), ..old(self).flash.flash.options }),
    {
        self.flash.flash.options = FlashOptions { pcrop1a_strt: start_hp.get(), pcrop1a_end: end_hp.get(), ..self.flash.flash.options };
    }

    /// Proprietary code area B, from half-page `start_hp` to `end_hp`.
    pub fn pcrop1b(&mut self, start_hp: HalfPage, end_hp: HalfPage)
        ensures
            final(self).flash == with_options(old(self).flash, FlashOptions { pcrop1b_strt: start_hp.spec_get(), pcrop1b_end: end_hp.spec_get(), ..old(self).flash.flash.options }),
    {
        self.flash.flash.options = FlashOptions { pcrop1b_strt: start_hp.get(), pcrop1b_end: end_hp.get(), ..self.flash.flash.options };
    }

    /// Write protection area A, from page `start_p` to `end_p`.
    pub fn wrp1a(&mut self, start_p: Page, end_p: Page)
        ensures
            final(self).flash == with_options(old(self).flash, FlashOptions { wrp1a_strt: start_p.spec_get(), wrp1a_end: end_p.spec_get(), ..old(self).flash.flash.options }),
    {
        self.flash.flash.options = FlashOptions { wrp1a_strt: start_p.get(), wrp1a_end: end_p.get(), ..self.flash.flash.options };
    }

    /// Write protection area B, from page `start_p` to `end_p`.
    pub fn wrp1b(&mut self, start_p: Page, end_p: Page)
        ensures
            final(self).flash == with_options(old(self).flash, FlashOptions { wrp1b_strt: start_p.spec_get(), wrp1b_end: end_p.spec_get(), ..old(self).flash.flash.options }),
    {
        self.flash.flash.options = FlashOptions { wrp1b_strt: start_p.get(), wrp1b_end: end_p.get(), ..self.flash.flash.options };
    }

    /// Where the second core boots from, and at which offset.
    pub fn cpu2_boot_reset_vector(&mut self, mem: Cpu2ResetMemory, offset: usize)
        requires
            offset < 0x4_0000,
        ensures
            final(self).flash == with_options(old(self).flash, FlashOptions { c2opt: mem == Cpu2ResetMemory::Flash, sbrv: offset as u32, ..old(self).flash.flash.options }),
    {
        self.flash.flash.options = FlashOptions { c2opt: mem == Cpu2ResetMemory::Flash, sbrv: offset as u32, ..self.flash.flash.options };
    }
}

/// Memory the second core boots from.
#[derive(Clone, Copy, Debug, PartialEq, Eq, Structural)]
pub enum Cpu2ResetMemory {
    Sram,
    Flash,
}

/// A half-page number, below twice the page count.
#[derive(Clone, Copy, Debug, PartialEq, Eq, Structural)]
pub struct HalfPage {
    v: u16,
}

impl HalfPage {
    pub closed spec fn spec_get(self) -> u16 {
        self.v
    }

    pub fn new(hp: u16) -> (r: HalfPage)
        requires
            hp < NUM_PAGES * 2,
        ensures
            r.spec_get() == hp,
    {
        HalfPage { v: hp }
    }

    pub fn get(self) -> (r: u16)
        ensures
            r == self.spec_get(),
    {
        self.v
    }
}

/// A page number.
#[derive(Clone, Copy, Debug, PartialEq, Eq, Structural)]
pub struct Page {
    v: u8,
}

impl Page {
    pub closed spec fn spec_get(self) -> u8 {
        self.v
    }

    pub fn new(p: u8) -> (r: Page)
        ensures
            r.spec_get() == p,
    {
        Page { v: p }
    }

    pub fn get(self) -> (r: u8)
        ensures
            r == self.spec_get(),
    {
        self.v
    }
}

/// An SRAM page number, below 32.
#[derive(Clone, Copy, Debug, PartialEq, Eq, Structural)]
pub struct SramPage {
    v: u8,
}

impl SramPage {
    pub closed spec fn spec_get(self) -> u8 {
        self.v
    }

    pub fn new(p: u8) -> (r: SramPage)
        requires
            p < 32,
        ensures
            r.spec_get() == p,
    {
        SramPage { v: p }
    }

    pub fn get(self) -> (r: u8)
        ensures
            r == self.spec_get(),
    {
        self.v
    }
}

/// Where boot pin 0 is taken from.
#[derive(Clone, Copy, Debug, PartialEq, Eq, Structural)]
pub enum Boot0 {
    /// From the option bit, with this value.
    Software(bool),
    /// From the BOOT0 pin.
    Pin,
}

/// Whether a watchdog is started by hardware or software.
#[derive(Clone, Copy, Debug, PartialEq, Eq, Structural)]
pub enum Watchdog {
    Hardware,
    Software,
}

/// Whether a watchdog counter runs in a low-power mode.
#[derive(Clone, Copy, Debug, PartialEq, Eq, Structural)]
pub enum WatchdogCounter {
    Frozen,
    Running,
}

/// Flash wait states.
#[derive(Clone, Copy, Debug, PartialEq, Eq, Structural)]
pub enum Latency {
    W0,
    W1,
    W2,
    W3,
}

/// The fewest wait states for an HCLK4 of `hz` in range `vos`.
pub open spec fn spec_latency(vos: Vos, hz: u32) -> Latency {
    match vos {
        Vos::Range1 => if hz <= 18_000_000 {
            Latency::W0
        } else if hz <= 36_000_000 {
            Latency::W1
        } else if hz <= 54_000_000 {
            Latency::W2
        } else {
            Latency::W3
        },
        Vos::Range2 => if hz <= 6_000_000 {
            Latency::W0
        } else if hz <= 12_000_000 {
            Latency::W1
        } else {
            Latency::W2
        },
    }
}

impl Latency {
    /// Wait states for flash access at `hclk4` in voltage range `vos`.
    pub fn from(vos: Vos, hclk4: Hertz) -> (r: Latency)
        ensures
            r == spec_latency(vos, hclk4.hz),
    {
        match vos {
            Vos::Range1 => {
                if hclk4.hz <= 18_000_000 {
                    Latency::W0
                } else if hclk4.hz <= 36_000_000 {
                    Latency::W1
                } else if hclk4.hz <= 54_000_000 {
                    Latency::W2
                } else {
                    Latency::W3
                }
            },
            Vos::Range2 => {
                if hclk4.hz <= 6_000_000 {
                    Latency::W0
                } else if hclk4.hz <= 12_000_000 {
                    Latency::W1
                } else {
                    Latency::W2
                }
            },
        }
    }
}

/// Read protection level.
#[derive(Clone, Copy, Debug, PartialEq, Eq, Structural)]
pub enum RdpLevel {
    /// No protection.
    L0,
    /// Read protection.
    L1,
}

/// Brown-out reset threshold.
#[derive(Clone, Copy, Debug, PartialEq, Eq, Structural)]
pub enum BorResetLevel {
    L0,
    L1,
    L2,
    L3,
    L4,
}

} // verus!
