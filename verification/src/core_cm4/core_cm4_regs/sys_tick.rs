//! System timer (SysTick) registers.

use vstd::prelude::*;
use crate::bitfield::is_field;
use crate::volatile_reg32::VolatileReg32;
use crate::core_cm4::constants::SYS_TICK_BASE;

verus! {

pub struct SysTickRegs {
    /// Control and status register.
    pub ctrl: VolatileReg32,
    /// Reload value register.
    pub load: VolatileReg32,
    /// Current value register.
    pub val: VolatileReg32,
    /// Calibration register.
    pub calib: VolatileReg32,
}

impl SysTickRegs {
    /// Every register stands at its word offset above `base`, as the
    /// reference manual lays the block out.
    pub open spec fn laid_out_at(&self, base: u32) -> bool {
        &&& self.ctrl.address() == base
        &&& self.load.address() == base + 4 * 1
        &&& self.val.address() == base + 4 * 2
        &&& self.calib.address() == base + 4 * 3
    }

    /// The block at its one fixed place in the memory map.
    pub fn init() -> (sys_tick: SysTickRegs)
        ensures
            sys_tick.laid_out_at(SYS_TICK_BASE),
    {
        SysTickRegs {
            ctrl: VolatileReg32::new(SYS_TICK_BASE),
            load: VolatileReg32::new_offset(SYS_TICK_BASE, 1),
            val: VolatileReg32::new_offset(SYS_TICK_BASE, 2),
            calib: VolatileReg32::new_offset(SYS_TICK_BASE, 3),
        }
    }
}

// SysTick Control / Status Register Definitions
pub const SYS_TICK_CTRL_COUNTFLAG_POS: u32 = 16;
pub const SYS_TICK_CTRL_COUNTFLAG_MSK: u32 = 1 << SYS_TICK_CTRL_COUNTFLAG_POS;

pub const SYS_TICK_CTRL_CLKSOURCE_POS: u32 = 2;
pub const SYS_TICK_CTRL_CLKSOURCE_MSK: u32 = 1 << SYS_TICK_CTRL_CLKSOURCE_POS;

pub const SYS_TICK_CTRL_TICKINT_POS: u32 = 1;
pub const SYS_TICK_CTRL_TICKINT_MSK: u32 = 1 << SYS_TICK_CTRL_TICKINT_POS;

pub const SYS_TICK_CTRL_ENABLE_POS: u32 = 0;
pub const SYS_TICK_CTRL_ENABLE_MSK: u32 = 1 << SYS_TICK_CTRL_ENABLE_POS;

// SysTick Reload Register Definitions
pub const SYS_TICK_LOAD_RELOAD_POS: u32 = 0;
pub const SYS_TICK_LOAD_RELOAD_MSK: u32 = 0xFFFFFF << SYS_TICK_LOAD_RELOAD_POS;

// SysTick Current Register Definitions
pub const SYS_TICK_VAL_CURRENT_POS: u32 = 0;
pub const SYS_TICK_VAL_CURRENT_MSK: u32 = 0xFFFFFF << SYS_TICK_VAL_CURRENT_POS;

// SysTick Calibration Register Definitions
pub const SYS_TICK_CALIB_NOREF_POS: u32 = 31;
pub const SYS_TICK_CALIB_NOREF_MSK: u32 = 1 << SYS_TICK_CALIB_NOREF_POS;

pub const SYS_TICK_CALIB_SKEW_POS: u32 = 30;
pub const SYS_TICK_CALIB_SKEW_MSK: u32 = 1 << SYS_TICK_CALIB_SKEW_POS;

pub const SYS_TICK_CALIB_TENMS_POS: u32 = 0;
pub const SYS_TICK_CALIB_TENMS_MSK: u32 = 0xFFFFFF << SYS_TICK_VAL_CURRENT_POS;

/// Each mask defined here is a field, and starts at the position that is
/// defined with it.
pub proof fn law_sys_tick_fields()
    ensures
        is_field(SYS_TICK_CTRL_COUNTFLAG_POS, SYS_TICK_CTRL_COUNTFLAG_MSK),
        is_field(SYS_TICK_CTRL_CLKSOURCE_POS, SYS_TICK_CTRL_CLKSOURCE_MSK),
        is_field(SYS_TICK_CTRL_TICKINT_POS, SYS_TICK_CTRL_TICKINT_MSK),
        is_field(SYS_TICK_CTRL_ENABLE_POS, SYS_TICK_CTRL_ENABLE_MSK),
        is_field(SYS_TICK_LOAD_RELOAD_POS, SYS_TICK_LOAD_RELOAD_MSK),
        is_field(SYS_TICK_VAL_CURRENT_POS, SYS_TICK_VAL_CURRENT_MSK),
        is_field(SYS_TICK_CALIB_NOREF_POS, SYS_TICK_CALIB_NOREF_MSK),
        is_field(SYS_TICK_CALIB_SKEW_POS, SYS_TICK_CALIB_SKEW_MSK),
        is_field(SYS_TICK_CALIB_TENMS_POS, SYS_TICK_CALIB_TENMS_MSK),
{
    assert(is_field(SYS_TICK_CTRL_COUNTFLAG_POS, SYS_TICK_CTRL_COUNTFLAG_MSK)
        && is_field(SYS_TICK_CTRL_CLKSOURCE_POS, SYS_TICK_CTRL_CLKSOURCE_MSK)
        && is_field(SYS_TICK_CTRL_TICKINT_POS, SYS_TICK_CTRL_TICKINT_MSK)
        && is_field(SYS_TICK_CTRL_ENABLE_POS, SYS_TICK_CTRL_ENABLE_MSK)
        && is_field(SYS_TICK_LOAD_RELOAD_POS, SYS_TICK_LOAD_RELOAD_MSK)
        && is_field(SYS_TICK_VAL_CURRENT_POS, SYS_TICK_VAL_CURRENT_MSK)
        && is_field(SYS_TICK_CALIB_NOREF_POS, SYS_TICK_CALIB_NOREF_MSK)
        && is_field(SYS_TICK_CALIB_SKEW_POS, SYS_TICK_CALIB_SKEW_MSK)
        && is_field(SYS_TICK_CALIB_TENMS_POS, SYS_TICK_CALIB_TENMS_MSK)) by (bit_vector);
}

} // verus!
