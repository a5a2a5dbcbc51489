//! Memory protection unit (MPU) registers.

use vstd::prelude::*;
use crate::bitfield::is_field;
use crate::volatile_reg32::VolatileReg32;
use crate::core_cm4::constants::MPU_BASE;

verus! {

pub struct MpuRegs {
    /// Type register (read only).
    pub mpu_type: VolatileReg32,
    /// Control register.
    pub ctrl: VolatileReg32,
    /// Region number register.
    pub rnr: VolatileReg32,
    /// Region base address register.
    pub rbar: VolatileReg32,
    /// Region attribute and size register.
    pub rasr: VolatileReg32,
    /// Alias 1 of the region base address register.
    pub rbar_a1: VolatileReg32,
    /// Alias 1 of the region attribute and size register.
    pub rasr_a1: VolatileReg32,
    /// Alias 2 of the region base address register.
    pub rbar_a2: VolatileReg32,
    /// Alias 2 of the region attribute and size register.
    pub rasr_a2: VolatileReg32,
    /// Alias 3 of the region base address register.
    pub rbar_a3: VolatileReg32,
    /// Alias 3 of the region attribute and size register.
    pub rasr_a3: VolatileReg32,
}

impl MpuRegs {
    /// Every register stands at its word offset above `base`, as the
    /// reference manual lays the block out.
    pub open spec fn laid_out_at(&self, base: u32) -> bool {
        &&& self.mpu_type.address() == base
        &&& self.ctrl.address() == base + 4 * 1
        &&& self.rnr.address() == base + 4 * 2
        &&& self.rbar.address() == base + 4 * 3
        &&& self.rasr.address() == base + 4 * 4
        &&& self.rbar_a1.address() == base + 4 * 5
        &&& self.rasr_a1.address() == base + 4 * 6
        &&& self.rbar_a2.address() == base + 4 * 7
        &&& self.rasr_a2.address() == base + 4 * 8
        &&& self.rbar_a3.address() == base + 4 * 9
        &&& self.rasr_a3.address() == base + 4 * 10
    }

    /// The block at its one fixed place in the memory map.
    pub fn init() -> (mpu: MpuRegs)
        ensures
            mpu.laid_out_at(MPU_BASE),
    {
        MpuRegs {
            mpu_type: VolatileReg32::new(MPU_BASE),
            ctrl: VolatileReg32::new_offset(MPU_BASE, 1),
            rnr: VolatileReg32::new_offset(MPU_BASE, 2),
            rbar: VolatileReg32::new_offset(MPU_BASE, 3),
            rasr: VolatileReg32::new_offset(MPU_BASE, 4),
            rbar_a1: VolatileReg32::new_offset(MPU_BASE, 5),
            rasr_a1: VolatileReg32::new_offset(MPU_BASE, 6),
            rbar_a2: VolatileReg32::new_offset(MPU_BASE, 7),
            rasr_a2: VolatileReg32::new_offset(MPU_BASE, 8),
            rbar_a3: VolatileReg32::new_offset(MPU_BASE, 9),
            rasr_a3: VolatileReg32::new_offset(MPU_BASE, 10),
        }
    }
}

// MPU Type Register
pub const MPU_TYPE_IREGION_POS: u32 = 16;
pub const MPU_TYPE_IREGION_MSK: u32 = 0xFF << MPU_TYPE_IREGION_POS;

pub const MPU_TYPE_DREGION_POS: u32 = 8;
pub const MPU_TYPE_DREGION_MSK: u32 = 0xFF << MPU_TYPE_DREGION_POS;

pub const MPU_TYPE_SEPARATE_POS: u32 = 0;
pub const MPU_TYPE_SEPARATE_MSK: u32 = 1 << MPU_TYPE_SEPARATE_POS;

// MPU Control Register
pub const MPU_CTRL_PRIVDEFENA_POS: u32 = 2;
pub const MPU_CTRL_PRIVDEFENA_MSK: u32 = 1 << MPU_CTRL_PRIVDEFENA_POS;

pub const MPU_CTRL_HFNMIENA_POS: u32 = 1;
pub const MPU_CTRL_HFNMIENA_MSK: u32 = 1 << MPU_CTRL_HFNMIENA_POS;

pub const MPU_CTRL_ENABLE_POS: u32 = 0;
pub const MPU_CTRL_ENABLE_MSK: u32 = 1 << MPU_CTRL_ENABLE_POS;

// MPU Region Number Register
pub const MPU_RNR_REGION_POS: u32 = 0;
pub const MPU_RNR_REGION_MSK: u32 = 0xFF << MPU_RNR_REGION_POS;

// MPU Region Base Address Register
pub const MPU_RBAR_ADDR_POS: u32 = 5;
pub const MPU_RBAR_ADDR_MSK: u32 = 0x7FFFFFF << MPU_RBAR_ADDR_POS;

pub const MPU_RBAR_VALID_POS: u32 = 4;
pub const MPU_RBAR_VALID_MSK: u32 = 1 << MPU_RBAR_VALID_POS;

pub const MPU_RBAR_REGION_POS: u32 = 0;
pub const MPU_RBAR_REGION_MSK: u32 = 0xF << MPU_RBAR_REGION_POS;

// MPU Region Attribute and Size Register
pub const MPU_RASR_ATTRS_POS: u32 = 16;
pub const MPU_RASR_ATTRS_MSK: u32 = 0xFFFF << MPU_RASR_ATTRS_POS;

pub const MPU_RASR_SRD_POS: u32 = 8;
pub const MPU_RASR_SRD_MSK: u32 = 0xFF << MPU_RASR_SRD_POS;

pub const MPU_RASR_SIZE_POS: u32 = 1;
pub const MPU_RASR_SIZE_MSK: u32 = 0x1F << MPU_RASR_SIZE_POS;

pub const MPU_RASR_ENABLE_POS: u32 = 0;
pub const MPU_RASR_ENABLE_MSK: u32 = 1 << MPU_RASR_ENABLE_POS;

/// Each mask defined here is a field, and starts at the position that is
/// defined with it.
pub proof fn law_mpu_fields()
    ensures
        is_field(MPU_TYPE_IREGION_POS, MPU_TYPE_IREGION_MSK),
        is_field(MPU_TYPE_DREGION_POS, MPU_TYPE_DREGION_MSK),
        is_field(MPU_TYPE_SEPARATE_POS, MPU_TYPE_SEPARATE_MSK),
        is_field(MPU_CTRL_PRIVDEFENA_POS, MPU_CTRL_PRIVDEFENA_MSK),
        is_field(MPU_CTRL_HFNMIENA_POS, MPU_CTRL_HFNMIENA_MSK),
        is_field(MPU_CTRL_ENABLE_POS, MPU_CTRL_ENABLE_MSK),
        is_field(MPU_RNR_REGION_POS, MPU_RNR_REGION_MSK),
        is_field(MPU_RBAR_ADDR_POS, MPU_RBAR_ADDR_MSK),
        is_field(MPU_RBAR_VALID_POS, MPU_RBAR_VALID_MSK),
        is_field(MPU_RBAR_REGION_POS, MPU_RBAR_REGION_MSK),
        is_field(MPU_RASR_ATTRS_POS, MPU_RASR_ATTRS_MSK),
        is_field(MPU_RASR_SRD_POS, MPU_RASR_SRD_MSK),
        is_field(MPU_RASR_SIZE_POS, MPU_RASR_SIZE_MSK),
        is_field(MPU_RASR_ENABLE_POS, MPU_RASR_ENABLE_MSK),
{
    assert(is_field(MPU_TYPE_IREGION_POS, MPU_TYPE_IREGION_MSK)
        && is_field(MPU_TYPE_DREGION_POS, MPU_TYPE_DREGION_MSK)
        && is_field(MPU_TYPE_SEPARATE_POS, MPU_TYPE_SEPARATE_MSK)
        && is_field(MPU_CTRL_PRIVDEFENA_POS, MPU_CTRL_PRIVDEFENA_MSK)
        && is_field(MPU_CTRL_HFNMIENA_POS, MPU_CTRL_HFNMIENA_MSK)
        && is_field(MPU_CTRL_ENABLE_POS, MPU_CTRL_ENABLE_MSK)
        && is_field(MPU_RNR_REGION_POS, MPU_RNR_REGION_MSK)
        && is_field(MPU_RBAR_ADDR_POS, MPU_RBAR_ADDR_MSK)
        && is_field(MPU_RBAR_VALID_POS, MPU_RBAR_VALID_MSK)
        && is_field(MPU_RBAR_REGION_POS, MPU_RBAR_REGION_MSK)
        && is_field(MPU_RASR_ATTRS_POS, MPU_RASR_ATTRS_MSK)
        && is_field(MPU_RASR_SRD_POS, MPU_RASR_SRD_MSK)
        && is_field(MPU_RASR_SIZE_POS, MPU_RASR_SIZE_MSK)
        && is_field(MPU_RASR_ENABLE_POS, MPU_RASR_ENABLE_MSK)) by (bit_vector);
}

} // verus!
