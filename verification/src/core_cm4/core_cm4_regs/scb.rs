//! System control block (SCB) registers.

use vstd::prelude::*;
use crate::bitfield::is_field;
use crate::volatile_reg32::VolatileReg32;
use crate::core_cm4::constants::SCB_BASE;

verus! {

pub struct ScbRegs {
    /// CPUID base register (read only).
    pub cpuid: VolatileReg32,
    /// Interrupt control and state register.
    pub icsr: VolatileReg32,
    /// Vector table offset register.
    pub vtor: VolatileReg32,
    /// Application interrupt and reset control register.
    pub aircr: VolatileReg32,
    /// System control register.
    pub scr: VolatileReg32,
    /// Configuration control register.
    pub ccr: VolatileReg32,
    /// System handlers priority register, handlers 4 to 7.
    pub shp1: VolatileReg32,
    /// System handlers priority register, handlers 8 to 11.
    pub shp2: VolatileReg32,
    /// System handlers priority register, handlers 12 to 15.
    pub shp3: VolatileReg32,
    /// System handler control and state register.
    pub shcsr: VolatileReg32,
    /// Configurable fault status register.
    pub cfsr: VolatileReg32,
    /// HardFault status register.
    pub hfsr: VolatileReg32,
    /// Debug fault status register.
    pub dfsr: VolatileReg32,
    /// MemManage fault address register.
    pub mmfar: VolatileReg32,
    /// BusFault address register.
    pub bfar: VolatileReg32,
    /// Auxiliary fault status register.
    pub afsr: VolatileReg32,
    /// Processor feature register 0 (read only).
    pub pfr0: VolatileReg32,
    /// Processor feature register 1 (read only).
    pub pfr1: VolatileReg32,
    /// Debug feature register (read only).
    pub dfr: VolatileReg32,
    /// Auxiliary feature register (read only).
    pub adr: VolatileReg32,
    /// Memory model feature register 0 (read only).
    pub mmfr0: VolatileReg32,
    /// Memory model feature register 1 (read only).
    pub mmfr1: VolatileReg32,
    /// Memory model feature register 2 (read only).
    pub mmfr2: VolatileReg32,
    /// Memory model feature register 3 (read only).
    pub mmfr3: VolatileReg32,
    /// Instruction set attributes register 0 (read only).
    pub isar0: VolatileReg32,
    /// Instruction set attributes register 1 (read only).
    pub isar1: VolatileReg32,
    /// Instruction set attributes register 2 (read only).
    pub isar2: VolatileReg32,
    /// Instruction set attributes register 3 (read only).
    pub isar3: VolatileReg32,
    /// Instruction set attributes register 4 (read only).
    pub isar4: VolatileReg32,
    /// Coprocessor access control register.
    pub cpacr: VolatileReg32,
}

impl ScbRegs {
    /// Every register stands at its word offset above `base`, as the
    /// reference manual lays the block out.
    pub open spec fn laid_out_at(&self, base: u32) -> bool {
        &&& self.cpuid.address() == base
        &&& self.icsr.address() == base + 4 * 1
        &&& self.vtor.address() == base + 4 * 2
        &&& self.aircr.address() == base + 4 * 3
        &&& self.scr.address() == base + 4 * 4
        &&& self.ccr.address() == base + 4 * 5
        &&& self.shp1.address() == base + 4 * 6
        &&& self.shp2.address() == base + 4 * 7
        &&& self.shp3.address() == base + 4 * 8
        &&& self.shcsr.address() == base + 4 * 9
        &&& self.cfsr.address() == base + 4 * 10
        &&& self.hfsr.address() == base + 4 * 11
        &&& self.dfsr.address() == base + 4 * 12
        &&& self.mmfar.address() == base + 4 * 13
        &&& self.bfar.address() == base + 4 * 14
        &&& self.afsr.address() == base + 4 * 15
        &&& self.pfr0.address() == base + 4 * 16
        &&& self.pfr1.address() == base + 4 * 17
        &&& self.dfr.address() == base + 4 * 18
        &&& self.adr.address() == base + 4 * 19
        &&& self.mmfr0.address() == base + 4 * 20
        &&& self.mmfr1.address() == base + 4 * 21
        &&& self.mmfr2.address() == base + 4 * 22
        &&& self.mmfr3.address() == base + 4 * 23
        &&& self.isar0.address() == base + 4 * 24
        &&& self.isar1.address() == base + 4 * 25
        &&& self.isar2.address() == base + 4 * 26
        &&& self.isar3.address() == base + 4 * 27
        &&& self.isar4.address() == base + 4 * 28
        &&& self.cpacr.address() == base + 4 * 34
    }

    /// The block at its one fixed place in the memory map.
    pub fn init() -> (scb: ScbRegs)
        ensures
            scb.laid_out_at(SCB_BASE),
    {
        ScbRegs {
            cpuid: VolatileReg32::new(SCB_BASE),
            icsr: VolatileReg32::new_offset(SCB_BASE, 1),
            vtor: VolatileReg32::new_offset(SCB_BASE, 2),
            aircr: VolatileReg32::new_offset(SCB_BASE, 3),
            scr: VolatileReg32::new_offset(SCB_BASE, 4),
            ccr: VolatileReg32::new_offset(SCB_BASE, 5),
            shp1: VolatileReg32::new_offset(SCB_BASE, 6),
            shp2: VolatileReg32::new_offset(SCB_BASE, 7),
            shp3: VolatileReg32::new_offset(SCB_BASE, 8),
            shcsr: VolatileReg32::new_offset(SCB_BASE, 9),
            cfsr: VolatileReg32::new_offset(SCB_BASE, 10),
            hfsr: VolatileReg32::new_offset(SCB_BASE, 11),
            dfsr: VolatileReg32::new_offset(SCB_BASE, 12),
            mmfar: VolatileReg32::new_offset(SCB_BASE, 13),
            bfar: VolatileReg32::new_offset(SCB_BASE, 14),
            afsr: VolatileReg32::new_offset(SCB_BASE, 15),
            pfr0: VolatileReg32::new_offset(SCB_BASE, 16),
            pfr1: VolatileReg32::new_offset(SCB_BASE, 17),
            dfr: VolatileReg32::new_offset(SCB_BASE, 18),
            adr: VolatileReg32::new_offset(SCB_BASE, 19),
            mmfr0: VolatileReg32::new_offset(SCB_BASE, 20),
            mmfr1: VolatileReg32::new_offset(SCB_BASE, 21),
            mmfr2: VolatileReg32::new_offset(SCB_BASE, 22),
            mmfr3: VolatileReg32::new_offset(SCB_BASE, 23),
            isar0: VolatileReg32::new_offset(SCB_BASE, 24),
            isar1: VolatileReg32::new_offset(SCB_BASE, 25),
            isar2: VolatileReg32::new_offset(SCB_BASE, 26),
            isar3: VolatileReg32::new_offset(SCB_BASE, 27),
            isar4: VolatileReg32::new_offset(SCB_BASE, 28),
            cpacr: VolatileReg32::new_offset(SCB_BASE, 34),
        }
    }
}

// SCB CPUID Register Definitions
pub const SCB_CPUID_IMPLEMENTER_POS: u32 = 24;
pub const SCB_CPUID_IMPLEMENTER_MSK: u32 = 0xFF << SCB_CPUID_IMPLEMENTER_POS;

pub const SCB_CPUID_VARIANT_POS: u32 = 20;
pub const SCB_CPUID_VARIANT_MSK: u32 = 0xF << SCB_CPUID_VARIANT_POS;

pub const SCB_CPUID_ARCHITECTURE_POS: u32 = 16;
pub const SCB_CPUID_ARCHITECTURE_MSK: u32 = 0xF << SCB_CPUID_ARCHITECTURE_POS;

pub const SCB_CPUID_PARTNO_POS: u32 = 4;
pub const SCB_CPUID_PARTNO_MSK: u32 = 0xFFF << SCB_CPUID_PARTNO_POS;

pub const SCB_CPUID_REVISION_POS: u32 = 0;
pub const SCB_CPUID_REVISION_MSK: u32 = 0xF << SCB_CPUID_REVISION_POS;

// SCB Interrupt Control State Register Definitions
pub const SCB_ICSR_NMIPENDSET_POS: u32 = 31;
pub const SCB_ICSR_NMIPENDSET_MSK: u32 = 1 << SCB_ICSR_NMIPENDSET_POS;

pub const SCB_ICSR_PENDSVSET_POS: u32 = 28;
pub const SCB_ICSR_PENDSVSET_MSK: u32 = 1 << SCB_ICSR_PENDSVSET_POS;

pub const SCB_ICSR_PENDSVCLR_POS: u32 = 27;
pub const SCB_ICSR_PENDSVCLR_MSK: u32 = 1 << SCB_ICSR_PENDSVCLR_POS;

pub const SCB_ICSR_PENDSTSET_POS: u32 = 26;
pub const SCB_ICSR_PENDSTSET_MSK: u32 = 1 << SCB_ICSR_PENDSTSET_POS;

pub const SCB_ICSR_PENDSTCLR_POS: u32 = 25;
pub const SCB_ICSR_PENDSTCLR_MSK: u32 = 1 << SCB_ICSR_PENDSTCLR_POS;

pub const SCB_ICSR_ISRPREEMPT_POS: u32 = 23;
pub const SCB_ICSR_ISRPREEMPT_MSK: u32 = 1 << SCB_ICSR_ISRPREEMPT_POS;

pub const SCB_ICSR_ISRPENDING_POS: u32 = 22;
pub const SCB_ICSR_ISRPENDING_MSK: u32 = 1 << SCB_ICSR_ISRPENDING_POS;

pub const SCB_ICSR_VECTPENDING_POS: u32 = 12;
pub const SCB_ICSR_VECTPENDING_MSK: u32 = 0x1FF << SCB_ICSR_VECTPENDING_POS;

pub const SCB_ICSR_RETTOBASE_POS: u32 = 11;
pub const SCB_ICSR_RETTOBASE_MSK: u32 = 1 << SCB_ICSR_RETTOBASE_POS;

pub const SCB_ICSR_VECTACTIVE_POS: u32 = 0;
pub const SCB_ICSR_VECTACTIVE_MSK: u32 = 0x1FF << SCB_ICSR_VECTACTIVE_POS;

// SCB Vector Table Offset Register Definitions
pub const SCB_VTOR_TBLOFF_POS: u32 = 7;
pub const SCB_VTOR_TBLOFF_MSK: u32 = 0x1FFFFFF << SCB_VTOR_TBLOFF_POS;

// SCB Application Interrupt and Reset Control Register Definitions
pub const SCB_AIRCR_VECTKEY_POS: u32 = 16;
pub const SCB_AIRCR_VECTKEY_MSK: u32 = 0xFFFF << SCB_AIRCR_VECTKEY_POS;

pub const SCB_AIRCR_VECTKEYSTAT_POS: u32 = 16;
pub const SCB_AIRCR_VECTKEYSTAT_MSK: u32 = 0xFFFF << SCB_AIRCR_VECTKEYSTAT_POS;

pub const SCB_AIRCR_ENDIANESS_POS: u32 = 15;
pub const SCB_AIRCR_ENDIANESS_MSK: u32 = 1 << SCB_AIRCR_ENDIANESS_POS;

pub const SCB_AIRCR_PRIGROUP_POS: u32 = 8;
pub const SCB_AIRCR_PRIGROUP_MSK: u32 = 7 << SCB_AIRCR_PRIGROUP_POS;

pub const SCB_AIRCR_SYSRESETREQ_POS: u32 = 2;
pub const SCB_AIRCR_SYSRESETREQ_MSK: u32 = 1 << SCB_AIRCR_SYSRESETREQ_POS;

pub const SCB_AIRCR_VECTCLRACTIVE_POS: u32 = 1;
pub const SCB_AIRCR_VECTCLRACTIVE_MSK: u32 = 1 << SCB_AIRCR_VECTCLRACTIVE_POS;

pub const SCB_AIRCR_VECTRESET_POS: u32 = 0;
pub const SCB_AIRCR_VECTRESET_MSK: u32 = 1 << SCB_AIRCR_VECTRESET_POS;

// SCB System Control Register Definitions
pub const SCB_SCR_SEVONPEND_POS: u32 = 4;
pub const SCB_SCR_SEVONPEND_MSK: u32 = 1 << SCB_SCR_SEVONPEND_POS;

pub const SCB_SCR_SLEEPDEEP_POS: u32 = 2;
pub const SCB_SCR_SLEEPDEEP_MSK: u32 = 1 << SCB_SCR_SLEEPDEEP_POS;

pub const SCB_SCR_SLEEPONEXIT_POS: u32 = 1;
pub const SCB_SCR_SLEEPONEXIT_MSK: u32 = 1 << SCB_SCR_SLEEPONEXIT_POS;

// SCB Configuration Control Register Definitions
pub const SCB_CCR_STKALIGN_POS: u32 = 9;
pub const SCB_CCR_STKALIGN_MSK: u32 = 1 << SCB_CCR_STKALIGN_POS;

pub const SCB_CCR_BFHFNMIGN_POS: u32 = 8;
pub const SCB_CCR_BFHFNMIGN_MSK: u32 = 1 << SCB_CCR_BFHFNMIGN_POS;

pub const SCB_CCR_DIV_0_TRP_POS: u32 = 4;
pub const SCB_CCR_DIV_0_TRP_MSK: u32 = 1 << SCB_CCR_DIV_0_TRP_POS;

pub const SCB_CCR_UNALIGN_TRP_POS: u32 = 3;
pub const SCB_CCR_UNALIGN_TRP_MSK: u32 = 1 << SCB_CCR_UNALIGN_TRP_POS;

pub const SCB_CCR_USERSETMPEND_POS: u32 = 1;
pub const SCB_CCR_USERSETMPEND_MSK: u32 = 1 << SCB_CCR_USERSETMPEND_POS;

pub const SCB_CCR_NONBASETHRDENA_POS: u32 = 0;
pub const SCB_CCR_NONBASETHRDENA_MSK: u32 = 1 << SCB_CCR_NONBASETHRDENA_POS;

// SCB System Handler Control and State Register Definitions
pub const SCB_SHCSR_USGFAULTENA_POS: u32 = 18;
pub const SCB_SHCSR_USGFAULTENA_MSK: u32 = 1 << SCB_SHCSR_USGFAULTENA_POS;

pub const SCB_SHCSR_BUSFAULTENA_POS: u32 = 17;
pub const SCB_SHCSR_BUSFAULTENA_MSK: u32 = 1 << SCB_SHCSR_BUSFAULTENA_POS;

pub const SCB_SHCSR_MEMFAULTENA_POS: u32 = 16;
pub const SCB_SHCSR_MEMFAULTENA_MSK: u32 = 1 << SCB_SHCSR_MEMFAULTENA_POS;

pub const SCB_SHCSR_SVCALLPENDED_POS: u32 = 15;
pub const SCB_SHCSR_SVCALLPENDED_MSK: u32 = 1 << SCB_SHCSR_SVCALLPENDED_POS;

pub const SCB_SHCSR_BUSFAULTPENDED_POS: u32 = 14;
pub const SCB_SHCSR_BUSFAULTPENDED_MSK: u32 = 1 << SCB_SHCSR_BUSFAULTPENDED_POS;

pub const SCB_SHCSR_MEMFAULTPENDED_POS: u32 = 13;
pub const SCB_SHCSR_MEMFAULTPENDED_MSK: u32 = 1 << SCB_SHCSR_MEMFAULTPENDED_POS;

pub const SCB_SHCSR_USGFAULTPENDED_POS: u32 = 12;
pub const SCB_SHCSR_USGFAULTPENDED_MSK: u32 = 1 << SCB_SHCSR_USGFAULTPENDED_POS;

pub const SCB_SHCSR_SYSTICKACT_POS: u32 = 11;
pub const SCB_SHCSR_SYSTICKACT_MSK: u32 = 1 << SCB_SHCSR_SYSTICKACT_POS;

pub const SCB_SHCSR_PENDSVACT_POS: u32 = 10;
pub const SCB_SHCSR_PENDSVACT_MSK: u32 = 1 << SCB_SHCSR_PENDSVACT_POS;

pub const SCB_SHCSR_MONITORACT_POS: u32 = 8;
pub const SCB_SHCSR_MONITORACT_MSK: u32 = 1 << SCB_SHCSR_MONITORACT_POS;

pub const SCB_SHCSR_SVCALLACT_POS: u32 = 7;
pub const SCB_SHCSR_SVCALLACT_MSK: u32 = 1 << SCB_SHCSR_SVCALLACT_POS;

pub const SCB_SHCSR_USGFAULTACT_POS: u32 = 3;
pub const SCB_SHCSR_USGFAULTACT_MSK: u32 = 1 << SCB_SHCSR_USGFAULTACT_POS;

pub const SCB_SHCSR_BUSFAULTACT_POS: u32 = 1;
pub const SCB_SHCSR_BUSFAULTACT_MSK: u32 = 1 << SCB_SHCSR_BUSFAULTACT_POS;

pub const SCB_SHCSR_MEMFAULTACT_POS: u32 = 0;
pub const SCB_SHCSR_MEMFAULTACT_MSK: u32 = 1 << SCB_SHCSR_MEMFAULTACT_POS;

// SCB Configurable Fault Status Registers Definitions
pub const SCB_CFSR_USGFAULTSR_POS: u32 = 16;
pub const SCB_CFSR_USGFAULTSR_MSK: u32 = 0xFFFF << SCB_CFSR_USGFAULTSR_POS;

pub const SCB_CFSR_BUSFAULTSR_POS: u32 = 8;
pub const SCB_CFSR_BUSFAULTSR_MSK: u32 = 0xFF << SCB_CFSR_BUSFAULTSR_POS;

pub const SCB_CFSR_MEMFAULTSR_POS: u32 = 0;
pub const SCB_CFSR_MEMFAULTSR_MSK: u32 = 0xFF << SCB_CFSR_MEMFAULTSR_POS;

// SCB Hard Fault Status Registers Definitions
pub const SCB_HFSR_DEBUGEVT_POS: u32 = 31;
pub const SCB_HFSR_DEBUGEVT_MSK: u32 = 1 << SCB_HFSR_DEBUGEVT_POS;

pub const SCB_HFSR_FORCED_POS: u32 = 30;
pub const SCB_HFSR_FORCED_MSK: u32 = 1 << SCB_HFSR_FORCED_POS;

pub const SCB_HFSR_VECTTBL_POS: u32 = 1;
pub const SCB_HFSR_VECTTBL_MSK: u32 = 1 << SCB_HFSR_VECTTBL_POS;

// SCB Debug Fault Status Register Definitions
pub const SCB_DFSR_EXTERNAL_POS: u32 = 4;
pub const SCB_DFSR_EXTERNAL_MSK: u32 = 1 << SCB_DFSR_EXTERNAL_POS;

pub const SCB_DFSR_VCATCH_POS: u32 = 3;
pub const SCB_DFSR_VCATCH_MSK: u32 = 1 << SCB_DFSR_VCATCH_POS;

pub const SCB_DFSR_DWTTRAP_POS: u32 = 2;
pub const SCB_DFSR_DWTTRAP_MSK: u32 = 1 << SCB_DFSR_DWTTRAP_POS;

pub const SCB_DFSR_BKPT_POS: u32 = 1;
pub const SCB_DFSR_BKPT_MSK: u32 = 1 << SCB_DFSR_BKPT_POS;

pub const SCB_DFSR_HALTED_POS: u32 = 0;
pub const SCB_DFSR_HALTED_MSK: u32 = 1 << SCB_DFSR_HALTED_POS;

/// Each mask defined here is a field, and starts at the position that is
/// defined with it.
pub proof fn law_scb_fields()
    ensures
        is_field(SCB_CPUID_IMPLEMENTER_POS, SCB_CPUID_IMPLEMENTER_MSK),
        is_field(SCB_CPUID_VARIANT_POS, SCB_CPUID_VARIANT_MSK),
        is_field(SCB_CPUID_ARCHITECTURE_POS, SCB_CPUID_ARCHITECTURE_MSK),
        is_field(SCB_CPUID_PARTNO_POS, SCB_CPUID_PARTNO_MSK),
        is_field(SCB_CPUID_REVISION_POS, SCB_CPUID_REVISION_MSK),
        is_field(SCB_ICSR_NMIPENDSET_POS, SCB_ICSR_NMIPENDSET_MSK),
        is_field(SCB_ICSR_PENDSVSET_POS, SCB_ICSR_PENDSVSET_MSK),
        is_field(SCB_ICSR_PENDSVCLR_POS, SCB_ICSR_PENDSVCLR_MSK),
        is_field(SCB_ICSR_PENDSTSET_POS, SCB_ICSR_PENDSTSET_MSK),
        is_field(SCB_ICSR_PENDSTCLR_POS, SCB_ICSR_PENDSTCLR_MSK),
        is_field(SCB_ICSR_ISRPREEMPT_POS, SCB_ICSR_ISRPREEMPT_MSK),
        is_field(SCB_ICSR_ISRPENDING_POS, SCB_ICSR_ISRPENDING_MSK),
        is_field(SCB_ICSR_VECTPENDING_POS, SCB_ICSR_VECTPENDING_MSK),
        is_field(SCB_ICSR_RETTOBASE_POS, SCB_ICSR_RETTOBASE_MSK),
        is_field(SCB_ICSR_VECTACTIVE_POS, SCB_ICSR_VECTACTIVE_MSK),
        is_field(SCB_VTOR_TBLOFF_POS, SCB_VTOR_TBLOFF_MSK),
        is_field(SCB_AIRCR_VECTKEY_POS, SCB_AIRCR_VECTKEY_MSK),
        is_field(SCB_AIRCR_VECTKEYSTAT_POS, SCB_AIRCR_VECTKEYSTAT_MSK),
        is_field(SCB_AIRCR_ENDIANESS_POS, SCB_AIRCR_ENDIANESS_MSK),
        is_field(SCB_AIRCR_PRIGROUP_POS, SCB_AIRCR_PRIGROUP_MSK),
        is_field(SCB_AIRCR_SYSRESETREQ_POS, SCB_AIRCR_SYSRESETREQ_MSK),
        is_field(SCB_AIRCR_VECTCLRACTIVE_POS, SCB_AIRCR_VECTCLRACTIVE_MSK),
        is_field(SCB_AIRCR_VECTRESET_POS, SCB_AIRCR_VECTRESET_MSK),
        is_field(SCB_SCR_SEVONPEND_POS, SCB_SCR_SEVONPEND_MSK),
        is_field(SCB_SCR_SLEEPDEEP_POS, SCB_SCR_SLEEPDEEP_MSK),
        is_field(SCB_SCR_SLEEPONEXIT_POS, SCB_SCR_SLEEPONEXIT_MSK),
        is_field(SCB_CCR_STKALIGN_POS, SCB_CCR_STKALIGN_MSK),
        is_field(SCB_CCR_BFHFNMIGN_POS, SCB_CCR_BFHFNMIGN_MSK),
        is_field(SCB_CCR_DIV_0_TRP_POS, SCB_CCR_DIV_0_TRP_MSK),
        is_field(SCB_CCR_UNALIGN_TRP_POS, SCB_CCR_UNALIGN_TRP_MSK),
        is_field(SCB_CCR_USERSETMPEND_POS, SCB_CCR_USERSETMPEND_MSK),
        is_field(SCB_CCR_NONBASETHRDENA_POS, SCB_CCR_NONBASETHRDENA_MSK),
        is_field(SCB_SHCSR_USGFAULTENA_POS, SCB_SHCSR_USGFAULTENA_MSK),
        is_field(SCB_SHCSR_BUSFAULTENA_POS, SCB_SHCSR_BUSFAULTENA_MSK),
        is_field(SCB_SHCSR_MEMFAULTENA_POS, SCB_SHCSR_MEMFAULTENA_MSK),
        is_field(SCB_SHCSR_SVCALLPENDED_POS, SCB_SHCSR_SVCALLPENDED_MSK),
        is_field(SCB_SHCSR_BUSFAULTPENDED_POS, SCB_SHCSR_BUSFAULTPENDED_MSK),
        is_field(SCB_SHCSR_MEMFAULTPENDED_POS, SCB_SHCSR_MEMFAULTPENDED_MSK),
        is_field(SCB_SHCSR_USGFAULTPENDED_POS, SCB_SHCSR_USGFAULTPENDED_MSK),
        is_field(SCB_SHCSR_SYSTICKACT_POS, SCB_SHCSR_SYSTICKACT_MSK),
        is_field(SCB_SHCSR_PENDSVACT_POS, SCB_SHCSR_PENDSVACT_MSK),
        is_field(SCB_SHCSR_MONITORACT_POS, SCB_SHCSR_MONITORACT_MSK),
        is_field(SCB_SHCSR_SVCALLACT_POS, SCB_SHCSR_SVCALLACT_MSK),
        is_field(SCB_SHCSR_USGFAULTACT_POS, SCB_SHCSR_USGFAULTACT_MSK),
        is_field(SCB_SHCSR_BUSFAULTACT_POS, SCB_SHCSR_BUSFAULTACT_MSK),
        is_field(SCB_SHCSR_MEMFAULTACT_POS, SCB_SHCSR_MEMFAULTACT_MSK),
        is_field(SCB_CFSR_USGFAULTSR_POS, SCB_CFSR_USGFAULTSR_MSK),
        is_field(SCB_CFSR_BUSFAULTSR_POS, SCB_CFSR_BUSFAULTSR_MSK),
        is_field(SCB_CFSR_MEMFAULTSR_POS, SCB_CFSR_MEMFAULTSR_MSK),
        is_field(SCB_HFSR_DEBUGEVT_POS, SCB_HFSR_DEBUGEVT_MSK),
        is_field(SCB_HFSR_FORCED_POS, SCB_HFSR_FORCED_MSK),
        is_field(SCB_HFSR_VECTTBL_POS, SCB_HFSR_VECTTBL_MSK),
        is_field(SCB_DFSR_EXTERNAL_POS, SCB_DFSR_EXTERNAL_MSK),
        is_field(SCB_DFSR_VCATCH_POS, SCB_DFSR_VCATCH_MSK),
        is_field(SCB_DFSR_DWTTRAP_POS, SCB_DFSR_DWTTRAP_MSK),
        is_field(SCB_DFSR_BKPT_POS, SCB_DFSR_BKPT_MSK),
        is_field(SCB_DFSR_HALTED_POS, SCB_DFSR_HALTED_MSK),
{
    assert(is_field(SCB_CPUID_IMPLEMENTER_POS, SCB_CPUID_IMPLEMENTER_MSK)
        && is_field(SCB_CPUID_VARIANT_POS, SCB_CPUID_VARIANT_MSK)
        && is_field(SCB_CPUID_ARCHITECTURE_POS, SCB_CPUID_ARCHITECTURE_MSK)
        && is_field(SCB_CPUID_PARTNO_POS, SCB_CPUID_PARTNO_MSK)
        && is_field(SCB_CPUID_REVISION_POS, SCB_CPUID_REVISION_MSK)
        && is_field(SCB_ICSR_NMIPENDSET_POS, SCB_ICSR_NMIPENDSET_MSK)
        && is_field(SCB_ICSR_PENDSVSET_POS, SCB_ICSR_PENDSVSET_MSK)
        && is_field(SCB_ICSR_PENDSVCLR_POS, SCB_ICSR_PENDSVCLR_MSK)
        && is_field(SCB_ICSR_PENDSTSET_POS, SCB_ICSR_PENDSTSET_MSK)
        && is_field(SCB_ICSR_PENDSTCLR_POS, SCB_ICSR_PENDSTCLR_MSK)
        && is_field(SCB_ICSR_ISRPREEMPT_POS, SCB_ICSR_ISRPREEMPT_MSK)
        && is_field(SCB_ICSR_ISRPENDING_POS, SCB_ICSR_ISRPENDING_MSK)
        && is_field(SCB_ICSR_VECTPENDING_POS, SCB_ICSR_VECTPENDING_MSK)
        && is_field(SCB_ICSR_RETTOBASE_POS, SCB_ICSR_RETTOBASE_MSK)
        && is_field(SCB_ICSR_VECTACTIVE_POS, SCB_ICSR_VECTACTIVE_MSK)
        && is_field(SCB_VTOR_TBLOFF_POS, SCB_VTOR_TBLOFF_MSK)
        && is_field(SCB_AIRCR_VECTKEY_POS, SCB_AIRCR_VECTKEY_MSK)
        && is_field(SCB_AIRCR_VECTKEYSTAT_POS, SCB_AIRCR_VECTKEYSTAT_MSK)
        && is_field(SCB_AIRCR_ENDIANESS_POS, SCB_AIRCR_ENDIANESS_MSK)
        && is_field(SCB_AIRCR_PRIGROUP_POS, SCB_AIRCR_PRIGROUP_MSK)
        && is_field(SCB_AIRCR_SYSRESETREQ_POS, SCB_AIRCR_SYSRESETREQ_MSK)
        && is_field(SCB_AIRCR_VECTCLRACTIVE_POS, SCB_AIRCR_VECTCLRACTIVE_MSK)
        && is_field(SCB_AIRCR_VECTRESET_POS, SCB_AIRCR_VECTRESET_MSK)
        && is_field(SCB_SCR_SEVONPEND_POS, SCB_SCR_SEVONPEND_MSK)
        && is_field(SCB_SCR_SLEEPDEEP_POS, SCB_SCR_SLEEPDEEP_MSK)
        && is_field(SCB_SCR_SLEEPONEXIT_POS, SCB_SCR_SLEEPONEXIT_MSK)
        && is_field(SCB_CCR_STKALIGN_POS, SCB_CCR_STKALIGN_MSK)
        && is_field(SCB_CCR_BFHFNMIGN_POS, SCB_CCR_BFHFNMIGN_MSK)
        && is_field(SCB_CCR_DIV_0_TRP_POS, SCB_CCR_DIV_0_TRP_MSK)
        && is_field(SCB_CCR_UNALIGN_TRP_POS, SCB_CCR_UNALIGN_TRP_MSK)
        && is_field(SCB_CCR_USERSETMPEND_POS, SCB_CCR_USERSETMPEND_MSK)
        && is_field(SCB_CCR_NONBASETHRDENA_POS, SCB_CCR_NONBASETHRDENA_MSK)
        && is_field(SCB_SHCSR_USGFAULTENA_POS, SCB_SHCSR_USGFAULTENA_MSK)
        && is_field(SCB_SHCSR_BUSFAULTENA_POS, SCB_SHCSR_BUSFAULTENA_MSK)
        && is_field(SCB_SHCSR_MEMFAULTENA_POS, SCB_SHCSR_MEMFAULTENA_MSK)
        && is_field(SCB_SHCSR_SVCALLPENDED_POS, SCB_SHCSR_SVCALLPENDED_MSK)
        && is_field(SCB_SHCSR_BUSFAULTPENDED_POS, SCB_SHCSR_BUSFAULTPENDED_MSK)
        && is_field(SCB_SHCSR_MEMFAULTPENDED_POS, SCB_SHCSR_MEMFAULTPENDED_MSK)
        && is_field(SCB_SHCSR_USGFAULTPENDED_POS, SCB_SHCSR_USGFAULTPENDED_MSK)
        && is_field(SCB_SHCSR_SYSTICKACT_POS, SCB_SHCSR_SYSTICKACT_MSK)
        && is_field(SCB_SHCSR_PENDSVACT_POS, SCB_SHCSR_PENDSVACT_MSK)
        && is_field(SCB_SHCSR_MONITORACT_POS, SCB_SHCSR_MONITORACT_MSK)
        && is_field(SCB_SHCSR_SVCALLACT_POS, SCB_SHCSR_SVCALLACT_MSK)
        && is_field(SCB_SHCSR_USGFAULTACT_POS, SCB_SHCSR_USGFAULTACT_MSK)
        && is_field(SCB_SHCSR_BUSFAULTACT_POS, SCB_SHCSR_BUSFAULTACT_MSK)
        && is_field(SCB_SHCSR_MEMFAULTACT_POS, SCB_SHCSR_MEMFAULTACT_MSK)
        && is_field(SCB_CFSR_USGFAULTSR_POS, SCB_CFSR_USGFAULTSR_MSK)
        && is_field(SCB_CFSR_BUSFAULTSR_POS, SCB_CFSR_BUSFAULTSR_MSK)
        && is_field(SCB_CFSR_MEMFAULTSR_POS, SCB_CFSR_MEMFAULTSR_MSK)
        && is_field(SCB_HFSR_DEBUGEVT_POS, SCB_HFSR_DEBUGEVT_MSK)
        && is_field(SCB_HFSR_FORCED_POS, SCB_HFSR_FORCED_MSK)
        && is_field(SCB_HFSR_VECTTBL_POS, SCB_HFSR_VECTTBL_MSK)
        && is_field(SCB_DFSR_EXTERNAL_POS, SCB_DFSR_EXTERNAL_MSK)
        && is_field(SCB_DFSR_VCATCH_POS, SCB_DFSR_VCATCH_MSK)
        && is_field(SCB_DFSR_DWTTRAP_POS, SCB_DFSR_DWTTRAP_MSK)
        && is_field(SCB_DFSR_BKPT_POS, SCB_DFSR_BKPT_MSK)
        && is_field(SCB_DFSR_HALTED_POS, SCB_DFSR_HALTED_MSK)) by (bit_vector);
}

} // verus!
