use stm32f4xx_hal::bitfield::{decode, encode, insert};
use stm32f4xx_hal::core_cm4::core_cm4_regs::fpu::{FPU_FPCAR_ADDRESS_MSK, FPU_FPCAR_ADDRESS_POS};
use stm32f4xx_hal::core_cm4::core_cm4_regs::scb::{
    SCB_CPUID_IMPLEMENTER_MSK, SCB_CPUID_IMPLEMENTER_POS, SCB_CPUID_PARTNO_MSK,
    SCB_CPUID_PARTNO_POS, SCB_CPUID_REVISION_MSK, SCB_CPUID_REVISION_POS,
};
use stm32f4xx_hal::core_cm4::core_cm4_regs::sys_tick::{
    SYS_TICK_CALIB_NOREF_MSK, SYS_TICK_CALIB_NOREF_POS, SYS_TICK_LOAD_RELOAD_MSK,
    SYS_TICK_LOAD_RELOAD_POS,
};

#[test]
fn masks_are_shifted_to_their_position() {
    assert_eq!(SCB_CPUID_IMPLEMENTER_MSK, 0xFF00_0000);
    assert_eq!(SCB_CPUID_PARTNO_MSK, 0x0000_FFF0);
    assert_eq!(SCB_CPUID_REVISION_MSK, 0x0000_000F);
    assert_eq!(SYS_TICK_CALIB_NOREF_MSK, 0x8000_0000);
    assert_eq!(FPU_FPCAR_ADDRESS_MSK, 0xFFFF_FFF8);
}

#[test]
fn encode_places_the_value() {
    assert_eq!(encode(SCB_CPUID_PARTNO_POS, SCB_CPUID_PARTNO_MSK, 0xC24), 0x0000_C240);
    assert_eq!(encode(SCB_CPUID_IMPLEMENTER_POS, SCB_CPUID_IMPLEMENTER_MSK, 0x41), 0x4100_0000);
    assert_eq!(encode(SYS_TICK_CALIB_NOREF_POS, SYS_TICK_CALIB_NOREF_MSK, 1), 0x8000_0000);
}

#[test]
fn encode_drops_what_does_not_fit() {
    assert_eq!(encode(SCB_CPUID_REVISION_POS, SCB_CPUID_REVISION_MSK, 0x1F), 0x0000_000F);
    assert_eq!(encode(SCB_CPUID_PARTNO_POS, SCB_CPUID_PARTNO_MSK, 0x1000), 0);
}

#[test]
fn decode_reads_the_field_only() {
    assert_eq!(decode(SCB_CPUID_PARTNO_POS, SCB_CPUID_PARTNO_MSK, 0x410F_C241), 0xC24);
    assert_eq!(decode(SCB_CPUID_IMPLEMENTER_POS, SCB_CPUID_IMPLEMENTER_MSK, 0x410F_C241), 0x41);
    assert_eq!(decode(SCB_CPUID_REVISION_POS, SCB_CPUID_REVISION_MSK, 0x410F_C241), 1);
}

fn round_trip(position: u32, mask: u32, value: u32) -> u32 {
    decode(position, mask, encode(position, mask, value))
}

#[test]
fn round_trip_up_to_the_largest_value() {
    for value in [0u32, 1, 0x7FF, 0xFFE, 0xFFF] {
        assert_eq!(round_trip(SCB_CPUID_PARTNO_POS, SCB_CPUID_PARTNO_MSK, value), value);
    }
    for value in [0u32, 1] {
        assert_eq!(round_trip(SYS_TICK_CALIB_NOREF_POS, SYS_TICK_CALIB_NOREF_MSK, value), value);
    }
    for value in [0u32, 0x00FF_FFFF] {
        assert_eq!(round_trip(SYS_TICK_LOAD_RELOAD_POS, SYS_TICK_LOAD_RELOAD_MSK, value), value);
    }
    for value in [0u32, 0x1FFF_FFFF] {
        assert_eq!(round_trip(FPU_FPCAR_ADDRESS_POS, FPU_FPCAR_ADDRESS_MSK, value), value);
    }
    for value in 0..=0xFFu32 {
        assert_eq!(round_trip(SCB_CPUID_IMPLEMENTER_POS, SCB_CPUID_IMPLEMENTER_MSK, value), value);
    }
}

#[test]
fn insert_replaces_the_field_and_keeps_the_rest() {
    let word = insert(SCB_CPUID_PARTNO_POS, SCB_CPUID_PARTNO_MSK, 0xFFFF_FFFF, 0x123);
    assert_eq!(word, 0xFFFF_123F);
    let word = insert(SCB_CPUID_PARTNO_POS, SCB_CPUID_PARTNO_MSK, 0x410F_C241, 0);
    assert_eq!(word, 0x410F_0001);
}
