use revm_core::calc_linear_cost_u32;
use revm_core::precompile::Log;
use revm_core::precompile::Precompile;
use revm_core::precompile::PrecompileAddress;
use revm_core::precompile::PrecompileOutput;
use revm_core::precompile::Routine;
use revm_core::spec_id::SpecId;
use revm_core::u64_to_b160;
use revm_core::B160;

#[test]
fn linear_cost_charges_base_on_empty_input() {
    assert_eq!(calc_linear_cost_u32(0, 15, 3), 15);
}

#[test]
fn linear_cost_charges_one_word_at_the_boundary() {
    assert_eq!(calc_linear_cost_u32(32, 15, 3), 18);
}

#[test]
fn linear_cost_rounds_a_started_word_up() {
    assert_eq!(calc_linear_cost_u32(33, 15, 3), 21);
    assert_eq!(calc_linear_cost_u32(1, 60, 12), 72);
    assert_eq!(calc_linear_cost_u32(64, 60, 12), 84);
}

#[test]
fn u64_to_b160_zero_extends_big_endian_bytes() {
    assert_eq!(u64_to_b160(1), {
        let mut a = [0u8; 20];
        a[19] = 1;
        a
    });
    assert_eq!(u64_to_b160(9), {
        let mut a = [0u8; 20];
        a[19] = 9;
        a
    });
    let a = u64_to_b160(0x1122334455667788);
    let expect: B160 = [
        0, 0, 0, 0, 0, 0, 0, 0, 0, 0, 0, 0, 0x11, 0x22, 0x33, 0x44, 0x55, 0x66, 0x77, 0x88,
    ];
    assert_eq!(a, expect);
}

#[test]
fn spec_id_enabled_is_at_or_past() {
    assert!(SpecId::HOMESTEAD.enabled(0));
    assert!(SpecId::HOMESTEAD.enabled(4));
    assert!(!SpecId::BERLIN.enabled(2));
    assert!(SpecId::BERLIN.enabled(3));
    assert!(SpecId::BYZANTIUM.enabled(2));
    assert!(!SpecId::LATEST.enabled(3));
    assert!(SpecId::LATEST.enabled(4));
}

#[test]
fn spec_id_ordinals_are_strictly_ordered() {
    assert_eq!(SpecId::HOMESTEAD.ordinal(), 0);
    assert_eq!(SpecId::BYZANTIUM.ordinal(), 1);
    assert_eq!(SpecId::ISTANBUL.ordinal(), 2);
    assert_eq!(SpecId::BERLIN.ordinal(), 3);
    assert_eq!(SpecId::LATEST.ordinal(), 4);
    assert!(SpecId::HOMESTEAD < SpecId::BYZANTIUM);
    assert!(SpecId::BERLIN < SpecId::LATEST);
}

#[test]
fn output_without_logs_is_logless() {
    let out = PrecompileOutput::without_logs(21, vec![1, 2, 3]);
    assert_eq!(out.cost, 21);
    assert_eq!(out.output, vec![1, 2, 3]);
    assert!(out.logs.is_empty());
}

#[test]
fn default_log_is_the_zero_record() {
    let log = Log::default();
    assert_eq!(log.address, [0u8; 20]);
    assert!(log.topics.is_empty());
    assert!(log.data.is_empty());
}

#[test]
fn precompile_tag_names_provenance() {
    assert_eq!(Precompile::Standard(Routine::Identity).tag(), "Standard");
    assert_eq!(Precompile::Custom(Routine::Identity).tag(), "Custom");
}

#[test]
fn precompile_address_splits_into_its_parts() {
    let pair: (B160, Precompile) =
        PrecompileAddress(u64_to_b160(4), Precompile::Standard(Routine::Identity)).into();
    assert_eq!(pair.0, u64_to_b160(4));
    assert_eq!(pair.1, Precompile::Standard(Routine::Identity));
}
