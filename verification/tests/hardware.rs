//! The hardware-constraint union: every discriminator round-trips, and an
//! unrecognized or missing discriminator fails decoding.
use qarnot::compute::hardware_constraint::{
    ConstraintDecodeError, ConstraintRecord, CpuModel, Gpu, HardwareConstraint,
    HardwareConstraintVariant, MaximumCore, MaximumRam, MaximumRamCoreRatio, MinimumCore,
    MinimumRam, MinimumRamCoreRatio, NoGpu, NoSsd, Specific, Ssd,
};

const ALL_DISCRIMINATORS: [&str; 12] = [
    "CpuModelHardwareConstraint",
    "GpuHardwareConstraint",
    "MaximumCoreHardwareConstraint",
    "MaximumRamCoreRatioHardwareConstraint",
    "MaximumRamHardwareConstraint",
    "MinimumCoreHardwareConstraint",
    "MinimumRamCoreRatioHardwareConstraint",
    "MinimumRamHardwareConstraint",
    "NoGpuHardwareConstraint",
    "NoSSDHardwareConstraint",
    "SSDHardwareConstraint",
    "SpecificHardwareConstraint",
];

fn disc(s: &str) -> Option<String> {
    Some(s.to_string())
}

/// A representative instance of each variant, carrying its canonical
/// discriminator.
fn representatives() -> Vec<HardwareConstraintVariant> {
    vec![
        HardwareConstraintVariant::CpuModelHardware(CpuModel {
            discriminator: disc("CpuModelHardwareConstraint"),
            cpu_model: Some("AMD EPYC 7642".to_string()),
        }),
        HardwareConstraintVariant::GpuHardware(Gpu {
            discriminator: disc("GpuHardwareConstraint"),
        }),
        HardwareConstraintVariant::MaximumCoreHardware(MaximumCore {
            discriminator: disc("MaximumCoreHardwareConstraint"),
            core_count: Some(16),
        }),
        HardwareConstraintVariant::MaximumRamCoreRatioHardware(MaximumRamCoreRatio {
            discriminator: disc("MaximumRamCoreRatioHardwareConstraint"),
            maximum_memory_gb_core_ratio_milli: Some(4_000),
        }),
        HardwareConstraintVariant::MaximumRamHardware(MaximumRam {
            discriminator: disc("MaximumRamHardwareConstraint"),
            maximum_memory_mb_milli: Some(32_768_000),
        }),
        HardwareConstraintVariant::MinimumCoreHardware(MinimumCore {
            discriminator: disc("MinimumCoreHardwareConstraint"),
            core_count: Some(4),
        }),
        HardwareConstraintVariant::MinimumRamCoreRatioHardware(MinimumRamCoreRatio {
            discriminator: disc("MinimumRamCoreRatioHardwareConstraint"),
            minimum_memory_gb_core_ratio_milli: Some(1_500),
        }),
        HardwareConstraintVariant::MinimumRamHardware(MinimumRam {
            discriminator: disc("MinimumRamHardwareConstraint"),
            minimum_memory_mb_milli: Some(8_192_000),
        }),
        HardwareConstraintVariant::NoGpuHardware(NoGpu {
            discriminator: disc("NoGpuHardwareConstraint"),
        }),
        HardwareConstraintVariant::NoSsdHardware(NoSsd {
            discriminator: disc("NoSSDHardwareConstraint"),
        }),
        HardwareConstraintVariant::SsdHardware(Ssd {
            discriminator: disc("SSDHardwareConstraint"),
        }),
        HardwareConstraintVariant::SpecificHardware(Specific {
            discriminator: disc("SpecificHardwareConstraint"),
            specification_key: Some("amd-epyc-7642".to_string()),
        }),
    ]
}

fn variants_agree(a: &HardwareConstraintVariant, b: &HardwareConstraintVariant) -> bool {
    match (a, b) {
        (
            HardwareConstraintVariant::CpuModelHardware(x),
            HardwareConstraintVariant::CpuModelHardware(y),
        ) => x.discriminator == y.discriminator && x.cpu_model == y.cpu_model,
        (
            HardwareConstraintVariant::GpuHardware(x),
            HardwareConstraintVariant::GpuHardware(y),
        ) => x.discriminator == y.discriminator,
        (
            HardwareConstraintVariant::MaximumCoreHardware(x),
            HardwareConstraintVariant::MaximumCoreHardware(y),
        ) => x.discriminator == y.discriminator && x.core_count == y.core_count,
        (
            HardwareConstraintVariant::MaximumRamCoreRatioHardware(x),
            HardwareConstraintVariant::MaximumRamCoreRatioHardware(y),
        ) => {
            x.discriminator == y.discriminator
                && x.maximum_memory_gb_core_ratio_milli == y.maximum_memory_gb_core_ratio_milli
        }
        (
            HardwareConstraintVariant::MaximumRamHardware(x),
            HardwareConstraintVariant::MaximumRamHardware(y),
        ) => {
            x.discriminator == y.discriminator
                && x.maximum_memory_mb_milli == y.maximum_memory_mb_milli
        }
        (
            HardwareConstraintVariant::MinimumCoreHardware(x),
            HardwareConstraintVariant::MinimumCoreHardware(y),
        ) => x.discriminator == y.discriminator && x.core_count == y.core_count,
        (
            HardwareConstraintVariant::MinimumRamCoreRatioHardware(x),
            HardwareConstraintVariant::MinimumRamCoreRatioHardware(y),
        ) => {
            x.discriminator == y.discriminator
                && x.minimum_memory_gb_core_ratio_milli == y.minimum_memory_gb_core_ratio_milli
        }
        (
            HardwareConstraintVariant::MinimumRamHardware(x),
            HardwareConstraintVariant::MinimumRamHardware(y),
        ) => {
            x.discriminator == y.discriminator
                && x.minimum_memory_mb_milli == y.minimum_memory_mb_milli
        }
        (
            HardwareConstraintVariant::NoGpuHardware(x),
            HardwareConstraintVariant::NoGpuHardware(y),
        ) => x.discriminator == y.discriminator,
        (
            HardwareConstraintVariant::NoSsdHardware(x),
            HardwareConstraintVariant::NoSsdHardware(y),
        ) => x.discriminator == y.discriminator,
        (
            HardwareConstraintVariant::SsdHardware(x),
            HardwareConstraintVariant::SsdHardware(y),
        ) => x.discriminator == y.discriminator,
        (
            HardwareConstraintVariant::SpecificHardware(x),
            HardwareConstraintVariant::SpecificHardware(y),
        ) => x.discriminator == y.discriminator && x.specification_key == y.specification_key,
        _ => false,
    }
}

#[test]
fn every_variant_round_trips() {
    for variant in representatives() {
        let encoded = variant.encode();
        let decoded = HardwareConstraintVariant::decode(&encoded)
            .expect("a canonical discriminator decodes");
        assert!(
            variants_agree(&variant, &decoded),
            "round trip changed the variant: {:?} vs {:?}",
            variant,
            decoded
        );
    }
}

#[test]
fn encode_emits_the_canonical_discriminator() {
    for (variant, expected) in representatives().iter().zip(ALL_DISCRIMINATORS) {
        let encoded = variant.encode();
        assert_eq!(encoded.discriminator.as_deref(), Some(expected));
    }
    // The stored discriminator field never leaks onto the wire: encoding a
    // variant that carries a wrong string still emits the canonical one.
    let tampered = HardwareConstraintVariant::GpuHardware(Gpu {
        discriminator: disc("NoGpuHardwareConstraint"),
    });
    assert_eq!(
        tampered.encode().discriminator.as_deref(),
        Some("GpuHardwareConstraint")
    );
}

#[test]
fn unrecognized_discriminator_fails_decode() {
    let mut record = ConstraintRecord::default();
    record.discriminator = disc("TurboHardwareConstraint");
    assert!(matches!(
        HardwareConstraintVariant::decode(&record),
        Err(ConstraintDecodeError::UnknownDiscriminator)
    ));
}

#[test]
fn missing_discriminator_fails_decode() {
    let record = ConstraintRecord::default();
    assert!(matches!(
        HardwareConstraintVariant::decode(&record),
        Err(ConstraintDecodeError::MissingDiscriminator)
    ));
}

#[test]
fn discriminator_strings_map_to_their_kinds() {
    for text in ALL_DISCRIMINATORS {
        let kind = HardwareConstraint::from_discriminator(text)
            .expect("every canonical string names a kind");
        assert_eq!(kind.discriminator(), text);
    }
    assert!(HardwareConstraint::from_discriminator("SsdHardwareConstraint").is_none());
}

#[test]
fn decode_ignores_other_kinds_payload_fields() {
    let mut record = ConstraintRecord::default();
    record.discriminator = disc("MinimumCoreHardwareConstraint");
    record.core_count = Some(8);
    record.cpu_model = Some("stray".to_string());
    match HardwareConstraintVariant::decode(&record) {
        Ok(HardwareConstraintVariant::MinimumCoreHardware(c)) => {
            assert_eq!(c.core_count, Some(8));
            assert_eq!(c.discriminator.as_deref(), Some("MinimumCoreHardwareConstraint"));
        }
        other => panic!("wrong decode: {:?}", other),
    }
}
