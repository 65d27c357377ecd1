//! Hardware constraints: a closed tagged union, encoded on the wire as a
//! record with a discriminator string and variant-specific payload fields.
//!
//! Fractional wire quantities (memory sizes in MB, memory-per-core ratios in
//! GB) are held as integer thousandths of the wire unit, so a payload value
//! of `1500` under `maximum_memory_mb_milli` denotes 1.5 MB on the wire.
use vstd::prelude::*;
use crate::text::{clone_opt_string, str_eq};

verus! {

/// The closed set of constraint kinds, one per wire discriminator string.
#[derive(Debug, Clone, Copy, PartialEq, Eq, Structural)]
pub enum HardwareConstraint {
    CpuModel,
    Gpu,
    MaximumCore,
    MaximumRamCoreRatio,
    MaximumRam,
    MinimumCore,
    MinimumRamCoreRatio,
    MinimumRam,
    NoGpu,
    NoSsd,
    Ssd,
    Specific,
}

impl Default for HardwareConstraint {
    /// The default kind is the CPU-model constraint.
    fn default() -> (r: Self)
        ensures
            r == HardwareConstraint::CpuModel,
    {
        HardwareConstraint::CpuModel
    }
}

/// The discriminator string of each constraint kind.
pub open spec fn spec_discriminator(kind: HardwareConstraint) -> Seq<char> {
    match kind {
        HardwareConstraint::CpuModel => "CpuModelHardwareConstraint"@,
        HardwareConstraint::Gpu => "GpuHardwareConstraint"@,
        HardwareConstraint::MaximumCore => "MaximumCoreHardwareConstraint"@,
        HardwareConstraint::MaximumRamCoreRatio => "MaximumRamCoreRatioHardwareConstraint"@,
        HardwareConstraint::MaximumRam => "MaximumRamHardwareConstraint"@,
        HardwareConstraint::MinimumCore => "MinimumCoreHardwareConstraint"@,
        HardwareConstraint::MinimumRamCoreRatio => "MinimumRamCoreRatioHardwareConstraint"@,
        HardwareConstraint::MinimumRam => "MinimumRamHardwareConstraint"@,
        HardwareConstraint::NoGpu => "NoGpuHardwareConstraint"@,
        HardwareConstraint::NoSsd => "NoSSDHardwareConstraint"@,
        HardwareConstraint::Ssd => "SSDHardwareConstraint"@,
        HardwareConstraint::Specific => "SpecificHardwareConstraint"@,
    }
}

/// The constraint kind a discriminator string denotes, if any.
pub open spec fn spec_kind_of_discriminator(s: Seq<char>) -> Option<HardwareConstraint> {
    if s == "CpuModelHardwareConstraint"@ {
        Some(HardwareConstraint::CpuModel)
    } else if s == "GpuHardwareConstraint"@ {
        Some(HardwareConstraint::Gpu)
    } else if s == "MaximumCoreHardwareConstraint"@ {
        Some(HardwareConstraint::MaximumCore)
    } else if s == "MaximumRamCoreRatioHardwareConstraint"@ {
        Some(HardwareConstraint::MaximumRamCoreRatio)
    } else if s == "MaximumRamHardwareConstraint"@ {
        Some(HardwareConstraint::MaximumRam)
    } else if s == "MinimumCoreHardwareConstraint"@ {
        Some(HardwareConstraint::MinimumCore)
    } else if s == "MinimumRamCoreRatioHardwareConstraint"@ {
        Some(HardwareConstraint::MinimumRamCoreRatio)
    } else if s == "MinimumRamHardwareConstraint"@ {
        Some(HardwareConstraint::MinimumRam)
    } else if s == "NoGpuHardwareConstraint"@ {
        Some(HardwareConstraint::NoGpu)
    } else if s == "NoSSDHardwareConstraint"@ {
        Some(HardwareConstraint::NoSsd)
    } else if s == "SSDHardwareConstraint"@ {
        Some(HardwareConstraint::Ssd)
    } else if s == "SpecificHardwareConstraint"@ {
        Some(HardwareConstraint::Specific)
    } else {
        None
    }
}

impl HardwareConstraint {
    /// The kind's discriminator string as it appears on the wire.
    pub fn discriminator(&self) -> (r: String)
        ensures
            r@ == spec_discriminator(*self),
    {
        match self {
            HardwareConstraint::CpuModel => "CpuModelHardwareConstraint".to_owned(),
            HardwareConstraint::Gpu => "GpuHardwareConstraint".to_owned(),
            HardwareConstraint::MaximumCore => "MaximumCoreHardwareConstraint".to_owned(),
            HardwareConstraint::MaximumRamCoreRatio => "MaximumRamCoreRatioHardwareConstraint"
                .to_owned(),
            HardwareConstraint::MaximumRam => "MaximumRamHardwareConstraint".to_owned(),
            HardwareConstraint::MinimumCore => "MinimumCoreHardwareConstraint".to_owned(),
            HardwareConstraint::MinimumRamCoreRatio => "MinimumRamCoreRatioHardwareConstraint"
                .to_owned(),
            HardwareConstraint::MinimumRam => "MinimumRamHardwareConstraint".to_owned(),
            HardwareConstraint::NoGpu => "NoGpuHardwareConstraint".to_owned(),
            HardwareConstraint::NoSsd => "NoSSDHardwareConstraint".to_owned(),
            HardwareConstraint::Ssd => "SSDHardwareConstraint".to_owned(),
            HardwareConstraint::Specific => "SpecificHardwareConstraint".to_owned(),
        }
    }

    /// The kind a discriminator string denotes; `None` for an unrecognized
    /// string.
    pub fn from_discriminator(s: &str) -> (r: Option<Self>)
        ensures
            r == spec_kind_of_discriminator(s@),
    {
        if str_eq(s, "CpuModelHardwareConstraint") {
            Some(HardwareConstraint::CpuModel)
        } else if str_eq(s, "GpuHardwareConstraint") {
            Some(HardwareConstraint::Gpu)
        } else if str_eq(s, "MaximumCoreHardwareConstraint") {
            Some(HardwareConstraint::MaximumCore)
        } else if str_eq(s, "MaximumRamCoreRatioHardwareConstraint") {
            Some(HardwareConstraint::MaximumRamCoreRatio)
        } else if str_eq(s, "MaximumRamHardwareConstraint") {
            Some(HardwareConstraint::MaximumRam)
        } else if str_eq(s, "MinimumCoreHardwareConstraint") {
            Some(HardwareConstraint::MinimumCore)
        } else if str_eq(s, "MinimumRamCoreRatioHardwareConstraint") {
            Some(HardwareConstraint::MinimumRamCoreRatio)
        } else if str_eq(s, "MinimumRamHardwareConstraint") {
            Some(HardwareConstraint::MinimumRam)
        } else if str_eq(s, "NoGpuHardwareConstraint") {
            Some(HardwareConstraint::NoGpu)
        } else if str_eq(s, "NoSSDHardwareConstraint") {
            Some(HardwareConstraint::NoSsd)
        } else if str_eq(s, "SSDHardwareConstraint") {
            Some(HardwareConstraint::Ssd)
        } else if str_eq(s, "SpecificHardwareConstraint") {
            Some(HardwareConstraint::Specific)
        } else {
            None
        }
    }
}

/// Constraint on the CPU model.
#[derive(Debug, Clone, Default)]
pub struct CpuModel {
    /// The discriminator string reported for the record, if any.
    pub discriminator: Option<String>,
    /// The required CPU model.
    pub cpu_model: Option<String>,
}

/// Constraint requiring hardware with a GPU.
#[derive(Debug, Clone, Default)]
pub struct Gpu {
    /// The discriminator string reported for the record, if any.
    pub discriminator: Option<String>,
}

/// Constraint on the maximum core count.
#[derive(Debug, Clone, Default)]
pub struct MaximumCore {
    /// The discriminator string reported for the record, if any.
    pub discriminator: Option<String>,
    /// The maximum number of cores.
    pub core_count: Option<i32>,
}

/// Constraint on the maximum memory-per-core ratio, in thousandths of a GB.
#[derive(Debug, Clone, Default)]
pub struct MaximumRamCoreRatio {
    /// The discriminator string reported for the record, if any.
    pub discriminator: Option<String>,
    /// The maximum memory-per-core ratio, in thousandths of a GB per core.
    pub maximum_memory_gb_core_ratio_milli: Option<u64>,
}

/// Constraint on the maximum memory size, in thousandths of a MB.
#[derive(Debug, Clone, Default)]
pub struct MaximumRam {
    /// The discriminator string reported for the record, if any.
    pub discriminator: Option<String>,
    /// The maximum memory size, in thousandths of a MB.
    pub maximum_memory_mb_milli: Option<u64>,
}

/// Constraint on the minimum core count.
#[derive(Debug, Clone, Default)]
pub struct MinimumCore {
    /// The discriminator string reported for the record, if any.
    pub discriminator: Option<String>,
    /// The minimum number of cores.
    pub core_count: Option<i32>,
}

/// Constraint on the minimum memory-per-core ratio, in thousandths of a GB.
#[derive(Debug, Clone, Default)]
pub struct MinimumRamCoreRatio {
    /// The discriminator string reported for the record, if any.
    pub discriminator: Option<String>,
    /// The minimum memory-per-core ratio, in thousandths of a GB per core.
    pub minimum_memory_gb_core_ratio_milli: Option<u64>,
}

/// Constraint on the minimum memory size, in thousandths of a MB.
#[derive(Debug, Clone, Default)]
pub struct MinimumRam {
    /// The discriminator string reported for the record, if any.
    pub discriminator: Option<String>,
    /// The minimum memory size, in thousandths of a MB.
    pub minimum_memory_mb_milli: Option<u64>,
}

/// Constraint requiring hardware without a GPU.
#[derive(Debug, Clone, Default)]
pub struct NoGpu {
    /// The discriminator string reported for the record, if any.
    pub discriminator: Option<String>,
}

/// Constraint requiring hardware without an SSD.
#[derive(Debug, Clone, Default)]
pub struct NoSsd {
    /// The discriminator string reported for the record, if any.
    pub discriminator: Option<String>,
}

/// Constraint requiring hardware with an SSD.
#[derive(Debug, Clone, Default)]
pub struct Ssd {
    /// The discriminator string reported for the record, if any.
    pub discriminator: Option<String>,
}

/// Constraint naming a specific hardware specification key.
#[derive(Debug, Clone, Default)]
pub struct Specific {
    /// The discriminator string reported for the record, if any.
    pub discriminator: Option<String>,
    /// The key of the required specific hardware.
    pub specification_key: Option<String>,
}

/// One hardware constraint: a closed tagged union over the twelve kinds.
#[derive(Debug)]
pub enum HardwareConstraintVariant {
    CpuModelHardware(CpuModel),
    GpuHardware(Gpu),
    MaximumCoreHardware(MaximumCore),
    MaximumRamCoreRatioHardware(MaximumRamCoreRatio),
    MaximumRamHardware(MaximumRam),
    MinimumCoreHardware(MinimumCore),
    MinimumRamCoreRatioHardware(MinimumRamCoreRatio),
    MinimumRamHardware(MinimumRam),
    NoGpuHardware(NoGpu),
    NoSsdHardware(NoSsd),
    SsdHardware(Ssd),
    SpecificHardware(Specific),
}

impl Clone for HardwareConstraintVariant {
    /// A clone carries the same kind and fields.
    fn clone(&self) -> (r: Self)
        ensures
            r == *self,
    {
        match self {
            HardwareConstraintVariant::CpuModelHardware(c) => {
                HardwareConstraintVariant::CpuModelHardware(
                    CpuModel {
                        discriminator: clone_opt_string(&c.discriminator),
                        cpu_model: clone_opt_string(&c.cpu_model),
                    },
                )
            },
            HardwareConstraintVariant::GpuHardware(c) => {
                HardwareConstraintVariant::GpuHardware(
                    Gpu { discriminator: clone_opt_string(&c.discriminator) },
                )
            },
            HardwareConstraintVariant::MaximumCoreHardware(c) => {
                HardwareConstraintVariant::MaximumCoreHardware(
                    MaximumCore {
                        discriminator: clone_opt_string(&c.discriminator),
                        core_count: c.core_count,
                    },
                )
            },
            HardwareConstraintVariant::MaximumRamCoreRatioHardware(c) => {
                HardwareConstraintVariant::MaximumRamCoreRatioHardware(
                    MaximumRamCoreRatio {
                        discriminator: clone_opt_string(&c.discriminator),
                        maximum_memory_gb_core_ratio_milli: c.maximum_memory_gb_core_ratio_milli,
                    },
                )
            },
            HardwareConstraintVariant::MaximumRamHardware(c) => {
                HardwareConstraintVariant::MaximumRamHardware(
                    MaximumRam {
                        discriminator: clone_opt_string(&c.discriminator),
                        maximum_memory_mb_milli: c.maximum_memory_mb_milli,
                    },
                )
            },
            HardwareConstraintVariant::MinimumCoreHardware(c) => {
                HardwareConstraintVariant::MinimumCoreHardware(
                    MinimumCore {
                        discriminator: clone_opt_string(&c.discriminator),
                        core_count: c.core_count,
                    },
                )
            },
            HardwareConstraintVariant::MinimumRamCoreRatioHardware(c) => {
                HardwareConstraintVariant::MinimumRamCoreRatioHardware(
                    MinimumRamCoreRatio {
                        discriminator: clone_opt_string(&c.discriminator),
                        minimum_memory_gb_core_ratio_milli: c.minimum_memory_gb_core_ratio_milli,
                    },
                )
            },
            HardwareConstraintVariant::MinimumRamHardware(c) => {
                HardwareConstraintVariant::MinimumRamHardware(
                    MinimumRam {
                        discriminator: clone_opt_string(&c.discriminator),
                        minimum_memory_mb_milli: c.minimum_memory_mb_milli,
                    },
                )
            },
            HardwareConstraintVariant::NoGpuHardware(c) => {
                HardwareConstraintVariant::NoGpuHardware(
                    NoGpu { discriminator: clone_opt_string(&c.discriminator) },
                )
            },
            HardwareConstraintVariant::NoSsdHardware(c) => {
                HardwareConstraintVariant::NoSsdHardware(
                    NoSsd { discriminator: clone_opt_string(&c.discriminator) },
                )
            },
            HardwareConstraintVariant::SsdHardware(c) => {
                HardwareConstraintVariant::SsdHardware(
                    Ssd { discriminator: clone_opt_string(&c.discriminator) },
                )
            },
            HardwareConstraintVariant::SpecificHardware(c) => {
                HardwareConstraintVariant::SpecificHardware(
                    Specific {
                        discriminator: clone_opt_string(&c.discriminator),
                        specification_key: clone_opt_string(&c.specification_key),
                    },
                )
            },
        }
    }
}

impl Default for HardwareConstraintVariant {
    /// The default variant carries the default kind's empty payload.
    fn default() -> (r: Self)
        ensures
            r matches HardwareConstraintVariant::CpuModelHardware(c) && c.discriminator is None
                && c.cpu_model is None,
    {
        HardwareConstraintVariant::CpuModelHardware(
            CpuModel { discriminator: None, cpu_model: None },
        )
    }
}

/// The flat wire projection of one constraint record: its discriminator and
/// every payload field any variant can carry. Fractional quantities are in
/// thousandths of the wire unit.
#[derive(Debug, Clone, Default)]
pub struct ConstraintRecord {
    /// The record's discriminator string, if present.
    pub discriminator: Option<String>,
    /// A core-count payload.
    pub core_count: Option<i32>,
    /// A CPU-model payload.
    pub cpu_model: Option<String>,
    /// A specification-key payload.
    pub specification_key: Option<String>,
    /// A maximum memory size, in thousandths of a MB.
    pub maximum_memory_mb_milli: Option<u64>,
    /// A minimum memory size, in thousandths of a MB.
    pub minimum_memory_mb_milli: Option<u64>,
    /// A maximum memory-per-core ratio, in thousandths of a GB per core.
    pub maximum_memory_gb_core_ratio_milli: Option<u64>,
    /// A minimum memory-per-core ratio, in thousandths of a GB per core.
    pub minimum_memory_gb_core_ratio_milli: Option<u64>,
}

/// Why a constraint record failed to decode.
#[derive(Debug, Clone, Copy, PartialEq, Eq, Structural)]
pub enum ConstraintDecodeError {
    /// The record carries no discriminator field.
    MissingDiscriminator,
    /// The record's discriminator string names no known constraint kind.
    UnknownDiscriminator,
}

/// A variant is well-formed when its stored discriminator field names its
/// own kind; the encoder always emits that canonical string.
pub open spec fn variant_wf(v: HardwareConstraintVariant) -> bool {
    match v {
        HardwareConstraintVariant::CpuModelHardware(c) => c.discriminator matches Some(d)
            && d@ == spec_discriminator(HardwareConstraint::CpuModel),
        HardwareConstraintVariant::GpuHardware(c) => c.discriminator matches Some(d) && d@
            == spec_discriminator(HardwareConstraint::Gpu),
        HardwareConstraintVariant::MaximumCoreHardware(c) => c.discriminator matches Some(d) && d@
            == spec_discriminator(HardwareConstraint::MaximumCore),
        HardwareConstraintVariant::MaximumRamCoreRatioHardware(c) => c.discriminator matches Some(
            d,
        ) && d@ == spec_discriminator(HardwareConstraint::MaximumRamCoreRatio),
        HardwareConstraintVariant::MaximumRamHardware(c) => c.discriminator matches Some(d) && d@
            == spec_discriminator(HardwareConstraint::MaximumRam),
        HardwareConstraintVariant::MinimumCoreHardware(c) => c.discriminator matches Some(d) && d@
            == spec_discriminator(HardwareConstraint::MinimumCore),
        HardwareConstraintVariant::MinimumRamCoreRatioHardware(c) => c.discriminator matches Some(
            d,
        ) && d@ == spec_discriminator(HardwareConstraint::MinimumRamCoreRatio),
        HardwareConstraintVariant::MinimumRamHardware(c) => c.discriminator matches Some(d) && d@
            == spec_discriminator(HardwareConstraint::MinimumRam),
        HardwareConstraintVariant::NoGpuHardware(c) => c.discriminator matches Some(d) && d@
            == spec_discriminator(HardwareConstraint::NoGpu),
        HardwareConstraintVariant::NoSsdHardware(c) => c.discriminator matches Some(d) && d@
            == spec_discriminator(HardwareConstraint::NoSsd),
        HardwareConstraintVariant::SsdHardware(c) => c.discriminator matches Some(d) && d@
            == spec_discriminator(HardwareConstraint::Ssd),
        HardwareConstraintVariant::SpecificHardware(c) => c.discriminator matches Some(d) && d@
            == spec_discriminator(HardwareConstraint::Specific),
    }
}

/// The kind of a variant's payload.
pub open spec fn kind_of(v: HardwareConstraintVariant) -> HardwareConstraint {
    match v {
        HardwareConstraintVariant::CpuModelHardware(_) => HardwareConstraint::CpuModel,
        HardwareConstraintVariant::GpuHardware(_) => HardwareConstraint::Gpu,
        HardwareConstraintVariant::MaximumCoreHardware(_) => HardwareConstraint::MaximumCore,
        HardwareConstraintVariant::MaximumRamCoreRatioHardware(_) => HardwareConstraint::MaximumRamCoreRatio,
        HardwareConstraintVariant::MaximumRamHardware(_) => HardwareConstraint::MaximumRam,
        HardwareConstraintVariant::MinimumCoreHardware(_) => HardwareConstraint::MinimumCore,
        HardwareConstraintVariant::MinimumRamCoreRatioHardware(_) => HardwareConstraint::MinimumRamCoreRatio,
        HardwareConstraintVariant::MinimumRamHardware(_) => HardwareConstraint::MinimumRam,
        HardwareConstraintVariant::NoGpuHardware(_) => HardwareConstraint::NoGpu,
        HardwareConstraintVariant::NoSsdHardware(_) => HardwareConstraint::NoSsd,
        HardwareConstraintVariant::SsdHardware(_) => HardwareConstraint::Ssd,
        HardwareConstraintVariant::SpecificHardware(_) => HardwareConstraint::Specific,
    }
}

/// The record carries exactly the variant's payload: the variant's own
/// fields, and nothing under any other kind's fields.
pub open spec fn record_payload_matches(
    r: ConstraintRecord,
    v: HardwareConstraintVariant,
) -> bool {
    &&& r.core_count == match v {
        HardwareConstraintVariant::MaximumCoreHardware(c) => c.core_count,
        HardwareConstraintVariant::MinimumCoreHardware(c) => c.core_count,
        _ => None,
    }
    &&& r.cpu_model == match v {
        HardwareConstraintVariant::CpuModelHardware(c) => c.cpu_model,
        _ => None,
    }
    &&& r.specification_key == match v {
        HardwareConstraintVariant::SpecificHardware(c) => c.specification_key,
        _ => None,
    }
    &&& r.maximum_memory_mb_milli == match v {
        HardwareConstraintVariant::MaximumRamHardware(c) => c.maximum_memory_mb_milli,
        _ => None,
    }
    &&& r.minimum_memory_mb_milli == match v {
        HardwareConstraintVariant::MinimumRamHardware(c) => c.minimum_memory_mb_milli,
        _ => None,
    }
    &&& r.maximum_memory_gb_core_ratio_milli == match v {
        HardwareConstraintVariant::MaximumRamCoreRatioHardware(
            c,
        ) => c.maximum_memory_gb_core_ratio_milli,
        _ => None,
    }
    &&& r.minimum_memory_gb_core_ratio_milli == match v {
        HardwareConstraintVariant::MinimumRamCoreRatioHardware(
            c,
        ) => c.minimum_memory_gb_core_ratio_milli,
        _ => None,
    }
}

/// What `HardwareConstraintVariant::decode` returns for a record: a missing
/// discriminator fails, an unrecognized one fails, and a recognized one
/// yields the matching variant carrying the record's discriminator and the
/// kind's own payload fields.
pub open spec fn decode_post(
    r: ConstraintRecord,
    out: Result<HardwareConstraintVariant, ConstraintDecodeError>,
) -> bool {
    match r.discriminator {
        Option::None => out == Result::<
            HardwareConstraintVariant,
            ConstraintDecodeError,
        >::Err(ConstraintDecodeError::MissingDiscriminator),
        Option::Some(d) => match spec_kind_of_discriminator(d@) {
            Option::None => out == Result::<
                HardwareConstraintVariant,
                ConstraintDecodeError,
            >::Err(ConstraintDecodeError::UnknownDiscriminator),
            Option::Some(kind) => out matches Ok(w) && kind_of(w) == kind && w.discriminator()
                == r.discriminator && variant_payload_from(w, r),
        },
    }
}

/// The variant's own payload fields are exactly the record's; fields of
/// other kinds the record may carry are ignored.
pub open spec fn variant_payload_from(w: HardwareConstraintVariant, r: ConstraintRecord) -> bool {
    match w {
        HardwareConstraintVariant::CpuModelHardware(c) => c.cpu_model == r.cpu_model,
        HardwareConstraintVariant::GpuHardware(_) => true,
        HardwareConstraintVariant::MaximumCoreHardware(c) => c.core_count == r.core_count,
        HardwareConstraintVariant::MaximumRamCoreRatioHardware(
            c,
        ) => c.maximum_memory_gb_core_ratio_milli == r.maximum_memory_gb_core_ratio_milli,
        HardwareConstraintVariant::MaximumRamHardware(c) => c.maximum_memory_mb_milli
            == r.maximum_memory_mb_milli,
        HardwareConstraintVariant::MinimumCoreHardware(c) => c.core_count == r.core_count,
        HardwareConstraintVariant::MinimumRamCoreRatioHardware(
            c,
        ) => c.minimum_memory_gb_core_ratio_milli == r.minimum_memory_gb_core_ratio_milli,
        HardwareConstraintVariant::MinimumRamHardware(c) => c.minimum_memory_mb_milli
            == r.minimum_memory_mb_milli,
        HardwareConstraintVariant::NoGpuHardware(_) => true,
        HardwareConstraintVariant::NoSsdHardware(_) => true,
        HardwareConstraintVariant::SsdHardware(_) => true,
        HardwareConstraintVariant::SpecificHardware(c) => c.specification_key
            == r.specification_key,
    }
}

impl HardwareConstraintVariant {
    /// The discriminator field stored in the variant's payload.
    pub open spec fn discriminator(&self) -> Option<String> {
        match self {
            HardwareConstraintVariant::CpuModelHardware(c) => c.discriminator,
            HardwareConstraintVariant::GpuHardware(c) => c.discriminator,
            HardwareConstraintVariant::MaximumCoreHardware(c) => c.discriminator,
            HardwareConstraintVariant::MaximumRamCoreRatioHardware(c) => c.discriminator,
            HardwareConstraintVariant::MaximumRamHardware(c) => c.discriminator,
            HardwareConstraintVariant::MinimumCoreHardware(c) => c.discriminator,
            HardwareConstraintVariant::MinimumRamCoreRatioHardware(c) => c.discriminator,
            HardwareConstraintVariant::MinimumRamHardware(c) => c.discriminator,
            HardwareConstraintVariant::NoGpuHardware(c) => c.discriminator,
            HardwareConstraintVariant::NoSsdHardware(c) => c.discriminator,
            HardwareConstraintVariant::SsdHardware(c) => c.discriminator,
            HardwareConstraintVariant::SpecificHardware(c) => c.discriminator,
        }
    }

    /// Encodes the variant as its flat wire record. The discriminator
    /// emitted is always the variant's own canonical string, whatever the
    /// payload's stored discriminator field says.
    pub fn encode(&self) -> (r: ConstraintRecord)
        ensures
            r.discriminator matches Some(dd) && dd@ == spec_discriminator(kind_of(*self)),
            record_payload_matches(r, *self),
    {
        let kind = match self {
            HardwareConstraintVariant::CpuModelHardware(_) => HardwareConstraint::CpuModel,
            HardwareConstraintVariant::GpuHardware(_) => HardwareConstraint::Gpu,
            HardwareConstraintVariant::MaximumCoreHardware(_) => HardwareConstraint::MaximumCore,
            HardwareConstraintVariant::MaximumRamCoreRatioHardware(
                _,
            ) => HardwareConstraint::MaximumRamCoreRatio,
            HardwareConstraintVariant::MaximumRamHardware(_) => HardwareConstraint::MaximumRam,
            HardwareConstraintVariant::MinimumCoreHardware(_) => HardwareConstraint::MinimumCore,
            HardwareConstraintVariant::MinimumRamCoreRatioHardware(
                _,
            ) => HardwareConstraint::MinimumRamCoreRatio,
            HardwareConstraintVariant::MinimumRamHardware(_) => HardwareConstraint::MinimumRam,
            HardwareConstraintVariant::NoGpuHardware(_) => HardwareConstraint::NoGpu,
            HardwareConstraintVariant::NoSsdHardware(_) => HardwareConstraint::NoSsd,
            HardwareConstraintVariant::SsdHardware(_) => HardwareConstraint::Ssd,
            HardwareConstraintVariant::SpecificHardware(_) => HardwareConstraint::Specific,
        };
        let mut r = ConstraintRecord {
            discriminator: Some(kind.discriminator()),
            core_count: None,
            cpu_model: None,
            specification_key: None,
            maximum_memory_mb_milli: None,
            minimum_memory_mb_milli: None,
            maximum_memory_gb_core_ratio_milli: None,
            minimum_memory_gb_core_ratio_milli: None,
        };
        match self {
            HardwareConstraintVariant::CpuModelHardware(c) => {
                r.cpu_model = clone_opt_string(&c.cpu_model);
            },
            HardwareConstraintVariant::GpuHardware(_) => {},
            HardwareConstraintVariant::MaximumCoreHardware(c) => {
                r.core_count = c.core_count;
            },
            HardwareConstraintVariant::MaximumRamCoreRatioHardware(c) => {
                r.maximum_memory_gb_core_ratio_milli = c.maximum_memory_gb_core_ratio_milli;
            },
            HardwareConstraintVariant::MaximumRamHardware(c) => {
                r.maximum_memory_mb_milli = c.maximum_memory_mb_milli;
            },
            HardwareConstraintVariant::MinimumCoreHardware(c) => {
                r.core_count = c.core_count;
            },
            HardwareConstraintVariant::MinimumRamCoreRatioHardware(c) => {
                r.minimum_memory_gb_core_ratio_milli = c.minimum_memory_gb_core_ratio_milli;
            },
            HardwareConstraintVariant::MinimumRamHardware(c) => {
                r.minimum_memory_mb_milli = c.minimum_memory_mb_milli;
            },
            HardwareConstraintVariant::NoGpuHardware(_) => {},
            HardwareConstraintVariant::NoSsdHardware(_) => {},
            HardwareConstraintVariant::SsdHardware(_) => {},
            HardwareConstraintVariant::SpecificHardware(c) => {
                r.specification_key = clone_opt_string(&c.specification_key);
            },
        }
        r
    }

    /// Decodes one flat wire record, dispatching purely on its discriminator
    /// string. A record without a discriminator, or with an unrecognized
    /// one, fails; no variant is ever substituted by default.
    pub fn decode(record: &ConstraintRecord) -> (out: Result<
        HardwareConstraintVariant,
        ConstraintDecodeError,
    >)
        ensures
            decode_post(*record, out),
    {
        let d = match &record.discriminator {
            None => {
                return Err(ConstraintDecodeError::MissingDiscriminator);
            },
            Some(d) => d,
        };
        let kind = match HardwareConstraint::from_discriminator(d.as_str()) {
            None => {
                return Err(ConstraintDecodeError::UnknownDiscriminator);
            },
            Some(kind) => kind,
        };
        let disc = Some(d.clone());
        match kind {
            HardwareConstraint::CpuModel => Ok(
                HardwareConstraintVariant::CpuModelHardware(
                    CpuModel {
                        discriminator: disc,
                        cpu_model: clone_opt_string(&record.cpu_model),
                    },
                ),
            ),
            HardwareConstraint::Gpu => Ok(
                HardwareConstraintVariant::GpuHardware(Gpu { discriminator: disc }),
            ),
            HardwareConstraint::MaximumCore => Ok(
                HardwareConstraintVariant::MaximumCoreHardware(
                    MaximumCore { discriminator: disc, core_count: record.core_count },
                ),
            ),
            HardwareConstraint::MaximumRamCoreRatio => Ok(
                HardwareConstraintVariant::MaximumRamCoreRatioHardware(
                    MaximumRamCoreRatio {
                        discriminator: disc,
                        maximum_memory_gb_core_ratio_milli:
                            record.maximum_memory_gb_core_ratio_milli,
                    },
                ),
            ),
            HardwareConstraint::MaximumRam => Ok(
                HardwareConstraintVariant::MaximumRamHardware(
                    MaximumRam {
                        discriminator: disc,
                        maximum_memory_mb_milli: record.maximum_memory_mb_milli,
                    },
                ),
            ),
            HardwareConstraint::MinimumCore => Ok(
                HardwareConstraintVariant::MinimumCoreHardware(
                    MinimumCore { discriminator: disc, core_count: record.core_count },
                ),
            ),
            HardwareConstraint::MinimumRamCoreRatio => Ok(
                HardwareConstraintVariant::MinimumRamCoreRatioHardware(
                    MinimumRamCoreRatio {
                        discriminator: disc,
                        minimum_memory_gb_core_ratio_milli:
                            record.minimum_memory_gb_core_ratio_milli,
                    },
                ),
            ),
            HardwareConstraint::MinimumRam => Ok(
                HardwareConstraintVariant::MinimumRamHardware(
                    MinimumRam {
                        discriminator: disc,
                        minimum_memory_mb_milli: record.minimum_memory_mb_milli,
                    },
                ),
            ),
            HardwareConstraint::NoGpu => Ok(
                HardwareConstraintVariant::NoGpuHardware(NoGpu { discriminator: disc }),
            ),
            HardwareConstraint::NoSsd => Ok(
                HardwareConstraintVariant::NoSsdHardware(NoSsd { discriminator: disc }),
            ),
            HardwareConstraint::Ssd => Ok(
                HardwareConstraintVariant::SsdHardware(Ssd { discriminator: disc }),
            ),
            HardwareConstraint::Specific => Ok(
                HardwareConstraintVariant::SpecificHardware(
                    Specific {
                        discriminator: disc,
                        specification_key: clone_opt_string(&record.specification_key),
                    },
                ),
            ),
        }
    }
}

/// Two variants denote the same constraint: same kind, same payload, and
/// discriminator fields spelling the same string.
pub open spec fn variant_like(a: HardwareConstraintVariant, b: HardwareConstraintVariant) -> bool {
    &&& kind_of(a) == kind_of(b)
    &&& a.discriminator().deep_view() == b.discriminator().deep_view()
    &&& match (a, b) {
        (
            HardwareConstraintVariant::CpuModelHardware(x),
            HardwareConstraintVariant::CpuModelHardware(y),
        ) => x.cpu_model == y.cpu_model,
        (
            HardwareConstraintVariant::MaximumCoreHardware(x),
            HardwareConstraintVariant::MaximumCoreHardware(y),
        ) => x.core_count == y.core_count,
        (
            HardwareConstraintVariant::MinimumCoreHardware(x),
            HardwareConstraintVariant::MinimumCoreHardware(y),
        ) => x.core_count == y.core_count,
        (
            HardwareConstraintVariant::MaximumRamHardware(x),
            HardwareConstraintVariant::MaximumRamHardware(y),
        ) => x.maximum_memory_mb_milli == y.maximum_memory_mb_milli,
        (
            HardwareConstraintVariant::MinimumRamHardware(x),
            HardwareConstraintVariant::MinimumRamHardware(y),
        ) => x.minimum_memory_mb_milli == y.minimum_memory_mb_milli,
        (
            HardwareConstraintVariant::MaximumRamCoreRatioHardware(x),
            HardwareConstraintVariant::MaximumRamCoreRatioHardware(y),
        ) => x.maximum_memory_gb_core_ratio_milli == y.maximum_memory_gb_core_ratio_milli,
        (
            HardwareConstraintVariant::MinimumRamCoreRatioHardware(x),
            HardwareConstraintVariant::MinimumRamCoreRatioHardware(y),
        ) => x.minimum_memory_gb_core_ratio_milli == y.minimum_memory_gb_core_ratio_milli,
        (
            HardwareConstraintVariant::SpecificHardware(x),
            HardwareConstraintVariant::SpecificHardware(y),
        ) => x.specification_key == y.specification_key,
        _ => true,
    }
}

/// Every discriminator string maps back to its own kind.
pub proof fn lemma_discriminator_round_trip(k: HardwareConstraint)
    ensures
        spec_kind_of_discriminator(spec_discriminator(k)) == Some(k),
{
    reveal_strlit("CpuModelHardwareConstraint");
    reveal_strlit("GpuHardwareConstraint");
    reveal_strlit("MaximumCoreHardwareConstraint");
    reveal_strlit("MaximumRamCoreRatioHardwareConstraint");
    reveal_strlit("MaximumRamHardwareConstraint");
    reveal_strlit("MinimumCoreHardwareConstraint");
    reveal_strlit("MinimumRamCoreRatioHardwareConstraint");
    reveal_strlit("MinimumRamHardwareConstraint");
    reveal_strlit("NoGpuHardwareConstraint");
    reveal_strlit("NoSSDHardwareConstraint");
    reveal_strlit("SSDHardwareConstraint");
    reveal_strlit("SpecificHardwareConstraint");
    assert("CpuModelHardwareConstraint"@.len() == 26);
    assert("GpuHardwareConstraint"@.len() == 21);
    assert("MaximumCoreHardwareConstraint"@.len() == 29);
    assert("MaximumRamCoreRatioHardwareConstraint"@.len() == 37);
    assert("MaximumRamHardwareConstraint"@.len() == 28);
    assert("MinimumCoreHardwareConstraint"@.len() == 29);
    assert("MinimumRamCoreRatioHardwareConstraint"@.len() == 37);
    assert("MinimumRamHardwareConstraint"@.len() == 28);
    assert("NoGpuHardwareConstraint"@.len() == 23);
    assert("NoSSDHardwareConstraint"@.len() == 23);
    assert("SSDHardwareConstraint"@.len() == 21);
    assert("SpecificHardwareConstraint"@.len() == 26);
    assert("CpuModelHardwareConstraint"@[0] != "SpecificHardwareConstraint"@[0]);
    assert("GpuHardwareConstraint"@[0] != "SSDHardwareConstraint"@[0]);
    assert("MaximumCoreHardwareConstraint"@[1] != "MinimumCoreHardwareConstraint"@[1]);
    assert("MaximumRamHardwareConstraint"@[1] != "MinimumRamHardwareConstraint"@[1]);
    assert("MaximumRamCoreRatioHardwareConstraint"@[1]
        != "MinimumRamCoreRatioHardwareConstraint"@[1]);
    assert("NoGpuHardwareConstraint"@[2] != "NoSSDHardwareConstraint"@[2]);
}

/// Decoding inverts encoding: for a well-formed variant, any record that
/// carries its canonical discriminator and exactly its payload decodes back
/// to a variant denoting the same constraint. An unrecognized discriminator,
/// by contrast, always fails decoding (see `decode_post`).
pub proof fn lemma_decode_inverts_encode_variant(
    v: HardwareConstraintVariant,
    r: ConstraintRecord,
    out: Result<HardwareConstraintVariant, ConstraintDecodeError>,
)
    requires
        variant_wf(v),
        r.discriminator matches Some(dd) && dd@ == spec_discriminator(kind_of(v)),
        record_payload_matches(r, v),
        decode_post(r, out),
    ensures
        out matches Ok(w) && variant_like(w, v),
{
    lemma_discriminator_round_trip(kind_of(v));
}

/// A record whose discriminator string names no known kind never decodes.
pub proof fn lemma_unknown_discriminator_fails(
    r: ConstraintRecord,
    out: Result<HardwareConstraintVariant, ConstraintDecodeError>,
)
    requires
        r.discriminator matches Some(d) && spec_kind_of_discriminator(d@) is None,
        decode_post(r, out),
    ensures
        out == Result::<HardwareConstraintVariant, ConstraintDecodeError>::Err(
            ConstraintDecodeError::UnknownDiscriminator,
        ),
{
}

/// A page of the service's hardware-constraint catalog.
#[derive(Debug, Clone, Default)]
pub struct HardwareConstraintResponse {
    /// The constraints of this page.
    pub data: Option<Vec<HardwareConstraintVariant>>,
    /// Offset of the page.
    pub offset: Option<u32>,
    /// Size limit of the page.
    pub limit: Option<u32>,
    /// Total number of constraints in the catalog.
    pub total: Option<u32>,
}

} // verus!
