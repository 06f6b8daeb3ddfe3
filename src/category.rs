use vstd::prelude::*;

verus! {

/// The locale categories of `locale.h`.
#[derive(Debug, Clone, Copy, PartialEq, Eq, Structural)]
pub enum LocaleCategory {
    /// Character classification and case conversion.
    LcCType,
    /// Non-monetary numeric formats.
    LcNumeric,
    /// Date and time formats.
    LcTime,
    /// Collation order.
    LcCollate,
    /// Monetary formats.
    LcMonetary,
    /// Formats of informative and diagnostic messages and interactive responses.
    LcMessages,
    /// For all.
    LcAll,
    /// Paper size.
    LcPaper,
    /// Name formats.
    LcName,
    /// Address formats and location information.
    LcAddress,
    /// Telephone number formats.
    LcTelephone,
    /// Measurement units (Metric or Other).
    LcMeasurement,
    /// Metadata about the locale information.
    LcIdentification,
}

impl LocaleCategory {
    /// The native constant of the category.
    pub open spec fn spec_code(self) -> i32 {
        match self {
            LocaleCategory::LcCType => 0,
            LocaleCategory::LcNumeric => 1,
            LocaleCategory::LcTime => 2,
            LocaleCategory::LcCollate => 3,
            LocaleCategory::LcMonetary => 4,
            LocaleCategory::LcMessages => 5,
            LocaleCategory::LcAll => 6,
            LocaleCategory::LcPaper => 7,
            LocaleCategory::LcName => 8,
            LocaleCategory::LcAddress => 9,
            LocaleCategory::LcTelephone => 10,
            LocaleCategory::LcMeasurement => 11,
            LocaleCategory::LcIdentification => 12,
        }
    }

    /// The native constant handed to the native library for this category.
    pub fn code(self) -> (r: i32)
        ensures
            r == self.spec_code(),
    {
        match self {
            LocaleCategory::LcCType => 0,
            LocaleCategory::LcNumeric => 1,
            LocaleCategory::LcTime => 2,
            LocaleCategory::LcCollate => 3,
            LocaleCategory::LcMonetary => 4,
            LocaleCategory::LcMessages => 5,
            LocaleCategory::LcAll => 6,
            LocaleCategory::LcPaper => 7,
            LocaleCategory::LcName => 8,
            LocaleCategory::LcAddress => 9,
            LocaleCategory::LcTelephone => 10,
            LocaleCategory::LcMeasurement => 11,
            LocaleCategory::LcIdentification => 12,
        }
    }
}

/// Each category has its own native constant, and the constants fill 0 to 12.
pub proof fn lemma_codes_one_to_one(a: LocaleCategory, b: LocaleCategory)
    ensures
        0 <= a.spec_code() <= 12,
        a.spec_code() == b.spec_code() ==> a == b,
{
}

} // verus!
