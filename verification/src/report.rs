//! Reports of finished clean runs.

use vstd::prelude::*;

use crate::cleaner_models::{CleanError, CleanResult};
use crate::platform;
use crate::text::{chars_eq, str_chars};

verus! {

/// The persisted form of one clean run.
#[derive(Debug, Clone)]
pub struct CleanReportData {
    pub clean_id: String,
    pub start_time: u64,
    pub end_time: u64,
    pub duration_ms: u64,
    pub total_files: u64,
    pub cleaned_files: u64,
    pub failed_files: u64,
    pub skipped_files: u64,
    pub total_size: u64,
    pub cleaned_size: u64,
    pub errors: Vec<CleanError>,
    pub summary: CleanSummary,
}

/// Aggregates over one clean run.
#[derive(Debug, Clone)]
pub struct CleanSummary {
    pub average_speed: u64,
    pub error_categories: Vec<ErrorCategory>,
}

/// The failures sharing one error code, with up to three example paths.
#[derive(Debug, Clone)]
pub struct ErrorCategory {
    pub error_code: String,
    pub count: u64,
    pub examples: Vec<String>,
}

/// Builds the report of one clean run.
pub struct CleanReportGenerator {
    pub clean_id: String,
    pub start_time: u64,
}

impl CleanReportGenerator {
    /// A generator with a fresh id, stamped with the current time.
    pub fn new() -> CleanReportGenerator {
        CleanReportGenerator {
            clean_id: platform::new_scan_uuid(),
            start_time: platform::now_secs(),
        }
    }

    /// A generator for a given id, stamped with the current time.
    pub fn with_id(clean_id: String) -> (r: CleanReportGenerator)
        ensures
            r.clean_id == clean_id,
    {
        CleanReportGenerator { clean_id, start_time: platform::now_secs() }
    }

    /// Wrap a clean result up as a report.
    pub fn generate(&self, result: &CleanResult) -> (r: CleanReportData)
        ensures
            r.clean_id == self.clean_id,
            r.total_files == result.total_files,
            r.cleaned_files == result.cleaned_files,
            r.failed_files == result.failed_files,
            r.skipped_files == result.skipped_files,
            r.total_size == result.total_size,
            r.cleaned_size == result.cleaned_size,
            r.duration_ms == result.duration_ms,
    {
        let end_time = platform::now_secs();
        let summary = self.generate_summary(result);
        let mut errors: Vec<CleanError> = Vec::new();
        let mut i: usize = 0;
        while i < result.errors.len()
            decreases result.errors@.len() - i,
        {
            errors.push(
                CleanError {
                    path: result.errors[i].path.clone(),
                    error_code: result.errors[i].error_code.clone(),
                    error_message: result.errors[i].error_message.clone(),
                },
            );
            i = i + 1;
        }
        CleanReportData {
            clean_id: self.clean_id.clone(),
            start_time: self.start_time,
            end_time,
            duration_ms: result.duration_ms,
            total_files: result.total_files,
            cleaned_files: result.cleaned_files,
            failed_files: result.failed_files,
            skipped_files: result.skipped_files,
            total_size: result.total_size,
            cleaned_size: result.cleaned_size,
            errors,
            summary,
        }
    }

    /// The average speed in bytes per second and the error categories.
    fn generate_summary(&self, result: &CleanResult) -> CleanSummary {
        let average_speed: u64 = if result.duration_ms > 0 {
            let wide = (result.cleaned_size as u128) * 1000 / (result.duration_ms as u128);
            if wide > 0xffff_ffff_ffff_ffff_u128 {
                0xffff_ffff_ffff_ffff_u64
            } else {
                wide as u64
            }
        } else {
            0
        };
        let error_categories = categorize_errors(&result.errors);
        CleanSummary { average_speed, error_categories }
    }
}

/// Group failures by error code, keeping at most three example paths each.
pub fn categorize_errors(errors: &Vec<CleanError>) -> (r: Vec<ErrorCategory>)
    ensures
        forall|i: int| 0 <= i < r@.len() ==> (#[trigger] r@[i]).examples@.len() <= 3,
{
    let mut categories: Vec<ErrorCategory> = Vec::new();
    let mut i: usize = 0;
    while i < errors.len()
        invariant
            forall|k: int| 0 <= k < categories@.len() ==> (#[trigger] categories@[k]).examples@.len() <= 3,
        decreases errors@.len() - i,
    {
        let code = &errors[i].error_code;
        let mut gi: usize = 0;
        let n = categories.len();
        let mut found = false;
        while gi < n && !found
            invariant
                i < errors@.len(),
                n == categories@.len(),
                forall|k: int|
                    0 <= k < categories@.len() ==> (#[trigger] categories@[k]).examples@.len()
                        <= 3,
            decreases n - gi + (if found {
                0int
            } else {
                1int
            }),
        {
            let matches = {
                let cand = str_chars(categories[gi].error_code.as_str());
                let target = str_chars(code.as_str());
                chars_eq(cand.as_slice(), target.as_slice())
            };
            if matches {
                let slot = crate::seq_util::vec_index_mut(&mut categories, gi);
                slot.count = if slot.count < 0xffff_ffff_ffff_ffff_u64 {
                    slot.count + 1
                } else {
                    slot.count
                };
                if slot.examples.len() < 3 {
                    slot.examples.push(errors[i].path.clone());
                }
                found = true;
            } else {
                gi = gi + 1;
            }
        }
        if !found {
            let mut examples: Vec<String> = Vec::new();
            examples.push(errors[i].path.clone());
            categories.push(ErrorCategory { error_code: code.clone(), count: 1, examples });
        }
        i = i + 1;
    }
    categories
}

/// The decimal digit character of a value below ten.
pub open spec fn dec_digit(d: int) -> char {
    ((48 + d) as u8) as char
}

/// The decimal rendering of a non-negative number.
pub open spec fn spec_u64_dec(n: int) -> Seq<char>
    decreases n,
{
    if n < 10 {
        seq![dec_digit(n)]
    } else {
        spec_u64_dec(n / 10).push(dec_digit(n % 10))
    }
}

/// The size in hundredths of a unit, rounded half up.
pub open spec fn spec_size_hundredths(size: int, unit: int) -> int {
    (size * 100 + unit / 2) / unit
}

/// The two-decimals rendering of a size over a unit.
pub open spec fn spec_decimal2(size: int, unit: int) -> Seq<char> {
    let h = spec_size_hundredths(size, unit);
    spec_u64_dec(h / 100) + seq!['.', dec_digit((h % 100) / 10), dec_digit(h % 10)]
}

/// A size rendered for people: two decimals over the largest unit the size
/// reaches, plain bytes below one kibibyte. The fraction rounds half up.
pub open spec fn spec_format_size(size: u64) -> Seq<char> {
    if size >= 0x40000000 {
        spec_decimal2(size as int, 0x40000000) + " GB"@
    } else if size >= 0x100000 {
        spec_decimal2(size as int, 0x100000) + " MB"@
    } else if size >= 0x400 {
        spec_decimal2(size as int, 0x400) + " KB"@
    } else {
        spec_u64_dec(size as int) + " B"@
    }
}

/// The decimal digits of a number.
fn u64_dec_chars(n: u64) -> (r: Vec<char>)
    ensures
        r@ == spec_u64_dec(n as int),
    decreases n,
{
    if n < 10 {
        let mut r: Vec<char> = Vec::new();
        r.push(((48 + n as u8)) as char);
        proof {
            assert(r@ =~= seq![dec_digit(n as int)]);
        }
        r
    } else {
        let mut r = u64_dec_chars(n / 10);
        r.push(((48 + (n % 10) as u8)) as char);
        proof {
            assert(r@ =~= spec_u64_dec(n as int / 10).push(dec_digit(n as int % 10)));
        }
        r
    }
}

/// Append the two-decimals rendering of `size` over `unit` and the unit's
/// letters.
fn push_decimal2(out: &mut Vec<char>, size: u64, unit: u64)
    requires
        unit >= 1024,
        old(out)@.len() == 0,
    ensures
        final(out)@ == spec_decimal2(size as int, unit as int),
{
    proof {
        assert((size as int) * 100 + (unit as int) / 2 < 0x100000000000000000000000000000000int)
            by (nonlinear_arith)
            requires
                size <= u64::MAX,
                unit <= u64::MAX,
        ;
        assert(((size as int) * 100 + (unit as int) / 2) / (unit as int) <= (size as int) / 10 + 1)
            by (nonlinear_arith)
            requires
                unit >= 1024,
                size >= 0,
        ;
    }
    let h_wide: u128 = ((size as u128) * 100 + (unit as u128) / 2) / (unit as u128);
    let h: u64 = h_wide as u64;
    let whole = u64_dec_chars(h / 100);
    let frac = h % 100;
    let mut i: usize = 0;
    proof {
        assert(out@ + whole@ =~= whole@);
    }
    while i < whole.len()
        invariant
            i <= whole@.len(),
            out@ == whole@.take(i as int),
        decreases whole@.len() - i,
    {
        out.push(whole[i]);
        proof {
            assert(whole@.take(i + 1) =~= whole@.take(i as int).push(whole@[i as int]));
        }
        i = i + 1;
    }
    proof {
        assert(whole@.take(whole@.len() as int) =~= whole@);
    }
    out.push('.');
    out.push(((48 + (frac / 10) as u8)) as char);
    out.push(((48 + (h % 10) as u8)) as char);
    proof {
        assert(out@ =~= spec_u64_dec((h_wide as int) / 100) + seq![
            '.',
            dec_digit(((h_wide as int) % 100) / 10),
            dec_digit((h_wide as int) % 10),
        ]);
    }
}

/// A size rendered for people, two decimals over the unit: bytes below one
/// kibibyte, then KB, MB and GB.
pub fn format_size(size: u64) -> (r: String)
    ensures
        r@ == spec_format_size(size),
{
    let mut out: Vec<char> = Vec::new();
    if size >= 0x40000000 {
        push_decimal2(&mut out, size, 0x40000000);
        out.push(' ');
        out.push('G');
        out.push('B');
        proof {
            reveal_strlit(" GB");
            assert(out@ =~= spec_decimal2(size as int, 0x40000000) + " GB"@);
        }
    } else if size >= 0x100000 {
        push_decimal2(&mut out, size, 0x100000);
        out.push(' ');
        out.push('M');
        out.push('B');
        proof {
            reveal_strlit(" MB");
            assert(out@ =~= spec_decimal2(size as int, 0x100000) + " MB"@);
        }
    } else if size >= 0x400 {
        push_decimal2(&mut out, size, 0x400);
        out.push(' ');
        out.push('K');
        out.push('B');
        proof {
            reveal_strlit(" KB");
            assert(out@ =~= spec_decimal2(size as int, 0x400) + " KB"@);
        }
    } else {
        let digits = u64_dec_chars(size);
        let mut i: usize = 0;
        while i < digits.len()
            invariant
                i <= digits@.len(),
                out@ == digits@.take(i as int),
            decreases digits@.len() - i,
        {
            out.push(digits[i]);
            proof {
                assert(digits@.take(i + 1) =~= digits@.take(i as int).push(digits@[i as int]));
            }
            i = i + 1;
        }
        proof {
            assert(digits@.take(digits@.len() as int) =~= digits@);
        }
        out.push(' ');
        out.push('B');
        proof {
            reveal_strlit(" B");
            assert(out@ =~= spec_u64_dec(size as int) + " B"@);
        }
    }
    crate::text::chars_to_string(&out)
}

} // verus!
