use vstd::prelude::*;

use crate::metadata::GprMetadata;
use crate::paths::{extension_of, file_name_of, path_extension, path_file_name};
use crate::text::{as_f64, as_f64_u64, decimal, div_round_even, div_round_even_u128, fixed_two, push_decimal, push_fixed_two};

verus! {

pub const KB: u64 = 1024;

pub const MB: u64 = 1024 * 1024;

pub const GB: u64 = 1024 * 1024 * 1024;

/// A byte count in the largest unit that keeps it at least 1, with two decimals:
/// `"500 B"`, `"1.00 KB"`, `"1.50 MB"`. The count is taken as a double-precision value and
/// rounded to the nearest hundredth, ties to even, as `{:.2}` prints it.
pub open spec fn size_text(bytes: nat) -> Seq<char> {
    if bytes < KB {
        decimal(bytes) + " B"@
    } else if bytes < MB {
        fixed_two(div_round_even(as_f64(bytes) * 100, KB as nat)) + " KB"@
    } else if bytes < GB {
        fixed_two(div_round_even(as_f64(bytes) * 100, MB as nat)) + " MB"@
    } else {
        fixed_two(div_round_even(as_f64(bytes) * 100, GB as nat)) + " GB"@
    }
}

/// Formats a byte count for display.
pub fn format_file_size(bytes: u64) -> (r: String)
    ensures
        r@ == size_text(bytes as nat),
{
    let mut s = String::new();
    if bytes < KB {
        push_decimal(&mut s, bytes as u128);
        s.append(" B");
    } else {
        let v = as_f64_u64(bytes);
        if bytes < MB {
            push_fixed_two(&mut s, div_round_even_u128(v * 100, KB as u128));
            s.append(" KB");
        } else if bytes < GB {
            push_fixed_two(&mut s, div_round_even_u128(v * 100, MB as u128));
            s.append(" MB");
        } else {
            push_fixed_two(&mut s, div_round_even_u128(v * 100, GB as u128));
            s.append(" GB");
        }
    }
    s
}

/// An extension that reads `gpr` in any mix of upper and lower case.
pub open spec fn is_gpr_extension(e: Seq<char>) -> bool {
    &&& e.len() == 3
    &&& e[0] == 'g' || e[0] == 'G'
    &&& e[1] == 'p' || e[1] == 'P'
    &&& e[2] == 'r' || e[2] == 'R'
}

pub open spec fn has_gpr_extension(path: Seq<char>) -> bool {
    match extension_of(path) {
        Some(e) => is_gpr_extension(e),
        None => false,
    }
}

/// Whether the path names a `.gpr` file, by its extension in any case.
pub fn is_gpr_file(path: &str) -> (r: bool)
    ensures
        r == has_gpr_extension(path@),
{
    match path_extension(path) {
        Some(e) => {
            let s = e.as_str();
            if s.unicode_len() != 3 {
                return false;
            }
            let a = s.get_char(0);
            let b = s.get_char(1);
            let c = s.get_char(2);
            (a == 'g' || a == 'G') && (b == 'p' || b == 'P') && (c == 'r' || c == 'R')
        },
        None => false,
    }
}

/// The name shown for a file: its final path component, or `"Unknown"` when it has none.
pub open spec fn display_name(path: Seq<char>) -> Seq<char> {
    match file_name_of(path) {
        Some(n) => n,
        None => "Unknown"@,
    }
}

/// A raw image file chosen for conversion.
pub struct GprFile {
    pub path: String,
    pub filename: String,
    pub size: u64,
    pub metadata: Option<GprMetadata>,
}

impl GprFile {
    /// A file at `path` of `size` bytes, its metadata not yet read.
    pub fn new(path: String, size: u64) -> (r: GprFile)
        ensures
            r.path@ == path@,
            r.filename@ == display_name(path@),
            r.size == size,
            r.metadata is None,
    {
        let filename = match path_file_name(path.as_str()) {
            Some(n) => n,
            None => String::from_str("Unknown"),
        };
        GprFile { path, filename, size, metadata: None }
    }

    /// The file's size for display.
    pub fn format_size(&self) -> (r: String)
        ensures
            r@ == size_text(self.size as nat),
    {
        format_file_size(self.size)
    }
}

} // verus!
