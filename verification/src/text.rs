//! Display text built by the core: decimal numbers, human-readable file
//! sizes, and the loading placeholder shown while a preview is generated.
use vstd::prelude::*;
use vstd::string::StringExecFns;
use crate::domain::{FileEntry, FileType};

verus! {

pub const KB: u64 = 1024;

pub const MB: u64 = 1024 * 1024;

pub const GB: u64 = 1024 * 1024 * 1024;

/// The decimal digit character for a value below ten.
pub open spec fn digit_char(d: int) -> char {
    ((d + 48) as u8) as char
}

/// The decimal digits of a non-negative number, most significant first.
pub open spec fn dec_digits(n: int) -> Seq<char>
    decreases n,
{
    if n < 10 {
        seq![digit_char(n)]
    } else {
        dec_digits(n / 10).push(digit_char(n % 10))
    }
}

/// The whole part and the rounded tenth of `size / base`: the remainder is
/// scaled to tenths and rounded half up, carrying into the whole part when
/// it rounds all the way to ten.
pub open spec fn scaled_parts(size: u64, base: u64) -> (int, int)
    recommends
        base > 0,
{
    let q = size as int / base as int;
    let t = ((size as int % base as int) * 10 + base as int / 2) / base as int;
    if t == 10 {
        (q + 1, 0)
    } else {
        (q, t)
    }
}

/// A size scaled by `base`, printed with one decimal digit and a unit.
pub open spec fn scaled_label(size: u64, base: u64, unit: Seq<char>) -> Seq<char> {
    let parts = scaled_parts(size, base);
    dec_digits(parts.0) + seq!['.'] + seq![digit_char(parts.1)] + unit
}

/// The human-readable form of a byte size: scaled to the largest of
/// gigabytes, megabytes or kilobytes that it reaches, with one decimal
/// digit; plain bytes below one kilobyte.
pub open spec fn size_label(size: u64) -> Seq<char> {
    if size >= GB {
        scaled_label(size, GB, " GB"@)
    } else if size >= MB {
        scaled_label(size, MB, " MB"@)
    } else if size >= KB {
        scaled_label(size, KB, " KB"@)
    } else {
        dec_digits(size as int) + " B"@
    }
}

/// The one-character string for a decimal digit.
fn digit_str(d: u64) -> (r: &'static str)
    requires
        d < 10,
    ensures
        r@ =~= seq![digit_char(d as int)],
{
    proof {
        reveal_strlit("0");
        reveal_strlit("1");
        reveal_strlit("2");
        reveal_strlit("3");
        reveal_strlit("4");
        reveal_strlit("5");
        reveal_strlit("6");
        reveal_strlit("7");
        reveal_strlit("8");
        reveal_strlit("9");
    }
    match d {
        0 => "0",
        1 => "1",
        2 => "2",
        3 => "3",
        4 => "4",
        5 => "5",
        6 => "6",
        7 => "7",
        8 => "8",
        _ => "9",
    }
}

/// Writes a number in decimal.
pub fn u64_to_string(n: u64) -> (s: String)
    ensures
        s@ == dec_digits(n as int),
    decreases n,
{
    if n < 10 {
        digit_str(n).to_owned()
    } else {
        let mut s = u64_to_string(n / 10);
        let d = digit_str(n % 10);
        s.append(d);
        proof {
            assert(dec_digits((n / 10) as int) + d@ =~= dec_digits((n / 10) as int).push(
                digit_char((n % 10) as int),
            ));
        }
        s
    }
}

/// A size scaled by `base`, with one rounded decimal digit and the unit.
fn scaled_string(size: u64, base: u64, unit: &str) -> (r: String)
    requires
        base == KB || base == MB || base == GB,
    ensures
        r@ == scaled_label(size, base, unit@),
{
    let mut q = size / base;
    let rem = size % base;
    proof {
        assert(q * base + rem == size) by (nonlinear_arith)
            requires
                base > 0,
                q == size as int / base as int,
                rem == size as int % base as int,
        ;
        assert(q <= size);
        assert(rem < base);
    }
    let mut t = (rem * 10 + base / 2) / base;
    proof {
        assert(t <= 10) by (nonlinear_arith)
            requires
                base > 0,
                rem < base,
                t == (rem as int * 10 + base as int / 2) / base as int,
        ;
    }
    proof {
        assert(q as int + 1 <= u64::MAX) by (nonlinear_arith)
            requires
                base as int >= 1024,
                q as int >= 0,
                rem as int >= 0,
                q as int * base as int + rem as int == size as int,
                size as int <= u64::MAX,
        ;
    }
    if t == 10 {
        q = q + 1;
        t = 0;
    }
    let mut s = u64_to_string(q);
    s.append(".");
    let d = digit_str(t);
    s.append(d);
    s.append(unit);
    proof {
        reveal_strlit(".");
        assert("."@ =~= seq!['.']);
        assert(s@ =~= dec_digits(q as int) + seq!['.'] + seq![digit_char(t as int)] + unit@);
    }
    s
}

/// Formats a byte size for display, matching `size_label`.
pub fn format_file_size(size: u64) -> (r: String)
    ensures
        r@ == size_label(size),
{
    if size >= GB {
        scaled_string(size, GB, " GB")
    } else if size >= MB {
        scaled_string(size, MB, " MB")
    } else if size >= KB {
        scaled_string(size, KB, " KB")
    } else {
        let mut s = u64_to_string(size);
        s.append(" B");
        s
    }
}

/// The name a content kind is displayed under.
pub open spec fn kind_name(t: FileType) -> Seq<char> {
    match t {
        FileType::Text => "Text"@,
        FileType::Image => "Image"@,
        FileType::Pdf => "Pdf"@,
        FileType::Binary => "Binary"@,
    }
}

/// Writes the display name of a content kind.
pub fn file_kind_name(t: &FileType) -> (r: &'static str)
    ensures
        r@ == kind_name(*t),
{
    match t {
        FileType::Text => "Text",
        FileType::Image => "Image",
        FileType::Pdf => "Pdf",
        FileType::Binary => "Binary",
    }
}

/// The placeholder lines shown while the preview of `file` is generated.
pub open spec fn loading_indicator_lines(file: FileEntry) -> Seq<Seq<char>> {
    seq![
        Seq::<char>::empty(),
        Seq::<char>::empty(),
        "  📂 Loading preview..."@,
        Seq::<char>::empty(),
        "  ⏳ Processing: "@ + file.name@,
        Seq::<char>::empty(),
        "  Type: "@ + kind_name(file.file_type),
        "  Size: "@ + size_label(file.size),
        "  Path: "@ + file.path@,
    ]
}

/// Builds the loading placeholder for `file`: what is being processed, its
/// kind, its size, and its path.
pub fn generate_loading_indicator(file: &FileEntry) -> (r: Vec<String>)
    ensures
        r.deep_view() == loading_indicator_lines(*file),
{
    let mut lines: Vec<String> = Vec::new();
    lines.push(String::new());
    lines.push(String::new());
    lines.push("  📂 Loading preview...".to_owned());
    lines.push(String::new());
    let mut processing = "  ⏳ Processing: ".to_owned();
    processing.append(file.name.as_str());
    lines.push(processing);
    lines.push(String::new());
    let mut kind = "  Type: ".to_owned();
    kind.append(file_kind_name(&file.file_type));
    lines.push(kind);
    let mut size = "  Size: ".to_owned();
    let formatted = format_file_size(file.size);
    size.append(formatted.as_str());
    lines.push(size);
    let mut path = "  Path: ".to_owned();
    path.append(file.path.as_str());
    lines.push(path);
    proof {
        assert(lines.deep_view() =~= loading_indicator_lines(*file));
    }
    lines
}

} // verus!
