use vstd::prelude::*;
use vstd::string::StringSliceAdditionalSpecFns;

verus! {

/// The ASCII lower-case form of a byte; other bytes are unchanged.
pub open spec fn ascii_lower(c: u8) -> u8 {
    if 65 <= c <= 90 {
        (c + 32) as u8
    } else {
        c
    }
}

/// The four bytes of the container tag that opens a WebP file.
pub open spec fn riff_tag() -> Seq<u8> {
    seq![0x52u8, 0x49u8, 0x46u8, 0x46u8]
}

/// The four bytes of the format tag at offset 8 of a WebP file.
pub open spec fn webp_tag() -> Seq<u8> {
    seq![0x57u8, 0x45u8, 0x42u8, 0x50u8]
}

/// True when the first twelve bytes carry the RIFF container tag at offset 0
/// and the WEBP format tag at offset 8.
pub open spec fn is_webp_signature(h: Seq<u8>) -> bool {
    &&& h.len() >= 12
    &&& h.subrange(0, 4) == riff_tag()
    &&& h.subrange(8, 12) == webp_tag()
}

/// Start of the path segment that ends at `end`: just after the last `/`
/// before `end`, or 0.
pub open spec fn segment_start(b: Seq<u8>, end: int) -> int
    decreases end,
{
    if end <= 0 {
        0
    } else if b[end - 1] == 0x2f {
        end
    } else {
        segment_start(b, end - 1)
    }
}

/// Bounds of the final file name of a `/`-separated path, read from `end`
/// backwards: trailing separators and `.` segments are skipped, and a path
/// that ends in nothing else has no file name.
pub open spec fn file_name_bounds(b: Seq<u8>, end: int) -> Option<(int, int)>
    decreases end,
{
    if end <= 0 {
        None
    } else if b[end - 1] == 0x2f {
        file_name_bounds(b, end - 1)
    } else {
        let s = segment_start(b, end);
        if end - s == 1 && b[s] == 0x2e {
            file_name_bounds(b, s)
        } else {
            Some((s, end))
        }
    }
}

/// A file name whose extension (the part after its last `.`, where that `.`
/// is not the first byte) is `webp` in any ASCII case.
pub open spec fn is_webp_name(n: Seq<u8>) -> bool {
    &&& n.len() >= 6
    &&& n[n.len() - 5] == 0x2e
    &&& ascii_lower(n[n.len() - 4]) == 0x77
    &&& ascii_lower(n[n.len() - 3]) == 0x65
    &&& ascii_lower(n[n.len() - 2]) == 0x62
    &&& ascii_lower(n[n.len() - 1]) == 0x70
}

/// True when the path's file name has the extension `webp`, case-insensitively.
pub open spec fn has_webp_extension_spec(b: Seq<u8>) -> bool {
    match file_name_bounds(b, b.len() as int) {
        Some((s, e)) => is_webp_name(b.subrange(s, e)),
        None => false,
    }
}

fn lower(c: u8) -> (r: u8)
    ensures
        r == ascii_lower(c),
{
    if 65 <= c && c <= 90 {
        c + 32
    } else {
        c
    }
}

fn find_segment_start(b: &[u8], end: usize) -> (r: usize)
    requires
        end <= b@.len(),
    ensures
        r == segment_start(b@, end as int),
        r <= end,
    decreases end,
{
    if end == 0 {
        0
    } else if b[end - 1] == 0x2f {
        end
    } else {
        find_segment_start(b, end - 1)
    }
}

fn find_file_name(b: &[u8], end: usize) -> (r: Option<(usize, usize)>)
    requires
        end <= b@.len(),
    ensures
        match r {
            Some((s, e)) => file_name_bounds(b@, end as int) == Some((s as int, e as int)) && s
                <= e <= end,
            None => file_name_bounds(b@, end as int) is None,
        },
    decreases end,
{
    if end == 0 {
        None
    } else if b[end - 1] == 0x2f {
        find_file_name(b, end - 1)
    } else {
        let s = find_segment_start(b, end);
        if end - s == 1 && b[s] == 0x2e {
            find_file_name(b, s)
        } else {
            Some((s, end))
        }
    }
}

/// Whether `filename` names a file with the extension `webp` (any ASCII case).
/// A missing file name or a missing extension gives `false`.
pub fn has_webp_extension(filename: &str) -> (r: bool)
    ensures
        r == has_webp_extension_spec(filename.spec_bytes()),
{
    let b = filename.as_bytes();
    match find_file_name(b, b.len()) {
        None => false,
        Some((start, end)) => {
            let ghost n = b@.subrange(start as int, end as int);
            if end - start < 6 {
                false
            } else {
                assert(n[n.len() - 5] == b@[end - 5]);
                assert(n[n.len() - 4] == b@[end - 4]);
                assert(n[n.len() - 3] == b@[end - 3]);
                assert(n[n.len() - 2] == b@[end - 2]);
                assert(n[n.len() - 1] == b@[end - 1]);
                b[end - 5] == 0x2e && lower(b[end - 4]) == 0x77 && lower(b[end - 3]) == 0x65
                    && lower(b[end - 2]) == 0x62 && lower(b[end - 1]) == 0x70
            }
        },
    }
}

/// Whether `header` starts with the WebP container signature: `RIFF` at
/// offset 0 and `WEBP` at offset 8; fewer than twelve bytes never match.
pub fn has_webp_signature(header: &[u8]) -> (r: bool)
    ensures
        r == is_webp_signature(header@),
{
    let ok = header.len() >= 12 && header[0] == 0x52 && header[1] == 0x49 && header[2] == 0x46
        && header[3] == 0x46 && header[8] == 0x57 && header[9] == 0x45 && header[10] == 0x42
        && header[11] == 0x50;
    proof {
        if header@.len() >= 12 {
            assert(ok == (header@.subrange(0, 4) =~= riff_tag() && header@.subrange(8, 12)
                =~= webp_tag()));
        }
    }
    ok
}

} // verus!
