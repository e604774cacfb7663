use vstd::prelude::*;

use vstd::string::StrSliceExecFns;

verus! {

/// A path separator; both kinds are recognized, whatever the platform.
pub open spec fn is_sep(c: char) -> bool {
    c == '/' || c == '\\'
}

/// The position of the last separator in `s`, or -1.
pub open spec fn last_sep_pos(s: Seq<char>) -> int
    decreases s.len(),
{
    if s.len() == 0 {
        -1
    } else if is_sep(s.last()) {
        s.len() - 1
    } else {
        last_sep_pos(s.drop_last())
    }
}

/// The position of the last `.` in `s`, or -1.
pub open spec fn last_dot_pos(s: Seq<char>) -> int
    decreases s.len(),
{
    if s.len() == 0 {
        -1
    } else if s.last() == '.' {
        s.len() - 1
    } else {
        last_dot_pos(s.drop_last())
    }
}

pub proof fn lemma_last_pos_bounds(s: Seq<char>)
    ensures
        -1 <= last_sep_pos(s) < s.len(),
        -1 <= last_dot_pos(s) < s.len(),
    decreases s.len(),
{
    if s.len() > 0 {
        lemma_last_pos_bounds(s.drop_last());
    }
}

/// The extension of a path: what follows the last dot of its file name,
/// unless the file name has no dot or starts with its only dot.
pub open spec fn ext_of(path: Seq<char>) -> Option<Seq<char>> {
    let ls = last_sep_pos(path);
    let ld = last_dot_pos(path);
    if ld <= ls + 1 {
        None
    } else {
        Some(path.subrange(ld + 1, path.len() as int))
    }
}

/// ASCII lowercasing of one character.
pub open spec fn lower_char(c: char) -> char {
    if 'A' <= c <= 'Z' {
        ((c as u8) + 32) as char
    } else {
        c
    }
}

/// ASCII lowercasing of a character sequence.
pub open spec fn lowered(s: Seq<char>) -> Seq<char> {
    Seq::new(s.len(), |i: int| lower_char(s[i]))
}

/// The media file extensions the scanner cares about, lower case.
pub open spec fn is_media_ext(e: Seq<char>) -> bool {
    ||| e == "jpg"@
    ||| e == "jpeg"@
    ||| e == "png"@
    ||| e == "gif"@
    ||| e == "webp"@
    ||| e == "bmp"@
    ||| e == "tiff"@
    ||| e == "tif"@
    ||| e == "heic"@
    ||| e == "heif"@
    ||| e == "pdf"@
    ||| e == "mp4"@
    ||| e == "mov"@
    ||| e == "avi"@
    ||| e == "mkv"@
}

/// Whether a path names a media file: its extension, ASCII-lowercased, is
/// one of the recognized media extensions.
pub open spec fn is_media_path(path: Seq<char>) -> bool {
    match ext_of(path) {
        None => false,
        Some(e) => is_media_ext(lowered(e)),
    }
}

fn lower_char_exec(c: char) -> (r: char)
    ensures
        r == lower_char(c),
{
    if c >= 'A' && c <= 'Z' {
        ((c as u8) + 32) as char
    } else {
        c
    }
}

/// Compares the ASCII lowercasing of `s` with `t`.
fn eq_lower(s: &str, t: &str) -> (r: bool)
    ensures
        r == (lowered(s@) == t@),
{
    let n = s.unicode_len();
    if n != t.unicode_len() {
        return false;
    }
    let mut i: usize = 0;
    while i < n
        invariant
            i <= n,
            n == s@.len(),
            n == t@.len(),
            forall|j: int| 0 <= j < i ==> lowered(s@)[j] == t@[j],
        decreases n - i,
    {
        if lower_char_exec(s.get_char(i)) != t.get_char(i) {
            proof {
                assert(lowered(s@)[i as int] != t@[i as int]);
            }
            return false;
        }
        i = i + 1;
    }
    proof {
        assert(lowered(s@) =~= t@);
    }
    true
}

/// The last separator and last dot positions of `path`, scanned once.
fn scan_last(path: &str) -> (r: (Option<usize>, Option<usize>))
    ensures
        match r.0 {
            None => last_sep_pos(path@) == -1,
            Some(p) => last_sep_pos(path@) == p,
        },
        match r.1 {
            None => last_dot_pos(path@) == -1,
            Some(p) => last_dot_pos(path@) == p,
        },
{
    let n = path.unicode_len();
    let mut sep: Option<usize> = None;
    let mut dot: Option<usize> = None;
    let mut i: usize = 0;
    while i < n
        invariant
            i <= n,
            n == path@.len(),
            match sep {
                None => last_sep_pos(path@.take(i as int)) == -1,
                Some(p) => last_sep_pos(path@.take(i as int)) == p && p < i,
            },
            match dot {
                None => last_dot_pos(path@.take(i as int)) == -1,
                Some(p) => last_dot_pos(path@.take(i as int)) == p && p < i,
            },
        decreases n - i,
    {
        let c = path.get_char(i);
        proof {
            assert(path@.take(i + 1 as int).drop_last() =~= path@.take(i as int));
            assert(path@.take(i + 1 as int).last() == path@[i as int]);
        }
        if c == '/' || c == '\\' {
            sep = Some(i);
        }
        if c == '.' {
            dot = Some(i);
        }
        i = i + 1;
    }
    proof {
        assert(path@.take(n as int) =~= path@);
    }
    (sep, dot)
}

/// Whether a path names one of the media files the scanner collects,
/// judged by its ASCII-lowercased extension.
pub fn is_media_file(path: &str) -> (r: bool)
    ensures
        r == is_media_path(path@),
{
    let n = path.unicode_len();
    let (sep, dot) = scan_last(path);
    proof {
        lemma_last_pos_bounds(path@);
    }
    let ld = match dot {
        Option::None => {
            return false;
        },
        Option::Some(p) => p,
    };
    let has_ext = match sep {
        Option::None => ld > 0,
        Option::Some(ls) => ld > ls + 1,
    };
    if !has_ext {
        return false;
    }
    let e = path.substring_char(ld + 1, n);
    proof {
        assert(e@ == path@.subrange(ld + 1, n as int));
    }
    eq_lower(e, "jpg") || eq_lower(e, "jpeg") || eq_lower(e, "png") || eq_lower(e, "gif")
        || eq_lower(e, "webp") || eq_lower(e, "bmp") || eq_lower(e, "tiff") || eq_lower(e, "tif")
        || eq_lower(e, "heic") || eq_lower(e, "heif") || eq_lower(e, "pdf") || eq_lower(e, "mp4")
        || eq_lower(e, "mov") || eq_lower(e, "avi") || eq_lower(e, "mkv")
}

} // verus!
