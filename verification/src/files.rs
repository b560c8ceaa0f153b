use vstd::prelude::*;

use vstd::string::StrSliceExecFns;
use vstd::string::StringSliceAdditionalSpecFns;

verus! {

/// The byte value of `'.'`.
pub const DOT_BYTE: u8 = 46;

/// The byte value of `'/'`, the path separator this library understands.
pub const SLASH_BYTE: u8 = 47;

/// The extension of a path, read off its UTF-8 bytes: the part of the last
/// path component after its last `'.'`, provided that dot is neither the
/// component's first byte nor preceded by the separator. A component that
/// starts with its only dot (a hidden file) has no extension.
pub open spec fn extension_of(s: Seq<u8>) -> Option<Seq<u8>>
    decreases s.len(),
{
    if s.len() == 0 {
        None
    } else {
        let c = s[s.len() - 1];
        if c == SLASH_BYTE {
            None
        } else if c == DOT_BYTE {
            if s.len() >= 2 && s[s.len() - 2] != SLASH_BYTE {
                Some(Seq::empty())
            } else {
                None
            }
        } else {
            match extension_of(s.drop_last()) {
                Some(e) => Some(e.push(c)),
                None => None,
            }
        }
    }
}

/// ASCII lowercasing of one byte.
pub open spec fn lower_byte(b: u8) -> u8 {
    if 65 <= b && b <= 90 {
        (b + 32) as u8
    } else {
        b
    }
}

/// ASCII lowercasing of a byte string.
pub open spec fn lower_bytes(s: Seq<u8>) -> Seq<u8> {
    s.map_values(|b: u8| lower_byte(b))
}

/// The supported image extensions, compared case-insensitively: jpg, jpeg,
/// png, avif, webp (here as their lowercase ASCII bytes).
pub open spec fn is_supported_extension(e: Seq<u8>) -> bool {
    ||| lower_bytes(e) == seq![106u8, 112u8, 103u8]
    ||| lower_bytes(e) == seq![106u8, 112u8, 101u8, 103u8]
    ||| lower_bytes(e) == seq![112u8, 110u8, 103u8]
    ||| lower_bytes(e) == seq![97u8, 118u8, 105u8, 102u8]
    ||| lower_bytes(e) == seq![119u8, 101u8, 98u8, 112u8]
}

/// Whether a path names an image by its extension.
pub open spec fn is_image_path(s: Seq<u8>) -> bool {
    match extension_of(s) {
        Some(e) => is_supported_extension(e),
        None => false,
    }
}

/// When every byte from position `j` on is neither a dot nor a separator,
/// the extension of the whole string is the extension found in the prefix,
/// extended by that suffix.
proof fn lemma_extension_scan(s: Seq<u8>, j: int)
    requires
        0 <= j <= s.len(),
        forall|k: int| j <= k < s.len() ==> s[k] != DOT_BYTE && s[k] != SLASH_BYTE,
    ensures
        extension_of(s) == match extension_of(s.take(j)) {
            Some(e) => Some(e + s.skip(j)),
            None => None::<Seq<u8>>,
        },
    decreases s.len() - j,
{
    if j == s.len() {
        assert(s.take(j) =~= s);
        match extension_of(s) {
            Some(e) => {
                assert(e + s.skip(j) =~= e);
            },
            None => {},
        }
    } else {
        let shorter = s.drop_last();
        assert(s[s.len() - 1] != DOT_BYTE && s[s.len() - 1] != SLASH_BYTE);
        assert(shorter.take(j) =~= s.take(j));
        lemma_extension_scan(shorter, j);
        match extension_of(s.take(j)) {
            Some(e) => {
                assert((e + shorter.skip(j)).push(s[s.len() - 1]) =~= e + s.skip(j));
            },
            None => {},
        }
    }
}

/// Checks whether the path names a file with a supported image extension
/// (jpg, jpeg, png, avif, webp, compared case-insensitively). Only the path
/// string is consulted; whether a regular file stands behind it is the
/// directory-traversal collaborator's concern.
pub fn is_image_file(path: &str) -> (result: bool)
    ensures
        result == is_image_path(path.spec_bytes()),
{
    let bytes: Vec<u8> = path.as_bytes_vec();
    let n = bytes.len();
    let ghost s = path.spec_bytes();

    let mut last_sep: Option<usize> = None;
    let mut i: usize = 0;
    while i < n
        invariant
            bytes@ == s,
            n == s.len(),
            i <= n,
            match last_sep {
                Some(d) => d < i && (s[d as int] == DOT_BYTE || s[d as int] == SLASH_BYTE)
                    && forall|k: int| d < k < i ==> s[k] != DOT_BYTE && s[k] != SLASH_BYTE,
                None => forall|k: int| 0 <= k < i ==> s[k] != DOT_BYTE && s[k] != SLASH_BYTE,
            },
        decreases n - i,
    {
        let c = bytes[i];
        if c == DOT_BYTE || c == SLASH_BYTE {
            last_sep = Some(i);
        }
        i = i + 1;
    }

    let d = match last_sep {
        None => {
            proof {
                lemma_extension_scan(s, 0);
                assert(s.take(0) =~= Seq::<u8>::empty());
            }
            return false;
        },
        Some(d) => d,
    };
    if bytes[d] == SLASH_BYTE {
        proof {
            lemma_extension_scan(s, d + 1);
            assert(s.take(d + 1)[d as int] == SLASH_BYTE);
        }
        return false;
    }
    // The last dot or separator is a dot at position d.
    if d == 0 || bytes[d - 1] == SLASH_BYTE {
        proof {
            lemma_extension_scan(s, d + 1);
            assert(s.take(d + 1)[d as int] == DOT_BYTE);
            assert(extension_of(s.take(d + 1)) is None);
        }
        return false;
    }
    proof {
        lemma_extension_scan(s, d + 1);
        assert(s.take(d + 1)[d as int] == DOT_BYTE);
        assert(s.take(d + 1)[d - 1] == s[d - 1]);
        assert(extension_of(s.take(d + 1)) == Some(Seq::<u8>::empty()));
        assert(Seq::<u8>::empty() + s.skip(d + 1) =~= s.skip(d + 1));
        assert(extension_of(s) == Some(s.skip(d + 1)));
    }

    let mut ext: Vec<u8> = Vec::new();
    let mut k: usize = d + 1;
    while k < n
        invariant
            bytes@ == s,
            n == s.len(),
            d + 1 <= k <= n,
            ext@.len() == k - d - 1,
            forall|m: int| 0 <= m < ext@.len() ==> ext@[m] == lower_byte(s[d + 1 + m]),
        decreases n - k,
    {
        let c = bytes[k];
        let lowered: u8 = if c >= 65 && c <= 90 {
            c + 32
        } else {
            c
        };
        ext.push(lowered);
        k = k + 1;
    }
    proof {
        assert(ext@ =~= lower_bytes(s.skip(d + 1)));
    }

    let supported = (ext.len() == 3 && ext[0] == 106 && ext[1] == 112 && ext[2] == 103) || (
    ext.len() == 4 && ext[0] == 106 && ext[1] == 112 && ext[2] == 101 && ext[3] == 103) || (
    ext.len() == 3 && ext[0] == 112 && ext[1] == 110 && ext[2] == 103) || (ext.len() == 4 && ext[0]
        == 97 && ext[1] == 118 && ext[2] == 105 && ext[3] == 102) || (ext.len() == 4 && ext[0]
        == 119 && ext[1] == 101 && ext[2] == 98 && ext[3] == 112);
    proof {
        let lowered = lower_bytes(s.skip(d + 1));
        if supported {
            if ext@.len() == 3 && ext@[0] == 106 && ext@[1] == 112 && ext@[2] == 103 {
                assert(lowered =~= seq![106u8, 112u8, 103u8]);
            } else if ext@.len() == 4 && ext@[0] == 106 && ext@[1] == 112 && ext@[2] == 101
                && ext@[3] == 103 {
                assert(lowered =~= seq![106u8, 112u8, 101u8, 103u8]);
            } else if ext@.len() == 3 && ext@[0] == 112 && ext@[1] == 110 && ext@[2] == 103 {
                assert(lowered =~= seq![112u8, 110u8, 103u8]);
            } else if ext@.len() == 4 && ext@[0] == 97 && ext@[1] == 118 && ext@[2] == 105
                && ext@[3] == 102 {
                assert(lowered =~= seq![97u8, 118u8, 105u8, 102u8]);
            } else {
                assert(lowered =~= seq![119u8, 101u8, 98u8, 112u8]);
            }
        }
    }
    supported
}

} // verus!
