//! The startup banner derived from the build-time version string.
//!
//! During setup the bootstrap reads the package's version metadata.  When
//! the string carries a leading `'v'`, the prefix is stripped and one
//! banner line is printed to standard output; any other version string
//! produces no banner at all.

use vstd::prelude::*;

verus! {

/// The banner owed for a given version string: `"SERVE v"` followed by
/// the version with its leading `'v'` stripped, or nothing when the
/// prefix is absent.
pub open spec fn spec_banner(version: Seq<char>) -> Option<Seq<char>> {
    if version.len() > 0 && version[0] == 'v' {
        Some("SERVE v"@ + version.skip(1))
    } else {
        None
    }
}

/// Whether `b` is exactly the banner owed for `version`: present if and
/// only if one is owed, and then with the owed line.
pub open spec fn banner_matches(b: Option<String>, version: Seq<char>) -> bool {
    match b {
        Some(line) => spec_banner(version) matches Some(l) && line@ == l,
        None => spec_banner(version) is None,
    }
}

/// Computes the startup banner line for a version string.
///
/// Returns `Some` exactly when the version starts with `'v'`, and then
/// the line reads `"SERVE v<rest>"` where `<rest>` is the version with
/// that prefix removed.
pub fn banner_line(version: &str) -> (r: Option<String>)
    ensures
        banner_matches(r, version@),
{
    let n: usize = version.unicode_len();
    if n > 0 && version.get_char(0) == 'v' {
        let rest = version.substring_char(1, n);
        let mut line = String::from_str("SERVE v");
        line.append(rest);
        proof {
            assert(version@.subrange(1, n as int) =~= version@.skip(1));
        }
        Some(line)
    } else {
        None
    }
}

} // verus!
