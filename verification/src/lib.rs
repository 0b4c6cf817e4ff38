//! Presentation helpers for a server-side templating layer: rendering commit
//! timestamps, file permission words, content hashes, and avatar lookup URLs.
//!
//! Two independent pieces: a memoizing [`cache::LookupCache`] for avatar URLs,
//! and stateless formatting filters over plain values.
use vstd::prelude::*;

pub mod cache;
pub mod hexfmt;
pub mod perms;
pub mod timestamp;

pub use hexfmt::{hex, DisplayHexBuffer};
pub use perms::file_perms;
pub use timestamp::{format_time, timeago, timeago_at, Timestamp};
pub use cache::{gravatar, LookupCache};

verus! {

use vstd::string::StringExecFns;

/// Why a filter could not produce a displayable string.
#[derive(Clone, Copy, Debug, PartialEq, Eq, Structural)]
pub enum FilterError {
    /// The instant or offset lies outside the range the time library represents.
    OutOfRangeInstant,
    /// The elapsed time is negative, so no relative-time phrase exists for it.
    UnrepresentableDuration,
}

/// Query-string fragment selecting a branch: `?h={name}` for a named branch,
/// nothing for the default branch.
pub fn branch_query(branch: Option<&str>) -> (r: String)
    ensures
        branch matches Some(b) ==> r@ == "?h="@ + b@,
        branch is None ==> r@ == Seq::<char>::empty(),
{
    match branch {
        Some(b) => {
            let mut s = String::from_str("?h=");
            s.append(b);
            s
        },
        None => String::new(),
    }
}

} // verus!
