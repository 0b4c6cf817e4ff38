//! Unix-style rendering of a permission word.
use vstd::prelude::*;

verus! {

use vstd::string::StrSliceExecFns;
use vstd::string::StringExecFns;
use crate::FilterError;

/// The ls-style ten-character text for a mode word: one file-type character,
/// then the read, write and execute marks for user, group and other.
pub uninterp spec fn perm_string_of(mode: int) -> Seq<char>;

/// Relies on `unix_mode::to_string`: the text is a pure function of the mode
/// word, and its body pushes exactly ten characters.
#[verifier::external_body]
fn render_perms(mode: u32) -> (r: String)
    ensures
        r@ == perm_string_of(mode as int),
        r@.len() == 10,
{
    unix_mode::to_string(mode)
}

/// The display text for a sixteen-bit mode word: the ls-style rendering,
/// except that a word carrying no file-type bits is shown as a regular file,
/// not as an unknown type.
pub open spec fn file_perms_of(mode: u16) -> Seq<char> {
    if mode >> 12 == 0 {
        perm_string_of(mode as int).update(0, '-')
    } else {
        perm_string_of(mode as int)
    }
}

/// The permission text for a sixteen-bit mode word: always ten characters,
/// and never fails. A bare permission word such as `0o755` carries no
/// file-type bits and is rendered as a regular file, `-rwxr-xr-x`.
pub fn file_perms(s: u16) -> (r: Result<String, FilterError>)
    ensures
        r matches Ok(text) && text@ == file_perms_of(s) && text@.len() == 10,
{
    let rendered = render_perms(s as u32);
    if s >> 12 == 0 {
        let mut text = String::from_str("-");
        text.append(rendered.as_str().substring_char(1, 10));
        proof {
            reveal_strlit("-");
            assert(text@ =~= perm_string_of(s as int).update(0, '-'));
        }
        Ok(text)
    } else {
        Ok(rendered)
    }
}

} // verus!
