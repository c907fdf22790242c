//! Validation of package identifiers before any operation that hands them to
//! a package manager.

use vstd::prelude::*;

use crate::models::{BackendError, BackendResult, InstallMethod};
use crate::text::{copy_string, str_contains_char, str_starts_with, str_strip_prefix};

verus! {

/// Whether the `regex` crate finds a match of `pattern` in `text`.
pub uninterp spec fn regex_is_match(pattern: Seq<char>, text: Seq<char>) -> bool;

/// Whether the `regex` crate accepts `pattern` (its syntax and size limits).
pub uninterp spec fn regex_compiles(pattern: Seq<char>) -> bool;

#[verifier::external_type_specification]
#[verifier::external_body]
pub struct ExRegexError(regex::Error);

/// `regex::Regex::new(pattern)` followed by `Regex::is_match(text)`: the
/// pattern is compiled and searched for in `text`. Whether it compiles
/// depends on the pattern alone; a compiled pattern gives the crate's match
/// result. Nothing is claimed about which patterns compile.
#[verifier::external_body]
fn regex_search(pattern: &str, text: &str) -> (r: Result<bool, regex::Error>)
    ensures
        r is Ok <==> regex_compiles(pattern@),
        r matches Ok(b) ==> b == regex_is_match(pattern@, text@),
{
    match regex::Regex::new(pattern) {
        Ok(re) => Ok(re.is_match(text)),
        Err(e) => Err(e),
    }
}

/// The pattern every package identifier must match: an ASCII letter or
/// digit, then up to 255 characters among letters, digits and `._+:@/-`.
pub open spec fn safe_id_pattern() -> Seq<char> {
    "^[A-Za-z0-9][A-Za-z0-9._+:@/-]{0,255}$"@
}

/// Characters that never appear in a valid identifier (shell and control
/// characters).
pub open spec fn is_forbidden_char(c: char) -> bool {
    c == '\0' || c == ' ' || c == ';' || c == '|' || c == '&' || c == '`' || c == '$' || c
        == '\n' || c == '\r'
}

pub open spec fn has_forbidden_char(id: Seq<char>) -> bool {
    exists|i: int| 0 <= i < id.len() && is_forbidden_char(#[trigger] id[i])
}

/// Length and character checks done before the pattern: non-empty, at most
/// 256 bytes of UTF-8, no forbidden character.
pub open spec fn id_shape_ok(id: Seq<char>) -> bool {
    &&& id.len() > 0
    &&& vstd::utf8::encode_utf8(id).len() <= 256
    &&& !has_forbidden_char(id)
}

/// AppImage ids are absolute paths; other methods add no condition.
pub open spec fn method_condition(method: InstallMethod, id: Seq<char>) -> bool {
    method == InstallMethod::AppImage ==> (id.len() > 0 && id[0] == '/')
}

/// An identifier that passes every check.
pub open spec fn package_id_valid(method: InstallMethod, id: Seq<char>) -> bool {
    &&& id_shape_ok(id)
    &&& regex_compiles(safe_id_pattern())
    &&& pattern_ok(method, id)
    &&& method_condition(method, id)
}

/// The identifier matches the safe pattern; an AppImage path may instead
/// be `/` followed by a text that matches it.
pub open spec fn pattern_ok(method: InstallMethod, id: Seq<char>) -> bool {
    ||| regex_is_match(safe_id_pattern(), id)
    ||| (method == InstallMethod::AppImage && id.len() > 0 && id[0] == '/' && regex_is_match(
        safe_id_pattern(),
        id.drop_first(),
    ))
}

/// What the pattern decides, given whether it matched the whole id
/// (`whole`) and the id after its root `/` (`after_root`): the id matches,
/// or it is an AppImage path `/` followed by a matching text.
pub open spec fn pattern_answer(method: InstallMethod, id: Seq<char>, whole: bool, after_root: bool) -> bool {
    ||| whole
    ||| (method == InstallMethod::AppImage && id.len() > 0 && id[0] == '/' && after_root)
}

/// `e` is the error the validation gives for an id it refuses: the id
/// itself when its shape or pattern is wrong, a note when the pattern does
/// not compile, and the AppImage note when an AppImage id is not absolute.
pub open spec fn rejected_with(method: InstallMethod, id: Seq<char>, e: BackendError) -> bool {
    if !id_shape_ok(id) {
        e matches BackendError::InvalidPackageId(s) && s@ == id
    } else if !regex_compiles(safe_id_pattern()) {
        e matches BackendError::Other(s) && s@ == "invalid package id pattern"@
    } else if !pattern_ok(method, id) {
        e matches BackendError::InvalidPackageId(s) && s@ == id
    } else {
        e matches BackendError::InvalidPackageId(s) && s@ == "AppImage requer caminho absoluto"@
    }
}

/// The verdict on an id of the right shape, once the pattern was tried on
/// it (`whole`) and, for an AppImage path, on the text after its root `/`
/// (`after_root`).
pub fn id_verdict(method: InstallMethod, id: &str, whole: bool, after_root: bool) -> (r: BackendResult<()>)
    ensures
        r is Ok <==> pattern_answer(method, id@, whole, after_root) && method_condition(method, id@),
        !pattern_answer(method, id@, whole, after_root) ==> (r matches Err(
            BackendError::InvalidPackageId(s),
        ) && s@ == id@),
        pattern_answer(method, id@, whole, after_root) && !method_condition(method, id@) ==> (r matches Err(
            BackendError::InvalidPackageId(s),
        ) && s@ == "AppImage requer caminho absoluto"@),
{
    let appimage = match method {
        InstallMethod::AppImage => true,
        _ => false,
    };
    let absolute = str_starts_with(id, "/");
    proof {
        reveal_strlit("/");
        if id@.len() > 0 && id@[0] == '/' {
            assert(id@.subrange(0, 1) =~= "/"@);
        }
        if absolute {
            assert(id@.subrange(0, 1)[0] == id@[0]);
        }
    }
    if !(whole || (appimage && absolute && after_root)) {
        return Err(BackendError::InvalidPackageId(copy_string(id)));
    }
    if appimage && !absolute {
        return Err(
            BackendError::InvalidPackageId(copy_string("AppImage requer caminho absoluto")),
        );
    }
    Ok(())
}

fn contains_forbidden(id: &str) -> (r: bool)
    ensures
        r == has_forbidden_char(id@),
{
    let b = str_contains_char(id, '\0') || str_contains_char(id, ' ') || str_contains_char(id, ';')
        || str_contains_char(id, '|') || str_contains_char(id, '&') || str_contains_char(id, '`')
        || str_contains_char(id, '$') || str_contains_char(id, '\n') || str_contains_char(
        id,
        '\r',
    );
    proof {
        if has_forbidden_char(id@) {
            let i = choose|i: int| 0 <= i < id@.len() && is_forbidden_char(#[trigger] id@[i]);
            assert(id@.contains(id@[i]));
        }
    }
    b
}

/// Validates a package identifier before any operation on it.
///
/// An identifier is accepted when it is non-empty, at most 256 bytes long,
/// free of shell and control characters, matches the safe-id pattern (for
/// an AppImage, the path after its root `/` may match it instead), and,
/// for AppImage, is an absolute path.
pub fn validate_package_id(method: InstallMethod, id: &str) -> (r: BackendResult<()>)
    ensures
        r is Ok <==> package_id_valid(method, id@),
        r matches Err(e) ==> rejected_with(method, id@, e),
{
    if id.is_empty() || id.as_bytes().len() > 256 {
        return Err(BackendError::InvalidPackageId(copy_string(id)));
    }
    if contains_forbidden(id) {
        return Err(BackendError::InvalidPackageId(copy_string(id)));
    }
    let pattern = "^[A-Za-z0-9][A-Za-z0-9._+:@/-]{0,255}$";
    assert(pattern@ == safe_id_pattern());
    let whole = match regex_search(pattern, id) {
        Ok(b) => b,
        Err(_) => {
            return Err(BackendError::Other(copy_string("invalid package id pattern")));
        },
    };
    let appimage = match method {
        InstallMethod::AppImage => true,
        _ => false,
    };
    let mut after_root = false;
    if !whole && appimage {
        match str_strip_prefix(id, "/") {
            Some(rest) => {
                proof {
                    reveal_strlit("/");
                    assert(rest@ =~= id@.drop_first());
                    assert(id@.subrange(0, 1)[0] == id@[0]);
                }
                after_root = match regex_search(pattern, rest.as_str()) {
                    Ok(b) => b,
                    Err(_) => false,
                };
            },
            None => {
                proof {
                    reveal_strlit("/");
                    if id@.len() > 0 && id@[0] == '/' {
                        assert(id@.subrange(0, 1) =~= "/"@);
                    }
                }
            },
        }
    }
    assert(pattern_answer(method, id@, whole, after_root) == pattern_ok(method, id@));
    id_verdict(method, id, whole, after_root)
}

/// An accepted identifier is never empty, is at most 256 bytes long and
/// holds no shell or control character (`\0`, space, `;`, `|`, `&`, a
/// backquote, `$`, newline, carriage return); an accepted AppImage id is an
/// absolute path.
pub proof fn lemma_valid_id_is_safe(method: InstallMethod, id: Seq<char>)
    requires
        package_id_valid(method, id),
    ensures
        id.len() > 0,
        vstd::utf8::encode_utf8(id).len() <= 256,
        forall|i: int| 0 <= i < id.len() ==> !is_forbidden_char(#[trigger] id[i]),
        method == InstallMethod::AppImage ==> id[0] == '/',
{
}

} // verus!
