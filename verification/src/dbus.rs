//! The D-Bus side of a panel item acceptor: the object path it is exported
//! at.
use crate::error::NodeError;
use vstd::prelude::*;
use zbus::zvariant::Error as ZvariantError;
use zbus::zvariant::OwnedObjectPath;

verus! {

/// A validated D-Bus object path.
#[verifier::external_type_specification]
#[verifier::external_body]
pub struct ExOwnedObjectPath(OwnedObjectPath);

/// The error `zvariant` reports for a malformed value.
#[verifier::external_type_specification]
#[verifier::external_body]
pub struct ExZvariantError(ZvariantError);

/// A character that may stand in an element of an object path.
pub open spec fn is_object_path_char(c: char) -> bool {
    ('a' <= c && c <= 'z') || ('A' <= c && c <= 'Z') || ('0' <= c && c <= '9') || c == '_'
}

/// A D-Bus object path: `/`, or `/` followed by non-empty elements of
/// ASCII letters, digits and `_` separated by single `/`, with no `/` at
/// the end.
pub open spec fn valid_object_path(p: Seq<char>) -> bool {
    &&& p.len() >= 1
    &&& p[0] == '/'
    &&& forall|i: int| 0 <= i < p.len() ==> p[i] == '/' || is_object_path_char(#[trigger] p[i])
    &&& forall|i: int| 0 <= i < p.len() - 1 ==> !(#[trigger] p[i] == '/' && p[i + 1] == '/')
    &&& (p.len() == 1 || p[p.len() - 1] != '/')
}

/// `OwnedObjectPath::try_from(&str)`, keeping only whether it succeeded
/// (the path it builds holds the given text unchanged). Its source checks
/// the path with the grammar that `valid_object_path` states: a `/`, then
/// elements of ASCII letters, digits or `_` separated by `/`, and nothing
/// after them; it succeeds exactly on such paths.
#[verifier::external_body]
fn check_object_path(path: &str) -> (res: Result<(), ZvariantError>)
    ensures
        res is Ok <==> valid_object_path(path@),
{
    match OwnedObjectPath::try_from(path) {
        Ok(_) => Ok(()),
        Err(e) => Err(e),
    }
}

/// Why a panel item acceptor could not be set up.
#[derive(Debug)]
pub enum PanelItemAcceptorCreateError {
    /// The path it was to be exported at is not an object path.
    InvalidPath(ZvariantError),
    /// Exporting its field or spatial failed.
    NodeExportFailed(NodeError),
}

/// Checks the object path an acceptor is to be exported at and gives back
/// its text, which the exports then use; a malformed path is
/// `InvalidPath`.
pub fn acceptor_object_path(path: &str) -> (res: Result<String, PanelItemAcceptorCreateError>)
    ensures
        res is Ok <==> valid_object_path(path@),
        res matches Ok(s) ==> s@ == path@,
        res matches Err(e) ==> e is InvalidPath,
{
    match check_object_path(path) {
        Ok(()) => Ok(path.to_owned()),
        Err(e) => Err(PanelItemAcceptorCreateError::InvalidPath(e)),
    }
}

} // verus!
