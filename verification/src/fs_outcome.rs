//! What the program makes of the outcome of a file-system operation: which failures are
//! expected and answered, and which are errors.

use vstd::prelude::*;

verus! {

/// The kind of a failed file-system operation, as far as the program tells kinds apart.
#[derive(Debug, Clone, Copy, PartialEq, Eq, Structural)]
pub enum IoErrorKind {
    NotFound,
    AlreadyExists,
    Other,
}

/// Why a directory could not be made to exist.
#[derive(Debug, Clone, Copy, PartialEq, Eq, Structural)]
pub enum EnsureDirExistError {
    /// The directory's parent does not exist.
    ParentNotExist,
    /// Any other failure.
    Other,
}

/// The answer to "make sure this directory exists", given how creating it went and whether
/// the path is a directory: `Ok(true)` where it was created, `Ok(false)` where it already
/// existed as a directory, an error naming a missing parent where creation found nothing, and
/// any other failure (among them a file in the way) as another error.
pub open spec fn dir_exist_outcome(created: Result<(), IoErrorKind>, is_dir: bool) -> Result<bool, EnsureDirExistError> {
    match created {
        Ok(()) => Ok(true),
        Err(IoErrorKind::AlreadyExists) => if is_dir {
            Ok(false)
        } else {
            Err(EnsureDirExistError::Other)
        },
        Err(IoErrorKind::NotFound) => Err(EnsureDirExistError::ParentNotExist),
        Err(IoErrorKind::Other) => Err(EnsureDirExistError::Other),
    }
}

/// The answer to "make sure this directory exists" (see `dir_exist_outcome`).
pub fn ensure_dir_exist_outcome(created: Result<(), IoErrorKind>, is_dir: bool) -> (res: Result<bool, EnsureDirExistError>)
    ensures
        res == dir_exist_outcome(created, is_dir),
{
    match created {
        Ok(()) => Ok(true),
        Err(IoErrorKind::AlreadyExists) => if is_dir {
            Ok(false)
        } else {
            Err(EnsureDirExistError::Other)
        },
        Err(IoErrorKind::NotFound) => Err(EnsureDirExistError::ParentNotExist),
        Err(IoErrorKind::Other) => Err(EnsureDirExistError::Other),
    }
}

/// The answer to "make sure this directory is gone", given how removing it went and whether
/// its parent is a directory (`None` where the path has no parent): `Ok(true)` where it was
/// removed, `Ok(false)` where it was not there but its parent is, and an error otherwise.
pub open spec fn dir_removed_outcome(removed: Result<(), IoErrorKind>, parent_is_dir: Option<bool>) -> Result<bool, IoErrorKind> {
    match removed {
        Ok(()) => Ok(true),
        Err(IoErrorKind::NotFound) => if parent_is_dir == Some(true) {
            Ok(false)
        } else {
            Err(IoErrorKind::NotFound)
        },
        Err(k) => Err(k),
    }
}

/// The answer to "make sure this directory is gone" (see `dir_removed_outcome`).
pub fn ensure_dir_removed_outcome(removed: Result<(), IoErrorKind>, parent_is_dir: Option<bool>) -> (res: Result<bool, IoErrorKind>)
    ensures
        res == dir_removed_outcome(removed, parent_is_dir),
{
    match removed {
        Ok(()) => Ok(true),
        Err(IoErrorKind::NotFound) => match parent_is_dir {
            Some(true) => Ok(false),
            _ => Err(IoErrorKind::NotFound),
        },
        Err(k) => Err(k),
    }
}

/// What opening or resolving a file gives: its result where the operation succeeded; nothing
/// where the file is missing and may be (a default path that need not exist); an error
/// otherwise.
pub open spec fn missing_ok<T>(res: Result<T, IoErrorKind>, may_be_missing: bool) -> Result<Option<T>, IoErrorKind> {
    match res {
        Ok(v) => Ok(Some(v)),
        Err(IoErrorKind::NotFound) => if may_be_missing {
            Ok(None)
        } else {
            Err(IoErrorKind::NotFound)
        },
        Err(k) => Err(k),
    }
}

/// What opening or resolving a file gives (see `missing_ok`).
pub fn allow_missing<T>(res: Result<T, IoErrorKind>, may_be_missing: bool) -> (out: Result<Option<T>, IoErrorKind>)
    ensures
        out == missing_ok(res, may_be_missing),
{
    match res {
        Ok(v) => Ok(Some(v)),
        Err(IoErrorKind::NotFound) => if may_be_missing {
            Ok(None)
        } else {
            Err(IoErrorKind::NotFound)
        },
        Err(k) => Err(k),
    }
}

/// An error and the errors that caused it, one per line: the first message, then each cause
/// on a line of its own after `  caused by: `.
pub open spec fn error_chain_text(messages: Seq<Seq<char>>) -> Seq<char>
    decreases messages.len(),
{
    if messages.len() == 0 {
        Seq::empty()
    } else if messages.len() == 1 {
        messages[0]
    } else {
        error_chain_text(messages.drop_last()) + "\n  caused by: "@ + messages.last()
    }
}

/// The text of an error chain (see `error_chain_text`): `messages` holds the error's message
/// and then those of its causes, in order.
pub fn format_error_chain(messages: &Vec<String>) -> (res: String)
    ensures
        res@ == error_chain_text(messages@.map_values(|m: String| m@)),
{
    let ghost ms = messages@.map_values(|m: String| m@);
    let mut res = String::new();
    let mut i: usize = 0;
    assert(ms.take(0) =~= Seq::<Seq<char>>::empty());
    while i < messages.len()
        invariant
            ms == messages@.map_values(|m: String| m@),
            i <= messages.len(),
            res@ == error_chain_text(ms.take(i as int)),
        decreases messages.len() - i,
    {
        assert(ms.take(i + 1).drop_last() =~= ms.take(i as int));
        if i == 0 {
            res.append(messages[i].as_str());
            assert(res@ =~= error_chain_text(ms.take(1)));
        } else {
            res.append("\n  caused by: ");
            res.append(messages[i].as_str());
        }
        i = i + 1;
    }
    assert(ms.take(messages.len() as int) =~= ms);
    res
}

} // verus!
