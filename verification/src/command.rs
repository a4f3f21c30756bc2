//! What each command of the password list does to the screen, once the
//! work on the store, on git or on the clipboard has been done and its
//! outcome is known.
//!
//! A `None` outcome means that the command found nothing selected and did
//! no work; `Some(Err(..))` that the work failed; `Some(Ok(..))` that it
//! succeeded. The screen updates are listed in the order they are made.
use vstd::prelude::*;

verus! {

/// How many seconds a copied password stays on the clipboard.
pub const CLIPBOARD_CLEAR_SECS: u64 = 40;

/// The messages of the status bar.
#[derive(Clone, Copy, Debug, PartialEq, Eq, Structural)]
pub enum Status {
    PasswordCopied,
    PasswordDeleted,
    PasswordCreated,
    RecipientDeleted,
    RecipientAdded,
    Pushed,
    Pulled,
}

/// The text of a status bar message.
pub open spec fn status_text_of(s: Status) -> Seq<char> {
    match s {
        Status::PasswordCopied => "copied password to copy buffer for 40 seconds"@,
        Status::PasswordDeleted => "password deleted"@,
        Status::PasswordCreated => "created new password"@,
        Status::RecipientDeleted => "deleted recipient from password store"@,
        Status::RecipientAdded => "added recipient to password store"@,
        Status::Pushed => "pushed to remote git repository"@,
        Status::Pulled => "pulled from remote git repository"@,
    }
}

/// The text of a status bar message.
pub fn status_text(s: Status) -> (r: &'static str)
    ensures
        r@ == status_text_of(s),
        s == Status::PasswordCopied ==> r@ == "copied password to copy buffer for 40 seconds"@,
        s == Status::PasswordDeleted ==> r@ == "password deleted"@,
        s == Status::PasswordCreated ==> r@ == "created new password"@,
        s == Status::RecipientDeleted ==> r@ == "deleted recipient from password store"@,
        s == Status::RecipientAdded ==> r@ == "added recipient to password store"@,
        s == Status::Pushed ==> r@ == "pushed to remote git repository"@,
        s == Status::Pulled ==> r@ == "pulled from remote git repository"@,
{
    match s {
        Status::PasswordCopied => "copied password to copy buffer for 40 seconds",
        Status::PasswordDeleted => "password deleted",
        Status::PasswordCreated => "created new password",
        Status::RecipientDeleted => "deleted recipient from password store",
        Status::RecipientAdded => "added recipient to password store",
        Status::Pushed => "pushed to remote git repository",
        Status::Pulled => "pulled from remote git repository",
    }
}

/// One update of the screen (or of the clipboard).
#[derive(Debug)]
pub enum Effect<E> {
    /// Open a dialog that shows this error.
    ShowError(E),
    /// Open the dialog that edits a password, with this password in it.
    OpenEditor(String),
    /// Put this password on the clipboard.
    CopyToClipboard(String),
    /// Empty the clipboard after this many seconds.
    ClearClipboardAfter(u64),
    /// Remove the selected row of the list on screen.
    RemoveSelected,
    /// Add the row of the password just created to the password list.
    ListNewEntry,
    /// Fill the password list again with every password of the store.
    RelistAll,
    /// Close the topmost dialog.
    CloseDialog,
    /// Show this message in the status bar.
    SetStatus(Status),
}

/// `copy`: the selected password, with the clipboard opened for it.
pub open spec fn copy_spec<E>(prepared: Option<Result<String, E>>) -> Seq<Effect<E>> {
    match prepared {
        None => seq![],
        Some(Err(e)) => seq![Effect::ShowError(e)],
        Some(Ok(p)) => seq![
            Effect::CopyToClipboard(p),
            Effect::ClearClipboardAfter(CLIPBOARD_CLEAR_SECS),
            Effect::SetStatus(Status::PasswordCopied),
        ],
    }
}

/// `delete`, once confirmed: the removal of the selected password file.
/// A failed removal is not reported; the status bar says that the password
/// was deleted whatever happened.
pub open spec fn delete_spec<E>(deleted: Option<Result<(), E>>) -> Seq<Effect<E>> {
    match deleted {
        Some(Ok(())) => seq![
            Effect::RemoveSelected,
            Effect::CloseDialog,
            Effect::SetStatus(Status::PasswordDeleted),
        ],
        _ => seq![Effect::CloseDialog, Effect::SetStatus(Status::PasswordDeleted)],
    }
}

/// `open`: the decryption of the selected password; one that fails opens nothing.
pub open spec fn open_spec<E>(secret: Option<Result<String, E>>) -> Seq<Effect<E>> {
    match secret {
        Some(Ok(p)) => seq![Effect::OpenEditor(p)],
        _ => seq![],
    }
}

/// "Save" in the editor: the update of the password file.
pub open spec fn save_spec<E>(updated: Result<(), E>) -> Seq<Effect<E>> {
    match updated {
        Ok(()) => seq![],
        Err(e) => seq![Effect::ShowError(e)],
    }
}

/// "Save" in the dialog that adds a password: the creation of its file,
/// where the dialog asked for one.
pub open spec fn create_spec<E>(created: Option<Result<(), E>>) -> Seq<Effect<E>> {
    match created {
        None => seq![],
        Some(Err(e)) => seq![Effect::ShowError(e)],
        Some(Ok(())) => seq![
            Effect::ListNewEntry,
            Effect::CloseDialog,
            Effect::SetStatus(Status::PasswordCreated),
        ],
    }
}

/// Removal of the selected recipient from the store.
pub open spec fn delete_recipient_spec<E>(removed: Option<Result<(), E>>) -> Seq<Effect<E>> {
    match removed {
        None => seq![],
        Some(Err(e)) => seq![Effect::ShowError(e)],
        Some(Ok(())) => seq![Effect::RemoveSelected, Effect::SetStatus(Status::RecipientDeleted)],
    }
}

/// Adding a recipient: looking up the key and adding it to the store.
pub open spec fn add_recipient_spec<E>(added: Result<(), E>) -> Seq<Effect<E>> {
    match added {
        Err(e) => seq![Effect::ShowError(e)],
        Ok(()) => seq![Effect::CloseDialog, Effect::SetStatus(Status::RecipientAdded)],
    }
}

/// `git push`.
pub open spec fn push_spec<E>(pushed: Result<(), E>) -> Seq<Effect<E>> {
    match pushed {
        Err(e) => seq![Effect::ShowError(e)],
        Ok(()) => seq![Effect::SetStatus(Status::Pushed)],
    }
}

/// The error of an outcome, shown; nothing for a success.
pub open spec fn error_shown<E>(outcome: Result<(), E>) -> Seq<Effect<E>> {
    match outcome {
        Err(e) => seq![Effect::ShowError(e)],
        Ok(()) => seq![],
    }
}

/// `git pull`, then reading the store again: each failure is shown, in
/// order, and the list is filled again in any case.
pub open spec fn pull_spec<E>(pulled: Result<(), E>, reread: Result<(), E>) -> Seq<Effect<E>> {
    error_shown(pulled) + error_shown(reread) + seq![
        Effect::RelistAll,
        Effect::SetStatus(Status::Pulled),
    ]
}

/// What `copy` does: nothing when no password is selected, the error of
/// decrypting it or of opening the clipboard, or else puts the password on
/// the clipboard for 40 seconds and says so.
pub fn copy_effects<E>(prepared: Option<Result<String, E>>) -> (r: Vec<Effect<E>>)
    ensures
        r@ == copy_spec(prepared),
        prepared is None ==> r@.len() == 0,
        prepared matches Some(Err(e)) ==> r@ == seq![Effect::ShowError(e)],
        prepared matches Some(Ok(p)) ==> r@ == seq![
            Effect::<E>::CopyToClipboard(p),
            Effect::ClearClipboardAfter(40),
            Effect::SetStatus(Status::PasswordCopied),
        ],
{
    let mut r: Vec<Effect<E>> = Vec::new();
    match prepared {
        None => {},
        Some(Err(e)) => r.push(Effect::ShowError(e)),
        Some(Ok(p)) => {
            r.push(Effect::CopyToClipboard(p));
            r.push(Effect::ClearClipboardAfter(CLIPBOARD_CLEAR_SECS));
            r.push(Effect::SetStatus(Status::PasswordCopied));
        },
    }
    r
}

/// What confirming `delete` does.
pub fn delete_effects<E>(deleted: Option<Result<(), E>>) -> (r: Vec<Effect<E>>)
    ensures
        r@ == delete_spec(deleted),
        deleted matches Some(Ok(_)) ==> r@ == seq![
            Effect::<E>::RemoveSelected,
            Effect::CloseDialog,
            Effect::SetStatus(Status::PasswordDeleted),
        ],
        !(deleted matches Some(Ok(_))) ==> r@ == seq![
            Effect::<E>::CloseDialog,
            Effect::SetStatus(Status::PasswordDeleted),
        ],
{
    let mut r: Vec<Effect<E>> = Vec::new();
    match deleted {
        Some(Ok(())) => r.push(Effect::RemoveSelected),
        _ => {},
    }
    r.push(Effect::CloseDialog);
    r.push(Effect::SetStatus(Status::PasswordDeleted));
    r
}

/// What `open` does.
pub fn open_effects<E>(secret: Option<Result<String, E>>) -> (r: Vec<Effect<E>>)
    ensures
        r@ == open_spec(secret),
        secret matches Some(Ok(p)) ==> r@ == seq![Effect::<E>::OpenEditor(p)],
        !(secret matches Some(Ok(_))) ==> r@.len() == 0,
{
    let mut r: Vec<Effect<E>> = Vec::new();
    match secret {
        Some(Ok(p)) => r.push(Effect::OpenEditor(p)),
        _ => {},
    }
    r
}

/// What "Save" in the editor does.
pub fn save_effects<E>(updated: Result<(), E>) -> (r: Vec<Effect<E>>)
    ensures
        r@ == save_spec(updated),
        updated is Ok ==> r@.len() == 0,
        updated matches Err(e) ==> r@ == seq![Effect::ShowError(e)],
{
    let mut r: Vec<Effect<E>> = Vec::new();
    match updated {
        Ok(()) => {},
        Err(e) => r.push(Effect::ShowError(e)),
    }
    r
}

/// What "Save" in the dialog that adds a password does.
pub fn create_effects<E>(created: Option<Result<(), E>>) -> (r: Vec<Effect<E>>)
    ensures
        r@ == create_spec(created),
        created is None ==> r@.len() == 0,
        created matches Some(Err(e)) ==> r@ == seq![Effect::ShowError(e)],
        created matches Some(Ok(_)) ==> r@ == seq![
            Effect::<E>::ListNewEntry,
            Effect::CloseDialog,
            Effect::SetStatus(Status::PasswordCreated),
        ],
{
    let mut r: Vec<Effect<E>> = Vec::new();
    match created {
        None => {},
        Some(Err(e)) => r.push(Effect::ShowError(e)),
        Some(Ok(())) => {
            r.push(Effect::ListNewEntry);
            r.push(Effect::CloseDialog);
            r.push(Effect::SetStatus(Status::PasswordCreated));
        },
    }
    r
}

/// What confirming the removal of a recipient does.
pub fn delete_recipient_effects<E>(removed: Option<Result<(), E>>) -> (r: Vec<Effect<E>>)
    ensures
        r@ == delete_recipient_spec(removed),
        removed is None ==> r@.len() == 0,
        removed matches Some(Err(e)) ==> r@ == seq![Effect::ShowError(e)],
        removed matches Some(Ok(_)) ==> r@ == seq![
            Effect::<E>::RemoveSelected,
            Effect::SetStatus(Status::RecipientDeleted),
        ],
{
    let mut r: Vec<Effect<E>> = Vec::new();
    match removed {
        None => {},
        Some(Err(e)) => r.push(Effect::ShowError(e)),
        Some(Ok(())) => {
            r.push(Effect::RemoveSelected);
            r.push(Effect::SetStatus(Status::RecipientDeleted));
        },
    }
    r
}

/// What adding a recipient does.
pub fn add_recipient_effects<E>(added: Result<(), E>) -> (r: Vec<Effect<E>>)
    ensures
        r@ == add_recipient_spec(added),
        added matches Err(e) ==> r@ == seq![Effect::ShowError(e)],
        added is Ok ==> r@ == seq![Effect::<E>::CloseDialog, Effect::SetStatus(Status::RecipientAdded)],
{
    let mut r: Vec<Effect<E>> = Vec::new();
    match added {
        Err(e) => r.push(Effect::ShowError(e)),
        Ok(()) => {
            r.push(Effect::CloseDialog);
            r.push(Effect::SetStatus(Status::RecipientAdded));
        },
    }
    r
}

/// What `git push` does.
pub fn push_effects<E>(pushed: Result<(), E>) -> (r: Vec<Effect<E>>)
    ensures
        r@ == push_spec(pushed),
        pushed matches Err(e) ==> r@ == seq![Effect::ShowError(e)],
        pushed is Ok ==> r@ == seq![Effect::<E>::SetStatus(Status::Pushed)],
{
    let mut r: Vec<Effect<E>> = Vec::new();
    match pushed {
        Err(e) => r.push(Effect::ShowError(e)),
        Ok(()) => r.push(Effect::SetStatus(Status::Pushed)),
    }
    r
}

/// What `git pull` does.
pub fn pull_effects<E>(pulled: Result<(), E>, reread: Result<(), E>) -> (r: Vec<Effect<E>>)
    ensures
        r@ == pull_spec(pulled, reread),
        r@.len() == 2 + (if pulled is Err { 1int } else { 0int }) + (if reread is Err { 1int } else { 0int }),
        pulled matches Err(e) ==> r@[0] == Effect::ShowError(e),
        reread matches Err(e) ==> r@[r@.len() - 3] == Effect::ShowError(e),
        r@[r@.len() - 2] == Effect::<E>::RelistAll,
        r@[r@.len() - 1] == Effect::<E>::SetStatus(Status::Pulled),
{
    let mut r: Vec<Effect<E>> = Vec::new();
    match pulled {
        Err(e) => r.push(Effect::ShowError(e)),
        Ok(()) => {},
    }
    match reread {
        Err(e) => r.push(Effect::ShowError(e)),
        Ok(()) => {},
    }
    r.push(Effect::RelistAll);
    r.push(Effect::SetStatus(Status::Pulled));
    r
}

/// A failed store, git or clipboard operation changes nothing on screen
/// but for the dialog that shows its error: no status message, no row
/// added or removed, no dialog closed. Deleting a password and opening one
/// are the exceptions: their errors are not shown.
pub proof fn lemma_failure_shows_only_the_error<E>(e: E)
    ensures
        copy_spec::<E>(Some(Err(e))) == seq![Effect::ShowError(e)],
        save_spec::<E>(Err(e)) == seq![Effect::ShowError(e)],
        create_spec::<E>(Some(Err(e))) == seq![Effect::ShowError(e)],
        delete_recipient_spec::<E>(Some(Err(e))) == seq![Effect::ShowError(e)],
        add_recipient_spec::<E>(Err(e)) == seq![Effect::ShowError(e)],
        push_spec::<E>(Err(e)) == seq![Effect::ShowError(e)],
        open_spec::<E>(Some(Err(e))) == Seq::<Effect<E>>::empty(),
        delete_spec::<E>(Some(Err(e))) == delete_spec::<E>(None),
{
}

/// A command that finds nothing selected does nothing, but for `delete`,
/// which still closes its dialog and reports a deletion.
pub proof fn lemma_nothing_selected<E>()
    ensures
        copy_spec::<E>(None) == Seq::<Effect<E>>::empty(),
        open_spec::<E>(None) == Seq::<Effect<E>>::empty(),
        create_spec::<E>(None) == Seq::<Effect<E>>::empty(),
        delete_recipient_spec::<E>(None) == Seq::<Effect<E>>::empty(),
        delete_spec::<E>(None) == seq![
            Effect::<E>::CloseDialog,
            Effect::<E>::SetStatus(Status::PasswordDeleted),
        ],
{
}

/// Every command that succeeds ends by saying so in the status bar, and
/// says it once; `git pull` always does.
pub proof fn lemma_success_ends_with_status<E>(p: String, pulled: Result<(), E>, reread: Result<(), E>)
    ensures
        copy_spec::<E>(Some(Ok(p))).last() == Effect::<E>::SetStatus(Status::PasswordCopied),
        delete_spec::<E>(Some(Ok(()))).last() == Effect::<E>::SetStatus(Status::PasswordDeleted),
        create_spec::<E>(Some(Ok(()))).last() == Effect::<E>::SetStatus(Status::PasswordCreated),
        delete_recipient_spec::<E>(Some(Ok(()))).last() == Effect::<E>::SetStatus(
            Status::RecipientDeleted,
        ),
        add_recipient_spec::<E>(Ok(())).last() == Effect::<E>::SetStatus(Status::RecipientAdded),
        push_spec::<E>(Ok(())).last() == Effect::<E>::SetStatus(Status::Pushed),
        pull_spec(pulled, reread).last() == Effect::<E>::SetStatus(Status::Pulled),
        forall|i: int|
            0 <= i < pull_spec(pulled, reread).len() - 1 ==> !(#[trigger] pull_spec(
                pulled,
                reread,
            )[i] is SetStatus),
{
    let s = pull_spec(pulled, reread);
    assert forall|i: int| 0 <= i < s.len() - 1 implies !(#[trigger] s[i] is SetStatus) by {
        let errs = error_shown(pulled) + error_shown(reread);
        if i < errs.len() {
            if i < error_shown(pulled).len() {
                assert(s[i] == error_shown(pulled)[i]);
            } else {
                assert(s[i] == error_shown(reread)[i - error_shown(pulled).len()]);
            }
        } else {
            assert(s[i] == Effect::<E>::RelistAll);
        }
    }
}

/// Whatever re-reading the store gives, a failed pull shows its own error
/// first; a failed re-read shows its error just before the list is filled
/// again; and nothing else is shown.
pub proof fn lemma_pull_reports_each_failure<E>(pulled: Result<(), E>, reread: Result<(), E>)
    ensures
        pulled matches Err(e) ==> pull_spec(pulled, reread)[0] == Effect::ShowError(e),
        reread matches Err(e) ==> pull_spec(pulled, reread)[pull_spec(pulled, reread).len() - 3]
            == Effect::ShowError(e),
        pull_spec(pulled, reread).len() == 2 + (if pulled is Err { 1int } else { 0int }) + (
        if reread is Err {
            1int
        } else {
            0int
        }),
        pull_spec(pulled, reread)[pull_spec(pulled, reread).len() - 2] == Effect::<E>::RelistAll,
{
}

/// Every password that is copied is taken off the clipboard again after 40
/// seconds, whatever its length or content: the copy is followed by the
/// clearing and then by the status message.
pub proof fn lemma_copied_password_is_cleared<E>(p: String)
    ensures
        copy_spec::<E>(Some(Ok(p))).len() == 3,
        copy_spec::<E>(Some(Ok(p)))[0] == Effect::<E>::CopyToClipboard(p),
        copy_spec::<E>(Some(Ok(p)))[1] == Effect::<E>::ClearClipboardAfter(CLIPBOARD_CLEAR_SECS),
        CLIPBOARD_CLEAR_SECS == 40,
        copy_spec::<E>(Some(Ok(p))).contains(Effect::<E>::ClearClipboardAfter(40)),
{
    assert(copy_spec::<E>(Some(Ok(p)))[1] == Effect::<E>::ClearClipboardAfter(40));
}

/// Every decrypted secret, whatever it holds (newlines too), opens the
/// editor with exactly that secret in it, and nothing else happens.
pub proof fn lemma_open_shows_any_secret<E>(p: String)
    ensures
        open_spec::<E>(Some(Ok(p))).len() == 1,
        open_spec::<E>(Some(Ok(p)))[0] == Effect::<E>::OpenEditor(p),
{
}

} // verus!
