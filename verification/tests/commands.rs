use ripasso_cursive::command::{
    add_recipient_effects, copy_effects, create_effects, delete_effects, delete_recipient_effects,
    open_effects, pull_effects, push_effects, save_effects, status_text, Effect, Status,
    CLIPBOARD_CLEAR_SECS,
};
use ripasso_cursive::wants_help;

fn kinds(effects: &[Effect<&str>]) -> Vec<String> {
    effects.iter().map(|e| format!("{:?}", e)).collect()
}

#[test]
fn copy_puts_the_password_on_the_clipboard_for_forty_seconds() {
    let r = copy_effects::<&str>(Some(Ok("s3cret".to_string())));
    assert_eq!(
        kinds(&r),
        vec!["CopyToClipboard(\"s3cret\")", "ClearClipboardAfter(40)", "SetStatus(PasswordCopied)"]
    );
    assert_eq!(CLIPBOARD_CLEAR_SECS, 40);
    assert_eq!(status_text(Status::PasswordCopied), "copied password to copy buffer for 40 seconds");
}

#[test]
fn copy_shows_its_error_or_does_nothing() {
    assert_eq!(kinds(&copy_effects(Some(Err("no key")))), vec!["ShowError(\"no key\")"]);
    assert!(copy_effects::<&str>(None).is_empty());
}

#[test]
fn delete_always_reports_a_deletion() {
    assert_eq!(
        kinds(&delete_effects::<&str>(Some(Ok(())))),
        vec!["RemoveSelected", "CloseDialog", "SetStatus(PasswordDeleted)"]
    );
    assert_eq!(kinds(&delete_effects(Some(Err("io")))), vec!["CloseDialog", "SetStatus(PasswordDeleted)"]);
    assert_eq!(kinds(&delete_effects::<&str>(None)), vec!["CloseDialog", "SetStatus(PasswordDeleted)"]);
    assert_eq!(status_text(Status::PasswordDeleted), "password deleted");
}

#[test]
fn open_shows_the_editor_only_for_a_decrypted_password() {
    assert_eq!(kinds(&open_effects::<&str>(Some(Ok("pw".to_string())))), vec!["OpenEditor(\"pw\")"]);
    assert!(open_effects(Some(Err("bad"))).is_empty());
    assert!(open_effects::<&str>(None).is_empty());
}

#[test]
fn save_shows_only_errors() {
    assert!(save_effects::<&str>(Ok(())).is_empty());
    assert_eq!(kinds(&save_effects(Err("denied"))), vec!["ShowError(\"denied\")"]);
}

#[test]
fn create_lists_closes_and_reports() {
    assert_eq!(
        kinds(&create_effects::<&str>(Some(Ok(())))),
        vec!["ListNewEntry", "CloseDialog", "SetStatus(PasswordCreated)"]
    );
    assert_eq!(kinds(&create_effects(Some(Err("exists")))), vec!["ShowError(\"exists\")"]);
    assert!(create_effects::<&str>(None).is_empty());
    assert_eq!(status_text(Status::PasswordCreated), "created new password");
}

#[test]
fn recipient_commands() {
    assert_eq!(
        kinds(&delete_recipient_effects::<&str>(Some(Ok(())))),
        vec!["RemoveSelected", "SetStatus(RecipientDeleted)"]
    );
    assert_eq!(kinds(&delete_recipient_effects(Some(Err("x")))), vec!["ShowError(\"x\")"]);
    assert!(delete_recipient_effects::<&str>(None).is_empty());
    assert_eq!(kinds(&add_recipient_effects::<&str>(Ok(()))), vec!["CloseDialog", "SetStatus(RecipientAdded)"]);
    assert_eq!(kinds(&add_recipient_effects(Err("no key"))), vec!["ShowError(\"no key\")"]);
    assert_eq!(status_text(Status::RecipientDeleted), "deleted recipient from password store");
    assert_eq!(status_text(Status::RecipientAdded), "added recipient to password store");
}

#[test]
fn git_commands() {
    assert_eq!(kinds(&push_effects::<&str>(Ok(()))), vec!["SetStatus(Pushed)"]);
    assert_eq!(kinds(&push_effects(Err("offline"))), vec!["ShowError(\"offline\")"]);
    assert_eq!(kinds(&pull_effects::<&str>(Ok(()), Ok(()))), vec!["RelistAll", "SetStatus(Pulled)"]);
    assert_eq!(
        kinds(&pull_effects(Err("offline"), Err("unreadable"))),
        vec!["ShowError(\"offline\")", "ShowError(\"unreadable\")", "RelistAll", "SetStatus(Pulled)"]
    );
    assert_eq!(kinds(&pull_effects(Ok(()), Err("u"))), vec!["ShowError(\"u\")", "RelistAll", "SetStatus(Pulled)"]);
    assert_eq!(status_text(Status::Pushed), "pushed to remote git repository");
    assert_eq!(status_text(Status::Pulled), "pulled from remote git repository");
}

fn args(v: &[&str]) -> Vec<String> {
    v.iter().map(|s| s.to_string()).collect()
}

#[test]
fn help_is_asked_by_a_single_flag() {
    assert!(wants_help(&args(&["ripasso-cursive", "-h"])));
    assert!(wants_help(&args(&["ripasso-cursive", "--help"])));
    assert!(!wants_help(&args(&["ripasso-cursive"])));
    assert!(!wants_help(&args(&["ripasso-cursive", "--help", "-h"])));
    assert!(!wants_help(&args(&["ripasso-cursive", "-H"])));
    assert!(!wants_help(&args(&["-h"])));
    assert!(!wants_help(&args(&[])));
}
