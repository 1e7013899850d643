//! Administrator authorisation and the two commands it guards: leaving the
//! exam (`request_exit`) and clearing the lock screen (`verify_and_reset_state`).
use crate::config::{Config, DEFAULT_ADMIN_HASH};
use vstd::prelude::*;
use vstd::utf8::encode_utf8;

verus! {

#[verifier::external_type_specification]
#[verifier::external_body]
pub struct ExBcryptError(bcrypt::BcryptError);

/// What `bcrypt::verify` reports for a password and a stored hash: whether
/// they match, or nothing when the hash cannot be used.
pub uninterp spec fn bcrypt_verify_outcome(password: Seq<char>, hash: Seq<char>) -> Option<bool>;

/// Calls `bcrypt::verify` on the password's UTF-8 bytes. Trusted: its outcome
/// is `bcrypt_verify_outcome` of its arguments, and a hash that is not 60
/// bytes long is refused (`split_hash`).
#[verifier::external_body]
fn bcrypt_verify(password: &str, hash: &str) -> (r: Result<bool, bcrypt::BcryptError>)
    ensures
        match r {
            Ok(b) => bcrypt_verify_outcome(password@, hash@) == Some(b),
            Err(_) => bcrypt_verify_outcome(password@, hash@) is None,
        },
        encode_utf8(hash@).len() != 60 ==> r is Err,
{
    bcrypt::verify(password, hash)
}

/// Whether `password` is the administrator password that the configuration's
/// hash (or the built-in one) records.
pub open spec fn spec_password_accepted(cfg: &Config, password: Seq<char>) -> bool {
    bcrypt_verify_outcome(password, cfg.spec_admin_hash()) == Some(true)
}

/// Checks an administrator password against the hash in force; an unusable
/// hash accepts nothing.
pub fn password_accepted(cfg: &Config, password: &str) -> (r: bool)
    ensures
        r == spec_password_accepted(cfg, password@),
        r == (bcrypt_verify_outcome(
            password@,
            match cfg.admin_hash {
                Some(h) => h@,
                None => DEFAULT_ADMIN_HASH@,
            },
        ) == Some(true)),
        encode_utf8(cfg.spec_admin_hash()).len() != 60 ==> !r,
{
    match bcrypt_verify(password, cfg.admin_hash()) {
        Ok(b) => b,
        Err(_) => false,
    }
}

/// The reply of `request_exit` to a wrong password.
pub const EXIT_DENIED_MESSAGE: &'static str = "授权码验证失败";

/// The two commands the administrator password unlocks.
#[derive(Clone, Copy, Debug, PartialEq, Eq)]
pub enum AdminCommand {
    /// Leave the exam: on success the state is marked normal and the client exits.
    RequestExit,
    /// Clear the lock screen shown after an abnormal exit.
    VerifyAndReset,
}

/// How far a command has come.
#[derive(Clone, Copy, Debug, PartialEq, Eq)]
pub enum CommandPhase {
    AwaitingPassword,
    AwaitingStateReset,
    Finished,
}

/// What the caller reports back to the command.
#[derive(Clone, Copy, Debug, PartialEq, Eq)]
pub enum CommandEvent {
    /// The password was checked: accepted or not.
    PasswordChecked(bool),
    /// Writing the normal state finished: written or not.
    StateResetDone(bool),
}

/// The answer handed back to the front end.
#[derive(Debug, PartialEq, Eq)]
pub enum CommandReply {
    /// `request_exit` succeeded (`Ok(())`).
    Exiting,
    /// `request_exit` was refused (`Err` with `EXIT_DENIED_MESSAGE`).
    Denied,
    /// `verify_and_reset_state` answers whether the password was right (`Ok(b)`).
    Verified(bool),
    /// The configuration could not be read; either command fails with its error text.
    ConfigUnreadable(String),
}

/// What the caller is asked to do, in order.
#[derive(Debug, PartialEq, Eq)]
pub enum CommandAction {
    /// Write the state file as "normal" (and, for `VerifyAndReset`, report back).
    WriteNormalState,
    /// Remove the low-level keyboard hook, if installed.
    ReleaseKeyboardHook,
    /// Write the system restrictions back as off.
    LiftRestrictions,
    /// Close the application.
    ExitApp,
    /// Answer the front end.
    Reply(CommandReply),
}

/// The next phase and the actions of a command on an event. An event that
/// does not fit the phase changes nothing.
pub open spec fn spec_step(cmd: AdminCommand, phase: CommandPhase, event: CommandEvent) -> (CommandPhase, Seq<CommandAction>) {
    match (cmd, phase, event) {
        (AdminCommand::RequestExit, CommandPhase::AwaitingPassword, CommandEvent::PasswordChecked(true)) =>
            (CommandPhase::Finished, seq![
                CommandAction::WriteNormalState,
                CommandAction::ReleaseKeyboardHook,
                CommandAction::LiftRestrictions,
                CommandAction::ExitApp,
                CommandAction::Reply(CommandReply::Exiting),
            ]),
        (AdminCommand::RequestExit, CommandPhase::AwaitingPassword, CommandEvent::PasswordChecked(false)) =>
            (CommandPhase::Finished, seq![CommandAction::Reply(CommandReply::Denied)]),
        (AdminCommand::VerifyAndReset, CommandPhase::AwaitingPassword, CommandEvent::PasswordChecked(true)) =>
            (CommandPhase::AwaitingStateReset, seq![CommandAction::WriteNormalState]),
        (AdminCommand::VerifyAndReset, CommandPhase::AwaitingPassword, CommandEvent::PasswordChecked(false)) =>
            (CommandPhase::Finished, seq![CommandAction::Reply(CommandReply::Verified(false))]),
        (AdminCommand::VerifyAndReset, CommandPhase::AwaitingStateReset, CommandEvent::StateResetDone(true)) =>
            (CommandPhase::Finished, seq![
                CommandAction::LiftRestrictions,
                CommandAction::ExitApp,
                CommandAction::Reply(CommandReply::Verified(true)),
            ]),
        (AdminCommand::VerifyAndReset, CommandPhase::AwaitingStateReset, CommandEvent::StateResetDone(false)) =>
            (CommandPhase::Finished, seq![CommandAction::Reply(CommandReply::Verified(true))]),
        (_, phase, _) => (phase, seq![]),
    }
}

/// Advances a command by one event.
pub fn step(cmd: &AdminCommand, phase: &CommandPhase, event: &CommandEvent) -> (r: (CommandPhase, Vec<CommandAction>))
    ensures
        r.0 == spec_step(*cmd, *phase, *event).0,
        r.1@ == spec_step(*cmd, *phase, *event).1,
{
    match (cmd, phase, event) {
        (AdminCommand::RequestExit, CommandPhase::AwaitingPassword, CommandEvent::PasswordChecked(ok)) => {
            if *ok {
                (CommandPhase::Finished, vec![
                    CommandAction::WriteNormalState,
                    CommandAction::ReleaseKeyboardHook,
                    CommandAction::LiftRestrictions,
                    CommandAction::ExitApp,
                    CommandAction::Reply(CommandReply::Exiting),
                ])
            } else {
                (CommandPhase::Finished, vec![CommandAction::Reply(CommandReply::Denied)])
            }
        },
        (AdminCommand::VerifyAndReset, CommandPhase::AwaitingPassword, CommandEvent::PasswordChecked(ok)) => {
            if *ok {
                (CommandPhase::AwaitingStateReset, vec![CommandAction::WriteNormalState])
            } else {
                (CommandPhase::Finished, vec![CommandAction::Reply(CommandReply::Verified(false))])
            }
        },
        (AdminCommand::VerifyAndReset, CommandPhase::AwaitingStateReset, CommandEvent::StateResetDone(written)) => {
            if *written {
                (CommandPhase::Finished, vec![
                    CommandAction::LiftRestrictions,
                    CommandAction::ExitApp,
                    CommandAction::Reply(CommandReply::Verified(true)),
                ])
            } else {
                (CommandPhase::Finished, vec![CommandAction::Reply(CommandReply::Verified(true))])
            }
        },
        (_, CommandPhase::AwaitingPassword, _) => (CommandPhase::AwaitingPassword, Vec::new()),
        (_, CommandPhase::AwaitingStateReset, _) => (CommandPhase::AwaitingStateReset, Vec::new()),
        (_, CommandPhase::Finished, _) => (CommandPhase::Finished, Vec::new()),
    }
}

/// How a command starts: with the configuration read for this very call. An
/// unreadable configuration ends the command with its error; otherwise the
/// password is checked against the hash in force.
pub open spec fn spec_start_command(cmd: AdminCommand, config: Result<Config, String>, password: Seq<char>) -> (CommandPhase, Seq<CommandAction>) {
    match config {
        Err(e) => (CommandPhase::Finished, seq![CommandAction::Reply(CommandReply::ConfigUnreadable(e))]),
        Ok(cfg) => spec_step(
            cmd,
            CommandPhase::AwaitingPassword,
            CommandEvent::PasswordChecked(spec_password_accepted(&cfg, password)),
        ),
    }
}

/// Starts a command from the outcome of reading the configuration and the
/// entered password.
pub fn start_command(cmd: &AdminCommand, config: Result<Config, String>, password: &str) -> (r: (CommandPhase, Vec<CommandAction>))
    ensures
        r.0 == spec_start_command(*cmd, config, password@).0,
        r.1@ == spec_start_command(*cmd, config, password@).1,
{
    match config {
        Err(e) => (CommandPhase::Finished, vec![CommandAction::Reply(CommandReply::ConfigUnreadable(e))]),
        Ok(cfg) => {
            let accepted = password_accepted(&cfg, password);
            step(cmd, &CommandPhase::AwaitingPassword, &CommandEvent::PasswordChecked(accepted))
        },
    }
}

/// The final phase and all actions of a command fed a sequence of events.
pub open spec fn spec_run(cmd: AdminCommand, phase: CommandPhase, events: Seq<CommandEvent>) -> (CommandPhase, Seq<CommandAction>)
    decreases events.len(),
{
    if events.len() == 0 {
        (phase, seq![])
    } else {
        let (next, first) = spec_step(cmd, phase, events[0]);
        let (last, rest) = spec_run(cmd, next, events.drop_first());
        (last, first + rest)
    }
}

/// Whether some action other than a reply is among `actions`: a state write,
/// a hook release, lifting the restrictions or closing the application.
pub open spec fn has_effect(actions: Seq<CommandAction>) -> bool {
    exists|i: int| 0 <= i < actions.len() && !(#[trigger] actions[i] is Reply)
}

/// Whether the application is closed among `actions`.
pub open spec fn exits(actions: Seq<CommandAction>) -> bool {
    exists|i: int| 0 <= i < actions.len() && #[trigger] actions[i] is ExitApp
}

proof fn lemma_effect_needs_password_from(cmd: AdminCommand, phase: CommandPhase, events: Seq<CommandEvent>)
    ensures
        has_effect(spec_run(cmd, phase, events).1) ==> (phase is AwaitingStateReset
            || events.contains(CommandEvent::PasswordChecked(true))),
    decreases events.len(),
{
    if events.len() > 0 {
        let (next, first) = spec_step(cmd, phase, events[0]);
        let tail = events.drop_first();
        let (last, rest) = spec_run(cmd, next, tail);
        lemma_effect_needs_password_from(cmd, next, tail);
        assert(spec_run(cmd, phase, events).1 == first + rest);
        if has_effect(first + rest) {
            let i = choose|i: int| 0 <= i < (first + rest).len() && !(#[trigger] (first + rest)[i] is Reply);
            if !(phase is AwaitingStateReset) {
                if i < first.len() {
                    assert(events[0] == CommandEvent::PasswordChecked(true));
                } else {
                    assert(rest[i - first.len()] == (first + rest)[i]);
                    assert(has_effect(rest));
                    if next is AwaitingStateReset {
                        assert(events[0] == CommandEvent::PasswordChecked(true));
                    } else {
                        let j = choose|j: int| 0 <= j < tail.len() && tail[j] == CommandEvent::PasswordChecked(true);
                        assert(events[j + 1] == CommandEvent::PasswordChecked(true));
                    }
                }
            }
        }
    }
}

/// A command does nothing but reply unless the administrator password was
/// accepted: no state file is marked normal, no restriction lifted, no exit.
pub proof fn lemma_effect_needs_password(cmd: AdminCommand, events: Seq<CommandEvent>)
    ensures
        has_effect(spec_run(cmd, CommandPhase::AwaitingPassword, events).1)
            ==> events.contains(CommandEvent::PasswordChecked(true)),
{
    lemma_effect_needs_password_from(cmd, CommandPhase::AwaitingPassword, events);
}

proof fn lemma_unlock_exit_needs_reset_from(phase: CommandPhase, events: Seq<CommandEvent>)
    ensures
        exits(spec_run(AdminCommand::VerifyAndReset, phase, events).1)
            ==> events.contains(CommandEvent::StateResetDone(true)),
    decreases events.len(),
{
    if events.len() > 0 {
        let cmd = AdminCommand::VerifyAndReset;
        let (next, first) = spec_step(cmd, phase, events[0]);
        let tail = events.drop_first();
        let (last, rest) = spec_run(cmd, next, tail);
        lemma_unlock_exit_needs_reset_from(next, tail);
        assert(spec_run(cmd, phase, events).1 == first + rest);
        if exits(first + rest) {
            let i = choose|i: int| 0 <= i < (first + rest).len() && #[trigger] (first + rest)[i] is ExitApp;
            if i < first.len() {
                assert(events[0] == CommandEvent::StateResetDone(true));
            } else {
                assert(rest[i - first.len()] == (first + rest)[i]);
                assert(exits(rest));
                let j = choose|j: int| 0 <= j < tail.len() && tail[j] == CommandEvent::StateResetDone(true);
                assert(events[j + 1] == CommandEvent::StateResetDone(true));
            }
        }
    }
}

/// Clearing the lock screen closes the application only once the state file
/// was written back as normal; if that write fails the client stays open.
pub proof fn lemma_unlock_exit_needs_reset(events: Seq<CommandEvent>)
    ensures
        exits(spec_run(AdminCommand::VerifyAndReset, CommandPhase::AwaitingPassword, events).1)
            ==> events.contains(CommandEvent::StateResetDone(true)),
{
    lemma_unlock_exit_needs_reset_from(CommandPhase::AwaitingPassword, events);
}

/// `request_exit` closes the application, and only then does anything but
/// reply, exactly when the configuration read for the call succeeded and the
/// password matches its hash (the built-in one when none is configured); it
/// then also marks the state normal, releases the hook and lifts the
/// restrictions before exiting, and answers `Exiting`.
pub proof fn lemma_request_exit_iff_authorised(config: Result<Config, String>, password: Seq<char>)
    ensures
        ({
            let actions = spec_start_command(AdminCommand::RequestExit, config, password).1;
            let authorised = config matches Ok(cfg) && spec_password_accepted(&cfg, password);
            &&& exits(actions) <==> authorised
            &&& has_effect(actions) <==> authorised
            &&& authorised ==> actions == seq![
                CommandAction::WriteNormalState,
                CommandAction::ReleaseKeyboardHook,
                CommandAction::LiftRestrictions,
                CommandAction::ExitApp,
                CommandAction::Reply(CommandReply::Exiting),
            ]
        }),
{
    let actions = spec_start_command(AdminCommand::RequestExit, config, password).1;
    if config matches Ok(cfg) && spec_password_accepted(&cfg, password) {
        assert(actions[3] is ExitApp);
        assert(!(actions[0] is Reply));
    } else {
        assert(actions.len() == 1 && actions[0] is Reply);
    }
}

/// `verify_and_reset_state`, with the configuration read for the call, answers
/// whether the password matches its hash, and asks for the state to be marked
/// normal (its only effect before the write is reported) exactly then.
pub proof fn lemma_unlock_answers_password(config: Result<Config, String>, password: Seq<char>)
    ensures
        ({
            let (phase, actions) = spec_start_command(AdminCommand::VerifyAndReset, config, password);
            match config {
                Ok(cfg) => if spec_password_accepted(&cfg, password) {
                    phase == CommandPhase::AwaitingStateReset && actions == seq![CommandAction::WriteNormalState]
                } else {
                    phase == CommandPhase::Finished
                        && actions == seq![CommandAction::Reply(CommandReply::Verified(false))]
                },
                Err(e) => phase == CommandPhase::Finished
                    && actions == seq![CommandAction::Reply(CommandReply::ConfigUnreadable(e))],
            }
        }),
{
}

/// A password is accepted exactly when bcrypt, given the whole entered
/// password (every character of it) and the hash in force (the configured
/// one, else the built-in one), reports a match; any other outcome, an
/// unusable hash included, refuses it.
pub proof fn lemma_password_checked_whole(cfg: Config, password: Seq<char>)
    ensures
        spec_password_accepted(&cfg, password) <==> bcrypt_verify_outcome(
            password,
            match cfg.admin_hash {
                Some(h) => h@,
                None => DEFAULT_ADMIN_HASH@,
            },
        ) == Some(true),
        bcrypt_verify_outcome(password, cfg.spec_admin_hash()) is None ==> !spec_password_accepted(&cfg, password),
        bcrypt_verify_outcome(password, cfg.spec_admin_hash()) == Some(false) ==> !spec_password_accepted(&cfg, password),
{
}

/// Two configurations with the same hash in force accept the same passwords,
/// and two passwords that bcrypt judges alike against it are accepted alike.
pub proof fn lemma_acceptance_follows_bcrypt(c1: Config, c2: Config, p1: Seq<char>, p2: Seq<char>)
    requires
        c1.admin_hash == c2.admin_hash,
        bcrypt_verify_outcome(p1, c1.spec_admin_hash()) == bcrypt_verify_outcome(p2, c1.spec_admin_hash()),
    ensures
        spec_password_accepted(&c1, p1) == spec_password_accepted(&c2, p2),
{
}

/// After an accepted password, unlocking asks for the state to be marked
/// normal; then it always answers "verified", and it lifts the restrictions
/// and closes the application exactly when that write succeeded.
pub proof fn lemma_unlock_after_reset(written: bool)
    ensures
        spec_run(
            AdminCommand::VerifyAndReset,
            CommandPhase::AwaitingPassword,
            seq![CommandEvent::PasswordChecked(true), CommandEvent::StateResetDone(written)],
        ) == (CommandPhase::Finished, if written {
            seq![
                CommandAction::WriteNormalState,
                CommandAction::LiftRestrictions,
                CommandAction::ExitApp,
                CommandAction::Reply(CommandReply::Verified(true)),
            ]
        } else {
            seq![CommandAction::WriteNormalState, CommandAction::Reply(CommandReply::Verified(true))]
        }),
{
    let events = seq![CommandEvent::PasswordChecked(true), CommandEvent::StateResetDone(written)];
    assert(events.drop_first() =~= seq![CommandEvent::StateResetDone(written)]);
    assert(events.drop_first().drop_first() =~= seq![]);
    reveal_with_fuel(spec_run, 3);
    let (p1, a1) = spec_step(AdminCommand::VerifyAndReset, CommandPhase::AwaitingPassword, events[0]);
    let (p2, a2) = spec_step(AdminCommand::VerifyAndReset, p1, events[1]);
    assert(spec_run(AdminCommand::VerifyAndReset, p2, events.drop_first().drop_first()) == (p2, Seq::<CommandAction>::empty()));
    assert(a1 + (a2 + Seq::<CommandAction>::empty()) =~= if written {
        seq![
            CommandAction::WriteNormalState,
            CommandAction::LiftRestrictions,
            CommandAction::ExitApp,
            CommandAction::Reply(CommandReply::Verified(true)),
        ]
    } else {
        seq![CommandAction::WriteNormalState, CommandAction::Reply(CommandReply::Verified(true))]
    });
}

} // verus!
