use exam_client::admin::{
    password_accepted, start_command, step, AdminCommand, CommandAction, CommandEvent, CommandPhase, CommandReply,
    EXIT_DENIED_MESSAGE,
};
use exam_client::config::{Config, DEFAULT_ADMIN_HASH};

fn config_with_hash(hash: Option<&str>) -> Config {
    let mut cfg = Config::default();
    cfg.admin_hash = hash.map(|h| h.to_string());
    cfg
}

#[test]
fn default_hash_accepts_the_documented_password() {
    let cfg = Config::default();
    assert!(password_accepted(&cfg, "admin888"));
    assert!(!password_accepted(&cfg, "admin889"));
    assert!(!password_accepted(&cfg, ""));
}

#[test]
fn missing_hash_falls_back_to_built_in() {
    let cfg = config_with_hash(None);
    assert_eq!(cfg.admin_hash(), DEFAULT_ADMIN_HASH);
    assert!(password_accepted(&cfg, "admin888"));
}

#[test]
fn configured_hash_is_used() {
    let hash = bcrypt::hash_with_salt("secret", 4, [5u8; 16]).unwrap().format_for_version(bcrypt::Version::TwoY);
    let cfg = config_with_hash(Some(&hash));
    assert_eq!(cfg.admin_hash(), hash);
    assert!(password_accepted(&cfg, "secret"));
    assert!(!password_accepted(&cfg, "admin888"));
}

#[test]
fn malformed_hash_accepts_nothing() {
    for h in ["", "plaintext-password", "$2y$12$short"] {
        let cfg = config_with_hash(Some(h));
        assert!(!password_accepted(&cfg, h));
        assert!(!password_accepted(&cfg, "admin888"));
    }
}

#[test]
fn request_exit_with_right_password() {
    let (phase, actions) = step(&AdminCommand::RequestExit, &CommandPhase::AwaitingPassword, &CommandEvent::PasswordChecked(true));
    assert_eq!(phase, CommandPhase::Finished);
    assert_eq!(
        actions,
        vec![
            CommandAction::WriteNormalState,
            CommandAction::ReleaseKeyboardHook,
            CommandAction::LiftRestrictions,
            CommandAction::ExitApp,
            CommandAction::Reply(CommandReply::Exiting),
        ]
    );
}

#[test]
fn request_exit_with_wrong_password() {
    let (phase, actions) = step(&AdminCommand::RequestExit, &CommandPhase::AwaitingPassword, &CommandEvent::PasswordChecked(false));
    assert_eq!(phase, CommandPhase::Finished);
    assert_eq!(actions, vec![CommandAction::Reply(CommandReply::Denied)]);
    assert_eq!(EXIT_DENIED_MESSAGE, "授权码验证失败");
}

#[test]
fn unlock_with_right_password_and_successful_reset() {
    let cmd = AdminCommand::VerifyAndReset;
    let (phase, actions) = step(&cmd, &CommandPhase::AwaitingPassword, &CommandEvent::PasswordChecked(true));
    assert_eq!(phase, CommandPhase::AwaitingStateReset);
    assert_eq!(actions, vec![CommandAction::WriteNormalState]);
    let (phase, actions) = step(&cmd, &phase, &CommandEvent::StateResetDone(true));
    assert_eq!(phase, CommandPhase::Finished);
    assert_eq!(
        actions,
        vec![CommandAction::LiftRestrictions, CommandAction::ExitApp, CommandAction::Reply(CommandReply::Verified(true))]
    );
}

#[test]
fn unlock_with_failed_reset_still_answers_true_but_stays_open() {
    let cmd = AdminCommand::VerifyAndReset;
    let (phase, _) = step(&cmd, &CommandPhase::AwaitingPassword, &CommandEvent::PasswordChecked(true));
    let (phase, actions) = step(&cmd, &phase, &CommandEvent::StateResetDone(false));
    assert_eq!(phase, CommandPhase::Finished);
    assert_eq!(actions, vec![CommandAction::Reply(CommandReply::Verified(true))]);
}

#[test]
fn unlock_with_wrong_password() {
    let (phase, actions) = step(&AdminCommand::VerifyAndReset, &CommandPhase::AwaitingPassword, &CommandEvent::PasswordChecked(false));
    assert_eq!(phase, CommandPhase::Finished);
    assert_eq!(actions, vec![CommandAction::Reply(CommandReply::Verified(false))]);
}

#[test]
fn out_of_order_events_change_nothing() {
    for cmd in [AdminCommand::RequestExit, AdminCommand::VerifyAndReset] {
        let (p, a) = step(&cmd, &CommandPhase::AwaitingPassword, &CommandEvent::StateResetDone(true));
        assert_eq!((p, a.len()), (CommandPhase::AwaitingPassword, 0));
        let (p, a) = step(&cmd, &CommandPhase::Finished, &CommandEvent::PasswordChecked(true));
        assert_eq!((p, a.len()), (CommandPhase::Finished, 0));
    }
    let (p, a) = step(&AdminCommand::RequestExit, &CommandPhase::AwaitingStateReset, &CommandEvent::StateResetDone(true));
    assert_eq!((p, a.len()), (CommandPhase::AwaitingStateReset, 0));
}

#[test]
fn command_fails_when_config_is_unreadable() {
    for cmd in [AdminCommand::RequestExit, AdminCommand::VerifyAndReset] {
        let (phase, actions) = start_command(&cmd, Err("bad json".to_string()), "admin888");
        assert_eq!(phase, CommandPhase::Finished);
        assert_eq!(actions, vec![CommandAction::Reply(CommandReply::ConfigUnreadable("bad json".to_string()))]);
    }
}

#[test]
fn request_exit_checks_the_password_against_the_read_config() {
    let (phase, actions) = start_command(&AdminCommand::RequestExit, Ok(Config::default()), "admin888");
    assert_eq!(phase, CommandPhase::Finished);
    assert_eq!(actions.len(), 5);
    assert_eq!(actions[3], CommandAction::ExitApp);
    let (_, actions) = start_command(&AdminCommand::RequestExit, Ok(Config::default()), "wrong");
    assert_eq!(actions, vec![CommandAction::Reply(CommandReply::Denied)]);
    let other = config_with_hash(Some("not-a-hash"));
    let (_, actions) = start_command(&AdminCommand::RequestExit, Ok(other), "admin888");
    assert_eq!(actions, vec![CommandAction::Reply(CommandReply::Denied)]);
}

#[test]
fn unlock_starts_with_state_write_only_for_the_right_password() {
    let (phase, actions) = start_command(&AdminCommand::VerifyAndReset, Ok(Config::default()), "admin888");
    assert_eq!(phase, CommandPhase::AwaitingStateReset);
    assert_eq!(actions, vec![CommandAction::WriteNormalState]);
    let (phase, actions) = start_command(&AdminCommand::VerifyAndReset, Ok(Config::default()), "admin");
    assert_eq!(phase, CommandPhase::Finished);
    assert_eq!(actions, vec![CommandAction::Reply(CommandReply::Verified(false))]);
}
