use exam_client::config::{flag_enabled, Config, DEFAULT_ADMIN_HASH};
use exam_client::keyboard::{
    alt_down, key_held, KeyBlockSettings, HC_ACTION, LLKHF_ALTDOWN, VK_CONTROL, VK_ESCAPE, VK_F4,
    VK_LWIN, VK_RWIN, VK_TAB,
};
use exam_client::search::{first_found, search_order, SearchDir, CONFIG_FILE_NAME, SRC_TAURI_DIR, STATE_FILE_NAME};
use exam_client::state::{state_check_verdict, StateFile, StateFileProbe};
use exam_client::startup::{
    config_registry_writes, exam_page, plan_startup, restriction_writes, RegistryWrite, POLICY_KEY_PATH,
};

fn bare_config() -> Config {
    Config {
        exam_url: None,
        fullscreen: None,
        always_on_top: None,
        disable_taskmgr: None,
        disable_lockworkstation: None,
        disable_change_password: None,
        block_win_keys: None,
        block_alt_tab: None,
        block_alt_f4: None,
        block_ctrl_esc: None,
        enable_state_check: None,
        admin_hash: None,
    }
}

fn write(name: &str, value: u32) -> RegistryWrite {
    RegistryWrite { name: name.to_string(), value }
}

#[test]
fn default_config_turns_everything_on() {
    let c = Config::default();
    assert_eq!(c.exam_url, None);
    for f in [
        c.fullscreen, c.always_on_top, c.disable_taskmgr, c.disable_lockworkstation, c.disable_change_password,
        c.block_win_keys, c.block_alt_tab, c.block_alt_f4, c.block_ctrl_esc, c.enable_state_check,
    ] {
        assert_eq!(f, Some(true));
    }
    assert_eq!(c.admin_hash.as_deref(), Some(DEFAULT_ADMIN_HASH));
    assert!(c.state_check_enabled());
}

#[test]
fn unset_switches_are_off() {
    assert!(!flag_enabled(None));
    assert!(!flag_enabled(Some(false)));
    assert!(flag_enabled(Some(true)));
    assert!(!bare_config().state_check_enabled());
}

#[test]
fn virtual_key_codes_match_windows() {
    assert_eq!(VK_TAB, windows_sys::Win32::UI::Input::KeyboardAndMouse::VK_TAB as u32);
    assert_eq!(VK_CONTROL, windows_sys::Win32::UI::Input::KeyboardAndMouse::VK_CONTROL as u32);
    assert_eq!(VK_ESCAPE, windows_sys::Win32::UI::Input::KeyboardAndMouse::VK_ESCAPE as u32);
    assert_eq!(VK_LWIN, windows_sys::Win32::UI::Input::KeyboardAndMouse::VK_LWIN as u32);
    assert_eq!(VK_RWIN, windows_sys::Win32::UI::Input::KeyboardAndMouse::VK_RWIN as u32);
    assert_eq!(VK_F4, windows_sys::Win32::UI::Input::KeyboardAndMouse::VK_F4 as u32);
    assert_eq!(HC_ACTION, windows_sys::Win32::UI::WindowsAndMessaging::HC_ACTION as i32);
    assert_eq!(LLKHF_ALTDOWN, windows_sys::Win32::UI::WindowsAndMessaging::LLKHF_ALTDOWN as u32);
}

#[test]
fn key_state_bits() {
    assert!(key_held(i16::MIN));
    assert!(key_held(-1));
    assert!(!key_held(0));
    assert!(!key_held(1));
    assert!(!key_held(i16::MAX));
    assert!(alt_down(0x20));
    assert!(alt_down(0x21));
    assert!(!alt_down(0x10));
}

#[test]
fn hook_blocks_configured_keys() {
    let all = KeyBlockSettings { block_win_keys: true, block_alt_tab: true, block_alt_f4: true, block_ctrl_esc: true };
    assert!(all.swallows(0, VK_LWIN, 0, false));
    assert!(all.swallows(0, VK_RWIN, 0x80, false));
    assert!(all.swallows(0, VK_TAB, 0x20, false));
    assert!(!all.swallows(0, VK_TAB, 0, false));
    assert!(all.swallows(0, VK_F4, 0x20, false));
    assert!(!all.swallows(0, VK_F4, 0, true));
    assert!(all.swallows(0, VK_ESCAPE, 0, true));
    assert!(!all.swallows(0, VK_ESCAPE, 0x20, false));
    assert!(!all.swallows(0, 0x41, 0x20, true));
    assert!(!all.swallows(1, VK_LWIN, 0, false));
    assert!(!all.swallows(-1, VK_LWIN, 0, false));
}

#[test]
fn hook_respects_each_rule() {
    let none = KeyBlockSettings { block_win_keys: false, block_alt_tab: false, block_alt_f4: false, block_ctrl_esc: false };
    assert!(!none.any());
    for (vk, flags, ctrl) in [(VK_LWIN, 0, false), (VK_TAB, 0x20, false), (VK_F4, 0x20, false), (VK_ESCAPE, 0, true)] {
        assert!(!none.swallows(0, vk, flags, ctrl));
    }
    let only_tab = KeyBlockSettings { block_alt_tab: true, ..none };
    assert!(only_tab.any());
    assert!(only_tab.swallows(0, VK_TAB, 0x20, false));
    assert!(!only_tab.swallows(0, VK_F4, 0x20, false));
    assert!(!only_tab.swallows(0, VK_LWIN, 0, false));
}

#[test]
fn key_rules_from_config() {
    let mut cfg = bare_config();
    cfg.block_win_keys = Some(true);
    cfg.block_alt_f4 = Some(false);
    let k = KeyBlockSettings::from_config(&cfg);
    assert_eq!(k, KeyBlockSettings { block_win_keys: true, block_alt_tab: false, block_alt_f4: false, block_ctrl_esc: false });
}

#[test]
fn registry_writes_follow_config() {
    assert_eq!(POLICY_KEY_PATH, "Software\\Microsoft\\Windows\\CurrentVersion\\Policies\\System");
    assert!(config_registry_writes(&bare_config()).is_empty());
    let mut cfg = bare_config();
    cfg.disable_taskmgr = Some(false);
    cfg.disable_change_password = Some(true);
    assert_eq!(config_registry_writes(&cfg), vec![write("DisableTaskMgr", 0), write("DisableChangePassword", 1)]);
    assert_eq!(
        config_registry_writes(&Config::default()),
        vec![write("DisableTaskMgr", 1), write("DisableLockWorkstation", 1), write("DisableChangePassword", 1)]
    );
}

#[test]
fn restriction_toggle_writes_all_three() {
    assert_eq!(
        restriction_writes(true),
        vec![write("DisableTaskMgr", 1), write("DisableLockWorkstation", 1), write("DisableChangePassword", 1)]
    );
    assert_eq!(
        restriction_writes(false),
        vec![write("DisableTaskMgr", 0), write("DisableLockWorkstation", 0), write("DisableChangePassword", 0)]
    );
}

#[test]
fn exam_page_needs_a_valid_url() {
    let mut cfg = bare_config();
    assert_eq!(exam_page(&cfg), "empty.html");
    cfg.exam_url = Some("https://example.com/exam".to_string());
    assert_eq!(exam_page(&cfg), "index.html");
    cfg.exam_url = Some("example.com/exam".to_string());
    assert_eq!(exam_page(&cfg), "empty.html");
    cfg.exam_url = Some(String::new());
    assert_eq!(exam_page(&cfg), "empty.html");
}

#[test]
fn startup_locks_after_abnormal_exit() {
    let cfg = Config::default();
    for check in [Some(Ok(false)), Some(Err("io".to_string())), None] {
        let plan = plan_startup(&cfg, check);
        assert!(plan.locked);
        assert!(!plan.mark_abnormal);
        assert_eq!(plan.window.label, "lock");
        assert_eq!(plan.window.page, "lock.html");
        assert_eq!(plan.window.title, "系统锁定");
        assert_eq!(plan.window.fullscreen, Some(true));
        assert_eq!(plan.window.always_on_top, Some(true));
        assert!(!plan.window.overlay_script);
        assert!(plan.registry_writes.is_empty());
        assert!(plan.keyboard_hook.is_none());
    }
    let mut quiet = Config::default();
    quiet.fullscreen = None;
    quiet.always_on_top = Some(false);
    let plan = plan_startup(&quiet, Some(Ok(false)));
    assert_eq!(plan.window.fullscreen, Some(false));
    assert_eq!(plan.window.always_on_top, Some(false));
}

#[test]
fn startup_after_normal_exit_marks_abnormal_and_opens_exam() {
    let mut cfg = Config::default();
    cfg.exam_url = Some("https://example.com/exam".to_string());
    let plan = plan_startup(&cfg, Some(Ok(true)));
    assert!(!plan.locked);
    assert!(plan.mark_abnormal);
    assert_eq!(plan.window.label, "main");
    assert_eq!(plan.window.page, "index.html");
    assert_eq!(plan.window.title, "考试客户端");
    assert!(plan.window.overlay_script);
    assert_eq!(plan.registry_writes.len(), 3);
    assert_eq!(
        plan.keyboard_hook,
        Some(KeyBlockSettings { block_win_keys: true, block_alt_tab: true, block_alt_f4: true, block_ctrl_esc: true })
    );
}

#[test]
fn startup_without_state_check() {
    let cfg = bare_config();
    let plan = plan_startup(&cfg, None);
    assert!(!plan.locked);
    assert!(!plan.mark_abnormal);
    assert_eq!(plan.window.page, "empty.html");
    assert_eq!(plan.window.fullscreen, None);
    assert_eq!(plan.window.always_on_top, None);
    assert!(plan.registry_writes.is_empty());
    assert!(plan.keyboard_hook.is_none());
    let plan = plan_startup(&cfg, Some(Ok(false)));
    assert!(!plan.locked);
}

#[test]
fn search_locations() {
    assert_eq!(
        search_order(),
        vec![SearchDir::WorkingDir, SearchDir::ExeDir, SearchDir::ExeParentDir, SearchDir::WorkingDirSrcTauri]
    );
    assert_eq!(CONFIG_FILE_NAME, "exam_config.json");
    assert_eq!(STATE_FILE_NAME, ".exam_state");
    assert_eq!(SRC_TAURI_DIR, "src-tauri");
    assert_eq!(first_found(&vec![]), None);
    assert_eq!(first_found(&vec![None, Some(false), None, Some(false)]), None);
    assert_eq!(first_found(&vec![None, Some(true), Some(true), None]), Some(1));
    assert_eq!(first_found(&vec![Some(true), Some(true)]), Some(0));
    assert_eq!(first_found(&vec![Some(false), None, None, Some(true)]), Some(3));
}

#[test]
fn killed_client_restarts_locked_and_exited_client_does_not() {
    let cfg = Config::default();
    let after_kill = state_check_verdict(StateFileProbe::Decoded(StateFile::abnormal()));
    assert!(plan_startup(&cfg, Some(after_kill)).locked);
    let after_exit = state_check_verdict(StateFileProbe::Decoded(StateFile::normal()));
    assert!(!plan_startup(&cfg, Some(after_exit)).locked);
}
