//! What the client does at start-up: lock the screen after an abnormal exit,
//! or open the exam window, write the system restrictions and install the
//! keyboard hook.
use crate::config::{flag_enabled, flag_or_off, Config};
use crate::keyboard::KeyBlockSettings;
use crate::state::{spec_state_verdict, StateFile, StateFileProbe, ABNORMAL_STATUS, NORMAL_STATUS};
use vstd::prelude::*;
use vstd::string::StringExecFns;

verus! {

/// The registry key, under the current user, that holds the system policies.
pub const POLICY_KEY_PATH: &'static str = "Software\\Microsoft\\Windows\\CurrentVersion\\Policies\\System";
/// Policy value that disables the task manager.
pub const DISABLE_TASK_MGR: &'static str = "DisableTaskMgr";
/// Policy value that disables locking the workstation.
pub const DISABLE_LOCK_WORKSTATION: &'static str = "DisableLockWorkstation";
/// Policy value that disables changing the password.
pub const DISABLE_CHANGE_PASSWORD: &'static str = "DisableChangePassword";

/// A DWORD to write under `POLICY_KEY_PATH`.
#[derive(Debug, PartialEq, Eq)]
pub struct RegistryWrite {
    pub name: String,
    pub value: u32,
}

impl View for RegistryWrite {
    type V = (Seq<char>, u32);

    open spec fn view(&self) -> (Seq<char>, u32) {
        (self.name@, self.value)
    }
}

/// The DWORD a policy switch is written as.
pub open spec fn policy_value(on: bool) -> u32 {
    if on { 1 } else { 0 }
}

/// The views of a list of registry writes.
pub open spec fn writes_view(ws: Seq<RegistryWrite>) -> Seq<(Seq<char>, u32)> {
    ws.map_values(|w: RegistryWrite| w@)
}

/// The write of a policy switch that the configuration sets; none if unset.
pub open spec fn optional_write(name: Seq<char>, flag: Option<bool>) -> Seq<(Seq<char>, u32)> {
    match flag {
        Some(on) => seq![(name, policy_value(on))],
        None => seq![],
    }
}

/// The policy writes that a configuration asks for, in the order they are made.
pub open spec fn spec_config_writes(cfg: &Config) -> Seq<(Seq<char>, u32)> {
    optional_write(DISABLE_TASK_MGR@, cfg.disable_taskmgr)
        + optional_write(DISABLE_LOCK_WORKSTATION@, cfg.disable_lockworkstation)
        + optional_write(DISABLE_CHANGE_PASSWORD@, cfg.disable_change_password)
}

fn policy_write(name: &str, on: bool) -> (r: RegistryWrite)
    ensures
        r@ == (name@, policy_value(on)),
{
    RegistryWrite { name: String::from_str(name), value: if on { 1 } else { 0 } }
}

fn push_optional_write(writes: &mut Vec<RegistryWrite>, name: &str, flag: Option<bool>)
    ensures
        writes_view(final(writes)@) == writes_view(old(writes)@) + optional_write(name@, flag),
{
    match flag {
        Some(on) => {
            writes.push(policy_write(name, on));
            assert(writes_view(writes@) =~= writes_view(old(writes)@) + seq![(name@, policy_value(on))]);
        },
        None => {
            assert(writes_view(writes@) =~= writes_view(old(writes)@) + seq![]);
        },
    }
}

/// The policy writes a configuration asks for: each switch it sets, as 1 or 0.
pub fn config_registry_writes(cfg: &Config) -> (r: Vec<RegistryWrite>)
    ensures
        writes_view(r@) == spec_config_writes(cfg),
        r@.len() == spec_config_writes(cfg).len(),
{
    let mut writes: Vec<RegistryWrite> = Vec::new();
    assert(writes_view(writes@) =~= seq![]);
    push_optional_write(&mut writes, DISABLE_TASK_MGR, cfg.disable_taskmgr);
    push_optional_write(&mut writes, DISABLE_LOCK_WORKSTATION, cfg.disable_lockworkstation);
    push_optional_write(&mut writes, DISABLE_CHANGE_PASSWORD, cfg.disable_change_password);
    assert(spec_config_writes(cfg) =~= seq![] + optional_write(DISABLE_TASK_MGR@, cfg.disable_taskmgr)
        + optional_write(DISABLE_LOCK_WORKSTATION@, cfg.disable_lockworkstation)
        + optional_write(DISABLE_CHANGE_PASSWORD@, cfg.disable_change_password));
    writes
}

/// The three writes that turn all system restrictions on or off at once.
pub open spec fn spec_restriction_writes(disable: bool) -> Seq<(Seq<char>, u32)> {
    seq![
        (DISABLE_TASK_MGR@, policy_value(disable)),
        (DISABLE_LOCK_WORKSTATION@, policy_value(disable)),
        (DISABLE_CHANGE_PASSWORD@, policy_value(disable)),
    ]
}

/// The policy values under `POLICY_KEY_PATH` after making the given writes in
/// order: each write sets its value, replacing what was there.
pub open spec fn apply_writes(policies: Map<Seq<char>, u32>, writes: Seq<(Seq<char>, u32)>) -> Map<Seq<char>, u32>
    decreases writes.len(),
{
    if writes.len() == 0 {
        policies
    } else {
        apply_writes(policies.insert(writes[0].0, writes[0].1), writes.drop_first())
    }
}

/// The writes that turn all three system restrictions on or off at once.
pub fn restriction_writes(disable: bool) -> (r: Vec<RegistryWrite>)
    ensures
        writes_view(r@) == spec_restriction_writes(disable),
        r@.len() == 3,
{
    let r = vec![
        policy_write(DISABLE_TASK_MGR, disable),
        policy_write(DISABLE_LOCK_WORKSTATION, disable),
        policy_write(DISABLE_CHANGE_PASSWORD, disable),
    ];
    assert(writes_view(r@) =~= seq![
        (DISABLE_TASK_MGR@, policy_value(disable)),
        (DISABLE_LOCK_WORKSTATION@, policy_value(disable)),
        (DISABLE_CHANGE_PASSWORD@, policy_value(disable)),
    ]);
    r
}

/// Whether `url::Url::parse` accepts the text as an absolute URL.
pub uninterp spec fn url_parses(input: Seq<char>) -> bool;

/// Calls `url::Url::parse` (re-exported by Tauri as `tauri::Url`) and reports
/// whether it succeeded. Trusted: the answer is `url_parses` of the text.
#[verifier::external_body]
fn url_is_valid(input: &str) -> (r: bool)
    ensures
        r == url_parses(input@),
{
    url::Url::parse(input).is_ok()
}

/// Page of the exam window when the configured exam address is a valid URL.
pub const EXAM_PAGE: &'static str = "index.html";
/// Page of the exam window when no valid exam address is configured.
pub const EMPTY_PAGE: &'static str = "empty.html";
/// Page of the lock window.
pub const LOCK_PAGE: &'static str = "lock.html";
/// Label and title of the exam window.
pub const MAIN_LABEL: &'static str = "main";
pub const MAIN_TITLE: &'static str = "考试客户端";
/// Label and title of the lock window.
pub const LOCK_LABEL: &'static str = "lock";
pub const LOCK_TITLE: &'static str = "系统锁定";

/// The page the exam window opens: the exam page when the configured address
/// is a valid URL, the empty page otherwise.
pub open spec fn spec_exam_page(cfg: &Config) -> Seq<char> {
    if cfg.exam_url matches Some(u) && url_parses(u@) {
        EXAM_PAGE@
    } else {
        EMPTY_PAGE@
    }
}

/// The page the exam window opens.
pub fn exam_page(cfg: &Config) -> (r: &'static str)
    ensures
        r@ == spec_exam_page(cfg),
{
    match &cfg.exam_url {
        Some(u) => if url_is_valid(u.as_str()) { EXAM_PAGE } else { EMPTY_PAGE },
        None => EMPTY_PAGE,
    }
}

/// A borderless window to open. `None` leaves a setting at the window's default.
#[derive(Debug, PartialEq, Eq)]
pub struct WindowPlan {
    pub label: String,
    pub page: String,
    pub title: String,
    pub fullscreen: Option<bool>,
    pub always_on_top: Option<bool>,
    /// Whether the page gets the injected navigation overlay script.
    pub overlay_script: bool,
}

/// The lock window: full screen and on top only where the configuration says so.
pub open spec fn is_lock_window(w: &WindowPlan, cfg: &Config) -> bool {
    &&& w.label@ == LOCK_LABEL@
    &&& w.page@ == LOCK_PAGE@
    &&& w.title@ == LOCK_TITLE@
    &&& w.fullscreen == Some(flag_or_off(cfg.fullscreen))
    &&& w.always_on_top == Some(flag_or_off(cfg.always_on_top))
    &&& !w.overlay_script
}

/// The exam window: the settings the configuration gives, the overlay script.
pub open spec fn is_exam_window(w: &WindowPlan, cfg: &Config) -> bool {
    &&& w.label@ == MAIN_LABEL@
    &&& w.page@ == spec_exam_page(cfg)
    &&& w.title@ == MAIN_TITLE@
    &&& w.fullscreen == cfg.fullscreen
    &&& w.always_on_top == cfg.always_on_top
    &&& w.overlay_script
}

/// The window shown after an abnormal exit, until the administrator unlocks.
pub fn lock_window(cfg: &Config) -> (r: WindowPlan)
    ensures
        is_lock_window(&r, cfg),
{
    WindowPlan {
        label: String::from_str(LOCK_LABEL),
        page: String::from_str(LOCK_PAGE),
        title: String::from_str(LOCK_TITLE),
        fullscreen: Some(flag_enabled(cfg.fullscreen)),
        always_on_top: Some(flag_enabled(cfg.always_on_top)),
        overlay_script: false,
    }
}

/// The exam window.
pub fn exam_window(cfg: &Config) -> (r: WindowPlan)
    ensures
        is_exam_window(&r, cfg),
{
    WindowPlan {
        label: String::from_str(MAIN_LABEL),
        page: String::from_str(exam_page(cfg)),
        title: String::from_str(MAIN_TITLE),
        fullscreen: cfg.fullscreen,
        always_on_top: cfg.always_on_top,
        overlay_script: true,
    }
}

/// Everything start-up does once the state file was checked.
#[derive(Debug)]
pub struct StartupPlan {
    /// Whether the lock screen is shown instead of the exam.
    pub locked: bool,
    /// Whether the state file is now written as abnormal, to be cleared only
    /// by an authorised exit.
    pub mark_abnormal: bool,
    pub window: WindowPlan,
    pub registry_writes: Vec<RegistryWrite>,
    /// The keyboard rules to install a hook for; `None` installs no hook.
    pub keyboard_hook: Option<KeyBlockSettings>,
}

/// Whether the last run counts as ended by an authorised exit: the state file
/// was checked and found normal.
pub open spec fn check_passed(state_check: Option<Result<bool, String>>) -> bool {
    state_check matches Some(Ok(true))
}

/// Whether start-up shows the lock screen: the state check is on and did not
/// find a normal state.
pub open spec fn spec_startup_locked(cfg: &Config, state_check: Option<Result<bool, String>>) -> bool {
    flag_or_off(cfg.enable_state_check) && !check_passed(state_check)
}

/// Plans start-up from the configuration and the outcome of the state check
/// (`None` when it was not run; the check runs exactly when the configuration
/// enables it, and an enabled check that did not run counts as failed).
/// Locked: only the lock window. Otherwise: the exam window, the policy writes
/// of the configuration, and a keyboard hook when any key rule is on.
pub fn plan_startup(cfg: &Config, state_check: Option<Result<bool, String>>) -> (r: StartupPlan)
    ensures
        r.locked == spec_startup_locked(cfg, state_check),
        r.mark_abnormal == (flag_or_off(cfg.enable_state_check) && check_passed(state_check)),
        r.locked ==> is_lock_window(&r.window, cfg) && r.registry_writes@.len() == 0
            && r.keyboard_hook is None,
        !r.locked ==> is_exam_window(&r.window, cfg)
            && writes_view(r.registry_writes@) == spec_config_writes(cfg),
        !r.locked ==> match r.keyboard_hook {
            Some(k) => k.spec_any()
                && k.block_win_keys == flag_or_off(cfg.block_win_keys)
                && k.block_alt_tab == flag_or_off(cfg.block_alt_tab)
                && k.block_alt_f4 == flag_or_off(cfg.block_alt_f4)
                && k.block_ctrl_esc == flag_or_off(cfg.block_ctrl_esc),
            None => !flag_or_off(cfg.block_win_keys) && !flag_or_off(cfg.block_alt_tab)
                && !flag_or_off(cfg.block_alt_f4) && !flag_or_off(cfg.block_ctrl_esc),
        },
{
    let checking = cfg.state_check_enabled();
    let passed = match state_check {
        Some(Ok(normal)) => normal,
        _ => false,
    };
    if checking && !passed {
        return StartupPlan {
            locked: true,
            mark_abnormal: false,
            window: lock_window(cfg),
            registry_writes: Vec::new(),
            keyboard_hook: None,
        };
    }
    let keys = KeyBlockSettings::from_config(cfg);
    let keyboard_hook = if keys.any() { Some(keys) } else { None };
    StartupPlan {
        locked: false,
        mark_abnormal: checking,
        window: exam_window(cfg),
        registry_writes: config_registry_writes(cfg),
        keyboard_hook,
    }
}

/// With the state check on, start-up shows the exam only when the state file
/// was read, decoded, and records an authorised exit; a missing, unreadable,
/// undecodable or abnormal state file locks the screen. With the check off,
/// start-up never locks.
pub proof fn lemma_lock_unless_authorised_exit(cfg: Config, probe: StateFileProbe, state_check: Option<Result<bool, String>>)
    ensures
        flag_or_off(cfg.enable_state_check) ==> (
            !spec_startup_locked(&cfg, Some(spec_state_verdict(probe)))
                <==> (probe matches StateFileProbe::Decoded(s) && s.spec_is_normal())),
        !flag_or_off(cfg.enable_state_check) ==> !spec_startup_locked(&cfg, state_check),
{
}

/// With the state check on, a client that was killed after start-up (its
/// state file still holds the abnormal state written then) restarts locked,
/// and one that left through an authorised exit (normal state) restarts the exam.
pub proof fn lemma_killed_client_restarts_locked(cfg: Config, left_behind: StateFile)
    requires
        flag_or_off(cfg.enable_state_check),
    ensures
        left_behind.status@ == ABNORMAL_STATUS@ ==> spec_startup_locked(
            &cfg,
            Some(spec_state_verdict(StateFileProbe::Decoded(left_behind))),
        ),
        left_behind.status@ == NORMAL_STATUS@ ==> !spec_startup_locked(
            &cfg,
            Some(spec_state_verdict(StateFileProbe::Decoded(left_behind))),
        ),
{
    reveal_strlit("normal");
    reveal_strlit("abnormal");
    assert(NORMAL_STATUS@.len() != ABNORMAL_STATUS@.len());
}

proof fn lemma_apply_restriction_writes(policies: Map<Seq<char>, u32>, disable: bool)
    ensures
        apply_writes(policies, spec_restriction_writes(disable)) == policies
            .insert(DISABLE_TASK_MGR@, policy_value(disable))
            .insert(DISABLE_LOCK_WORKSTATION@, policy_value(disable))
            .insert(DISABLE_CHANGE_PASSWORD@, policy_value(disable)),
{
    let w = spec_restriction_writes(disable);
    assert(w.drop_first().drop_first().drop_first() =~= seq![]);
    assert(w.drop_first()[0] == w[1]);
    assert(w.drop_first().drop_first()[0] == w[2]);
    reveal_with_fuel(apply_writes, 4);
}

/// Toggling the restrictions twice leaves the policies as the last toggle
/// alone would: the last call wins, and repeating a toggle changes nothing.
pub proof fn lemma_last_toggle_wins(policies: Map<Seq<char>, u32>, first: bool, second: bool)
    ensures
        apply_writes(apply_writes(policies, spec_restriction_writes(first)), spec_restriction_writes(second))
            == apply_writes(policies, spec_restriction_writes(second)),
        apply_writes(apply_writes(policies, spec_restriction_writes(second)), spec_restriction_writes(second))
            == apply_writes(policies, spec_restriction_writes(second)),
{
    lemma_apply_restriction_writes(policies, first);
    lemma_apply_restriction_writes(policies, second);
    lemma_apply_restriction_writes(apply_writes(policies, spec_restriction_writes(first)), second);
    lemma_apply_restriction_writes(apply_writes(policies, spec_restriction_writes(second)), second);
    assert(apply_writes(apply_writes(policies, spec_restriction_writes(first)), spec_restriction_writes(second))
        =~= apply_writes(policies, spec_restriction_writes(second)));
    assert(apply_writes(apply_writes(policies, spec_restriction_writes(second)), spec_restriction_writes(second))
        =~= apply_writes(policies, spec_restriction_writes(second)));
}

/// For each policy switch the configuration sets to `Some(b)`, the writes hold
/// one write of that policy, with value 1 when `b` and 0 otherwise; a switch
/// left unset is not written at all; nothing else is written.
pub proof fn lemma_config_writes_follow_switches(cfg: Config)
    ensures
        ({
            let ws = spec_config_writes(&cfg);
            let n = |f: Option<bool>| -> int { if f is Some { 1 } else { 0 } };
            &&& ws.len() == n(cfg.disable_taskmgr) + n(cfg.disable_lockworkstation) + n(cfg.disable_change_password)
            &&& forall|i: int| 0 <= i < ws.len() ==> {
                ||| ws[i] == (DISABLE_TASK_MGR@, if cfg.disable_taskmgr == Some(true) { 1u32 } else { 0u32 })
                    && cfg.disable_taskmgr is Some
                ||| ws[i] == (DISABLE_LOCK_WORKSTATION@, if cfg.disable_lockworkstation == Some(true) { 1u32 } else { 0u32 })
                    && cfg.disable_lockworkstation is Some
                ||| ws[i] == (DISABLE_CHANGE_PASSWORD@, if cfg.disable_change_password == Some(true) { 1u32 } else { 0u32 })
                    && cfg.disable_change_password is Some
            }
            &&& cfg.disable_taskmgr matches Some(b)
                ==> ws.contains((DISABLE_TASK_MGR@, if b { 1u32 } else { 0u32 }))
            &&& cfg.disable_lockworkstation matches Some(b)
                ==> ws.contains((DISABLE_LOCK_WORKSTATION@, if b { 1u32 } else { 0u32 }))
            &&& cfg.disable_change_password matches Some(b)
                ==> ws.contains((DISABLE_CHANGE_PASSWORD@, if b { 1u32 } else { 0u32 }))
        }),
{
    let ws = spec_config_writes(&cfg);
    let a = optional_write(DISABLE_TASK_MGR@, cfg.disable_taskmgr);
    let b = optional_write(DISABLE_LOCK_WORKSTATION@, cfg.disable_lockworkstation);
    let c = optional_write(DISABLE_CHANGE_PASSWORD@, cfg.disable_change_password);
    assert(ws == a + b + c);
    assert forall|i: int| 0 <= i < ws.len() implies {
        ||| ws[i] == (DISABLE_TASK_MGR@, if cfg.disable_taskmgr == Some(true) { 1u32 } else { 0u32 })
            && cfg.disable_taskmgr is Some
        ||| ws[i] == (DISABLE_LOCK_WORKSTATION@, if cfg.disable_lockworkstation == Some(true) { 1u32 } else { 0u32 })
            && cfg.disable_lockworkstation is Some
        ||| ws[i] == (DISABLE_CHANGE_PASSWORD@, if cfg.disable_change_password == Some(true) { 1u32 } else { 0u32 })
            && cfg.disable_change_password is Some
    } by {
        if i < a.len() {
            assert(ws[i] == a[i]);
        } else if i < a.len() + b.len() {
            assert(ws[i] == b[i - a.len()]);
        } else {
            assert(ws[i] == c[i - a.len() - b.len()]);
        }
    }
    if cfg.disable_taskmgr is Some {
        assert(ws[0] == a[0]);
    }
    if cfg.disable_lockworkstation is Some {
        assert(ws[a.len() as int] == b[0]);
    }
    if cfg.disable_change_password is Some {
        assert(ws[(a.len() + b.len()) as int] == c[0]);
    }
}

/// A toggle writes every one of the three policies, all with the same value:
/// 1 when disabling, 0 when lifting.
pub proof fn lemma_toggle_writes_all_three(disable: bool)
    ensures
        ({
            let ws = spec_restriction_writes(disable);
            let v: u32 = if disable { 1 } else { 0 };
            &&& ws.len() == 3
            &&& forall|i: int| 0 <= i < 3 ==> (#[trigger] ws[i]).1 == v
            &&& ws.contains((DISABLE_TASK_MGR@, v))
            &&& ws.contains((DISABLE_LOCK_WORKSTATION@, v))
            &&& ws.contains((DISABLE_CHANGE_PASSWORD@, v))
        }),
{
    let ws = spec_restriction_writes(disable);
    assert(ws[0] == (DISABLE_TASK_MGR@, policy_value(disable)));
    assert(ws[1] == (DISABLE_LOCK_WORKSTATION@, policy_value(disable)));
    assert(ws[2] == (DISABLE_CHANGE_PASSWORD@, policy_value(disable)));
}

/// The exam window opens the exam page exactly when an exam address is
/// configured and `url::Url::parse` accepts it, with no other condition on
/// the address; otherwise it opens the empty page. The two pages differ.
pub proof fn lemma_exam_page_iff_valid_url(cfg: Config)
    ensures
        EXAM_PAGE@ != EMPTY_PAGE@,
        cfg.exam_url matches Some(u) ==> (spec_exam_page(&cfg) == EXAM_PAGE@ <==> url_parses(u@)),
        cfg.exam_url matches Some(u) ==> (spec_exam_page(&cfg) == EMPTY_PAGE@ <==> !url_parses(u@)),
        cfg.exam_url is None ==> spec_exam_page(&cfg) == EMPTY_PAGE@,
{
    reveal_strlit("index.html");
    reveal_strlit("empty.html");
    assert(EXAM_PAGE@[0] != EMPTY_PAGE@[0]);
}

/// The lock window is full screen, and on top, exactly when the configuration
/// sets that switch to `true` (unset or `false` gives `Some(false)`); it has no
/// overlay script and opens the lock page.
pub proof fn lemma_lock_window_settings(w: WindowPlan, cfg: Config)
    requires
        is_lock_window(&w, &cfg),
    ensures
        w.fullscreen == Some(cfg.fullscreen == Some(true)),
        w.always_on_top == Some(cfg.always_on_top == Some(true)),
        w.page@ == LOCK_PAGE@,
        !w.overlay_script,
{
}

/// The exam window carries the configured full-screen and on-top settings as
/// they are (unset stays unset) and the overlay script.
pub proof fn lemma_exam_window_settings(w: WindowPlan, cfg: Config)
    requires
        is_exam_window(&w, &cfg),
    ensures
        w.fullscreen == cfg.fullscreen,
        w.always_on_top == cfg.always_on_top,
        w.overlay_script,
{
}

/// Start-up locks exactly when the configuration sets the state check to
/// `true` and the check did not report `Ok(true)`; it marks the state abnormal
/// exactly when the check is set and reported `Ok(true)`. The two never happen
/// together.
pub proof fn lemma_lock_decision(cfg: Config, state_check: Option<Result<bool, String>>)
    ensures
        spec_startup_locked(&cfg, state_check) <==> (cfg.enable_state_check == Some(true)
            && !(state_check matches Some(Ok(true)))),
        (flag_or_off(cfg.enable_state_check) && check_passed(state_check)) <==> (
            cfg.enable_state_check == Some(true) && state_check matches Some(Ok(true))),
        !(spec_startup_locked(&cfg, state_check) && flag_or_off(cfg.enable_state_check) && check_passed(state_check)),
{
}

} // verus!
