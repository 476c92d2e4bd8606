use key2joy_rebinder::hook::{
    lifecycle_step, HookError, HookState, LifecycleAction, LifecycleEvent, LifecyclePhase,
};
use key2joy_rebinder::processes::{get_available_processes, is_xinput_module_name, ProcessInfo};
use key2joy_rebinder::resolver::{
    candidate_libraries, find_entry_point, load_fns_status, resolve_step, ResolveStep,
    CANDIDATE_COUNT,
};

#[test]
fn candidates_newest_first() {
    let names = candidate_libraries();
    assert_eq!(names.len(), CANDIDATE_COUNT);
    assert_eq!(names[0], "xinput1_4.dll");
    assert_eq!(names[4], "xinput1_1.dll");
}

#[test]
fn first_exporting_candidate_wins() {
    let lookups = vec![None, Some(0x2000), Some(0x3000), None, Some(0x5000)];
    assert_eq!(find_entry_point(&lookups), Some((1, 0x2000)));
    let lookups = vec![Some(0x1000), Some(0x2000)];
    assert_eq!(find_entry_point(&lookups), Some((0, 0x1000)));
}

#[test]
fn no_exporting_candidate_is_not_found() {
    assert_eq!(find_entry_point(&vec![None, None, None, None, None]), None);
    assert_eq!(find_entry_point(&vec![]), None);
}

#[test]
fn resolver_steps() {
    assert_eq!(resolve_step(0, 5, Some(0x10)), ResolveStep::Found(0x10));
    assert_eq!(resolve_step(0, 5, None), ResolveStep::Probe(1));
    assert_eq!(resolve_step(4, 5, None), ResolveStep::Exhausted);
}

#[test]
fn binding_status_codes() {
    assert_eq!(load_fns_status(false, true, true, true), 0x7e);
    assert_eq!(load_fns_status(true, true, false, true), 0x7f);
    assert_eq!(load_fns_status(true, true, true, true), 0);
}

#[test]
fn hook_install_enable_disable() {
    let mut hook = HookState::new();
    assert!(!hook.is_enabled());
    assert_eq!(hook.target(), None);
    assert_eq!(hook.enable(), Err(HookError::NotInstalled));
    assert!(!hook.disable());
    assert_eq!(hook.install(0), Err(HookError::NullAddress));
    assert_eq!(hook.install(0x1234), Ok(()));
    assert_eq!(hook.target(), Some(0x1234));
    assert_eq!(hook.install(0x5678), Err(HookError::AlreadyInstalled));
    assert_eq!(hook.target(), Some(0x1234));
    assert_eq!(hook.enable(), Ok(()));
    assert!(hook.is_enabled());
    assert_eq!(hook.enable(), Err(HookError::AlreadyEnabled));
    assert!(hook.disable());
    assert!(!hook.is_enabled());
    assert!(!hook.disable());
    assert_eq!(hook.enable(), Ok(()));
}

#[test]
fn lifecycle_attach_and_detach() {
    let (p, a) = lifecycle_step(LifecyclePhase::Unattached, LifecycleEvent::ProcessAttach);
    assert_eq!((p, a), (LifecyclePhase::Attaching, LifecycleAction::Resolve));
    let (p, a) = lifecycle_step(p, LifecycleEvent::Resolved(Some(0x40)));
    assert_eq!((p, a), (LifecyclePhase::Attaching, LifecycleAction::InstallHook(0x40)));
    let (p, a) = lifecycle_step(p, LifecycleEvent::HookReady(true));
    assert_eq!((p, a), (LifecyclePhase::Active, LifecycleAction::Nothing));
    let (p, a) = lifecycle_step(p, LifecycleEvent::ProcessDetach);
    assert_eq!((p, a), (LifecyclePhase::Detaching, LifecycleAction::DisableHook));
    let (p, a) = lifecycle_step(p, LifecycleEvent::HookReleased);
    assert_eq!((p, a), (LifecyclePhase::Detached, LifecycleAction::Nothing));
}

#[test]
fn lifecycle_failures_leave_module_inert() {
    let (p, a) = lifecycle_step(LifecyclePhase::Attaching, LifecycleEvent::Resolved(None));
    assert_eq!((p, a), (LifecyclePhase::Detached, LifecycleAction::Nothing));
    let (p, a) = lifecycle_step(LifecyclePhase::Attaching, LifecycleEvent::HookReady(false));
    assert_eq!((p, a), (LifecyclePhase::Detached, LifecycleAction::Nothing));
    let (p, a) = lifecycle_step(LifecyclePhase::Detached, LifecycleEvent::ProcessDetach);
    assert_eq!((p, a), (LifecyclePhase::Detached, LifecycleAction::Nothing));
    let (p, a) = lifecycle_step(LifecyclePhase::Unattached, LifecycleEvent::ProcessDetach);
    assert_eq!((p, a), (LifecyclePhase::Unattached, LifecycleAction::Nothing));
}

#[test]
fn module_name_prefix() {
    assert!(is_xinput_module_name("XInput1_4.dll"));
    assert!(is_xinput_module_name("xinput9_1_0.dll"));
    assert!(is_xinput_module_name("XINPUT"));
    assert!(!is_xinput_module_name("xinpu"));
    assert!(!is_xinput_module_name("kernel32.dll"));
    assert!(!is_xinput_module_name("my_xinput.dll"));
}

#[test]
fn processes_with_controller_library() {
    let processes = vec![
        ProcessInfo {
            pid: 10,
            name: "game.exe".to_string(),
            module_names: Some(vec!["kernel32.dll".to_string(), "XInput1_4.dll".to_string()]),
        },
        ProcessInfo {
            pid: 11,
            name: "editor.exe".to_string(),
            module_names: Some(vec!["kernel32.dll".to_string()]),
        },
        ProcessInfo { pid: 12, name: "system".to_string(), module_names: None },
        ProcessInfo {
            pid: 13,
            name: "emulator.exe".to_string(),
            module_names: Some(vec!["xinput1_3.dll".to_string()]),
        },
    ];
    assert_eq!(
        get_available_processes(&processes),
        vec![("game.exe".to_string(), 10), ("emulator.exe".to_string(), 13)]
    );
    assert!(get_available_processes(&vec![]).is_empty());
}
