use crystallize_core::modules::base::nvidia::{
    detect_nvidia_gpu, gpu_probe, install_nvidia, NvidiaDriver,
};
use crystallize_core::script::{Action, Invocation, Policy, Rewrite};
use crystallize_core::state::AppState;
use crystallize_core::utils::install::install;
use crystallize_core::utils::network::{
    check_internet_connection, first_probe, probe_invocation, probe_timeout, Connectivity, Probe,
    ProbeResult,
};
use crystallize_core::utils::returncode_eval::HostError;

#[test]
fn app_state_starts_empty_and_resets() {
    let mut state = AppState::new();
    assert!(!state.is_checking());
    assert!(!state.is_connected());
    assert!(!state.is_check_completed());
    assert_eq!(state.error_message(), None);
    state.set_checking(true);
    assert!(state.is_checking());
    assert!(!state.is_connected());
    state.set_connected(true);
    state.set_check_completed(true);
    state.set_error_message(Some("no route".to_string()));
    assert!(state.is_checking() && state.is_connected() && state.is_check_completed());
    assert_eq!(state.error_message(), Some(&"no route".to_string()));
    state.set_checking(false);
    assert!(state.is_connected());
    assert_eq!(state.error_message(), Some(&"no route".to_string()));
    state.set_error_message(None);
    assert_eq!(state.error_message(), None);
    state.set_error_message(Some("x".to_string()));
    state.reset();
    assert!(!state.is_checking());
    assert!(!state.is_connected());
    assert!(!state.is_check_completed());
    assert_eq!(state.error_message(), None);
    let fresh = AppState::default();
    assert!(!fresh.is_checking() && fresh.error_message().is_none());
}

#[test]
fn connection_check_pings_then_looks_up() {
    assert_eq!(first_probe(), Probe::Ping(0));
    assert_eq!(probe_timeout(), 5);
    let ping = |address: &str| Invocation {
        program: "ping".into(),
        args: vec!["-c".into(), "1".into(), "-W".into(), "1000".into(), address.to_string()],
    };
    assert_eq!(probe_invocation(Probe::Ping(0)), ping("8.8.8.8"));
    assert_eq!(probe_invocation(Probe::Ping(1)), ping("1.1.1.1"));
    assert_eq!(probe_invocation(Probe::Ping(2)), ping("208.67.222.222"));
    assert_eq!(
        probe_invocation(Probe::Lookup),
        Invocation { program: "nslookup".into(), args: vec!["google.com".into()] }
    );
    for i in 0..3 {
        assert_eq!(
            check_internet_connection(Probe::Ping(i), ProbeResult::Succeeded),
            Connectivity::Connected
        );
    }
    for bad in [ProbeResult::Failed, ProbeResult::Unavailable] {
        assert_eq!(
            check_internet_connection(Probe::Ping(0), bad),
            Connectivity::Continue(Probe::Ping(1))
        );
        assert_eq!(
            check_internet_connection(Probe::Ping(1), bad),
            Connectivity::Continue(Probe::Ping(2))
        );
        assert_eq!(
            check_internet_connection(Probe::Ping(2), bad),
            Connectivity::Continue(Probe::Lookup)
        );
        assert_eq!(check_internet_connection(Probe::Lookup, bad), Connectivity::Disconnected);
    }
    assert_eq!(
        check_internet_connection(Probe::Lookup, ProbeResult::Succeeded),
        Connectivity::Connected
    );
}

#[test]
fn graphics_card_is_found_in_the_bus_listing() {
    assert_eq!(
        gpu_probe(),
        Invocation { program: "lspci".into(), args: vec!["-nn".into()] }
    );
    let listing = "00:02.0 VGA compatible controller [0300]: Intel Corporation UHD\n\
                   01:00.0 Audio device: NVIDIA Corporation High Definition Audio\n\
                   01:00.1 3D controller [0302]: NVIDIA Corporation GP108M [GeForce MX150]\r\n\
                   02:00.0 VGA compatible controller: NVIDIA Corporation GA102 [GeForce RTX 3080]\n";
    assert_eq!(
        detect_nvidia_gpu(&Ok(listing.to_string())),
        Ok(Some(
            "01:00.1 3D controller [0302]: NVIDIA Corporation GP108M [GeForce MX150]".to_string()
        ))
    );
    assert_eq!(
        detect_nvidia_gpu(&Ok("00:02.0 VGA compatible controller: Intel\n".to_string())),
        Ok(None)
    );
    assert_eq!(detect_nvidia_gpu(&Ok(String::new())), Ok(None));
    assert_eq!(
        detect_nvidia_gpu(&Ok("x nvidia vga".to_string())),
        Ok(Some("x nvidia vga".to_string()))
    );
    assert_eq!(
        detect_nvidia_gpu(&Err(HostError { code: Some(2), message: "not found".into() })),
        Err("Failed to run lspci: not found".to_string())
    );
}

#[test]
fn driver_is_installed_for_the_card_found() {
    let listing =
        Ok("01:00.0 VGA compatible controller: NVIDIA Corporation [GeForce RTX 3080]\n".to_string());
    let plan = install_nvidia(&listing);
    assert_eq!(plan.len(), 3);
    assert_eq!(plan[0], install(&NvidiaDriver::Open.packages())[0]);
    assert_eq!(
        plan[1].action,
        Action::RewriteFile { path: "/mnt/etc/default/grub".into(), rule: Rewrite::KernelModeset }
    );
    assert_eq!(plan[1].policy, Policy::Crash);
    assert_eq!(
        plan[2].action,
        Action::RewriteFile {
            path: "/mnt/etc/mkinitcpio.conf".into(),
            rule: Rewrite::DriverModules
        }
    );
    let old = Ok("01:00.0 VGA compatible controller: NVIDIA [GeForce GTX 480]\n".to_string());
    let plan = install_nvidia(&old);
    assert_eq!(plan.len(), 2);
    assert_eq!(plan[0], install(&NvidiaDriver::Legacy340.packages())[0]);
    let none = install_nvidia(&Ok("Intel VGA\n".to_string()));
    assert_eq!(none.len(), 1);
    assert_eq!(none[0].action, Action::Stop);
    assert_eq!(none[0].description, "I/O error: No NVIDIA GPU detected");
    let failed = install_nvidia(&Err(HostError { code: None, message: "no lspci".into() }));
    assert_eq!(failed[0].action, Action::Stop);
    assert_eq!(failed[0].description, "I/O error: Failed to run lspci: no lspci");
}
