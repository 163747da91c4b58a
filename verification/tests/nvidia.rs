use crystallize_core::modules::base::nvidia::{determine_driver_version, NvidiaDriver};

#[test]
fn test_determine_driver_version_open() {
    // RTX 20xx series
    assert!(matches!(
        determine_driver_version(
            "01:00.0 VGA compatible controller [0300]: NVIDIA Corporation TU104 [GeForce RTX 2080] [10de:1e87]"
        ),
        NvidiaDriver::Open
    ));

    // RTX 30xx series
    assert!(matches!(
        determine_driver_version(
            "01:00.0 VGA compatible controller [0300]: NVIDIA Corporation GA102 [GeForce RTX 3080] [10de:2206]"
        ),
        NvidiaDriver::Open
    ));

    // RTX 40xx series
    assert!(matches!(
        determine_driver_version(
            "01:00.0 VGA compatible controller [0300]: NVIDIA Corporation AD103 [GeForce RTX 4080] [10de:2782]"
        ),
        NvidiaDriver::Open
    ));

    // GTX 16xx series
    assert!(matches!(
        determine_driver_version(
            "01:00.0 VGA compatible controller [0300]: NVIDIA Corporation TU117 [GeForce GTX 1650] [10de:1f82]"
        ),
        NvidiaDriver::Open
    ));
}

#[test]
fn test_determine_driver_version_legacy470() {
    // GTX 10xx series
    assert!(matches!(
        determine_driver_version(
            "01:00.0 VGA compatible controller [0300]: NVIDIA Corporation GP104 [GeForce GTX 1080] [10de:1b80]"
        ),
        NvidiaDriver::Legacy470
    ));

    assert!(matches!(
        determine_driver_version(
            "01:00.0 VGA compatible controller [0300]: NVIDIA Corporation GP106 [GeForce GTX 1060 6GB] [10de:1c03]"
        ),
        NvidiaDriver::Legacy470
    ));

    assert!(matches!(
        determine_driver_version(
            "01:00.0 VGA compatible controller [0300]: NVIDIA Corporation GP102 [GeForce GTX 1070] [10de:1b81]"
        ),
        NvidiaDriver::Legacy470
    ));

    // Titan X
    assert!(matches!(
        determine_driver_version(
            "01:00.0 VGA compatible controller [0300]: NVIDIA Corporation GM200 [GeForce GTX TITAN X] [10de:17c2]"
        ),
        NvidiaDriver::Legacy470
    ));
}

#[test]
fn test_determine_driver_version_legacy390() {
    // GTX 9xx series
    assert!(matches!(
        determine_driver_version(
            "01:00.0 VGA compatible controller [0300]: NVIDIA Corporation GM204 [GeForce GTX 980] [10de:13c0]"
        ),
        NvidiaDriver::Legacy390
    ));

    assert!(matches!(
        determine_driver_version(
            "01:00.0 VGA compatible controller [0300]: NVIDIA Corporation GM206 [GeForce GTX 960] [10de:1401]"
        ),
        NvidiaDriver::Legacy390
    ));

    // GTX 7xx series
    assert!(matches!(
        determine_driver_version(
            "01:00.0 VGA compatible controller [0300]: NVIDIA Corporation GK104 [GeForce GTX 770] [10de:1184]"
        ),
        NvidiaDriver::Legacy390
    ));

    // GTX 6xx series
    assert!(matches!(
        determine_driver_version(
            "01:00.0 VGA compatible controller [0300]: NVIDIA Corporation GK106 [GeForce GTX 660] [10de:11c0]"
        ),
        NvidiaDriver::Legacy390
    ));

    // Quadro
    assert!(matches!(
        determine_driver_version(
            "01:00.0 VGA compatible controller [0300]: NVIDIA Corporation GK107GL [Quadro K2000] [10de:0ffb]"
        ),
        NvidiaDriver::Legacy390
    ));
}

#[test]
fn test_determine_driver_version_legacy340() {
    // GTX 4xx series
    assert!(matches!(
        determine_driver_version(
            "01:00.0 VGA compatible controller [0300]: NVIDIA Corporation GF100 [GeForce GTX 480] [10de:06c0]"
        ),
        NvidiaDriver::Legacy340
    ));

    // GTX 5xx series
    assert!(matches!(
        determine_driver_version(
            "01:00.0 VGA compatible controller [0300]: NVIDIA Corporation GF110 [GeForce GTX 580] [10de:1080]"
        ),
        NvidiaDriver::Legacy340
    ));

    // GeForce 8xxx series
    assert!(matches!(
        determine_driver_version(
            "01:00.0 VGA compatible controller [0300]: NVIDIA Corporation G80 [GeForce 8800 GTX] [10de:0191]"
        ),
        NvidiaDriver::Legacy340
    ));

    // GeForce 9xxx series
    assert!(matches!(
        determine_driver_version(
            "01:00.0 VGA compatible controller [0300]: NVIDIA Corporation G92 [GeForce 9800 GTX] [10de:0614]"
        ),
        NvidiaDriver::Legacy340
    ));
}

#[test]
fn test_case_insensitive_detection() {
    // Test uppercase
    assert!(matches!(
        determine_driver_version(
            "01:00.0 VGA compatible controller [0300]: NVIDIA Corporation TU104 [GEFORCE RTX 2080] [10de:1e87]"
        ),
        NvidiaDriver::Open
    ));

    // Test mixed case
    assert!(matches!(
        determine_driver_version(
            "01:00.0 VGA compatible controller [0300]: NVIDIA Corporation GP104 [GeForce Gtx 1080] [10de:1b80]"
        ),
        NvidiaDriver::Legacy470
    ));
}

#[test]
fn test_unknown_card_defaults_to_open() {
    // Unknown/future card should default to open driver
    assert!(matches!(
        determine_driver_version(
            "01:00.0 VGA compatible controller [0300]: NVIDIA Corporation Unknown Future Card [10de:9999]"
        ),
        NvidiaDriver::Open
    ));

    // Empty string should default to open
    assert!(matches!(determine_driver_version(""), NvidiaDriver::Open));
}

#[test]
fn test_edge_cases() {
    // GTX 1050 (should be Legacy470, not Open despite being 10xx)
    assert!(matches!(
        determine_driver_version(
            "01:00.0 VGA compatible controller [0300]: NVIDIA Corporation GP107 [GeForce GTX 1050] [10de:1c81]"
        ),
        NvidiaDriver::Legacy470
    ));

    // Test partial matches don't trigger false positives
    assert!(matches!(
        determine_driver_version(
            "01:00.0 VGA compatible controller [0300]: NVIDIA Corporation SomeCard [GeForce GT 210] [10de:0a65]"
        ),
        NvidiaDriver::Open // Should default to Open as GT 210 doesn't match specific patterns
    ));
}

#[test]
fn driver_packages_are_listed_in_order() {
    assert_eq!(
        NvidiaDriver::Open.packages(),
        vec!["dkms", "nvidia-open", "nvidia-open-dkms", "nvidia-utils", "egl-wayland"]
    );
    assert_eq!(
        NvidiaDriver::Legacy340.packages(),
        vec!["dkms", "nvidia-340xx-dkms", "nvidia-340xx-utils"]
    );
}
