use std::cell::Cell;

use draconis::{
    get_battery_info, get_cpu_cores, get_cpu_model, get_desktop_environment, get_disk_usage,
    get_disks, get_gpu_model, get_host, get_kernel_version, get_mem_info, get_network_interfaces,
    get_operating_system, get_outputs, get_primary_network_interface, get_primary_output,
    get_shell, get_system_disk, get_uptime, get_window_manager, Battery, BatteryStatus, CPUCores,
    CacheManager, DiskInfo, DisplayInfo, ErrorCode, NetworkInterface, OSInfo, RawBattery,
    RawDiskInfo, RawNetworkInterface, RawOSInfo, Reply, ResourceUsage, DRAC_ERROR_NOT_FOUND,
    DRAC_ERROR_PERMISSION_DENIED, DRAC_ERROR_TIMEOUT, DRAC_SUCCESS,
};

fn text(s: &str) -> Option<String> {
    Some(s.to_string())
}

fn usage(used_bytes: u64, total_bytes: u64) -> ResourceUsage {
    ResourceUsage { used_bytes, total_bytes }
}

fn cores(physical: usize, logical: usize) -> CPUCores {
    CPUCores { physical, logical }
}

fn raw_system(name: Option<&str>) -> RawOSInfo {
    RawOSInfo { name: name.map(|s| s.to_string()), version: None, id: text("nixos") }
}

fn system(name: &str) -> OSInfo {
    OSInfo { name: name.to_string(), version: String::new(), id: "nixos".to_string() }
}

fn raw_battery(percentage: u8, time_remaining_secs: i64) -> RawBattery {
    RawBattery { status: 1, percentage, time_remaining_secs }
}

fn battery(percentage: Option<u8>, time_remaining_secs: Option<i64>) -> Battery {
    Battery { status: BatteryStatus::Charging, percentage, time_remaining_secs }
}

fn raw_disk(name: Option<&str>) -> RawDiskInfo {
    RawDiskInfo {
        name: name.map(|s| s.to_string()),
        mount_point: text("/mnt"),
        filesystem: None,
        drive_type: text("HDD"),
        total_bytes: 500,
        used_bytes: 125,
        is_system_drive: false,
    }
}

fn disk(name: &str) -> DiskInfo {
    DiskInfo {
        name: name.to_string(),
        mount_point: "/mnt".to_string(),
        filesystem: String::new(),
        drive_type: "HDD".to_string(),
        total_bytes: 500,
        used_bytes: 125,
        is_system_drive: false,
    }
}

fn display(id: u64) -> DisplayInfo {
    DisplayInfo {
        id,
        width: 1920,
        height: 1080,
        refresh_rate_bits: 60.0f64.to_bits(),
        is_primary: id == 1,
    }
}

fn raw_interface(name: Option<&str>) -> RawNetworkInterface {
    RawNetworkInterface {
        name: name.map(|s| s.to_string()),
        ipv4_address: text("192.168.1.2"),
        ipv6_address: None,
        mac_address: None,
        is_up: true,
        is_loopback: false,
    }
}

fn interface(name: &str) -> NetworkInterface {
    NetworkInterface {
        name: name.to_string(),
        ipv4_address: Some("192.168.1.2".to_string()),
        ipv6_address: None,
        mac_address: None,
        is_up: true,
        is_loopback: false,
    }
}

#[test]
fn test_cache_manager() {
    let cache = CacheManager::new();
    drop(cache);
}

#[test]
fn test_uptime() {
    let uptime = get_uptime(|| 86_400u64);
    assert!(uptime > 0);
}

#[test]
fn test_memory_info() {
    let mut cache = CacheManager::new();
    let usage = get_mem_info(&mut cache, || Reply {
        code: DRAC_SUCCESS,
        payload: ResourceUsage { used_bytes: 6_000_000_000, total_bytes: 16_000_000_000 },
    })
    .expect("Failed to get memory info");
    assert!(usage.total_bytes > 0);
}

#[test]
fn test_cpu_cores() {
    let mut cache = CacheManager::new();
    let cores = get_cpu_cores(&mut cache, || Reply {
        code: DRAC_SUCCESS,
        payload: CPUCores { physical: 4, logical: 8 },
    })
    .expect("Failed to get CPU cores");
    assert!(cores.logical > 0);
}

#[test]
fn default_cache_is_empty() {
    let calls = Cell::new(0u32);
    let mut cache = CacheManager::default();
    let cores = get_cpu_cores(&mut cache, || {
        calls.set(calls.get() + 1);
        Reply { code: DRAC_SUCCESS, payload: CPUCores { physical: 2, logical: 4 } }
    });
    assert_eq!(cores, Ok(CPUCores { physical: 2, logical: 4 }));
    assert_eq!(calls.get(), 1);
}

#[test]
fn uptime_is_asked_anew_every_time() {
    let calls = Cell::new(0u64);
    let collect = || {
        calls.set(calls.get() + 1);
        100 + calls.get()
    };
    assert_eq!(get_uptime(&collect), 101);
    assert_eq!(get_uptime(&collect), 102);
    assert_eq!(get_uptime(&collect), 103);
    assert_eq!(calls.get(), 3);
}

#[test]
fn kinds_do_not_share_a_slot() {
    let mut cache = CacheManager::new();
    let memory = get_mem_info(&mut cache, || Reply {
        code: DRAC_SUCCESS,
        payload: ResourceUsage { used_bytes: 1, total_bytes: 2 },
    });
    let disk_space = get_disk_usage(&mut cache, || Reply {
        code: DRAC_SUCCESS,
        payload: ResourceUsage { used_bytes: 3, total_bytes: 4 },
    });
    assert_eq!(memory, Ok(ResourceUsage { used_bytes: 1, total_bytes: 2 }));
    assert_eq!(disk_space, Ok(ResourceUsage { used_bytes: 3, total_bytes: 4 }));
    let shell = get_shell(&mut cache, || Reply { code: DRAC_SUCCESS, payload: text("bash") });
    let host = get_host(&mut cache, || Reply { code: DRAC_SUCCESS, payload: text("box") });
    assert_eq!(shell, Ok("bash".to_string()));
    assert_eq!(host, Ok("box".to_string()));
    let never = || -> Reply<ResourceUsage> { panic!("the collector must not run") };
    assert_eq!(get_mem_info(&mut cache, never), memory);
    assert_eq!(get_disk_usage(&mut cache, never), disk_space);
}

#[test]
fn a_failure_of_one_kind_leaves_the_others_cached() {
    let mut cache = CacheManager::new();
    let host = get_host(&mut cache, || Reply { code: DRAC_SUCCESS, payload: text("box") });
    let failed = get_shell(&mut cache, || Reply { code: DRAC_ERROR_NOT_FOUND, payload: None });
    assert_eq!(failed, Err(ErrorCode::NotFound));
    let never = || -> Reply<Option<String>> { panic!("the collector must not run") };
    assert_eq!(get_host(&mut cache, never), host);
}

#[test]
fn failure_kinds_pass_through_unchanged() {
    let mut cache = CacheManager::new();
    for code in 0..=17 {
        let result = get_mem_info(&mut cache, || Reply {
            code,
            payload: ResourceUsage { used_bytes: 0, total_bytes: 0 },
        });
        assert_eq!(result, Err(ErrorCode::from(code)));
        assert_eq!(result.unwrap_err().code(), code);
    }
    let denied = get_disks(&mut cache, || Reply {
        code: DRAC_ERROR_PERMISSION_DENIED,
        payload: vec![raw_disk(Some("sda"))],
    });
    assert_eq!(denied, Err(ErrorCode::PermissionDenied));
}

#[test]
fn success_without_text_is_not_found_and_not_cached() {
    let calls = Cell::new(0u32);
    let collect = || {
        calls.set(calls.get() + 1);
        if calls.get() == 1 {
            Reply { code: DRAC_SUCCESS, payload: None }
        } else {
            Reply { code: DRAC_SUCCESS, payload: text("Xeon") }
        }
    };
    let mut cache = CacheManager::new();
    assert_eq!(get_cpu_model(&mut cache, &collect), Err(ErrorCode::NotFound));
    assert_eq!(get_cpu_model(&mut cache, &collect), Ok("Xeon".to_string()));
    assert_eq!(calls.get(), 2);
}

#[test]
fn no_text_getter_fails_with_success() {
    let mut cache = CacheManager::new();
    let empty = || Reply { code: DRAC_SUCCESS, payload: None };
    assert_eq!(get_cpu_model(&mut cache, empty), Err(ErrorCode::NotFound));
    assert_eq!(get_gpu_model(&mut cache, empty), Err(ErrorCode::NotFound));
    assert_eq!(get_desktop_environment(&mut cache, empty), Err(ErrorCode::NotFound));
    assert_eq!(get_window_manager(&mut cache, empty), Err(ErrorCode::NotFound));
    assert_eq!(get_shell(&mut cache, empty), Err(ErrorCode::NotFound));
    assert_eq!(get_host(&mut cache, empty), Err(ErrorCode::NotFound));
    assert_eq!(get_kernel_version(&mut cache, empty), Err(ErrorCode::NotFound));
}

#[test]
fn no_getter_fails_with_success() {
    for code in [-1, 0, 17, 18, 254, 256, i32::MIN, i32::MAX] {
        let mut cache = CacheManager::new();
        let memory = get_mem_info(&mut cache, || Reply { code, payload: usage(1, 2) });
        assert_eq!(memory, Err(ErrorCode::from(code)));
        assert_ne!(memory, Err(ErrorCode::Success));
        let shell = get_shell(&mut cache, || Reply { code, payload: text("zsh") });
        assert_eq!(shell, Err(ErrorCode::from(code)));
        assert_ne!(shell, Err(ErrorCode::Success));
        let host = get_host(&mut cache, || Reply { code, payload: None });
        assert_eq!(host, Err(ErrorCode::from(code)));
        assert_ne!(host, Err(ErrorCode::Success));
    }
}

#[test]
fn lists_are_cached_whole() {
    let mut cache = CacheManager::new();
    let first = get_disks(&mut cache, || Reply {
        code: DRAC_SUCCESS,
        payload: vec![raw_disk(Some("a")), raw_disk(Some("b")), raw_disk(Some("c"))],
    })
    .unwrap();
    assert_eq!(first.len(), 3);
    let again = get_disks(&mut cache, || Reply {
        code: DRAC_SUCCESS,
        payload: vec![raw_disk(Some("z"))],
    })
    .unwrap();
    assert_eq!(again, first);
    let empty = get_outputs(&mut cache, || Reply { code: DRAC_SUCCESS, payload: Vec::new() });
    assert_eq!(empty, Ok(Vec::new()));
    let still_empty = get_outputs(&mut cache, || Reply {
        code: DRAC_SUCCESS,
        payload: vec![display(1)],
    });
    assert_eq!(still_empty, Ok(Vec::new()));
}

#[test]
fn memory_is_collected_at_most_once() {
    let calls = Cell::new(0u32);
    let collect = || {
        calls.set(calls.get() + 1);
        Reply { code: DRAC_SUCCESS, payload: usage(4096, 16384) }
    };
    let expected = usage(4096, 16384);
    let mut cache = CacheManager::new();
    let first = get_mem_info(&mut cache, &collect);
    assert_eq!(first, Ok(expected));
    assert_eq!(calls.get(), 1);
    let second = get_mem_info(&mut cache, &collect);
    assert_eq!(second, first);
    assert_eq!(calls.get(), 1);
    let third = get_mem_info(&mut cache, || Reply { code: DRAC_SUCCESS, payload: usage(1, 2) });
    assert_eq!(third, first);
    let mut fresh = CacheManager::new();
    assert_eq!(get_mem_info(&mut fresh, &collect), first);
    assert_eq!(calls.get(), 2);
}

#[test]
fn memory_failure_is_not_cached() {
    let calls = Cell::new(0u32);
    let collect = || {
        calls.set(calls.get() + 1);
        if calls.get() == 1 {
            Reply { code: DRAC_ERROR_TIMEOUT, payload: usage(1, 2) }
        } else {
            Reply { code: DRAC_SUCCESS, payload: usage(4096, 16384) }
        }
    };
    let expected = usage(4096, 16384);
    let mut cache = CacheManager::new();
    assert_eq!(get_mem_info(&mut cache, &collect), Err(ErrorCode::Timeout));
    assert_eq!(calls.get(), 1);
    assert_eq!(get_mem_info(&mut cache, &collect), Ok(expected.clone()));
    assert_eq!(calls.get(), 2);
    assert_eq!(get_mem_info(&mut cache, &collect), Ok(expected));
    assert_eq!(calls.get(), 2);
}

#[test]
fn cpu_cores_is_collected_at_most_once() {
    let calls = Cell::new(0u32);
    let collect = || {
        calls.set(calls.get() + 1);
        Reply { code: DRAC_SUCCESS, payload: cores(8, 16) }
    };
    let expected = cores(8, 16);
    let mut cache = CacheManager::new();
    let first = get_cpu_cores(&mut cache, &collect);
    assert_eq!(first, Ok(expected));
    assert_eq!(calls.get(), 1);
    let second = get_cpu_cores(&mut cache, &collect);
    assert_eq!(second, first);
    assert_eq!(calls.get(), 1);
    let third = get_cpu_cores(&mut cache, || Reply { code: DRAC_SUCCESS, payload: cores(1, 1) });
    assert_eq!(third, first);
    let mut fresh = CacheManager::new();
    assert_eq!(get_cpu_cores(&mut fresh, &collect), first);
    assert_eq!(calls.get(), 2);
}

#[test]
fn cpu_cores_failure_is_not_cached() {
    let calls = Cell::new(0u32);
    let collect = || {
        calls.set(calls.get() + 1);
        if calls.get() == 1 {
            Reply { code: DRAC_ERROR_TIMEOUT, payload: cores(1, 1) }
        } else {
            Reply { code: DRAC_SUCCESS, payload: cores(8, 16) }
        }
    };
    let expected = cores(8, 16);
    let mut cache = CacheManager::new();
    assert_eq!(get_cpu_cores(&mut cache, &collect), Err(ErrorCode::Timeout));
    assert_eq!(calls.get(), 1);
    assert_eq!(get_cpu_cores(&mut cache, &collect), Ok(expected.clone()));
    assert_eq!(calls.get(), 2);
    assert_eq!(get_cpu_cores(&mut cache, &collect), Ok(expected));
    assert_eq!(calls.get(), 2);
}

#[test]
fn operating_system_is_collected_at_most_once() {
    let calls = Cell::new(0u32);
    let collect = || {
        calls.set(calls.get() + 1);
        Reply { code: DRAC_SUCCESS, payload: raw_system(Some("Linux")) }
    };
    let expected = system("Linux");
    let mut cache = CacheManager::new();
    let first = get_operating_system(&mut cache, &collect);
    assert_eq!(first, Ok(expected));
    assert_eq!(calls.get(), 1);
    let second = get_operating_system(&mut cache, &collect);
    assert_eq!(second, first);
    assert_eq!(calls.get(), 1);
    let third = get_operating_system(&mut cache, || Reply {
        code: DRAC_SUCCESS,
        payload: raw_system(None),
    });
    assert_eq!(third, first);
    let mut fresh = CacheManager::new();
    assert_eq!(get_operating_system(&mut fresh, &collect), first);
    assert_eq!(calls.get(), 2);
}

#[test]
fn operating_system_failure_is_not_cached() {
    let calls = Cell::new(0u32);
    let collect = || {
        calls.set(calls.get() + 1);
        if calls.get() == 1 {
            Reply { code: DRAC_ERROR_TIMEOUT, payload: raw_system(None) }
        } else {
            Reply { code: DRAC_SUCCESS, payload: raw_system(Some("Linux")) }
        }
    };
    let expected = system("Linux");
    let mut cache = CacheManager::new();
    assert_eq!(get_operating_system(&mut cache, &collect), Err(ErrorCode::Timeout));
    assert_eq!(calls.get(), 1);
    assert_eq!(get_operating_system(&mut cache, &collect), Ok(expected.clone()));
    assert_eq!(calls.get(), 2);
    assert_eq!(get_operating_system(&mut cache, &collect), Ok(expected));
    assert_eq!(calls.get(), 2);
}

#[test]
fn battery_is_collected_at_most_once() {
    let calls = Cell::new(0u32);
    let collect = || {
        calls.set(calls.get() + 1);
        Reply { code: DRAC_SUCCESS, payload: raw_battery(255, 1200) }
    };
    let expected = battery(None, Some(1200));
    let mut cache = CacheManager::new();
    let first = get_battery_info(&mut cache, &collect);
    assert_eq!(first, Ok(expected));
    assert_eq!(calls.get(), 1);
    let second = get_battery_info(&mut cache, &collect);
    assert_eq!(second, first);
    assert_eq!(calls.get(), 1);
    let third = get_battery_info(&mut cache, || Reply {
        code: DRAC_SUCCESS,
        payload: raw_battery(100, -1),
    });
    assert_eq!(third, first);
    let mut fresh = CacheManager::new();
    assert_eq!(get_battery_info(&mut fresh, &collect), first);
    assert_eq!(calls.get(), 2);
}

#[test]
fn battery_failure_is_not_cached() {
    let calls = Cell::new(0u32);
    let collect = || {
        calls.set(calls.get() + 1);
        if calls.get() == 1 {
            Reply { code: DRAC_ERROR_TIMEOUT, payload: raw_battery(100, -1) }
        } else {
            Reply { code: DRAC_SUCCESS, payload: raw_battery(255, 1200) }
        }
    };
    let expected = battery(None, Some(1200));
    let mut cache = CacheManager::new();
    assert_eq!(get_battery_info(&mut cache, &collect), Err(ErrorCode::Timeout));
    assert_eq!(calls.get(), 1);
    assert_eq!(get_battery_info(&mut cache, &collect), Ok(expected.clone()));
    assert_eq!(calls.get(), 2);
    assert_eq!(get_battery_info(&mut cache, &collect), Ok(expected));
    assert_eq!(calls.get(), 2);
}

#[test]
fn cpu_model_is_collected_at_most_once() {
    let calls = Cell::new(0u32);
    let collect = || {
        calls.set(calls.get() + 1);
        Reply { code: DRAC_SUCCESS, payload: text("Ryzen 9") }
    };
    let expected = "Ryzen 9".to_string();
    let mut cache = CacheManager::new();
    let first = get_cpu_model(&mut cache, &collect);
    assert_eq!(first, Ok(expected));
    assert_eq!(calls.get(), 1);
    let second = get_cpu_model(&mut cache, &collect);
    assert_eq!(second, first);
    assert_eq!(calls.get(), 1);
    let third = get_cpu_model(&mut cache, || Reply { code: DRAC_SUCCESS, payload: text("other") });
    assert_eq!(third, first);
    let mut fresh = CacheManager::new();
    assert_eq!(get_cpu_model(&mut fresh, &collect), first);
    assert_eq!(calls.get(), 2);
}

#[test]
fn cpu_model_failure_is_not_cached() {
    let calls = Cell::new(0u32);
    let collect = || {
        calls.set(calls.get() + 1);
        if calls.get() == 1 {
            Reply { code: DRAC_ERROR_TIMEOUT, payload: text("other") }
        } else {
            Reply { code: DRAC_SUCCESS, payload: text("Ryzen 9") }
        }
    };
    let expected = "Ryzen 9".to_string();
    let mut cache = CacheManager::new();
    assert_eq!(get_cpu_model(&mut cache, &collect), Err(ErrorCode::Timeout));
    assert_eq!(calls.get(), 1);
    assert_eq!(get_cpu_model(&mut cache, &collect), Ok(expected.clone()));
    assert_eq!(calls.get(), 2);
    assert_eq!(get_cpu_model(&mut cache, &collect), Ok(expected));
    assert_eq!(calls.get(), 2);
}

#[test]
fn gpu_model_is_collected_at_most_once() {
    let calls = Cell::new(0u32);
    let collect = || {
        calls.set(calls.get() + 1);
        Reply { code: DRAC_SUCCESS, payload: text("RX 7900") }
    };
    let expected = "RX 7900".to_string();
    let mut cache = CacheManager::new();
    let first = get_gpu_model(&mut cache, &collect);
    assert_eq!(first, Ok(expected));
    assert_eq!(calls.get(), 1);
    let second = get_gpu_model(&mut cache, &collect);
    assert_eq!(second, first);
    assert_eq!(calls.get(), 1);
    let third = get_gpu_model(&mut cache, || Reply { code: DRAC_SUCCESS, payload: text("other") });
    assert_eq!(third, first);
    let mut fresh = CacheManager::new();
    assert_eq!(get_gpu_model(&mut fresh, &collect), first);
    assert_eq!(calls.get(), 2);
}

#[test]
fn gpu_model_failure_is_not_cached() {
    let calls = Cell::new(0u32);
    let collect = || {
        calls.set(calls.get() + 1);
        if calls.get() == 1 {
            Reply { code: DRAC_ERROR_TIMEOUT, payload: text("other") }
        } else {
            Reply { code: DRAC_SUCCESS, payload: text("RX 7900") }
        }
    };
    let expected = "RX 7900".to_string();
    let mut cache = CacheManager::new();
    assert_eq!(get_gpu_model(&mut cache, &collect), Err(ErrorCode::Timeout));
    assert_eq!(calls.get(), 1);
    assert_eq!(get_gpu_model(&mut cache, &collect), Ok(expected.clone()));
    assert_eq!(calls.get(), 2);
    assert_eq!(get_gpu_model(&mut cache, &collect), Ok(expected));
    assert_eq!(calls.get(), 2);
}

#[test]
fn desktop_environment_is_collected_at_most_once() {
    let calls = Cell::new(0u32);
    let collect = || {
        calls.set(calls.get() + 1);
        Reply { code: DRAC_SUCCESS, payload: text("GNOME") }
    };
    let expected = "GNOME".to_string();
    let mut cache = CacheManager::new();
    let first = get_desktop_environment(&mut cache, &collect);
    assert_eq!(first, Ok(expected));
    assert_eq!(calls.get(), 1);
    let second = get_desktop_environment(&mut cache, &collect);
    assert_eq!(second, first);
    assert_eq!(calls.get(), 1);
    let third = get_desktop_environment(&mut cache, || Reply {
        code: DRAC_SUCCESS,
        payload: text("other"),
    });
    assert_eq!(third, first);
    let mut fresh = CacheManager::new();
    assert_eq!(get_desktop_environment(&mut fresh, &collect), first);
    assert_eq!(calls.get(), 2);
}

#[test]
fn desktop_environment_failure_is_not_cached() {
    let calls = Cell::new(0u32);
    let collect = || {
        calls.set(calls.get() + 1);
        if calls.get() == 1 {
            Reply { code: DRAC_ERROR_TIMEOUT, payload: text("other") }
        } else {
            Reply { code: DRAC_SUCCESS, payload: text("GNOME") }
        }
    };
    let expected = "GNOME".to_string();
    let mut cache = CacheManager::new();
    assert_eq!(get_desktop_environment(&mut cache, &collect), Err(ErrorCode::Timeout));
    assert_eq!(calls.get(), 1);
    assert_eq!(get_desktop_environment(&mut cache, &collect), Ok(expected.clone()));
    assert_eq!(calls.get(), 2);
    assert_eq!(get_desktop_environment(&mut cache, &collect), Ok(expected));
    assert_eq!(calls.get(), 2);
}

#[test]
fn window_manager_is_collected_at_most_once() {
    let calls = Cell::new(0u32);
    let collect = || {
        calls.set(calls.get() + 1);
        Reply { code: DRAC_SUCCESS, payload: text("Mutter") }
    };
    let expected = "Mutter".to_string();
    let mut cache = CacheManager::new();
    let first = get_window_manager(&mut cache, &collect);
    assert_eq!(first, Ok(expected));
    assert_eq!(calls.get(), 1);
    let second = get_window_manager(&mut cache, &collect);
    assert_eq!(second, first);
    assert_eq!(calls.get(), 1);
    let third = get_window_manager(&mut cache, || Reply {
        code: DRAC_SUCCESS,
        payload: text("other"),
    });
    assert_eq!(third, first);
    let mut fresh = CacheManager::new();
    assert_eq!(get_window_manager(&mut fresh, &collect), first);
    assert_eq!(calls.get(), 2);
}

#[test]
fn window_manager_failure_is_not_cached() {
    let calls = Cell::new(0u32);
    let collect = || {
        calls.set(calls.get() + 1);
        if calls.get() == 1 {
            Reply { code: DRAC_ERROR_TIMEOUT, payload: text("other") }
        } else {
            Reply { code: DRAC_SUCCESS, payload: text("Mutter") }
        }
    };
    let expected = "Mutter".to_string();
    let mut cache = CacheManager::new();
    assert_eq!(get_window_manager(&mut cache, &collect), Err(ErrorCode::Timeout));
    assert_eq!(calls.get(), 1);
    assert_eq!(get_window_manager(&mut cache, &collect), Ok(expected.clone()));
    assert_eq!(calls.get(), 2);
    assert_eq!(get_window_manager(&mut cache, &collect), Ok(expected));
    assert_eq!(calls.get(), 2);
}

#[test]
fn shell_is_collected_at_most_once() {
    let calls = Cell::new(0u32);
    let collect = || {
        calls.set(calls.get() + 1);
        Reply { code: DRAC_SUCCESS, payload: text("fish") }
    };
    let expected = "fish".to_string();
    let mut cache = CacheManager::new();
    let first = get_shell(&mut cache, &collect);
    assert_eq!(first, Ok(expected));
    assert_eq!(calls.get(), 1);
    let second = get_shell(&mut cache, &collect);
    assert_eq!(second, first);
    assert_eq!(calls.get(), 1);
    let third = get_shell(&mut cache, || Reply { code: DRAC_SUCCESS, payload: text("other") });
    assert_eq!(third, first);
    let mut fresh = CacheManager::new();
    assert_eq!(get_shell(&mut fresh, &collect), first);
    assert_eq!(calls.get(), 2);
}

#[test]
fn shell_failure_is_not_cached() {
    let calls = Cell::new(0u32);
    let collect = || {
        calls.set(calls.get() + 1);
        if calls.get() == 1 {
            Reply { code: DRAC_ERROR_TIMEOUT, payload: text("other") }
        } else {
            Reply { code: DRAC_SUCCESS, payload: text("fish") }
        }
    };
    let expected = "fish".to_string();
    let mut cache = CacheManager::new();
    assert_eq!(get_shell(&mut cache, &collect), Err(ErrorCode::Timeout));
    assert_eq!(calls.get(), 1);
    assert_eq!(get_shell(&mut cache, &collect), Ok(expected.clone()));
    assert_eq!(calls.get(), 2);
    assert_eq!(get_shell(&mut cache, &collect), Ok(expected));
    assert_eq!(calls.get(), 2);
}

#[test]
fn host_is_collected_at_most_once() {
    let calls = Cell::new(0u32);
    let collect = || {
        calls.set(calls.get() + 1);
        Reply { code: DRAC_SUCCESS, payload: text("ThinkPad X1") }
    };
    let expected = "ThinkPad X1".to_string();
    let mut cache = CacheManager::new();
    let first = get_host(&mut cache, &collect);
    assert_eq!(first, Ok(expected));
    assert_eq!(calls.get(), 1);
    let second = get_host(&mut cache, &collect);
    assert_eq!(second, first);
    assert_eq!(calls.get(), 1);
    let third = get_host(&mut cache, || Reply { code: DRAC_SUCCESS, payload: text("other") });
    assert_eq!(third, first);
    let mut fresh = CacheManager::new();
    assert_eq!(get_host(&mut fresh, &collect), first);
    assert_eq!(calls.get(), 2);
}

#[test]
fn host_failure_is_not_cached() {
    let calls = Cell::new(0u32);
    let collect = || {
        calls.set(calls.get() + 1);
        if calls.get() == 1 {
            Reply { code: DRAC_ERROR_TIMEOUT, payload: text("other") }
        } else {
            Reply { code: DRAC_SUCCESS, payload: text("ThinkPad X1") }
        }
    };
    let expected = "ThinkPad X1".to_string();
    let mut cache = CacheManager::new();
    assert_eq!(get_host(&mut cache, &collect), Err(ErrorCode::Timeout));
    assert_eq!(calls.get(), 1);
    assert_eq!(get_host(&mut cache, &collect), Ok(expected.clone()));
    assert_eq!(calls.get(), 2);
    assert_eq!(get_host(&mut cache, &collect), Ok(expected));
    assert_eq!(calls.get(), 2);
}

#[test]
fn kernel_version_is_collected_at_most_once() {
    let calls = Cell::new(0u32);
    let collect = || {
        calls.set(calls.get() + 1);
        Reply { code: DRAC_SUCCESS, payload: text("6.9.1") }
    };
    let expected = "6.9.1".to_string();
    let mut cache = CacheManager::new();
    let first = get_kernel_version(&mut cache, &collect);
    assert_eq!(first, Ok(expected));
    assert_eq!(calls.get(), 1);
    let second = get_kernel_version(&mut cache, &collect);
    assert_eq!(second, first);
    assert_eq!(calls.get(), 1);
    let third = get_kernel_version(&mut cache, || Reply {
        code: DRAC_SUCCESS,
        payload: text("other"),
    });
    assert_eq!(third, first);
    let mut fresh = CacheManager::new();
    assert_eq!(get_kernel_version(&mut fresh, &collect), first);
    assert_eq!(calls.get(), 2);
}

#[test]
fn kernel_version_failure_is_not_cached() {
    let calls = Cell::new(0u32);
    let collect = || {
        calls.set(calls.get() + 1);
        if calls.get() == 1 {
            Reply { code: DRAC_ERROR_TIMEOUT, payload: text("other") }
        } else {
            Reply { code: DRAC_SUCCESS, payload: text("6.9.1") }
        }
    };
    let expected = "6.9.1".to_string();
    let mut cache = CacheManager::new();
    assert_eq!(get_kernel_version(&mut cache, &collect), Err(ErrorCode::Timeout));
    assert_eq!(calls.get(), 1);
    assert_eq!(get_kernel_version(&mut cache, &collect), Ok(expected.clone()));
    assert_eq!(calls.get(), 2);
    assert_eq!(get_kernel_version(&mut cache, &collect), Ok(expected));
    assert_eq!(calls.get(), 2);
}

#[test]
fn disk_usage_is_collected_at_most_once() {
    let calls = Cell::new(0u32);
    let collect = || {
        calls.set(calls.get() + 1);
        Reply { code: DRAC_SUCCESS, payload: usage(10, 100) }
    };
    let expected = usage(10, 100);
    let mut cache = CacheManager::new();
    let first = get_disk_usage(&mut cache, &collect);
    assert_eq!(first, Ok(expected));
    assert_eq!(calls.get(), 1);
    let second = get_disk_usage(&mut cache, &collect);
    assert_eq!(second, first);
    assert_eq!(calls.get(), 1);
    let third = get_disk_usage(&mut cache, || Reply { code: DRAC_SUCCESS, payload: usage(1, 2) });
    assert_eq!(third, first);
    let mut fresh = CacheManager::new();
    assert_eq!(get_disk_usage(&mut fresh, &collect), first);
    assert_eq!(calls.get(), 2);
}

#[test]
fn disk_usage_failure_is_not_cached() {
    let calls = Cell::new(0u32);
    let collect = || {
        calls.set(calls.get() + 1);
        if calls.get() == 1 {
            Reply { code: DRAC_ERROR_TIMEOUT, payload: usage(1, 2) }
        } else {
            Reply { code: DRAC_SUCCESS, payload: usage(10, 100) }
        }
    };
    let expected = usage(10, 100);
    let mut cache = CacheManager::new();
    assert_eq!(get_disk_usage(&mut cache, &collect), Err(ErrorCode::Timeout));
    assert_eq!(calls.get(), 1);
    assert_eq!(get_disk_usage(&mut cache, &collect), Ok(expected.clone()));
    assert_eq!(calls.get(), 2);
    assert_eq!(get_disk_usage(&mut cache, &collect), Ok(expected));
    assert_eq!(calls.get(), 2);
}

#[test]
fn disks_is_collected_at_most_once() {
    let calls = Cell::new(0u32);
    let collect = || {
        calls.set(calls.get() + 1);
        Reply { code: DRAC_SUCCESS, payload: vec![raw_disk(Some("sda")), raw_disk(None)] }
    };
    let expected = vec![disk("sda"), disk("")];
    let mut cache = CacheManager::new();
    let first = get_disks(&mut cache, &collect);
    assert_eq!(first, Ok(expected));
    assert_eq!(calls.get(), 1);
    let second = get_disks(&mut cache, &collect);
    assert_eq!(second, first);
    assert_eq!(calls.get(), 1);
    let third = get_disks(&mut cache, || Reply { code: DRAC_SUCCESS, payload: Vec::new() });
    assert_eq!(third, first);
    let mut fresh = CacheManager::new();
    assert_eq!(get_disks(&mut fresh, &collect), first);
    assert_eq!(calls.get(), 2);
}

#[test]
fn disks_failure_is_not_cached() {
    let calls = Cell::new(0u32);
    let collect = || {
        calls.set(calls.get() + 1);
        if calls.get() == 1 {
            Reply { code: DRAC_ERROR_TIMEOUT, payload: Vec::new() }
        } else {
            Reply { code: DRAC_SUCCESS, payload: vec![raw_disk(Some("sda")), raw_disk(None)] }
        }
    };
    let expected = vec![disk("sda"), disk("")];
    let mut cache = CacheManager::new();
    assert_eq!(get_disks(&mut cache, &collect), Err(ErrorCode::Timeout));
    assert_eq!(calls.get(), 1);
    assert_eq!(get_disks(&mut cache, &collect), Ok(expected.clone()));
    assert_eq!(calls.get(), 2);
    assert_eq!(get_disks(&mut cache, &collect), Ok(expected));
    assert_eq!(calls.get(), 2);
}

#[test]
fn system_disk_is_collected_at_most_once() {
    let calls = Cell::new(0u32);
    let collect = || {
        calls.set(calls.get() + 1);
        Reply { code: DRAC_SUCCESS, payload: raw_disk(Some("root")) }
    };
    let expected = disk("root");
    let mut cache = CacheManager::new();
    let first = get_system_disk(&mut cache, &collect);
    assert_eq!(first, Ok(expected));
    assert_eq!(calls.get(), 1);
    let second = get_system_disk(&mut cache, &collect);
    assert_eq!(second, first);
    assert_eq!(calls.get(), 1);
    let third = get_system_disk(&mut cache, || Reply {
        code: DRAC_SUCCESS,
        payload: raw_disk(None),
    });
    assert_eq!(third, first);
    let mut fresh = CacheManager::new();
    assert_eq!(get_system_disk(&mut fresh, &collect), first);
    assert_eq!(calls.get(), 2);
}

#[test]
fn system_disk_failure_is_not_cached() {
    let calls = Cell::new(0u32);
    let collect = || {
        calls.set(calls.get() + 1);
        if calls.get() == 1 {
            Reply { code: DRAC_ERROR_TIMEOUT, payload: raw_disk(None) }
        } else {
            Reply { code: DRAC_SUCCESS, payload: raw_disk(Some("root")) }
        }
    };
    let expected = disk("root");
    let mut cache = CacheManager::new();
    assert_eq!(get_system_disk(&mut cache, &collect), Err(ErrorCode::Timeout));
    assert_eq!(calls.get(), 1);
    assert_eq!(get_system_disk(&mut cache, &collect), Ok(expected.clone()));
    assert_eq!(calls.get(), 2);
    assert_eq!(get_system_disk(&mut cache, &collect), Ok(expected));
    assert_eq!(calls.get(), 2);
}

#[test]
fn outputs_is_collected_at_most_once() {
    let calls = Cell::new(0u32);
    let collect = || {
        calls.set(calls.get() + 1);
        Reply { code: DRAC_SUCCESS, payload: vec![display(1), display(2), display(3)] }
    };
    let expected = vec![display(1), display(2), display(3)];
    let mut cache = CacheManager::new();
    let first = get_outputs(&mut cache, &collect);
    assert_eq!(first, Ok(expected));
    assert_eq!(calls.get(), 1);
    let second = get_outputs(&mut cache, &collect);
    assert_eq!(second, first);
    assert_eq!(calls.get(), 1);
    let third = get_outputs(&mut cache, || Reply { code: DRAC_SUCCESS, payload: Vec::new() });
    assert_eq!(third, first);
    let mut fresh = CacheManager::new();
    assert_eq!(get_outputs(&mut fresh, &collect), first);
    assert_eq!(calls.get(), 2);
}

#[test]
fn outputs_failure_is_not_cached() {
    let calls = Cell::new(0u32);
    let collect = || {
        calls.set(calls.get() + 1);
        if calls.get() == 1 {
            Reply { code: DRAC_ERROR_TIMEOUT, payload: Vec::new() }
        } else {
            Reply { code: DRAC_SUCCESS, payload: vec![display(1), display(2), display(3)] }
        }
    };
    let expected = vec![display(1), display(2), display(3)];
    let mut cache = CacheManager::new();
    assert_eq!(get_outputs(&mut cache, &collect), Err(ErrorCode::Timeout));
    assert_eq!(calls.get(), 1);
    assert_eq!(get_outputs(&mut cache, &collect), Ok(expected.clone()));
    assert_eq!(calls.get(), 2);
    assert_eq!(get_outputs(&mut cache, &collect), Ok(expected));
    assert_eq!(calls.get(), 2);
}

#[test]
fn primary_output_is_collected_at_most_once() {
    let calls = Cell::new(0u32);
    let collect = || {
        calls.set(calls.get() + 1);
        Reply { code: DRAC_SUCCESS, payload: display(7) }
    };
    let expected = display(7);
    let mut cache = CacheManager::new();
    let first = get_primary_output(&mut cache, &collect);
    assert_eq!(first, Ok(expected));
    assert_eq!(calls.get(), 1);
    let second = get_primary_output(&mut cache, &collect);
    assert_eq!(second, first);
    assert_eq!(calls.get(), 1);
    let third = get_primary_output(&mut cache, || Reply {
        code: DRAC_SUCCESS,
        payload: display(8),
    });
    assert_eq!(third, first);
    let mut fresh = CacheManager::new();
    assert_eq!(get_primary_output(&mut fresh, &collect), first);
    assert_eq!(calls.get(), 2);
}

#[test]
fn primary_output_failure_is_not_cached() {
    let calls = Cell::new(0u32);
    let collect = || {
        calls.set(calls.get() + 1);
        if calls.get() == 1 {
            Reply { code: DRAC_ERROR_TIMEOUT, payload: display(8) }
        } else {
            Reply { code: DRAC_SUCCESS, payload: display(7) }
        }
    };
    let expected = display(7);
    let mut cache = CacheManager::new();
    assert_eq!(get_primary_output(&mut cache, &collect), Err(ErrorCode::Timeout));
    assert_eq!(calls.get(), 1);
    assert_eq!(get_primary_output(&mut cache, &collect), Ok(expected.clone()));
    assert_eq!(calls.get(), 2);
    assert_eq!(get_primary_output(&mut cache, &collect), Ok(expected));
    assert_eq!(calls.get(), 2);
}

#[test]
fn network_interfaces_is_collected_at_most_once() {
    let calls = Cell::new(0u32);
    let collect = || {
        calls.set(calls.get() + 1);
        Reply { code: DRAC_SUCCESS, payload: vec![raw_interface(Some("lo")), raw_interface(None)] }
    };
    let expected = vec![interface("lo"), interface("")];
    let mut cache = CacheManager::new();
    let first = get_network_interfaces(&mut cache, &collect);
    assert_eq!(first, Ok(expected));
    assert_eq!(calls.get(), 1);
    let second = get_network_interfaces(&mut cache, &collect);
    assert_eq!(second, first);
    assert_eq!(calls.get(), 1);
    let third = get_network_interfaces(&mut cache, || Reply {
        code: DRAC_SUCCESS,
        payload: Vec::new(),
    });
    assert_eq!(third, first);
    let mut fresh = CacheManager::new();
    assert_eq!(get_network_interfaces(&mut fresh, &collect), first);
    assert_eq!(calls.get(), 2);
}

#[test]
fn network_interfaces_failure_is_not_cached() {
    let calls = Cell::new(0u32);
    let collect = || {
        calls.set(calls.get() + 1);
        if calls.get() == 1 {
            Reply { code: DRAC_ERROR_TIMEOUT, payload: Vec::new() }
        } else {
            Reply {
                code: DRAC_SUCCESS,
                payload: vec![raw_interface(Some("lo")), raw_interface(None)],
            }
        }
    };
    let expected = vec![interface("lo"), interface("")];
    let mut cache = CacheManager::new();
    assert_eq!(get_network_interfaces(&mut cache, &collect), Err(ErrorCode::Timeout));
    assert_eq!(calls.get(), 1);
    assert_eq!(get_network_interfaces(&mut cache, &collect), Ok(expected.clone()));
    assert_eq!(calls.get(), 2);
    assert_eq!(get_network_interfaces(&mut cache, &collect), Ok(expected));
    assert_eq!(calls.get(), 2);
}

#[test]
fn primary_network_interface_is_collected_at_most_once() {
    let calls = Cell::new(0u32);
    let collect = || {
        calls.set(calls.get() + 1);
        Reply { code: DRAC_SUCCESS, payload: raw_interface(Some("eth0")) }
    };
    let expected = interface("eth0");
    let mut cache = CacheManager::new();
    let first = get_primary_network_interface(&mut cache, &collect);
    assert_eq!(first, Ok(expected));
    assert_eq!(calls.get(), 1);
    let second = get_primary_network_interface(&mut cache, &collect);
    assert_eq!(second, first);
    assert_eq!(calls.get(), 1);
    let third = get_primary_network_interface(&mut cache, || Reply {
        code: DRAC_SUCCESS,
        payload: raw_interface(None),
    });
    assert_eq!(third, first);
    let mut fresh = CacheManager::new();
    assert_eq!(get_primary_network_interface(&mut fresh, &collect), first);
    assert_eq!(calls.get(), 2);
}

#[test]
fn primary_network_interface_failure_is_not_cached() {
    let calls = Cell::new(0u32);
    let collect = || {
        calls.set(calls.get() + 1);
        if calls.get() == 1 {
            Reply { code: DRAC_ERROR_TIMEOUT, payload: raw_interface(None) }
        } else {
            Reply { code: DRAC_SUCCESS, payload: raw_interface(Some("eth0")) }
        }
    };
    let expected = interface("eth0");
    let mut cache = CacheManager::new();
    assert_eq!(get_primary_network_interface(&mut cache, &collect), Err(ErrorCode::Timeout));
    assert_eq!(calls.get(), 1);
    assert_eq!(get_primary_network_interface(&mut cache, &collect), Ok(expected.clone()));
    assert_eq!(calls.get(), 2);
    assert_eq!(get_primary_network_interface(&mut cache, &collect), Ok(expected));
    assert_eq!(calls.get(), 2);
}
