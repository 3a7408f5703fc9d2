use ash::vk::PhysicalDeviceType;
use vk_bootstrap::error::BootstrapError;
use vk_bootstrap::physical_device::{
    select_physical_device, select_with, DeviceScorer, LastDiscrete, PhysicalDeviceInfo,
    DISCRETE_GPU,
};

fn device(kind: PhysicalDeviceType, name: &str) -> PhysicalDeviceInfo {
    PhysicalDeviceInfo::new(kind.as_raw(), name.to_string())
}

#[test]
fn discrete_code_is_the_one_of_the_api() {
    assert_eq!(DISCRETE_GPU, PhysicalDeviceType::DISCRETE_GPU.as_raw());
}

#[test]
fn only_the_discrete_type_counts_as_discrete() {
    assert!(device(PhysicalDeviceType::DISCRETE_GPU, "d").discrete());
    assert!(!device(PhysicalDeviceType::OTHER, "o").discrete());
    assert!(!device(PhysicalDeviceType::INTEGRATED_GPU, "i").discrete());
    assert!(!device(PhysicalDeviceType::VIRTUAL_GPU, "v").discrete());
    assert!(!device(PhysicalDeviceType::CPU, "c").discrete());
    assert!(!PhysicalDeviceInfo::new(-1, "n".to_string()).discrete());
}

#[test]
fn last_of_two_discrete_devices_is_selected() {
    let devices = vec![
        device(PhysicalDeviceType::INTEGRATED_GPU, "I"),
        device(PhysicalDeviceType::DISCRETE_GPU, "X"),
        device(PhysicalDeviceType::DISCRETE_GPU, "Y"),
    ];
    let chosen = select_physical_device(&devices);
    assert_eq!(chosen, Ok(2));
    assert_eq!(devices[chosen.unwrap()].name, "Y");
}

#[test]
fn integrated_device_alone_is_not_suitable() {
    let devices = vec![device(PhysicalDeviceType::INTEGRATED_GPU, "I")];
    assert_eq!(select_physical_device(&devices), Err(BootstrapError::NoSuitableDevice));
}

#[test]
fn empty_enumeration_has_no_suitable_device() {
    let devices: Vec<PhysicalDeviceInfo> = Vec::new();
    assert_eq!(select_physical_device(&devices), Err(BootstrapError::NoSuitableDevice));
}

#[test]
fn no_fallback_to_virtual_cpu_or_other_devices() {
    let devices = vec![
        device(PhysicalDeviceType::VIRTUAL_GPU, "V"),
        device(PhysicalDeviceType::CPU, "C"),
        device(PhysicalDeviceType::OTHER, "O"),
        device(PhysicalDeviceType::INTEGRATED_GPU, "I"),
    ];
    assert_eq!(select_physical_device(&devices), Err(BootstrapError::NoSuitableDevice));
}

#[test]
fn discrete_device_is_found_at_any_position() {
    let first = vec![
        device(PhysicalDeviceType::DISCRETE_GPU, "D"),
        device(PhysicalDeviceType::INTEGRATED_GPU, "I"),
        device(PhysicalDeviceType::CPU, "C"),
    ];
    assert_eq!(select_physical_device(&first), Ok(0));
    let middle = vec![
        device(PhysicalDeviceType::INTEGRATED_GPU, "I"),
        device(PhysicalDeviceType::DISCRETE_GPU, "D"),
        device(PhysicalDeviceType::VIRTUAL_GPU, "V"),
    ];
    assert_eq!(select_physical_device(&middle), Ok(1));
    let only = vec![device(PhysicalDeviceType::DISCRETE_GPU, "D")];
    assert_eq!(select_physical_device(&only), Ok(0));
}

#[test]
fn selection_always_returns_a_discrete_device() {
    let kinds = [
        PhysicalDeviceType::OTHER,
        PhysicalDeviceType::INTEGRATED_GPU,
        PhysicalDeviceType::DISCRETE_GPU,
        PhysicalDeviceType::VIRTUAL_GPU,
    ];
    for a in 0..4 {
        for b in 0..4 {
            for c in 0..4 {
                let devices =
                    vec![device(kinds[a], "a"), device(kinds[b], "b"), device(kinds[c], "c")];
                let expected = devices.iter().rposition(|d| d.device_type == DISCRETE_GPU);
                match select_physical_device(&devices) {
                    Ok(i) => {
                        assert!(devices[i].discrete());
                        assert_eq!(Some(i), expected);
                    }
                    Err(e) => {
                        assert_eq!(e, BootstrapError::NoSuitableDevice);
                        assert_eq!(expected, None);
                    }
                }
            }
        }
    }
}

/// Rates adapters by the length of their name; unnamed ones are left out.
struct LongestName;

impl DeviceScorer for LongestName {
    fn rating(&self, device: &PhysicalDeviceInfo) -> Option<u64> {
        if device.name.is_empty() {
            None
        } else {
            Some(device.name.len() as u64)
        }
    }

    fn score(&self, device: &PhysicalDeviceInfo) -> Option<u64> {
        self.rating(device)
    }
}

#[test]
fn default_policy_is_the_last_discrete_device() {
    let devices = vec![
        device(PhysicalDeviceType::DISCRETE_GPU, "X"),
        device(PhysicalDeviceType::INTEGRATED_GPU, "I"),
        device(PhysicalDeviceType::DISCRETE_GPU, "Y"),
        device(PhysicalDeviceType::CPU, "C"),
    ];
    assert_eq!(LastDiscrete.score(&devices[0]), Some(0));
    assert_eq!(LastDiscrete.score(&devices[1]), None);
    assert_eq!(select_with(&LastDiscrete, &devices), Ok(2));
    assert_eq!(select_with(&LastDiscrete, &devices), select_physical_device(&devices));
    let none = vec![device(PhysicalDeviceType::INTEGRATED_GPU, "I")];
    assert_eq!(select_with(&LastDiscrete, &none), Err(BootstrapError::NoSuitableDevice));
}

#[test]
fn another_policy_takes_the_last_of_its_best() {
    let devices = vec![
        device(PhysicalDeviceType::INTEGRATED_GPU, "long name"),
        device(PhysicalDeviceType::DISCRETE_GPU, "short"),
        device(PhysicalDeviceType::CPU, "same size"),
        device(PhysicalDeviceType::DISCRETE_GPU, ""),
    ];
    assert_eq!(select_with(&LongestName, &devices), Ok(2));
    let unnamed = vec![device(PhysicalDeviceType::DISCRETE_GPU, "")];
    assert_eq!(select_with(&LongestName, &unnamed), Err(BootstrapError::NoSuitableDevice));
    assert_eq!(select_with(&LongestName, &Vec::new()), Err(BootstrapError::NoSuitableDevice));
}
