use gpu_offload::catalog::{
    find_queue_family, score_device, AcceleratorDescriptor, DeviceSelectionError, PhysicalDevice,
    DEVICE_TYPE_CPU, DEVICE_TYPE_DISCRETE_GPU, DEVICE_TYPE_INTEGRATED_GPU, DEVICE_TYPE_OTHER,
    DEVICE_TYPE_VIRTUAL_GPU, QUEUE_COMPUTE, QUEUE_TRANSFER,
};

const GRAPHICS: u32 = 0x1;
const BOTH: u32 = QUEUE_COMPUTE | QUEUE_TRANSFER;

fn chosen(catalog: &Vec<AcceleratorDescriptor>) -> Result<(usize, usize), DeviceSelectionError> {
    PhysicalDevice::find_device(catalog).map(|p| (p.index(), p.queue_family()))
}

fn device(device_type: i32, queue_families: Vec<u32>) -> AcceleratorDescriptor {
    AcceleratorDescriptor { device_type, queue_families, memory_types: vec![0x1, 0x6] }
}

#[test]
fn selection_fails_without_compute_transfer_family() {
    let catalog = vec![
        device(DEVICE_TYPE_DISCRETE_GPU, vec![GRAPHICS, QUEUE_COMPUTE]),
        device(DEVICE_TYPE_INTEGRATED_GPU, vec![QUEUE_TRANSFER]),
        device(DEVICE_TYPE_VIRTUAL_GPU, vec![]),
    ];
    assert_eq!(chosen(&catalog), Err(DeviceSelectionError::NoSuitableDevice));
}

#[test]
fn selection_fails_on_empty_catalog() {
    assert_eq!(chosen(&vec![]), Err(DeviceSelectionError::NoSuitableDevice));
}

#[test]
fn selection_prefers_discrete() {
    let catalog = vec![
        device(DEVICE_TYPE_INTEGRATED_GPU, vec![BOTH]),
        device(DEVICE_TYPE_VIRTUAL_GPU, vec![BOTH]),
        device(DEVICE_TYPE_DISCRETE_GPU, vec![GRAPHICS, BOTH | GRAPHICS]),
        device(DEVICE_TYPE_OTHER, vec![BOTH]),
    ];
    assert_eq!(chosen(&catalog), Ok((2, 1)));
}

#[test]
fn selection_tie_goes_to_first_found() {
    let catalog = vec![
        device(DEVICE_TYPE_CPU, vec![BOTH]),
        device(DEVICE_TYPE_INTEGRATED_GPU, vec![GRAPHICS, BOTH]),
        device(DEVICE_TYPE_INTEGRATED_GPU, vec![BOTH]),
    ];
    assert_eq!(chosen(&catalog), Ok((1, 1)));
}

#[test]
fn selection_skips_discrete_without_family() {
    let catalog = vec![
        device(DEVICE_TYPE_DISCRETE_GPU, vec![GRAPHICS | QUEUE_COMPUTE]),
        device(DEVICE_TYPE_OTHER, vec![BOTH]),
    ];
    assert_eq!(chosen(&catalog), Ok((1, 0)));
}

#[test]
fn queue_family_is_first_with_both_bits() {
    assert_eq!(find_queue_family(&vec![GRAPHICS, QUEUE_COMPUTE, BOTH | GRAPHICS, BOTH]), Some(2));
    assert_eq!(find_queue_family(&vec![QUEUE_COMPUTE, QUEUE_TRANSFER]), None);
    assert_eq!(find_queue_family(&vec![]), None);
}

#[test]
fn device_scores_by_class() {
    assert_eq!(score_device(&device(DEVICE_TYPE_DISCRETE_GPU, vec![BOTH])), 3);
    assert_eq!(score_device(&device(DEVICE_TYPE_INTEGRATED_GPU, vec![BOTH])), 2);
    assert_eq!(score_device(&device(DEVICE_TYPE_VIRTUAL_GPU, vec![BOTH])), 1);
    assert_eq!(score_device(&device(DEVICE_TYPE_OTHER, vec![BOTH])), 0);
    assert_eq!(score_device(&device(DEVICE_TYPE_CPU, vec![BOTH])), 0);
    assert_eq!(score_device(&device(7, vec![BOTH])), -1);
    assert_eq!(score_device(&device(DEVICE_TYPE_DISCRETE_GPU, vec![GRAPHICS])), -1);
}
