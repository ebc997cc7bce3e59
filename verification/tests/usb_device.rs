use mx002::physical_device::{
    InitAction, InitReply, OpenStep, PhysicalDevice, ReadRequest, ReportStep, ResetStep,
};
use mx002::usb::{
    get_configurations, get_hid_interface_descriptors, Configuration, DeviceIds, Direction,
    EndpointDescriptor, Interface, InterfaceDescriptor, TransferType, UsbError,
};

fn endpoint(address: u8, transfer_type: TransferType, max_packet_size: u16) -> EndpointDescriptor {
    let direction = if address >= 0x80 { Direction::In } else { Direction::Out };
    EndpointDescriptor { address, direction, transfer_type, max_packet_size }
}

fn descriptor(
    interface_number: u8,
    class_code: u8,
    endpoints: Vec<EndpointDescriptor>,
) -> InterfaceDescriptor {
    InterfaceDescriptor { interface_number, class_code, endpoints }
}

fn tablet() -> Vec<Configuration> {
    vec![
        Configuration {
            interfaces: vec![
                Interface {
                    descriptors: vec![
                        descriptor(0, 3, vec![endpoint(0x81, TransferType::Interrupt, 64)]),
                        descriptor(0, 8, vec![endpoint(0x82, TransferType::Interrupt, 64)]),
                    ],
                },
                Interface { descriptors: vec![] },
            ],
        },
        Configuration { interfaces: vec![] },
        Configuration {
            interfaces: vec![Interface {
                descriptors: vec![descriptor(
                    2,
                    3,
                    vec![
                        endpoint(0x83, TransferType::Interrupt, 64),
                        endpoint(0x84, TransferType::Interrupt, 64),
                        endpoint(0x85, TransferType::Interrupt, 8),
                        endpoint(0x86, TransferType::Bulk, 64),
                        endpoint(0x07, TransferType::Interrupt, 64),
                    ],
                )],
            }],
        },
    ]
}

fn opened() -> PhysicalDevice {
    match PhysicalDevice::new(1, Ok(())) {
        OpenStep::Opened(device) => device,
        _ => panic!("not opened"),
    }
}

fn ok() -> InitReply {
    InitReply::Outcome(Ok(()))
}

fn err(error: UsbError) -> InitReply {
    InitReply::Outcome(Err(error))
}

fn configured() -> PhysicalDevice {
    let mut device = opened();
    assert_eq!(device.init(), InitAction::EnableAutoDetach);
    assert_eq!(device.init_reply(ok()), InitAction::ReadDeviceDescriptor);
    assert_eq!(
        device.init_reply(InitReply::DeviceDescriptor(Ok(4))),
        InitAction::ReadConfigurations { count: 4 }
    );
    device
}

fn replies() -> Vec<Result<Configuration, UsbError>> {
    let mut replies: Vec<Result<Configuration, UsbError>> =
        tablet().into_iter().map(Ok).collect();
    replies.insert(1, Err(UsbError::NotFound));
    replies
}

#[test]
fn opening_is_repeated_and_given_up() {
    for attempt in 1..10 {
        assert!(matches!(
            PhysicalDevice::new(attempt, Err(UsbError::Access)),
            OpenStep::Retry { delay_ms: 500, attempt: next } if next == attempt + 1
        ));
    }
    assert!(matches!(
        PhysicalDevice::new(10, Err(UsbError::Busy)),
        OpenStep::GiveUp { delay_ms: 500, error: UsbError::Busy }
    ));
    assert!(matches!(PhysicalDevice::new(10, Ok(())), OpenStep::Opened(_)));
}

#[test]
fn fresh_device_reads_from_the_zeroth_endpoint() {
    let device = opened();
    assert_eq!(device.endpoint_address(), 0);
    assert_eq!(device.read_device_responses(), ReadRequest { endpoint: 0, timeout_ms: 3000 });
}

#[test]
fn target_device_is_the_first_match() {
    let ids = |vendor_id, product_id| Ok(DeviceIds { vendor_id, product_id });
    assert!(PhysicalDevice::is_target_device(1, 2, ids(1, 2)));
    assert!(!PhysicalDevice::is_target_device(1, 2, ids(2, 1)));
    assert!(!PhysicalDevice::is_target_device(1, 2, ids(1, 3)));
    assert!(!PhysicalDevice::is_target_device(1, 2, Err(UsbError::Io)));
    let devices = vec![ids(1, 3), Err(UsbError::Io), ids(1, 2), ids(1, 2)];
    assert_eq!(PhysicalDevice::get_target_device(1, 2, &devices), Ok(2));
    assert_eq!(PhysicalDevice::get_target_device(9, 9, &devices), Err(UsbError::NoDevice));
    assert_eq!(PhysicalDevice::get_target_device(1, 2, &vec![]), Err(UsbError::NoDevice));
}

#[test]
fn hid_descriptors_come_in_order() {
    let found = get_hid_interface_descriptors(&tablet());
    let numbers: Vec<u8> = found.iter().map(|d| d.interface_number).collect();
    assert_eq!(numbers, vec![0, 2]);
    assert_eq!(found[0].endpoints, vec![endpoint(0x81, TransferType::Interrupt, 64)]);
    assert_eq!(found[1].endpoints.len(), 5);
}

#[test]
fn unreadable_configurations_are_left_out() {
    let read = get_configurations(replies());
    let counts: Vec<usize> = read.iter().map(|c| c.interfaces.len()).collect();
    assert_eq!(counts, vec![2, 0, 1]);
}

#[test]
fn init_claims_and_resets() {
    let mut device = configured();
    assert_eq!(
        device.init_reply(InitReply::Configurations(replies())),
        InitAction::ClaimInterface { number: 0 }
    );
    assert_eq!(device.endpoint_address(), 0);
    assert_eq!(device.init_reply(ok()), InitAction::ClaimInterface { number: 2 });
    assert_eq!(device.endpoint_address(), 0x81);
    assert_eq!(device.init_reply(ok()), InitAction::Reset);
    assert_eq!(device.endpoint_address(), 0x84);
    assert_eq!(device.init_reply(ok()), InitAction::Succeed);
    assert_eq!(device.read_device_responses(), ReadRequest { endpoint: 0x84, timeout_ms: 3000 });
}

#[test]
fn init_without_interfaces_goes_on_to_the_reset() {
    let mut device = configured();
    assert_eq!(device.init_reply(InitReply::Configurations(vec![])), InitAction::Reset);
    assert_eq!(device.init_reply(ok()), InitAction::Succeed);
    assert_eq!(device.endpoint_address(), 0);
}

#[test]
fn init_reports_the_first_failure() {
    let mut device = opened();
    device.init();
    assert_eq!(
        device.init_reply(err(UsbError::NotSupported)),
        InitAction::Fail { error: UsbError::NotSupported }
    );

    device.init();
    device.init_reply(ok());
    assert_eq!(
        device.init_reply(InitReply::DeviceDescriptor(Err(UsbError::Io))),
        InitAction::Fail { error: UsbError::Io }
    );

    let mut device = configured();
    device.init_reply(InitReply::Configurations(replies()));
    device.init_reply(ok());
    assert_eq!(
        device.init_reply(err(UsbError::NotFound)),
        InitAction::Fail { error: UsbError::NotFound }
    );
    assert_eq!(device.endpoint_address(), 0x81);
}

#[test]
fn init_repeats_the_reset_once() {
    let mut device = configured();
    device.init_reply(InitReply::Configurations(vec![]));
    assert_eq!(
        device.init_reply(err(UsbError::NotFound)),
        InitAction::ResetAfter { delay_ms: 500 }
    );
    assert_eq!(
        device.init_reply(err(UsbError::NotFound)),
        InitAction::Fail { error: UsbError::NotFound }
    );

    let mut device = configured();
    device.init_reply(InitReply::Configurations(vec![]));
    device.init_reply(err(UsbError::NotFound));
    assert_eq!(device.init_reply(ok()), InitAction::Succeed);
}

#[test]
fn reset_is_retried_once() {
    assert_eq!(PhysicalDevice::reset(true, Ok(())), ResetStep::Done);
    assert_eq!(
        PhysicalDevice::reset(true, Err(UsbError::NotFound)),
        ResetStep::RetryAfter { delay_ms: 500 }
    );
    assert_eq!(
        PhysicalDevice::reset(true, Err(UsbError::NoDevice)),
        ResetStep::Fail { error: UsbError::NoDevice }
    );
    assert_eq!(
        PhysicalDevice::reset(false, Err(UsbError::NotFound)),
        ResetStep::Fail { error: UsbError::NotFound }
    );
    assert_eq!(PhysicalDevice::reset(false, Ok(())), ResetStep::Done);
}

#[test]
fn full_mode_is_one_report() {
    let transfers = PhysicalDevice::set_full_mode();
    assert_eq!(transfers.len(), 1);
    assert_eq!(transfers[0].request_type, 0x21);
    assert_eq!(transfers[0].request, 0x09);
    assert_eq!(transfers[0].value, 0x0308);
    assert_eq!(transfers[0].index, 2);
    assert_eq!(transfers[0].data, vec![0x08, 0x03, 0x00, 0xff, 0xf0, 0x00, 0xff, 0xf0]);
    assert_eq!(transfers[0].timeout_ms, 250);
}

#[test]
fn reports_are_set_in_order() {
    let transfers = PhysicalDevice::set_report(vec![vec![1, 2], vec![], vec![3]]);
    let data: Vec<Vec<u8>> = transfers.into_iter().map(|t| t.data).collect();
    assert_eq!(data, vec![vec![1, 2], vec![], vec![3]]);
    assert!(PhysicalDevice::set_report(vec![]).is_empty());
}

#[test]
fn reports_are_set_until_a_failure() {
    let step = PhysicalDevice::set_report_reply;
    assert_eq!(step(0, 0, Ok(())), ReportStep::Done);
    assert_eq!(step(2, 0, Ok(())), ReportStep::Write { place: 0 });
    assert_eq!(step(2, 1, Ok(())), ReportStep::Write { place: 1 });
    assert_eq!(step(2, 2, Ok(())), ReportStep::Done);
    assert_eq!(step(2, 1, Err(UsbError::Pipe)), ReportStep::Fail { error: UsbError::Pipe });
}
