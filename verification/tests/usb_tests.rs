use akriveia::usb::{
    find_readable_endpoint, get_speed, ConfigDescriptor, Direction, Endpoint, EndpointDescriptor, Interface,
    InterfaceDescriptor, Speed, TransferType,
};

fn ep(address: u8, direction: Direction, transfer_type: TransferType) -> EndpointDescriptor {
    EndpointDescriptor { address, direction, transfer_type }
}

fn setting(iface: u8, setting: u8, endpoints: Vec<EndpointDescriptor>) -> InterfaceDescriptor {
    InterfaceDescriptor { interface_number: iface, setting_number: setting, endpoints }
}

#[test]
fn the_first_input_interrupt_or_bulk_endpoint_is_read() {
    let configs = vec![
        None,
        Some(ConfigDescriptor {
            number: 1,
            interfaces: vec![
                Interface {
                    descriptors: vec![setting(0, 0, vec![
                        ep(0x01, Direction::Out, TransferType::Bulk),
                        ep(0x82, Direction::In, TransferType::Isochronous),
                    ])],
                },
                Interface {
                    descriptors: vec![
                        setting(1, 0, vec![]),
                        setting(1, 1, vec![
                            ep(0x83, Direction::In, TransferType::Bulk),
                            ep(0x84, Direction::In, TransferType::Interrupt),
                        ]),
                    ],
                },
            ],
        }),
    ];
    assert_eq!(
        find_readable_endpoint(&configs),
        Some(Endpoint { config: 1, iface: 1, setting: 1, address: 0x83, transfer_type: TransferType::Bulk })
    );
}

#[test]
fn a_device_without_input_endpoints_has_none() {
    let configs = vec![Some(ConfigDescriptor {
        number: 2,
        interfaces: vec![Interface {
            descriptors: vec![setting(0, 0, vec![
                ep(0x01, Direction::Out, TransferType::Interrupt),
                ep(0x80, Direction::In, TransferType::Control),
            ])],
        }],
    })];
    assert_eq!(find_readable_endpoint(&configs), None);
    assert_eq!(find_readable_endpoint(&vec![None, None]), None);
}

#[test]
fn speeds_are_printed_aligned() {
    assert_eq!(get_speed(Speed::Super), "5000 Mbps");
    assert_eq!(get_speed(Speed::High), " 480 Mbps");
    assert_eq!(get_speed(Speed::Full), "  12 Mbps");
    assert_eq!(get_speed(Speed::Low), " 1.5 Mbps");
    assert_eq!(get_speed(Speed::Unknown), "(unknown)");
}
