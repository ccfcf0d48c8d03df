use driver::chroma::{Color, ExtendedMatrixEffect};
use driver::common::{
    Dpi, DpiStages, ExtendedPollingRate, NormalPollingRate, PollingRate, VarStoreId,
};
use driver::devices::{
    find_first_duplicate, registry, resolve, DeviceProfile, Operation, OperationSet,
    PollingRateKinds, DEATHADDER_V2_PRO_WIRELESS,
};
use driver::error::{DriverError, ValidationFailure};
use driver::message::RazerMessageBuilder;
use driver::transport::{
    usb_in_message, usb_out_message, ControlType, Recipient,
};

const ALL: [Operation; 9] = [
    Operation::GetDpi,
    Operation::SetDpi,
    Operation::GetDpiStages,
    Operation::SetDpiStages,
    Operation::GetPollingRate,
    Operation::SetPollingRate,
    Operation::GetBatteryLevel,
    Operation::GetChargingStatus,
    Operation::ChromaLogoMatrixEffect,
];

fn profile(id: u16) -> DeviceProfile {
    DeviceProfile {
        product_id: id,
        transaction_id: 0x1f,
        var_store: VarStoreId::VarStore,
        dpi_range: Some((100, 20000)),
        polling_rates: PollingRateKinds { normal: false, extended: true },
        operations: OperationSet::all(),
    }
}

#[test]
fn deathadder_v2_pro_wireless_resolves() {
    let found = resolve(0x007D).unwrap();
    assert_eq!(found.product_id, DEATHADDER_V2_PRO_WIRELESS);
    assert_eq!(found.transaction_id, 0x3f);
    assert_eq!(found.var_store, VarStoreId::NoStore);
    assert_eq!(found.dpi_range, Some((100, 35000)));
    assert_eq!(found.polling_rates, PollingRateKinds { normal: true, extended: false });
    for operation in ALL {
        assert!(found.supports(operation));
    }
    assert_eq!(found.operations(), ALL.to_vec());
}

#[test]
fn unknown_product_is_an_unsupported_device() {
    assert_eq!(resolve(0xFFFF), Err(DriverError::UnsupportedDevice));
    assert_eq!(resolve(0x0000), Err(DriverError::UnsupportedDevice));
    assert_eq!(resolve(0x007C), Err(DriverError::UnsupportedDevice));
    assert_eq!(resolve(0x007E), Err(DriverError::UnsupportedDevice));
}

#[test]
fn resolve_agrees_with_the_table_for_every_id() {
    let table = registry();
    for id in 0..=u16::MAX {
        let listed = table.iter().find(|p| p.product_id == id).copied();
        match resolve(id) {
            Ok(found) => assert_eq!(Some(found), listed),
            Err(e) => {
                assert_eq!(e, DriverError::UnsupportedDevice);
                assert_eq!(listed, None);
            }
        }
    }
}

#[test]
fn the_table_has_no_duplicate_product_id() {
    assert_eq!(find_first_duplicate(&registry()), None);
}

#[test]
fn find_first_duplicate_finds_the_first_repeat() {
    assert_eq!(find_first_duplicate(&vec![]), None);
    assert_eq!(find_first_duplicate(&vec![profile(1)]), None);
    assert_eq!(find_first_duplicate(&vec![profile(1), profile(2), profile(3)]), None);
    assert_eq!(find_first_duplicate(&vec![profile(1), profile(1)]), Some(1));
    assert_eq!(find_first_duplicate(&vec![profile(1), profile(2), profile(1)]), Some(2));
    assert_eq!(
        find_first_duplicate(&vec![profile(1), profile(2), profile(3), profile(2), profile(1)]),
        Some(3)
    );
    assert_eq!(
        find_first_duplicate(&vec![profile(7), profile(8), profile(8), profile(7)]),
        Some(2)
    );
}

#[test]
fn operation_sets() {
    let none = OperationSet::empty();
    let all = OperationSet::all();
    for operation in ALL {
        assert!(!none.contains(operation));
        assert!(all.contains(operation));
        let one = none.with(operation, true);
        let rest = all.with(operation, false);
        for other in ALL {
            assert_eq!(one.contains(other), other == operation);
            assert_eq!(rest.contains(other), other != operation);
        }
    }
}

#[test]
fn operations_lists_exactly_what_is_supported() {
    let mut device = profile(1);
    device.operations = OperationSet::empty()
        .with(Operation::GetBatteryLevel, true)
        .with(Operation::GetDpi, true);
    assert_eq!(device.operations(), vec![Operation::GetDpi, Operation::GetBatteryLevel]);
    device.operations = OperationSet::empty();
    assert_eq!(device.operations(), vec![]);
}

#[test]
fn operation_names_and_kinds() {
    let names = [
        "get_dpi",
        "set_dpi",
        "get_dpi_stages",
        "set_dpi_stages",
        "get_polling_rate",
        "set_polling_rate",
        "get_battery_level",
        "get_charging_status",
        "chroma_logo_matrix_effect",
    ];
    for (operation, name) in ALL.iter().zip(names) {
        assert_eq!(operation.name(), name);
        assert_eq!(Operation::from_name(name), Some(*operation));
        assert_eq!(operation.expects_response(), name.starts_with("get_"));
    }
}

#[test]
fn a_name_that_is_no_operation() {
    for name in ["", "get", "get_dpi ", "Get_dpi", "get_dpi_stage", "set_polling_rate_extended"] {
        assert_eq!(Operation::from_name(name), None);
    }
}

#[test]
fn requests_carry_the_transaction_id_of_the_profile() {
    let device = resolve(0x007D).unwrap();
    let request = device.get_dpi_request().unwrap();
    assert_eq!(
        request,
        RazerMessageBuilder::get_dpi(VarStoreId::NoStore).with_transaction_id(0x3f).build()
    );
    assert_eq!(request.transaction_id, 0x3f);
    assert_eq!(request.arguments[0], 0x00);

    let other = profile(1);
    let request = other.get_dpi_request().unwrap();
    assert_eq!(request.transaction_id, 0x1f);
    assert_eq!(request.arguments[0], 0x01);
}

#[test]
fn each_request_is_the_sealed_command() {
    let device = resolve(0x007D).unwrap();
    let seal = |b: RazerMessageBuilder| b.with_transaction_id(0x3f).build();
    let table = DpiStages::new(1, vec![(800, 800), (1600, 1600)]).unwrap();
    let red = Color { r: 255, g: 0, b: 0 };

    assert_eq!(
        device.set_dpi_request(Dpi::from(40000)),
        Ok(seal(RazerMessageBuilder::set_dpi(VarStoreId::NoStore, Dpi::from(35000))))
    );
    assert_eq!(
        device.get_dpi_stages_request(),
        Ok(seal(RazerMessageBuilder::get_dpi_stages(VarStoreId::VarStore)))
    );
    assert_eq!(
        device.set_dpi_stages_request(&table),
        Ok(seal(RazerMessageBuilder::set_dpi_stages(VarStoreId::VarStore, &table)))
    );
    assert_eq!(
        device.get_polling_rate_request(),
        Ok(seal(RazerMessageBuilder::get_polling_rate()))
    );
    assert_eq!(
        device.set_polling_rate_request(PollingRate::Normal(NormalPollingRate::Rate500)),
        Ok(seal(RazerMessageBuilder::set_polling_rate(NormalPollingRate::Rate500)))
    );
    assert_eq!(
        device.get_battery_level_request(),
        Ok(seal(RazerMessageBuilder::get_battery_level()))
    );
    assert_eq!(
        device.get_charging_status_request(),
        Ok(seal(RazerMessageBuilder::get_charging_status()))
    );
    assert_eq!(
        device.chroma_logo_matrix_effect_request(ExtendedMatrixEffect::Static(red)),
        Ok(seal(RazerMessageBuilder::chroma_extended_matrix_effect(
            VarStoreId::VarStore,
            driver::chroma::LedId::Logo,
            ExtendedMatrixEffect::Static(red)
        )))
    );
}

#[test]
fn extended_device_takes_extended_rates() {
    let device = profile(1);
    assert_eq!(
        device.set_polling_rate_request(PollingRate::Extended(ExtendedPollingRate::Rate4000)),
        Ok(RazerMessageBuilder::set_polling_rate_extended(ExtendedPollingRate::Rate4000)
            .with_transaction_id(0x1f)
            .build())
    );
    assert_eq!(
        device.set_polling_rate_request(PollingRate::Normal(NormalPollingRate::Rate1000)),
        Err(DriverError::Validation(ValidationFailure::PollingRateKind))
    );
}

#[test]
fn normal_only_device_refuses_extended_rates() {
    let device = resolve(0x007D).unwrap();
    for rate in [
        ExtendedPollingRate::Rate8000,
        ExtendedPollingRate::Rate4000,
        ExtendedPollingRate::Rate2000,
        ExtendedPollingRate::Rate1000,
        ExtendedPollingRate::Rate500,
        ExtendedPollingRate::Rate250,
        ExtendedPollingRate::Rate125,
    ] {
        assert_eq!(
            device.set_polling_rate_request(PollingRate::Extended(rate)),
            Err(DriverError::Validation(ValidationFailure::PollingRateKind))
        );
    }
}

#[test]
fn missing_operations_are_refused() {
    let mut device = resolve(0x007D).unwrap();
    device.operations = OperationSet::empty();
    let table = DpiStages::new(1, vec![(800, 800)]).unwrap();
    let unsupported = Err(DriverError::UnsupportedOperation);
    assert_eq!(device.get_dpi_request(), unsupported);
    assert_eq!(device.set_dpi_request(Dpi::from(800)), unsupported);
    assert_eq!(device.get_dpi_stages_request(), unsupported);
    assert_eq!(device.set_dpi_stages_request(&table), unsupported);
    assert_eq!(device.get_polling_rate_request(), unsupported);
    assert_eq!(
        device.set_polling_rate_request(PollingRate::Normal(NormalPollingRate::Rate500)),
        unsupported
    );
    // the operation is looked at before the kind of the rate
    assert_eq!(
        device.set_polling_rate_request(PollingRate::Extended(ExtendedPollingRate::Rate500)),
        unsupported
    );
    assert_eq!(device.get_battery_level_request(), unsupported);
    assert_eq!(device.get_charging_status_request(), unsupported);
    assert_eq!(
        device.chroma_logo_matrix_effect_request(ExtendedMatrixEffect::Spectrum),
        unsupported
    );
}

#[test]
fn control_transfers_of_a_report() {
    let data = RazerMessageBuilder::get_battery_level().with_transaction_id(0x3f).build().encode();
    let out = usb_out_message(data);
    assert_eq!(out.control_type, ControlType::Class);
    assert_eq!(out.recipient, Recipient::Interface);
    assert_eq!(out.request, 0x09);
    assert_eq!(out.value, 0x0300);
    assert_eq!(out.index, 0x0000);
    assert_eq!(out.data, data);

    let read = usb_in_message();
    assert_eq!(read.control_type, ControlType::Class);
    assert_eq!(read.recipient, Recipient::Interface);
    assert_eq!(read.request, 0x01);
    assert_eq!(read.value, 0x0300);
    assert_eq!(read.index, 0x0000);
    assert_eq!(read.length, 90);
}
