use win_ring0::descriptor::{is_service_name, DriverBuilder, ValidationError, MAX_SERVICE_NAME_LEN};

fn complete_builder() -> DriverBuilder {
    DriverBuilder::new()
        .set_device_description("Test driver")
        .set_device_id("TestDrv")
        .set_device_type(40000)
        .set_driver_bin(vec![0x4d, 0x5a, 0x90])
}

#[test]
fn build_with_all_fields_succeeds() {
    let descriptor = complete_builder().build().unwrap();
    assert_eq!(descriptor.description(), "Test driver");
    assert_eq!(descriptor.device_id(), "TestDrv");
    assert_eq!(descriptor.device_type(), 40000);
    assert_eq!(descriptor.binary(), &[0x4d, 0x5a, 0x90]);
}

#[test]
fn descriptor_reads_are_repeatable() {
    let descriptor = complete_builder().build().unwrap();
    for _ in 0..3 {
        assert_eq!(descriptor.description(), "Test driver");
        assert_eq!(descriptor.device_id(), "TestDrv");
        assert_eq!(descriptor.device_type(), 40000);
        assert_eq!(descriptor.binary(), &[0x4d, 0x5a, 0x90]);
    }
    let again = complete_builder().build().unwrap();
    assert_eq!(descriptor, again);
}

#[test]
fn fields_can_be_set_in_any_order() {
    let descriptor = DriverBuilder::new()
        .set_driver_bin(vec![1, 2])
        .set_device_type(7)
        .set_device_id("Svc")
        .set_device_description("d")
        .build()
        .unwrap();
    assert_eq!(descriptor.description(), "d");
    assert_eq!(descriptor.device_id(), "Svc");
    assert_eq!(descriptor.device_type(), 7);
    assert_eq!(descriptor.binary(), &[1, 2]);
}

#[test]
fn later_setting_replaces_earlier() {
    let descriptor = complete_builder()
        .set_device_id("Other")
        .set_device_type(1)
        .set_device_description("second")
        .set_driver_bin(vec![9])
        .build()
        .unwrap();
    assert_eq!(descriptor.description(), "second");
    assert_eq!(descriptor.device_id(), "Other");
    assert_eq!(descriptor.device_type(), 1);
    assert_eq!(descriptor.binary(), &[9]);
}

#[test]
fn build_without_description_fails() {
    let built = DriverBuilder::new()
        .set_device_id("TestDrv")
        .set_device_type(40000)
        .set_driver_bin(vec![1])
        .build();
    assert_eq!(built, Err(ValidationError::MissingDescription));
}

#[test]
fn build_without_device_id_fails() {
    let built = DriverBuilder::new()
        .set_device_description("d")
        .set_device_type(40000)
        .set_driver_bin(vec![1])
        .build();
    assert_eq!(built, Err(ValidationError::MissingDeviceId));
}

#[test]
fn build_without_device_type_fails() {
    let built = DriverBuilder::new()
        .set_device_description("d")
        .set_device_id("TestDrv")
        .set_driver_bin(vec![1])
        .build();
    assert_eq!(built, Err(ValidationError::MissingDeviceType));
}

#[test]
fn build_without_binary_fails() {
    let built = DriverBuilder::new()
        .set_device_description("d")
        .set_device_id("TestDrv")
        .set_device_type(40000)
        .build();
    assert_eq!(built, Err(ValidationError::MissingBinary));
}

#[test]
fn build_of_empty_builder_reports_description_first() {
    assert_eq!(DriverBuilder::new().build(), Err(ValidationError::MissingDescription));
}

#[test]
fn empty_values_count_as_missing() {
    assert_eq!(
        complete_builder().set_device_description("").build(),
        Err(ValidationError::MissingDescription)
    );
    assert_eq!(
        complete_builder().set_device_id("").build(),
        Err(ValidationError::MissingDeviceId)
    );
    assert_eq!(
        complete_builder().set_driver_bin(Vec::new()).build(),
        Err(ValidationError::MissingBinary)
    );
}

#[test]
fn device_type_zero_is_a_value() {
    let descriptor = complete_builder().set_device_type(0).build().unwrap();
    assert_eq!(descriptor.device_type(), 0);
}

#[test]
fn missing_field_is_reported_before_bad_device_id() {
    let built = DriverBuilder::new()
        .set_device_description("d")
        .set_device_id("a/b")
        .set_device_type(1)
        .build();
    assert_eq!(built, Err(ValidationError::MissingBinary));
}

#[test]
fn device_id_with_separator_is_invalid() {
    assert_eq!(
        complete_builder().set_device_id("Test/Drv").build(),
        Err(ValidationError::InvalidDeviceId)
    );
    assert_eq!(
        complete_builder().set_device_id("Test\\Drv").build(),
        Err(ValidationError::InvalidDeviceId)
    );
    assert_eq!(
        complete_builder().set_device_id("TestDrv/").build(),
        Err(ValidationError::InvalidDeviceId)
    );
}

#[test]
fn device_id_length_limit() {
    let longest = "x".repeat(MAX_SERVICE_NAME_LEN);
    let too_long = "x".repeat(MAX_SERVICE_NAME_LEN + 1);
    let descriptor = complete_builder().set_device_id(&longest).build().unwrap();
    assert_eq!(descriptor.device_id(), longest);
    assert_eq!(
        complete_builder().set_device_id(&too_long).build(),
        Err(ValidationError::InvalidDeviceId)
    );
}

#[test]
fn service_name_counts_characters_not_bytes() {
    let name = "é".repeat(MAX_SERVICE_NAME_LEN);
    assert!(name.len() > MAX_SERVICE_NAME_LEN);
    assert!(is_service_name(&name));
    assert!(!is_service_name(&"é".repeat(MAX_SERVICE_NAME_LEN + 1)));
}

#[test]
fn service_name_rules() {
    assert!(is_service_name("WinRing0_1_2_0"));
    assert!(is_service_name("a"));
    assert!(is_service_name("with space"));
    assert!(!is_service_name(""));
    assert!(!is_service_name("/"));
    assert!(!is_service_name("\\"));
    assert!(!is_service_name("a\\b"));
}
