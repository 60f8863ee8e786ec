use podlet::device::{Device, ParseDeviceError};

#[test]
fn device_host() {
    let string = "/host";
    let device = Device::parse(string).unwrap();

    assert_eq!(
        device,
        Device {
            host: string.into(),
            container: None,
            read: false,
            write: false,
            mknod: false,
        },
    );

    assert_eq!(device.to_string(), string);

    assert_eq!(device, Device::parse("/host::").unwrap());
}

#[test]
fn host_container() {
    let string = "/host:/container";
    let device = Device::parse(string).unwrap();

    assert_eq!(
        device,
        Device {
            host: "/host".into(),
            container: Some("/container".into()),
            read: false,
            write: false,
            mknod: false,
        },
    );

    assert_eq!(device.to_string(), string);

    assert_eq!(device, Device::parse("/host:/container:").unwrap());
}

#[test]
fn host_permissions() {
    let string = "/host:rwm";
    let device = Device::parse(string).unwrap();

    assert_eq!(
        device,
        Device {
            host: "/host".into(),
            container: None,
            read: true,
            write: true,
            mknod: true,
        },
    );

    assert_eq!(device.to_string(), string);

    assert_eq!(device, Device::parse("/host::rwm").unwrap());
    assert_eq!(device, Device::parse("/host:r:wm").unwrap());
}

#[test]
fn host_container_permissions() {
    let string = "/host:/container:rwm";
    let device = Device::parse(string).unwrap();

    assert_eq!(
        device,
        Device {
            host: "/host".into(),
            container: Some("/container".into()),
            read: true,
            write: true,
            mknod: true,
        },
    );

    assert_eq!(device.to_string(), string);
}

#[test]
fn empty_host_err() {
    assert_eq!(
        Device::parse(":/container").unwrap_err(),
        ParseDeviceError::EmptyHostPath,
    );
    assert_eq!(Device::parse("").unwrap_err(), ParseDeviceError::EmptyHostPath);
}

#[test]
fn unknown_permission_err() {
    assert_eq!(
        Device::parse("/host:a").unwrap_err(),
        ParseDeviceError::UnknownPermission('a'),
    );
}
