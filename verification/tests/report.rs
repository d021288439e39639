use serial_echo::report::open_error_message;
use serial_echo::report::u32_to_decimal;

#[test]
fn decimal_rendering_exact() {
    assert_eq!(u32_to_decimal(0), "0");
    assert_eq!(u32_to_decimal(7), "7");
    assert_eq!(u32_to_decimal(10), "10");
    assert_eq!(u32_to_decimal(9600), "9600");
    assert_eq!(u32_to_decimal(115200), "115200");
    assert_eq!(u32_to_decimal(u32::MAX), "4294967295");
}

#[test]
fn open_error_names_port_and_baudrate() {
    let msg = open_error_message("/dev/ttyUSB0", 9600);
    assert_eq!(msg, "Cannot open serial port /dev/ttyUSB0 with baudrate 9600 bps");
    assert!(msg.contains("/dev/ttyUSB0"));
    assert!(msg.contains("9600"));
}
