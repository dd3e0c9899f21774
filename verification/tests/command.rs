use kcounter::command::{
    ioc_size, ior, Opcode, DIRECTION_READ, READ_MESSAGE, READ_MESSAGE_NUMBER, READ_MESSAGE_SIZE,
    REQUEST_TYPE, SIZE_MAX,
};

#[test]
fn read_message_is_the_packed_read_command() {
    assert_eq!(ior(REQUEST_TYPE, READ_MESSAGE_NUMBER, READ_MESSAGE_SIZE), READ_MESSAGE);
    assert_eq!(READ_MESSAGE, 0x8100_7c83);
    assert_eq!(REQUEST_TYPE, '|' as u32);
}

#[test]
fn read_message_declares_256_bytes() {
    assert_eq!(ioc_size(READ_MESSAGE), 256);
}

#[test]
fn ior_packs_each_field_in_its_place() {
    assert_eq!(ior(0, 0, 0), DIRECTION_READ << 30);
    assert_eq!(ior(0xff, 0, 0), 0x8000_ff00);
    assert_eq!(ior(0, 0xff, 0), 0x8000_00ff);
    assert_eq!(ior(0, 0, SIZE_MAX), 0xbfff_0000);
    assert_eq!(ior(0x12, 0x34, 0x0567), 0x8567_1234);
}

#[test]
fn size_survives_packing() {
    for size in [0usize, 1, 51, 256, 4096, SIZE_MAX] {
        assert_eq!(ioc_size(ior(REQUEST_TYPE, READ_MESSAGE_NUMBER, size)), size);
    }
}

#[test]
fn ioc_size_reads_only_the_size_field() {
    assert_eq!(ioc_size(0), 0);
    assert_eq!(ioc_size(u32::MAX), SIZE_MAX);
    assert_eq!(ioc_size(0xc000_ffff), 0);
    assert_eq!(ioc_size(0x0001_0000), 1);
}

#[test]
fn only_read_message_is_recognized() {
    assert_eq!(Opcode::decode(READ_MESSAGE), Some(Opcode::ReadMessage));
    assert_eq!(Opcode::decode(0), None);
    assert_eq!(Opcode::decode(READ_MESSAGE + 1), None);
    assert_eq!(Opcode::decode(READ_MESSAGE - 1), None);
    assert_eq!(Opcode::decode(u32::MAX), None);
    // The same type and number with another size is another command.
    assert_eq!(Opcode::decode(ior(REQUEST_TYPE, READ_MESSAGE_NUMBER, 40)), None);
}
