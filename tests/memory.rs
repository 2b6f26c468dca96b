use byteorder::{ByteOrder, LittleEndian};
use cpu65c02::memory::Memory;

const TEST_ADDRESS: usize = 0x8000;
const DATA_BYTE: u8 = 0xEA;
const DATA_WORD: u16 = 0xEAAE;

#[test]
fn test_read_byte() {
    // setup of memory
    let mut mem_array: [u8; 0x10000] = [0; 0x10000];
    mem_array[TEST_ADDRESS] = DATA_BYTE;
    let memory = Memory { data: mem_array };
    assert_eq!(memory.read_byte(TEST_ADDRESS as u16), DATA_BYTE);
}

#[test]
fn test_read_word() {
    // setup of memory
    let mut mem_array: [u8; 0x10000] = [0; 0x10000];
    let mut data_buff: [u8; 2] = [0, 0];
    LittleEndian::write_u16(&mut data_buff, DATA_WORD);
    mem_array[TEST_ADDRESS] = data_buff[0];
    mem_array[TEST_ADDRESS + 1] = data_buff[1];
    let memory = Memory { data: mem_array };
    assert_eq!(memory.read_word(TEST_ADDRESS as u16), DATA_WORD);
}

#[test]
fn test_write_byte() {
    let mem_array: [u8; 0x10000] = [0; 0x10000];
    let mut memory = Memory { data: mem_array };
    memory.write_byte(TEST_ADDRESS as u16, DATA_BYTE);
    assert_eq!(memory.data[TEST_ADDRESS], DATA_BYTE);
}

#[test]
fn test_write_word() {
    let mem_array: [u8; 0x10000] = [0; 0x10000];
    let mut memory = Memory { data: mem_array };
    memory.write_word(TEST_ADDRESS as u16, DATA_WORD);
    let mut data_buff: [u8; 2] = [0, 0];
    LittleEndian::write_u16(&mut data_buff, DATA_WORD);
    assert_eq!(memory.data[TEST_ADDRESS], data_buff[0]);
    assert_eq!(memory.data[TEST_ADDRESS + 1], data_buff[1]);
}

#[test]
fn word_write_wraps_past_the_last_address() {
    let mut memory = Memory::build_memory();
    memory.write_word(0xFFFF, 0x1234);
    assert_eq!(memory.read_byte(0xFFFF), 0x34);
    assert_eq!(memory.read_byte(0x0000), 0x12);
    assert_eq!(memory.read_word(0xFFFF), 0x1234);
}

#[test]
fn word_write_reads_back_as_two_bytes() {
    let mut memory = Memory::build_memory();
    memory.write_word(0x1234, 0xBEEF);
    assert_eq!(memory.read_byte(0x1234), 0xEF);
    assert_eq!(memory.read_byte(0x1235), 0xBE);
    assert_eq!(memory.read_word(0x1234), 0xBEEF);
}
