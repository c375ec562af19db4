//! The configuration space of a PCI device, as a string of bytes.
//!
//! Integers in the configuration space are stored least significant byte
//! first, whatever the byte order of the machine the driver runs on.

pub mod hex;

pub use self::hex::read_hex;

use vstd::prelude::*;
use vstd::slice::slice_subrange;
use byteorder::{ByteOrder, LittleEndian};
use crate::error::Error;
use crate::wire::{le16, le32, le64, word16, word32, word64};

verus! {

/// Offset of the command register in the configuration space.
pub const COMMAND_REGISTER_OFFSET: u64 = 4;

/// Bit of the command register that lets the device access memory on its
/// own: bus master enable.
pub const BUS_MASTER_ENABLE_BIT: u64 = 2;

/// Bit of the command register that keeps the device from raising legacy
/// interrupts: interrupt disable.
pub const INTERRUPT_DISABLE: u64 = 10;

/// Offset of the word that holds the class code in its upper 24 bits.
pub const CLASS_OFFSET: u64 = 8;

/// Class and subclass of an NVMe controller: mass storage, non-volatile
/// memory.
pub const NVME_CLASS: u32 = 0x0108;

/// `ByteOrder::read_u16` of `byteorder` for `LittleEndian`: the integer
/// whose low byte is the first byte and whose high byte is the second.
#[verifier::external_body]
fn little_read_u16(bytes: &[u8]) -> (value: u16)
    requires
        bytes@.len() >= 2,
    ensures
        value == word16(bytes@, 0),
{
    LittleEndian::read_u16(bytes)
}

/// `ByteOrder::read_u32` of `byteorder` for `LittleEndian`: the integer
/// that the first four bytes hold, least significant byte first.
#[verifier::external_body]
fn little_read_u32(bytes: &[u8]) -> (value: u32)
    requires
        bytes@.len() >= 4,
    ensures
        value == word32(bytes@, 0),
{
    LittleEndian::read_u32(bytes)
}

/// `ByteOrder::read_u64` of `byteorder` for `LittleEndian`: the integer
/// that the first eight bytes hold, least significant byte first.
#[verifier::external_body]
fn little_read_u64(bytes: &[u8]) -> (value: u64)
    requires
        bytes@.len() >= 8,
    ensures
        value == word64(bytes@, 0),
{
    LittleEndian::read_u64(bytes)
}

/// `ByteOrder::write_u16` of `byteorder` for `LittleEndian`, on a buffer of
/// two bytes: the buffer then holds the low byte of `value`, then the high
/// byte.
#[verifier::external_body]
fn little_write_u16(value: u16) -> (bytes: Vec<u8>)
    ensures
        bytes@ == le16(value),
{
    let mut bytes = vec![0u8; 2];
    LittleEndian::write_u16(&mut bytes, value);
    bytes
}

/// `ByteOrder::write_u32` of `byteorder` for `LittleEndian`, on a buffer of
/// four bytes: the buffer then holds the bytes of `value`, least
/// significant first.
#[verifier::external_body]
fn little_write_u32(value: u32) -> (bytes: Vec<u8>)
    ensures
        bytes@ == le32(value),
{
    let mut bytes = vec![0u8; 4];
    LittleEndian::write_u32(&mut bytes, value);
    bytes
}

/// `ByteOrder::write_u64` of `byteorder` for `LittleEndian`, on a buffer of
/// eight bytes: the buffer then holds the bytes of `value`, least
/// significant first.
#[verifier::external_body]
fn little_write_u64(value: u64) -> (bytes: Vec<u8>)
    ensures
        bytes@ == le64(value),
{
    let mut bytes = vec![0u8; 8];
    LittleEndian::write_u64(&mut bytes, value);
    bytes
}

/// Whether `width` bytes at `offset` lie inside a space of `len` bytes.
pub open spec fn in_space(len: int, offset: u64, width: int) -> bool {
    offset + width <= len
}

/// `space` with the bytes from `offset` on replaced by `bytes`.
pub open spec fn patched(space: Seq<u8>, offset: int, bytes: Seq<u8>) -> Seq<u8> {
    space.subrange(0, offset) + bytes + space.subrange(offset + bytes.len(), space.len() as int)
}

/// The error of a read or write that reaches beyond the end of the
/// configuration space: a file error that says that the bytes asked for
/// were not all there.
fn out_of_space() -> (error: Error)
    ensures
        error matches Error::Io(m) && m@ == "failed to fill whole buffer"@,
{
    Error::io("failed to fill whole buffer")
}

fn patch(space: &mut Vec<u8>, offset: usize, bytes: &Vec<u8>)
    requires
        offset + bytes@.len() <= old(space)@.len(),
    ensures
        final(space)@ == patched(old(space)@, offset as int, bytes@),
{
    let mut i: usize = 0;
    let len = space.len();
    while i < bytes.len()
        invariant
            i <= bytes@.len(),
            len == space@.len(),
            offset + bytes@.len() <= space@.len(),
            space@.len() == old(space)@.len(),
            space@ == patched(old(space)@, offset as int, bytes@.subrange(0, i as int)),
        decreases bytes@.len() - i,
    {
        space[offset + i] = bytes[i];
        assert(space@ =~= patched(old(space)@, offset as int, bytes@.subrange(0, i + 1)));
        i = i + 1;
    }
    assert(bytes@.subrange(0, i as int) =~= bytes@);
}

/// What was written can be read back, and nothing else has changed: a
/// space patched with the bytes of a value holds that value at the place of
/// the patch, is as long as before, and holds its old bytes everywhere else.
pub proof fn lemma_patched(space: Seq<u8>, offset: int, value16: u16, value32: u32, value64: u64)
    requires
        0 <= offset,
    ensures
        offset + 2 <= space.len() ==> {
            &&& patched(space, offset, le16(value16)).len() == space.len()
            &&& word16(patched(space, offset, le16(value16)), offset) == value16
            &&& forall|i: int|
                0 <= i < space.len() && !(offset <= i < offset + 2) ==> patched(
                    space,
                    offset,
                    le16(value16),
                )[i] == space[i]
        },
        offset + 4 <= space.len() ==> {
            &&& patched(space, offset, le32(value32)).len() == space.len()
            &&& word32(patched(space, offset, le32(value32)), offset) == value32
            &&& forall|i: int|
                0 <= i < space.len() && !(offset <= i < offset + 4) ==> patched(
                    space,
                    offset,
                    le32(value32),
                )[i] == space[i]
        },
        offset + 8 <= space.len() ==> {
            &&& patched(space, offset, le64(value64)).len() == space.len()
            &&& word64(patched(space, offset, le64(value64)), offset) == value64
            &&& forall|i: int|
                0 <= i < space.len() && !(offset <= i < offset + 8) ==> patched(
                    space,
                    offset,
                    le64(value64),
                )[i] == space[i]
        },
{
    if offset + 2 <= space.len() {
        let p = patched(space, offset, le16(value16));
        assert(p.subrange(offset, offset + 2) =~= le16(value16));
        crate::wire::lemma_word16_of_le16(p, offset, value16);
    }
    if offset + 4 <= space.len() {
        let p = patched(space, offset, le32(value32));
        assert(p.subrange(offset, offset + 4) =~= le32(value32));
        crate::wire::lemma_word32_of_le32(p, offset, value32);
    }
    if offset + 8 <= space.len() {
        let p = patched(space, offset, le64(value64));
        assert(le64(value64).len() == 8);
        assert(p.subrange(offset, offset + 8) =~= le64(value64));
        crate::wire::lemma_word64_of_le64(p, offset, value64);
    }
}

/// Reads the byte at `offset` of the configuration space `space`.
pub fn read_io8(space: &[u8], offset: u64) -> (value: Result<u8, Error>)
    ensures
        match value {
            Ok(v) => in_space(space@.len() as int, offset, 1) && v == space@[offset as int],
            Err(e) => !in_space(space@.len() as int, offset, 1) && e matches Error::Io(_),
        },
{
    if offset >= space.len() as u64 {
        return Err(out_of_space());
    }
    Ok(space[offset as usize])
}

/// Reads the 16-bit integer at `offset` of the configuration space `space`.
pub fn read_io16(space: &[u8], offset: u64) -> (value: Result<u16, Error>)
    ensures
        match value {
            Ok(v) => in_space(space@.len() as int, offset, 2) && v == word16(space@, offset as int),
            Err(e) => !in_space(space@.len() as int, offset, 2) && e matches Error::Io(_),
        },
{
    if space.len() < 2 || offset > (space.len() - 2) as u64 {
        return Err(out_of_space());
    }
    let at = offset as usize;
    let bytes = slice_subrange(space, at, at + 2);
    Ok(little_read_u16(bytes))
}

/// Reads the 32-bit integer at `offset` of the configuration space `space`.
pub fn read_io32(space: &[u8], offset: u64) -> (value: Result<u32, Error>)
    ensures
        match value {
            Ok(v) => in_space(space@.len() as int, offset, 4) && v == word32(space@, offset as int),
            Err(e) => !in_space(space@.len() as int, offset, 4) && e matches Error::Io(_),
        },
{
    if space.len() < 4 || offset > (space.len() - 4) as u64 {
        return Err(out_of_space());
    }
    let at = offset as usize;
    let bytes = slice_subrange(space, at, at + 4);
    Ok(little_read_u32(bytes))
}

/// Reads the 64-bit integer at `offset` of the configuration space `space`.
pub fn read_io64(space: &[u8], offset: u64) -> (value: Result<u64, Error>)
    ensures
        match value {
            Ok(v) => in_space(space@.len() as int, offset, 8) && v == word64(space@, offset as int),
            Err(e) => !in_space(space@.len() as int, offset, 8) && e matches Error::Io(_),
        },
{
    if space.len() < 8 || offset > (space.len() - 8) as u64 {
        return Err(out_of_space());
    }
    let at = offset as usize;
    let bytes = slice_subrange(space, at, at + 8);
    Ok(little_read_u64(bytes))
}

/// Writes `value` to the byte at `offset` of the configuration space
/// `space`.
pub fn write_io8(space: &mut Vec<u8>, value: u8, offset: u64) -> (written: Result<(), Error>)
    ensures
        match written {
            Ok(()) => in_space(old(space)@.len() as int, offset, 1) && final(space)@ == old(
                space,
            )@.update(offset as int, value),
            Err(e) => !in_space(old(space)@.len() as int, offset, 1) && final(space)@ == old(
                space,
            )@ && e matches Error::Io(_),
        },
{
    if offset >= space.len() as u64 {
        return Err(out_of_space());
    }
    space[offset as usize] = value;
    Ok(())
}

/// Writes `value` to the two bytes at `offset` of the configuration space
/// `space`; all other bytes stay as they are.
pub fn write_io16(space: &mut Vec<u8>, value: u16, offset: u64) -> (written: Result<(), Error>)
    ensures
        match written {
            Ok(()) => {
                &&& in_space(old(space)@.len() as int, offset, 2)
                &&& final(space)@ == patched(old(space)@, offset as int, le16(value))
            },
            Err(e) => !in_space(old(space)@.len() as int, offset, 2) && final(space)@ == old(
                space,
            )@ && e matches Error::Io(_),
        },
{
    if space.len() < 2 || offset > (space.len() - 2) as u64 {
        return Err(out_of_space());
    }
    let bytes = little_write_u16(value);
    patch(space, offset as usize, &bytes);
    Ok(())
}

/// Writes `value` to the four bytes at `offset` of the configuration space
/// `space`; all other bytes stay as they are.
pub fn write_io32(space: &mut Vec<u8>, value: u32, offset: u64) -> (written: Result<(), Error>)
    ensures
        match written {
            Ok(()) => {
                &&& in_space(old(space)@.len() as int, offset, 4)
                &&& final(space)@ == patched(old(space)@, offset as int, le32(value))
            },
            Err(e) => !in_space(old(space)@.len() as int, offset, 4) && final(space)@ == old(
                space,
            )@ && e matches Error::Io(_),
        },
{
    if space.len() < 4 || offset > (space.len() - 4) as u64 {
        return Err(out_of_space());
    }
    let bytes = little_write_u32(value);
    patch(space, offset as usize, &bytes);
    Ok(())
}

/// Writes `value` to the eight bytes at `offset` of the configuration space
/// `space`; all other bytes stay as they are.
pub fn write_io64(space: &mut Vec<u8>, value: u64, offset: u64) -> (written: Result<(), Error>)
    ensures
        match written {
            Ok(()) => {
                &&& in_space(old(space)@.len() as int, offset, 8)
                &&& final(space)@ == patched(old(space)@, offset as int, le64(value))
            },
            Err(e) => !in_space(old(space)@.len() as int, offset, 8) && final(space)@ == old(
                space,
            )@ && e matches Error::Io(_),
        },
{
    if space.len() < 8 || offset > (space.len() - 8) as u64 {
        return Err(out_of_space());
    }
    let bytes = little_write_u64(value);
    assert(bytes@.len() == 8);
    patch(space, offset as usize, &bytes);
    Ok(())
}

/// The command register with bus mastering switched on: bit 2 set.
pub open spec fn with_bus_master(command: u16) -> u16 {
    command | 4
}

/// The command register with legacy interrupts switched off: bit 10 set.
pub open spec fn without_interrupts(command: u16) -> u16 {
    command | 0x400
}

/// The command register that the configuration space `space` holds.
pub open spec fn command_register(space: Seq<u8>) -> u16 {
    word16(space, 4) as u16
}

/// Switching bus mastering on or legacy interrupts off sets the one bit and
/// leaves every other bit of the command register as it is; doing it twice
/// changes nothing more.
pub proof fn lemma_command_bits(command: u16)
    ensures
        with_bus_master(command) & 4 == 4,
        with_bus_master(command) & !4u16 == command & !4u16,
        with_bus_master(with_bus_master(command)) == with_bus_master(command),
        without_interrupts(command) & 0x400 == 0x400,
        without_interrupts(command) & !0x400u16 == command & !0x400u16,
        without_interrupts(without_interrupts(command)) == without_interrupts(command),
{
    assert((command | 4) & 4 == 4 && (command | 4) & !4u16 == command & !4u16 && ((command | 4) | 4)
        == command | 4) by (bit_vector);
    assert((command | 0x400) & 0x400 == 0x400 && (command | 0x400) & !0x400u16 == command
        & !0x400u16 && ((command | 0x400) | 0x400) == command | 0x400) by (bit_vector);
}

/// Sets the bits `bits` of the command register in the configuration space
/// `space`: reads the register, sets the bits, writes it back.
fn set_command_bits(space: &mut Vec<u8>, bits: u16) -> (done: Result<(), Error>)
    ensures
        match done {
            Ok(()) => {
                &&& old(space)@.len() >= 6
                &&& final(space)@ == patched(
                    old(space)@,
                    4,
                    le16(command_register(old(space)@) | bits),
                )
            },
            Err(e) => old(space)@.len() < 6 && final(space)@ == old(space)@ && e matches Error::Io(
                _,
            ),
        },
{
    let command = match read_io16(space.as_slice(), COMMAND_REGISTER_OFFSET) {
        Ok(command) => command,
        Err(e) => {
            return Err(e);
        },
    };
    write_io16(space, command | bits, COMMAND_REGISTER_OFFSET)
}

/// Enables direct memory access for the device whose configuration space
/// is `space`: sets the bus master bit of its command register and leaves
/// everything else as it is.
pub fn enable_dma(space: &mut Vec<u8>) -> (done: Result<(), Error>)
    ensures
        match done {
            Ok(()) => {
                &&& old(space)@.len() >= 6
                &&& final(space)@ == patched(
                    old(space)@,
                    4,
                    le16(with_bus_master(command_register(old(space)@))),
                )
            },
            Err(e) => old(space)@.len() < 6 && final(space)@ == old(space)@ && e matches Error::Io(
                _,
            ),
        },
{
    set_command_bits(space, 4)
}

/// Disables the legacy interrupts of the device whose configuration space
/// is `space`: sets the interrupt disable bit of its command register and
/// leaves everything else as it is.
pub fn disable_interrupts(space: &mut Vec<u8>) -> (done: Result<(), Error>)
    ensures
        match done {
            Ok(()) => {
                &&& old(space)@.len() >= 6
                &&& final(space)@ == patched(
                    old(space)@,
                    4,
                    le16(without_interrupts(command_register(old(space)@))),
                )
            },
            Err(e) => old(space)@.len() < 6 && final(space)@ == old(space)@ && e matches Error::Io(
                _,
            ),
        },
{
    set_command_bits(space, 0x400)
}

/// Whether the word at offset 8 of a configuration space belongs to an NVMe
/// controller: its upper 16 bits are class 0x01, subclass 0x08.
pub fn is_nvme_class(class_word: u32) -> (nvme: bool)
    ensures
        nvme == (class_word / 0x1_0000 == 0x0108),
{
    class_word / 0x1_0000 == NVME_CLASS
}

/// Checks that the device whose configuration space is `space` is an NVMe
/// controller: that the upper 16 bits of the word at offset 8 are class
/// 0x01, subclass 0x08. Any other device is a configuration error; a space
/// that ends before the word is a file error.
pub fn check_class(space: &[u8]) -> (checked: Result<(), Error>)
    ensures
        match checked {
            Ok(()) => space@.len() >= 12 && word32(space@, 8) / 0x1_0000 == 0x0108,
            Err(e) => if space@.len() < 12 {
                e matches Error::Io(_)
            } else {
                &&& word32(space@, 8) / 0x1_0000 != 0x0108
                &&& e matches Error::Vroom(m) && m@ == "the device is not a block device"@
            },
        },
{
    let word = match read_io32(space, CLASS_OFFSET) {
        Ok(word) => word,
        Err(e) => {
            return Err(e);
        },
    };
    if is_nvme_class(word) {
        Ok(())
    } else {
        Err(Error::config("the device is not a block device"))
    }
}

} // verus!
