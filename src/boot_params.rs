//! The x86 Linux boot-parameters block ("zero page") as a fixed-size byte
//! buffer with typed accessors for the setup-header fields the loader uses.
//!
//! Multi-byte fields are little-endian and sit at the offsets of the boot
//! protocol's packed layout.
use vstd::prelude::*;

use crate::layout::CMDLINE_ADDR;
use crate::memory::{overwrite, GuestMemory, MemoryError};

verus! {

/// Size in bytes of the boot-parameters block.
pub const BOOT_PARAMS_SIZE: usize = 4096;

/// `loadflags` bit: the protected-mode code is loaded at 0x100000.
pub const LOADED_HIGH: u8 = 0x01;

/// `loadflags` bit: the kernel must not reload the segment registers.
pub const KEEP_SEGMENTS: u8 = 0x40;

/// `loadflags` bit: `heap_end_ptr` is valid.
pub const CAN_USE_HEAP: u8 = 0x80;

/// Offsets of the setup-header fields within the block.
pub const SETUP_SECTS: usize = 0x1f1;
pub const VID_MODE: usize = 0x1fa;
pub const TYPE_OF_LOADER: usize = 0x210;
pub const LOADFLAGS: usize = 0x211;
pub const RAMDISK_IMAGE: usize = 0x218;
pub const RAMDISK_SIZE: usize = 0x21c;
pub const HEAP_END_PTR: usize = 0x224;
pub const EXT_LOADER_VER: usize = 0x226;
pub const CMD_LINE_PTR: usize = 0x228;
pub const CMDLINE_SIZE: usize = 0x238;

/// The 16-bit little-endian number at `at`.
pub open spec fn le16(b: Seq<u8>, at: int) -> int {
    b[at] + 256 * b[at + 1]
}

/// The 32-bit little-endian number at `at`.
pub open spec fn le32(b: Seq<u8>, at: int) -> int {
    b[at] + 256 * b[at + 1] + 65536 * b[at + 2] + 16777216 * b[at + 3]
}

/// The two little-endian bytes of `v`.
pub open spec fn le16_bytes(v: u16) -> Seq<u8> {
    seq![(v % 256) as u8, (v / 256) as u8]
}

/// The four little-endian bytes of `v`.
pub open spec fn le32_bytes(v: u32) -> Seq<u8> {
    seq![(v % 256) as u8, ((v / 256) % 256) as u8, ((v / 65536) % 256) as u8, (v / 16777216) as u8]
}

/// The setup-header fields of a block `b`, each read at its offset.
pub open spec fn setup_sects_of(b: Seq<u8>) -> int {
    b[SETUP_SECTS as int] as int
}

pub open spec fn vid_mode_of(b: Seq<u8>) -> int {
    le16(b, VID_MODE as int)
}

pub open spec fn type_of_loader_of(b: Seq<u8>) -> int {
    b[TYPE_OF_LOADER as int] as int
}

pub open spec fn loadflags_of(b: Seq<u8>) -> u8 {
    b[LOADFLAGS as int]
}

pub open spec fn ramdisk_image_of(b: Seq<u8>) -> int {
    le32(b, RAMDISK_IMAGE as int)
}

pub open spec fn ramdisk_size_of(b: Seq<u8>) -> int {
    le32(b, RAMDISK_SIZE as int)
}

pub open spec fn heap_end_ptr_of(b: Seq<u8>) -> int {
    le16(b, HEAP_END_PTR as int)
}

pub open spec fn ext_loader_ver_of(b: Seq<u8>) -> int {
    b[EXT_LOADER_VER as int] as int
}

pub open spec fn cmd_line_ptr_of(b: Seq<u8>) -> int {
    le32(b, CMD_LINE_PTR as int)
}

pub open spec fn cmdline_size_of(b: Seq<u8>) -> int {
    le32(b, CMDLINE_SIZE as int)
}

/// `b` with the byte at `at` set to `v`.
pub open spec fn with_u8(b: Seq<u8>, at: int, v: u8) -> Seq<u8> {
    b.update(at, v)
}

/// `b` with the 16-bit field at `at` set to `v`.
pub open spec fn with_u16(b: Seq<u8>, at: int, v: u16) -> Seq<u8> {
    overwrite(b, at, le16_bytes(v))
}

/// `b` with the 32-bit field at `at` set to `v`.
pub open spec fn with_u32(b: Seq<u8>, at: int, v: u32) -> Seq<u8> {
    overwrite(b, at, le32_bytes(v))
}

/// The `loadflags` bits this loader sets: heap usable, segments kept,
/// protected-mode code loaded high.
pub open spec fn loader_flags() -> u8 {
    CAN_USE_HEAP | LOADED_HIGH | KEEP_SEGMENTS
}

/// The block as this loader hands it to the kernel: unknown video mode
/// ("normal", 0xffff), an undeclared loader type (0xff), no initial ramdisk,
/// the loader flags added, the heap ending at 0xfe00, loader version 0 and
/// the command line at `CMDLINE_ADDR`. Every other byte is kept.
pub open spec fn patched(b: Seq<u8>) -> Seq<u8> {
    let b1 = with_u16(b, VID_MODE as int, 0xffff);
    let b2 = with_u8(b1, TYPE_OF_LOADER as int, 0xff);
    let b3 = with_u32(b2, RAMDISK_IMAGE as int, 0);
    let b4 = with_u32(b3, RAMDISK_SIZE as int, 0);
    let b5 = with_u8(b4, LOADFLAGS as int, b[LOADFLAGS as int] | loader_flags());
    let b6 = with_u16(b5, HEAP_END_PTR as int, 0xfe00);
    let b7 = with_u8(b6, EXT_LOADER_VER as int, 0);
    with_u32(b7, CMD_LINE_PTR as int, CMDLINE_ADDR as u32)
}

/// A block written into guest memory at `addr` reads back unchanged from
/// `addr`, field for field.
pub proof fn lemma_write_read_round_trip(mem: Seq<u8>, addr: int, block: Seq<u8>)
    requires
        0 <= addr,
        addr + block.len() <= mem.len(),
    ensures
        overwrite(mem, addr, block).subrange(addr, addr + block.len()) == block,
{
    assert(overwrite(mem, addr, block).subrange(addr, addr + block.len()) =~= block);
}

/// The fields of a patched block hold the loader's values; the others keep
/// the block's own.
pub proof fn lemma_patched_fields(b: Seq<u8>)
    requires
        b.len() == BOOT_PARAMS_SIZE,
    ensures
        patched(b).len() == BOOT_PARAMS_SIZE,
        vid_mode_of(patched(b)) == 0xffff,
        type_of_loader_of(patched(b)) == 0xff,
        ramdisk_image_of(patched(b)) == 0,
        ramdisk_size_of(patched(b)) == 0,
        loadflags_of(patched(b)) == b[LOADFLAGS as int] | loader_flags(),
        heap_end_ptr_of(patched(b)) == 0xfe00,
        ext_loader_ver_of(patched(b)) == 0,
        cmd_line_ptr_of(patched(b)) == CMDLINE_ADDR,
        setup_sects_of(patched(b)) == setup_sects_of(b),
        cmdline_size_of(patched(b)) == cmdline_size_of(b),
{
    let p = patched(b);
    assert(p[VID_MODE as int] == 0xff && p[VID_MODE + 1] == 0xff);
    assert(p[RAMDISK_IMAGE as int] == 0 && p[RAMDISK_IMAGE + 1] == 0 && p[RAMDISK_IMAGE + 2] == 0
        && p[RAMDISK_IMAGE + 3] == 0);
    assert(p[RAMDISK_SIZE as int] == 0 && p[RAMDISK_SIZE + 1] == 0 && p[RAMDISK_SIZE + 2] == 0
        && p[RAMDISK_SIZE + 3] == 0);
    assert(p[HEAP_END_PTR as int] == 0 && p[HEAP_END_PTR + 1] == 0xfe);
    assert(p[CMD_LINE_PTR as int] == 0 && p[CMD_LINE_PTR + 1] == 0 && p[CMD_LINE_PTR + 2] == 2
        && p[CMD_LINE_PTR + 3] == 0);
    assert(p[CMDLINE_SIZE as int] == b[CMDLINE_SIZE as int]);
    assert(p[CMDLINE_SIZE + 1] == b[CMDLINE_SIZE + 1]);
    assert(p[CMDLINE_SIZE + 2] == b[CMDLINE_SIZE + 2]);
    assert(p[CMDLINE_SIZE + 3] == b[CMDLINE_SIZE + 3]);
}

/// A boot-parameters block. Every value made by this module holds exactly
/// `BOOT_PARAMS_SIZE` bytes.
pub struct BootParams {
    bytes: Vec<u8>,
}

impl View for BootParams {
    type V = Seq<u8>;

    closed spec fn view(&self) -> Seq<u8> {
        self.bytes@
    }
}

impl BootParams {
    fn get_u16(&self, at: usize) -> (r: u16)
        requires
            self@.len() == BOOT_PARAMS_SIZE,
            at + 2 <= BOOT_PARAMS_SIZE,
        ensures
            r == le16(self@, at as int),
    {
        self.bytes[at] as u16 + (self.bytes[at + 1] as u16) * 256
    }

    fn get_u32(&self, at: usize) -> (r: u32)
        requires
            self@.len() == BOOT_PARAMS_SIZE,
            at + 4 <= BOOT_PARAMS_SIZE,
        ensures
            r == le32(self@, at as int),
    {
        self.bytes[at] as u32 + (self.bytes[at + 1] as u32) * 256 + (self.bytes[at + 2] as u32)
            * 65536 + (self.bytes[at + 3] as u32) * 16777216
    }

    fn put_u8(&mut self, at: usize, v: u8)
        requires
            old(self)@.len() == BOOT_PARAMS_SIZE,
            at < BOOT_PARAMS_SIZE,
        ensures
            final(self)@ == old(self)@.update(at as int, v),
    {
        self.bytes.set(at, v);
    }

    fn put_u16(&mut self, at: usize, v: u16)
        requires
            old(self)@.len() == BOOT_PARAMS_SIZE,
            at + 2 <= BOOT_PARAMS_SIZE,
        ensures
            final(self)@ == overwrite(old(self)@, at as int, le16_bytes(v)),
    {
        self.bytes.set(at, (v % 256) as u8);
        self.bytes.set(at + 1, (v / 256) as u8);
        assert(self@ =~= overwrite(old(self)@, at as int, le16_bytes(v)));
    }

    fn put_u32(&mut self, at: usize, v: u32)
        requires
            old(self)@.len() == BOOT_PARAMS_SIZE,
            at + 4 <= BOOT_PARAMS_SIZE,
        ensures
            final(self)@ == overwrite(old(self)@, at as int, le32_bytes(v)),
    {
        self.bytes.set(at, (v % 256) as u8);
        self.bytes.set(at + 1, ((v / 256) % 256) as u8);
        self.bytes.set(at + 2, ((v / 65536) % 256) as u8);
        self.bytes.set(at + 3, (v / 16777216) as u8);
        assert(self@ =~= overwrite(old(self)@, at as int, le32_bytes(v)));
    }

    /// The block at the start of a kernel image, or `None` where the image is
    /// shorter than a block.
    pub fn from_image(image: &[u8]) -> (r: Option<BootParams>)
        ensures
            r is Some <==> image@.len() >= BOOT_PARAMS_SIZE,
            r matches Some(p) ==> p@ == image@.subrange(0, BOOT_PARAMS_SIZE as int),
    {
        if image.len() < BOOT_PARAMS_SIZE {
            return None;
        }
        let mut bytes: Vec<u8> = Vec::with_capacity(BOOT_PARAMS_SIZE);
        let mut i: usize = 0;
        while i < BOOT_PARAMS_SIZE
            invariant
                i <= BOOT_PARAMS_SIZE <= image@.len(),
                bytes@ == image@.subrange(0, i as int),
            decreases BOOT_PARAMS_SIZE - i,
        {
            bytes.push(image[i]);
            i = i + 1;
            assert(bytes@ =~= image@.subrange(0, i as int));
        }
        Some(BootParams { bytes })
    }

    /// The block stored in guest memory at `addr`.
    pub fn read_from(mem: &GuestMemory, addr: usize) -> (r: Result<BootParams, MemoryError>)
        ensures
            r is Ok <==> addr + BOOT_PARAMS_SIZE <= mem@.len(),
            r matches Ok(p) ==> p@ == mem@.subrange(addr as int, addr + BOOT_PARAMS_SIZE),
    {
        match mem.read_bytes(addr, BOOT_PARAMS_SIZE) {
            Ok(bytes) => Ok(BootParams { bytes }),
            Err(e) => Err(e),
        }
    }

    /// Stores the block in guest memory at `addr`.
    pub fn write_to(&self, mem: &mut GuestMemory, addr: usize) -> (r: Result<(), MemoryError>)
        ensures
            r is Ok <==> addr + self@.len() <= old(mem)@.len(),
            r is Ok ==> final(mem)@ == overwrite(old(mem)@, addr as int, self@),
            r is Err ==> final(mem)@ == old(mem)@,
    {
        mem.write_bytes(addr, self.bytes.as_slice())
    }

    /// The raw bytes of the block.
    pub fn as_bytes(&self) -> (r: &[u8])
        ensures
            r@ == self@,
    {
        self.bytes.as_slice()
    }

    /// Number of 512-byte sectors of real-mode setup code in the image.
    pub fn setup_sects(&self) -> (r: u8)
        requires
            self@.len() == BOOT_PARAMS_SIZE,
        ensures
            r == setup_sects_of(self@),
    {
        self.bytes[SETUP_SECTS]
    }

    pub fn vid_mode(&self) -> (r: u16)
        requires
            self@.len() == BOOT_PARAMS_SIZE,
        ensures
            r == vid_mode_of(self@),
    {
        self.get_u16(VID_MODE)
    }

    pub fn type_of_loader(&self) -> (r: u8)
        requires
            self@.len() == BOOT_PARAMS_SIZE,
        ensures
            r == type_of_loader_of(self@),
    {
        self.bytes[TYPE_OF_LOADER]
    }

    pub fn loadflags(&self) -> (r: u8)
        requires
            self@.len() == BOOT_PARAMS_SIZE,
        ensures
            r == loadflags_of(self@),
    {
        self.bytes[LOADFLAGS]
    }

    pub fn ramdisk_image(&self) -> (r: u32)
        requires
            self@.len() == BOOT_PARAMS_SIZE,
        ensures
            r == ramdisk_image_of(self@),
    {
        self.get_u32(RAMDISK_IMAGE)
    }

    pub fn ramdisk_size(&self) -> (r: u32)
        requires
            self@.len() == BOOT_PARAMS_SIZE,
        ensures
            r == ramdisk_size_of(self@),
    {
        self.get_u32(RAMDISK_SIZE)
    }

    pub fn heap_end_ptr(&self) -> (r: u16)
        requires
            self@.len() == BOOT_PARAMS_SIZE,
        ensures
            r == heap_end_ptr_of(self@),
    {
        self.get_u16(HEAP_END_PTR)
    }

    pub fn ext_loader_ver(&self) -> (r: u8)
        requires
            self@.len() == BOOT_PARAMS_SIZE,
        ensures
            r == ext_loader_ver_of(self@),
    {
        self.bytes[EXT_LOADER_VER]
    }

    pub fn cmd_line_ptr(&self) -> (r: u32)
        requires
            self@.len() == BOOT_PARAMS_SIZE,
        ensures
            r == cmd_line_ptr_of(self@),
    {
        self.get_u32(CMD_LINE_PTR)
    }

    /// Size of the kernel command-line buffer the kernel accepts.
    pub fn cmdline_size(&self) -> (r: u32)
        requires
            self@.len() == BOOT_PARAMS_SIZE,
        ensures
            r == cmdline_size_of(self@),
    {
        self.get_u32(CMDLINE_SIZE)
    }

    /// Fills in the header fields that the loader owns (see `patched`).
    pub fn patch_for_loader(&mut self)
        requires
            old(self)@.len() == BOOT_PARAMS_SIZE,
        ensures
            final(self)@ == patched(old(self)@),
    {
        let flags = self.bytes[LOADFLAGS] | (CAN_USE_HEAP | LOADED_HIGH | KEEP_SEGMENTS);
        self.put_u16(VID_MODE, 0xffff);
        self.put_u8(TYPE_OF_LOADER, 0xff);
        self.put_u32(RAMDISK_IMAGE, 0);
        self.put_u32(RAMDISK_SIZE, 0);
        self.put_u8(LOADFLAGS, flags);
        self.put_u16(HEAP_END_PTR, 0xfe00);
        self.put_u8(EXT_LOADER_VER, 0);
        self.put_u32(CMD_LINE_PTR, CMDLINE_ADDR as u32);
    }
}

} // verus!
