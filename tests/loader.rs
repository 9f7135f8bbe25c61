use linux_loader::loader::bootparam::boot_params;
use tinyvmm::boot_params::{BootParams, BOOT_PARAMS_SIZE, CAN_USE_HEAP, KEEP_SEGMENTS, LOADED_HIGH};
use tinyvmm::layout::{BOOT_PARAMS_ADDR, CMDLINE_ADDR, KERNEL_ADDR, MIN_IMAGE_SIZE};
use tinyvmm::loader::{load_kernel, setup_size, LoadError};
use tinyvmm::memory::{GuestMemory, MemoryError};
use vm_memory::ByteValued;

const MEM_SIZE: usize = 0x20_0000;
const CMDLINE: &[u8] = b"console=ttyS0\0";

/// A kernel image of `len` bytes whose header declares `setup_sects` setup
/// sectors and a command-line buffer of `cmdline_size` bytes; the other
/// header fields hold values the loader must overwrite, and every byte past
/// the header holds a position-dependent pattern.
fn image(len: usize, setup_sects: u8, cmdline_size: u32) -> Vec<u8> {
    let mut params = boot_params::default();
    params.hdr.setup_sects = setup_sects;
    params.hdr.vid_mode = 0x1234;
    params.hdr.type_of_loader = 0x21;
    params.hdr.ramdisk_image = 0x0080_0000;
    params.hdr.ramdisk_size = 0x4000;
    params.hdr.loadflags = 0x20;
    params.hdr.heap_end_ptr = 0x1111;
    params.hdr.ext_loader_ver = 7;
    params.hdr.cmd_line_ptr = 0x0009_0000;
    params.hdr.cmdline_size = cmdline_size;
    let mut v = params.as_slice().to_vec();
    let mut i = v.len();
    while v.len() < len {
        v.push((i % 251) as u8);
        i += 1;
    }
    v.truncate(len);
    v
}

fn memory_bytes(mem: &GuestMemory, addr: usize, len: usize) -> Vec<u8> {
    mem.read_bytes(addr, len).unwrap()
}

#[test]
fn setup_size_is_sectors_plus_one_times_512() {
    assert_eq!(setup_size(0), 512);
    assert_eq!(setup_size(3), 2048);
    assert_eq!(setup_size(19), 10240);
    assert_eq!(setup_size(255), 131072);
}

#[test]
fn payload_lands_at_kernel_address() {
    let img = image(12 * 1024, 3, 0x100);
    let mut mem = GuestMemory::new(MEM_SIZE);
    assert_eq!(load_kernel(&mut mem, &img), Ok(()));
    let setup = 4 * 512;
    let payload = memory_bytes(&mem, KERNEL_ADDR, img.len() - setup);
    assert_eq!(&payload[..], &img[setup..]);
    // nothing past the payload was written
    assert_eq!(memory_bytes(&mem, KERNEL_ADDR + img.len() - setup, 16), vec![0u8; 16]);
    // the setup code itself is not copied anywhere below the kernel
    assert_eq!(memory_bytes(&mem, KERNEL_ADDR - 16, 16), vec![0u8; 16]);
}

#[test]
fn boot_params_read_back_hold_patched_values() {
    let img = image(16 * 1024, 2, 0x800);
    let mut mem = GuestMemory::new(MEM_SIZE);
    load_kernel(&mut mem, &img).unwrap();
    let p = BootParams::read_from(&mem, BOOT_PARAMS_ADDR).unwrap();
    assert_eq!(p.vid_mode(), 0xffff);
    assert_eq!(p.type_of_loader(), 0xff);
    assert_eq!(p.ramdisk_image(), 0);
    assert_eq!(p.ramdisk_size(), 0);
    assert_eq!(p.cmd_line_ptr(), 0x2_0000);
    assert_eq!(p.heap_end_ptr(), 0xfe00);
    assert_eq!(p.ext_loader_ver(), 0);
    assert_eq!(p.loadflags(), 0x20 | 0x80 | 0x40 | 0x01);
    assert_eq!(p.setup_sects(), 2);
    assert_eq!(p.cmdline_size(), 0x800);
}

#[test]
fn boot_params_offsets_match_the_boot_protocol_layout() {
    let img = image(16 * 1024, 5, 0x7ff);
    let mut mem = GuestMemory::new(MEM_SIZE);
    load_kernel(&mut mem, &img).unwrap();
    let raw = memory_bytes(&mem, BOOT_PARAMS_ADDR, BOOT_PARAMS_SIZE);
    let params = boot_params::from_slice(&raw).unwrap();
    let hdr = params.hdr;
    let (vid_mode, type_of_loader, ramdisk_image, ramdisk_size) =
        (hdr.vid_mode, hdr.type_of_loader, hdr.ramdisk_image, hdr.ramdisk_size);
    let (loadflags, heap_end_ptr, ext_loader_ver, cmd_line_ptr) =
        (hdr.loadflags, hdr.heap_end_ptr, hdr.ext_loader_ver, hdr.cmd_line_ptr);
    let (setup_sects, cmdline_size) = (hdr.setup_sects, hdr.cmdline_size);
    assert_eq!(vid_mode, 0xffff);
    assert_eq!(type_of_loader, 0xff);
    assert_eq!(ramdisk_image, 0);
    assert_eq!(ramdisk_size, 0);
    assert_eq!(loadflags, 0xe1);
    assert_eq!(heap_end_ptr, 0xfe00);
    assert_eq!(ext_loader_ver, 0);
    assert_eq!(cmd_line_ptr, 0x2_0000);
    assert_eq!(setup_sects, 5);
    assert_eq!(cmdline_size, 0x7ff);
}

#[test]
fn boot_params_outside_patched_fields_are_copied_verbatim() {
    let img = image(16 * 1024, 1, 0x100);
    let mut mem = GuestMemory::new(MEM_SIZE);
    load_kernel(&mut mem, &img).unwrap();
    let raw = memory_bytes(&mem, BOOT_PARAMS_ADDR, BOOT_PARAMS_SIZE);
    assert_eq!(&raw[..0x1fa], &img[..0x1fa]);
    assert_eq!(&raw[0x1fc..0x210], &img[0x1fc..0x210]);
    assert_eq!(&raw[0x22c..], &img[0x22c..BOOT_PARAMS_SIZE]);
}

#[test]
fn write_then_read_boot_params_round_trip() {
    let img = image(MIN_IMAGE_SIZE, 4, 0x100);
    let p = BootParams::from_image(&img).unwrap();
    let mut mem = GuestMemory::new(0x3000);
    assert_eq!(p.write_to(&mut mem, 0x800), Ok(()));
    let q = BootParams::read_from(&mem, 0x800).unwrap();
    assert_eq!(q.as_bytes(), p.as_bytes());
    assert_eq!(q.setup_sects(), 4);
    assert_eq!(q.vid_mode(), 0x1234);
    assert_eq!(q.ramdisk_image(), 0x0080_0000);
    assert_eq!(q.cmd_line_ptr(), 0x0009_0000);
    assert_eq!(p.write_to(&mut mem, 0x3000 - BOOT_PARAMS_SIZE + 1), Err(MemoryError::OutOfBounds));
    assert!(BootParams::read_from(&mem, 0x2001).is_err());
}

#[test]
fn patching_boot_params_sets_loader_fields() {
    let img = image(MIN_IMAGE_SIZE, 4, 0x100);
    let mut p = BootParams::from_image(&img).unwrap();
    p.patch_for_loader();
    assert_eq!(p.vid_mode(), 0xffff);
    assert_eq!(p.type_of_loader(), 0xff);
    assert_eq!(p.ramdisk_size(), 0);
    assert_eq!(p.loadflags(), 0xe1);
    assert_eq!(p.cmdline_size(), 0x100);
}

#[test]
fn boot_params_need_a_full_block() {
    assert!(BootParams::from_image(&vec![0u8; BOOT_PARAMS_SIZE - 1]).is_none());
    assert!(BootParams::from_image(&vec![0u8; BOOT_PARAMS_SIZE]).is_some());
}

#[test]
fn command_line_buffer_after_load() {
    let img = image(12 * 1024, 1, 0x100);
    let mut mem = GuestMemory::new(MEM_SIZE);
    mem.fill(CMDLINE_ADDR, 0x200, 0xaa).unwrap();
    load_kernel(&mut mem, &img).unwrap();
    let buf = memory_bytes(&mem, CMDLINE_ADDR, 0x200);
    assert_eq!(&buf[..CMDLINE.len()], CMDLINE);
    assert!(buf[CMDLINE.len()..0x100].iter().all(|&b| b == 0));
    // past the header's buffer size the old contents stay
    assert!(buf[0x100..].iter().all(|&b| b == 0xaa));
}

#[test]
fn command_line_written_even_when_buffer_is_shorter() {
    let img = image(12 * 1024, 1, 4);
    let mut mem = GuestMemory::new(MEM_SIZE);
    load_kernel(&mut mem, &img).unwrap();
    assert_eq!(memory_bytes(&mem, CMDLINE_ADDR, CMDLINE.len()), CMDLINE.to_vec());
}

#[test]
fn image_one_byte_larger_than_memory_is_rejected() {
    let mem_size = 0x12_0000;
    let img = image(mem_size + 1, 1, 0x100);
    let mut mem = GuestMemory::new(mem_size);
    assert_eq!(load_kernel(&mut mem, &img), Err(LoadError::ImageTooLarge));
    assert_eq!(memory_bytes(&mem, 0, mem_size), vec![0u8; mem_size]);
}

#[test]
fn empty_image_is_rejected() {
    let mut mem = GuestMemory::new(MEM_SIZE);
    assert_eq!(load_kernel(&mut mem, &[]), Err(LoadError::ImageTooSmall));
}

#[test]
fn image_below_minimum_size_is_rejected() {
    let img = image(MIN_IMAGE_SIZE - 1, 1, 0x100);
    let mut mem = GuestMemory::new(MEM_SIZE);
    assert_eq!(load_kernel(&mut mem, &img), Err(LoadError::ImageTooSmall));
}

#[test]
fn image_of_minimum_size_is_accepted() {
    let img = image(MIN_IMAGE_SIZE, 19, 0x100);
    let mut mem = GuestMemory::new(MEM_SIZE);
    assert_eq!(load_kernel(&mut mem, &img), Ok(()));
}

#[test]
fn setup_code_past_image_end_is_rejected() {
    let img = image(MIN_IMAGE_SIZE, 20, 0x100);
    let mut mem = GuestMemory::new(MEM_SIZE);
    assert_eq!(load_kernel(&mut mem, &img), Err(LoadError::SetupTruncated));
    assert_eq!(memory_bytes(&mem, BOOT_PARAMS_ADDR, 16), vec![0u8; 16]);
}

#[test]
fn payload_past_memory_end_is_rejected() {
    let img = image(0x8000, 1, 0x100);
    let payload = 0x8000 - 1024;
    let mut exact = GuestMemory::new(KERNEL_ADDR + payload);
    assert_eq!(load_kernel(&mut exact, &img), Ok(()));
    let mut short = GuestMemory::new(KERNEL_ADDR + payload - 1);
    assert_eq!(load_kernel(&mut short, &img), Err(LoadError::DoesNotFit));
    assert_eq!(memory_bytes(&short, CMDLINE_ADDR, CMDLINE.len()), vec![0u8; CMDLINE.len()]);
}

#[test]
fn command_line_buffer_past_memory_end_is_rejected() {
    let img = image(MIN_IMAGE_SIZE, 1, 0x4000_0000);
    let mut mem = GuestMemory::new(MEM_SIZE);
    assert_eq!(load_kernel(&mut mem, &img), Err(LoadError::DoesNotFit));
}

#[test]
fn memory_starts_zeroed_and_checks_bounds() {
    let mut mem = GuestMemory::new(64);
    assert_eq!(mem.size(), 64);
    assert_eq!(memory_bytes(&mem, 0, 64), vec![0u8; 64]);
    assert_eq!(mem.write_bytes(60, &[1, 2, 3, 4]), Ok(()));
    assert_eq!(mem.write_bytes(61, &[1, 2, 3, 4]), Err(MemoryError::OutOfBounds));
    assert_eq!(mem.write_bytes(usize::MAX, &[1]), Err(MemoryError::OutOfBounds));
    assert_eq!(memory_bytes(&mem, 58, 6), vec![0, 0, 1, 2, 3, 4]);
    assert_eq!(mem.fill(10, 5, 9), Ok(()));
    assert_eq!(mem.fill(10, 55, 9), Err(MemoryError::OutOfBounds));
    assert_eq!(memory_bytes(&mem, 9, 7), vec![0, 9, 9, 9, 9, 9, 0]);
    assert_eq!(mem.read_bytes(60, 5), Err(MemoryError::OutOfBounds));
    assert_eq!(mem.read_bytes(64, 0), Ok(vec![]));
    assert_eq!(mem.host_bytes().len(), 64);
}

#[test]
fn loadflag_bits_match_the_boot_protocol() {
    assert_eq!(CAN_USE_HEAP, linux_loader::loader::bootparam::CAN_USE_HEAP);
    assert_eq!(KEEP_SEGMENTS, linux_loader::loader::bootparam::KEEP_SEGMENTS);
    assert_eq!(LOADED_HIGH, linux_loader::loader::bootparam::LOADED_HIGH);
    assert_eq!(BOOT_PARAMS_SIZE, std::mem::size_of::<boot_params>());
}
