//! Placing a bzImage-layout kernel image into guest memory per the x86
//! Linux boot protocol, booting straight into the protected-mode entry.
use vstd::prelude::*;

use crate::boot_params::{
    cmd_line_ptr_of, cmdline_size_of, ext_loader_ver_of, heap_end_ptr_of, lemma_patched_fields,
    loader_flags, loadflags_of, patched, ramdisk_image_of, ramdisk_size_of, setup_sects_of,
    type_of_loader_of, vid_mode_of, BootParams, BOOT_PARAMS_SIZE, LOADFLAGS, SETUP_SECTS,
};
use crate::layout::{BOOT_PARAMS_ADDR, CMDLINE_ADDR, KERNEL_ADDR, MIN_IMAGE_SIZE};
use crate::memory::{overwrite, repeat, GuestMemory};

verus! {

/// Size in bytes of one setup sector.
pub const SECTOR_SIZE: usize = 512;

/// Why an image was not loaded.
#[derive(Debug, Clone, Copy, PartialEq, Eq, Structural)]
pub enum LoadError {
    /// The image is larger than guest memory.
    ImageTooLarge,
    /// The image is smaller than any plausible kernel.
    ImageTooSmall,
    /// The real-mode setup code that the header declares runs past the end
    /// of the image.
    SetupTruncated,
    /// The command-line buffer or the kernel payload would reach past the
    /// end of guest memory.
    DoesNotFit,
}

/// The kernel command line, NUL-terminated: `console=ttyS0`.
pub open spec fn kernel_cmdline() -> Seq<u8> {
    seq![
        0x63u8, 0x6f, 0x6e, 0x73, 0x6f, 0x6c, 0x65, 0x3d, 0x74, 0x74, 0x79, 0x53, 0x30, 0x00,
    ]
}

/// Bytes of real-mode setup code in front of the protected-mode payload.
pub open spec fn setup_size_of(setup_sects: int) -> int {
    (setup_sects + 1) * SECTOR_SIZE
}

/// Guest memory bytes from `CMDLINE_ADDR` on that the command line occupies:
/// the header's buffer size, or the string itself where that is longer.
pub open spec fn cmdline_extent(image: Seq<u8>) -> int {
    let n = cmdline_size_of(image);
    if n >= kernel_cmdline().len() { n } else { kernel_cmdline().len() as int }
}

/// The error that loading `image` into a memory of `mem_len` bytes gives,
/// checked in this order, or `None` where the image loads.
pub open spec fn load_error(mem_len: int, image: Seq<u8>) -> Option<LoadError> {
    if image.len() > mem_len {
        Some(LoadError::ImageTooLarge)
    } else if image.len() < MIN_IMAGE_SIZE {
        Some(LoadError::ImageTooSmall)
    } else if setup_size_of(setup_sects_of(image)) > image.len() {
        Some(LoadError::SetupTruncated)
    } else if CMDLINE_ADDR + cmdline_extent(image) > mem_len
        || KERNEL_ADDR + (image.len() - setup_size_of(setup_sects_of(image))) > mem_len {
        Some(LoadError::DoesNotFit)
    } else {
        None
    }
}

/// Guest memory `mem` after loading `image`: the patched boot parameters at
/// `BOOT_PARAMS_ADDR`; at `CMDLINE_ADDR` the header's `cmdline_size` zero
/// bytes, then over them the command line; at `KERNEL_ADDR` the image from
/// the end of its setup code on.
pub open spec fn loaded(mem: Seq<u8>, image: Seq<u8>) -> Seq<u8> {
    let params = patched(image.subrange(0, BOOT_PARAMS_SIZE as int));
    let setup = setup_size_of(setup_sects_of(image));
    let m1 = overwrite(mem, BOOT_PARAMS_ADDR as int, params);
    let m2 = overwrite(m1, CMDLINE_ADDR as int, repeat(0, cmdline_size_of(image) as nat));
    let m3 = overwrite(m2, CMDLINE_ADDR as int, kernel_cmdline());
    overwrite(m3, KERNEL_ADDR as int, image.subrange(setup, image.len() as int))
}

/// The size of the real-mode setup code of an image whose header declares
/// `setup_sects` sectors.
pub fn setup_size(setup_sects: u8) -> (r: usize)
    ensures
        r == setup_size_of(setup_sects as int),
{
    (setup_sects as usize + 1) * SECTOR_SIZE
}

fn cmdline_bytes() -> (r: Vec<u8>)
    ensures
        r@ == kernel_cmdline(),
{
    let r: Vec<u8> = vec![
        0x63u8, 0x6f, 0x6e, 0x73, 0x6f, 0x6c, 0x65, 0x3d, 0x74, 0x74, 0x79, 0x53, 0x30, 0x00,
    ];
    assert(r@ =~= kernel_cmdline());
    r
}

/// Loads a kernel image into guest memory (see `loaded`), or, changing
/// nothing, returns the error that `load_error` gives.
pub fn load_kernel(mem: &mut GuestMemory, image: &[u8]) -> (r: Result<(), LoadError>)
    ensures
        r is Ok <==> load_error(old(mem)@.len() as int, image@) is None,
        r matches Err(e) ==> load_error(old(mem)@.len() as int, image@) == Some(e),
        r is Ok ==> final(mem)@ == loaded(old(mem)@, image@),
        r is Err ==> final(mem)@ == old(mem)@,
{
    let mem_size = mem.size();
    if image.len() > mem_size {
        return Err(LoadError::ImageTooLarge);
    }
    if image.len() < MIN_IMAGE_SIZE {
        return Err(LoadError::ImageTooSmall);
    }
    let mut params = match BootParams::from_image(image) {
        Some(p) => p,
        None => return Err(LoadError::ImageTooSmall),
    };
    assert(params@[0x1f1] == image@[0x1f1]);
    let setup = setup_size(params.setup_sects());
    if setup > image.len() {
        return Err(LoadError::SetupTruncated);
    }
    let cmdline = cmdline_bytes();
    let cmdline_size = params.cmdline_size() as usize;
    assert(cmdline_size_of(params@) == cmdline_size_of(image@));
    let extent = if cmdline_size >= cmdline.len() { cmdline_size } else { cmdline.len() };
    let payload = image.len() - setup;
    if mem_size < KERNEL_ADDR || extent > mem_size - CMDLINE_ADDR || payload > mem_size - KERNEL_ADDR {
        return Err(LoadError::DoesNotFit);
    }
    params.patch_for_loader();
    let r1 = params.write_to(mem, BOOT_PARAMS_ADDR);
    assert(r1 is Ok);
    let r2 = mem.fill(CMDLINE_ADDR, cmdline_size, 0);
    assert(r2 is Ok);
    let r3 = mem.write_bytes(CMDLINE_ADDR, cmdline.as_slice());
    assert(r3 is Ok);
    let r4 = mem.write_bytes(KERNEL_ADDR, &image[setup..image.len()]);
    assert(r4 is Ok);
    Ok(())
}

/// The payload of a loaded image, everything after its
/// `(setup_sects + 1) * 512` bytes of setup code, stands unchanged at
/// `KERNEL_ADDR`.
pub proof fn lemma_payload_placement(mem: Seq<u8>, image: Seq<u8>)
    requires
        load_error(mem.len() as int, image) is None,
    ensures
        setup_size_of(setup_sects_of(image)) == (image[SETUP_SECTS as int] + 1) * 512,
        ({
            let setup = setup_size_of(setup_sects_of(image));
            loaded(mem, image).subrange(KERNEL_ADDR as int, KERNEL_ADDR + image.len() - setup)
                == image.subrange(setup, image.len() as int)
        }),
{
    let setup = setup_size_of(setup_sects_of(image));
    assert(loaded(mem, image).subrange(KERNEL_ADDR as int, KERNEL_ADDR + image.len() - setup)
        =~= image.subrange(setup, image.len() as int));
}

/// After loading, the boot-parameters block read back from
/// `BOOT_PARAMS_ADDR` is the image's block with the loader's fields filled
/// in: video mode 0xffff, loader type 0xff, no ramdisk, the command line at
/// `CMDLINE_ADDR`, heap end 0xfe00, loader version 0, the loader flags added;
/// the setup-sector count and command-line size are the image's.
pub proof fn lemma_boot_params_read_back(mem: Seq<u8>, image: Seq<u8>)
    requires
        load_error(mem.len() as int, image) is None,
    ensures
        ({
            let p = loaded(mem, image).subrange(
                BOOT_PARAMS_ADDR as int,
                BOOT_PARAMS_ADDR + BOOT_PARAMS_SIZE,
            );
            &&& p == patched(image.subrange(0, BOOT_PARAMS_SIZE as int))
            &&& vid_mode_of(p) == 0xffff
            &&& type_of_loader_of(p) == 0xff
            &&& ramdisk_image_of(p) == 0
            &&& ramdisk_size_of(p) == 0
            &&& cmd_line_ptr_of(p) == CMDLINE_ADDR
            &&& heap_end_ptr_of(p) == 0xfe00
            &&& ext_loader_ver_of(p) == 0
            &&& loadflags_of(p) == image[LOADFLAGS as int] | loader_flags()
            &&& setup_sects_of(p) == setup_sects_of(image)
            &&& cmdline_size_of(p) == cmdline_size_of(image)
        }),
{
    let p = loaded(mem, image).subrange(BOOT_PARAMS_ADDR as int, BOOT_PARAMS_ADDR + BOOT_PARAMS_SIZE);
    assert(p =~= patched(image.subrange(0, BOOT_PARAMS_SIZE as int)));
    lemma_patched_fields(image.subrange(0, BOOT_PARAMS_SIZE as int));
}

/// After loading, guest memory at `CMDLINE_ADDR` holds `console=ttyS0` and
/// its NUL, and zeros from there to the end of the header's command-line
/// buffer, where that buffer ends below the kernel.
pub proof fn lemma_cmdline_buffer(mem: Seq<u8>, image: Seq<u8>)
    requires
        load_error(mem.len() as int, image) is None,
        CMDLINE_ADDR + cmdline_size_of(image) <= KERNEL_ADDR,
    ensures
        loaded(mem, image).subrange(CMDLINE_ADDR as int, CMDLINE_ADDR + kernel_cmdline().len())
            == kernel_cmdline(),
        forall|a: int|
            CMDLINE_ADDR + kernel_cmdline().len() <= a < CMDLINE_ADDR + cmdline_size_of(image)
                ==> #[trigger] loaded(mem, image)[a] == 0,
{
    assert(loaded(mem, image).subrange(CMDLINE_ADDR as int, CMDLINE_ADDR + kernel_cmdline().len())
        =~= kernel_cmdline());
}

/// Images one byte larger than guest memory, and images below the minimum
/// size, are refused; an image of exactly the minimum size loads where its
/// setup code fits in it, its command-line buffer ends below the kernel and
/// memory has room for the kernel area.
pub proof fn lemma_image_size_bounds(mem_len: int, image: Seq<u8>)
    requires
        mem_len >= 0,
    ensures
        image.len() == mem_len + 1 ==> load_error(mem_len, image) == Some(LoadError::ImageTooLarge),
        image.len() < MIN_IMAGE_SIZE && image.len() <= mem_len ==> load_error(mem_len, image)
            == Some(LoadError::ImageTooSmall),
        image.len() == MIN_IMAGE_SIZE && setup_size_of(setup_sects_of(image)) <= MIN_IMAGE_SIZE
            && CMDLINE_ADDR + cmdline_size_of(image) <= KERNEL_ADDR && KERNEL_ADDR + MIN_IMAGE_SIZE
            <= mem_len ==> load_error(mem_len, image) is None,
{
}

} // verus!
