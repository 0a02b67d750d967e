//! The display and its framebuffers.
//!
//! A framebuffer descriptor fixes width, height, pitch and pixel format;
//! from it follows how much video memory the buffer needs, rounded up to
//! the video partition's page size. A framebuffer is such a descriptor
//! together with the memory block backing it. The display itself is a
//! process-wide singleton: taking it flips an explicit flag, and setting
//! or clearing the current framebuffer goes through a system call whose
//! status code is handed in here.

use vstd::prelude::*;

use crate::sce::{SceError, SceResult};
use crate::sysmem::{MemBlockMut, MemBlockOptions, MemPartition};

verus! {

/// The pixel formats the display accepts.
#[non_exhaustive]
#[derive(Clone, Copy, Default, Debug, PartialEq, Eq, Hash, Structural)]
pub enum PixelFormat {
    #[default]
    A8B8G8R8,
    A2B10G10R10,
}

/// The smallest pitch valid for a width: the width rounded up to a
/// multiple of 64.
pub open spec fn min_pitch_spec(width: u32) -> int {
    ((width + 63) / 64) * 64
}

/// The smallest pitch valid for `width`. Pitch has to be a multiple of 64.
pub fn min_pitch(width: u32) -> (r: u32)
    requires
        width <= u32::MAX - 63,
    ensures
        r == min_pitch_spec(width),
        r % 64 == 0,
        width <= r < width + 64,
{
    let r = ((width + 63) / 64) * 64;
    proof {
        assert(r == min_pitch_spec(width) && r % 64 == 0 && width <= r < width + 64) by (
        nonlinear_arith)
            requires
                r == ((width + 63) / 64) * 64,
                width <= u32::MAX - 63,
        ;
    }
    r
}

/// A framebuffer descriptor.
#[non_exhaustive]
#[derive(Clone, Debug, PartialEq, Eq, Hash, Structural)]
pub struct FramebufDesc {
    pub width: u32,
    pub pitch: u32,
    pub height: u32,
    pub pixel_format: PixelFormat,
}

/// Bytes per pixel of one format.
pub open spec fn bytes_per_pixel(f: PixelFormat) -> int {
    4
}

/// A size rounded up to a whole number of pages.
pub open spec fn round_up_to_page(b: int, p: int) -> int {
    if b % p == 0 {
        b
    } else {
        (b / p + 1) * p
    }
}

/// The bytes a framebuffer needs: pixel bytes for `pitch * height`,
/// rounded up to the video partition's page size.
pub open spec fn bytes_needed_spec(d: FramebufDesc) -> int {
    round_up_to_page(
        bytes_per_pixel(d.pixel_format) * d.pitch * d.height,
        MemPartition::Cdram.spec_page_size() as int,
    )
}

/// Whether a descriptor's memory demand fits the machine: each step of
/// the size computation stays within `usize`.
pub open spec fn desc_fits(d: FramebufDesc) -> bool {
    &&& bytes_per_pixel(d.pixel_format) * d.pitch <= usize::MAX
    &&& bytes_per_pixel(d.pixel_format) * d.pitch * d.height <= usize::MAX
    &&& bytes_needed_spec(d) <= usize::MAX
}

impl FramebufDesc {
    /// A descriptor for `width` by `height` pixels, with the smallest
    /// valid pitch and the default pixel format.
    pub fn new(width: u32, height: u32) -> (r: FramebufDesc)
        requires
            width <= u32::MAX - 63,
        ensures
            r.width == width,
            r.height == height,
            r.pitch == min_pitch_spec(width),
            r.pixel_format is A8B8G8R8,
    {
        FramebufDesc {
            pitch: min_pitch(width),
            pixel_format: PixelFormat::A8B8G8R8,
            width,
            height,
        }
    }

    /// The native descriptor of the device's screen.
    pub fn native() -> (r: FramebufDesc)
        ensures
            r.width == 960,
            r.height == 544,
            r.pitch == 960,
            r.pixel_format is A8B8G8R8,
    {
        let r = FramebufDesc::new(960, 544);
        assert(min_pitch_spec(960) == 960);
        r
    }

    /// How many bytes of video memory this framebuffer needs.
    pub fn bytes_needed(&self) -> (r: usize)
        requires
            desc_fits(*self),
        ensures
            r == bytes_needed_spec(*self),
    {
        let bpp: usize = match self.pixel_format {
            PixelFormat::A8B8G8R8 | PixelFormat::A2B10G10R10 => 4,
        };
        let raw: usize = bpp * (self.pitch as usize) * (self.height as usize);
        let page: usize = MemPartition::Cdram.page_size();
        let d = raw / page;
        let m = raw % page;
        if m == 0 {
            raw
        } else {
            (d + 1) * page
        }
    }

    /// Allocates and zeroes a framebuffer for this descriptor, accounting
    /// for the block-allocation system call's status `code`.
    pub fn alloc_mut_zeroed(self, code: i32) -> (r: SceResult<Framebuf>)
        requires
            code != 0,
            desc_fits(self),
        ensures
            code > 0 <==> r is Ok,
            r matches Ok(fb) ==> fb.desc == self && fb.memblock.spec_len() == bytes_needed_spec(
                self,
            ) && fb.memblock.spec_bytes() == Seq::new(
                bytes_needed_spec(self) as nat,
                |i: int| 0u8,
            ) && fb.memblock.spec_raw().spec_partition() is Cdram,
            r matches Err(e) ==> e.spec_code() == code,
    {
        let bytes = self.bytes_needed();
        let block = match MemBlockOptions::from_size(bytes).with_memory_partition(
            MemPartition::Cdram,
        ).alloc_mut(code) {
            Ok(b) => b,
            Err(e) => {
                return Err(e);
            },
        };
        let memblock = block.fill_init(0);
        Ok(Framebuf::new(memblock, self))
    }

    pub fn with_width(self, width: u32) -> (r: FramebufDesc)
        ensures
            r == (FramebufDesc { width, ..self }),
    {
        FramebufDesc { width, ..self }
    }

    pub fn with_height(self, height: u32) -> (r: FramebufDesc)
        ensures
            r == (FramebufDesc { height, ..self }),
    {
        FramebufDesc { height, ..self }
    }

    pub fn with_pitch(self, pitch: u32) -> (r: FramebufDesc)
        ensures
            r == (FramebufDesc { pitch, ..self }),
    {
        FramebufDesc { pitch, ..self }
    }

    pub fn with_pixel_format(self, pixel_format: PixelFormat) -> (r: FramebufDesc)
        ensures
            r == (FramebufDesc { pixel_format, ..self }),
    {
        FramebufDesc { pixel_format, ..self }
    }
}

impl Default for FramebufDesc {
    /// The native descriptor of the device's screen.
    fn default() -> (r: FramebufDesc)
        ensures
            r.width == 960,
            r.height == 544,
            r.pitch == 960,
            r.pixel_format is A8B8G8R8,
    {
        FramebufDesc::native()
    }
}

/// A framebuffer: a descriptor and the video memory backing it.
#[derive(Debug)]
pub struct Framebuf {
    pub memblock: MemBlockMut,
    pub desc: FramebufDesc,
}

impl Framebuf {
    pub fn new(memblock: MemBlockMut, desc: FramebufDesc) -> (r: Framebuf)
        ensures
            r.memblock == memblock,
            r.desc == desc,
    {
        Framebuf { memblock, desc }
    }

    /// Allocates and zeroes a framebuffer for the screen's native
    /// descriptor, accounting for the allocation call's status `code`.
    pub fn native(code: i32) -> (r: SceResult<Framebuf>)
        requires
            code != 0,
        ensures
            code > 0 <==> r is Ok,
            r matches Ok(fb) ==> fb.desc.width == 960 && fb.desc.height == 544 && fb.desc.pitch
                == 960 && fb.memblock.spec_len() == 0x200000,
            r matches Err(e) ==> e.spec_code() == code,
    {
        let desc = FramebufDesc::native();
        assert(desc_fits(desc));
        assert(bytes_needed_spec(desc) == 0x200000);
        desc.alloc_mut_zeroed(code)
    }
}

/// The display singleton and the framebuffer it currently scans out.
#[derive(Debug)]
pub struct Display {
    current: Option<Framebuf>,
}

impl Display {
    /// The framebuffer currently set, if any.
    pub closed spec fn spec_current(self) -> Option<Framebuf> {
        self.current
    }

    /// Claims the display. `taken` is the process-wide claim flag: when it
    /// is clear the claim succeeds and sets it; a second claim fails until
    /// the first is given up.
    pub fn take(taken: &mut bool) -> (r: Option<Display>)
        ensures
            *final(taken),
            !*old(taken) ==> r is Some && r->0.spec_current() is None,
            *old(taken) ==> r is None,
    {
        if *taken {
            None
        } else {
            *taken = true;
            Some(Display { current: None })
        }
    }

    /// Whether a framebuffer is currently set.
    pub fn is_set(&self) -> (r: bool)
        ensures
            r == (self.spec_current() is Some),
    {
        self.current.is_some()
    }

    /// Makes `fb` the framebuffer scanned out from the next frame on,
    /// accounting for the system call's status `code`: on success the
    /// previous framebuffer is handed back, on failure `fb` is returned
    /// with the error and nothing changes.
    pub fn replace_framebuf(&mut self, fb: Framebuf, code: i32) -> (r: Result<
        Option<Framebuf>,
        (SceError, Framebuf),
    >)
        ensures
            code == 0 <==> r is Ok,
            code == 0 ==> final(self).spec_current() == Some(fb) && (r matches Ok(prev) && prev
                == old(self).spec_current()),
            code != 0 ==> *final(self) == *old(self) && (r matches Err((e, back)) ==> (
            e.spec_code() == code && back == fb)),
    {
        if code == 0 {
            let prev = self.current.take();
            self.current = Some(fb);
            Ok(prev)
        } else {
            Err((SceError::from_raw_error(code), fb))
        }
    }

    /// Accounts for the wait on the framebuffer being taken over by the
    /// scan-out, a system call whose status `code` is handed in.
    pub fn wait_set_framebuf(&self, code: i32) -> (r: SceResult<()>)
        ensures
            code == 0 <==> r is Ok,
            r matches Err(e) ==> e.spec_code() == code,
    {
        crate::sce::sce_result_unit_from_code(code)
    }

    /// Accounts for the wait on the next vertical blanking period.
    pub fn wait_vblank_start(&self, code: i32) -> (r: SceResult<()>)
        ensures
            code == 0 <==> r is Ok,
            r matches Err(e) ==> e.spec_code() == code,
    {
        crate::sce::sce_result_unit_from_code(code)
    }

    /// Accounts for the wait on the `vcount`-th vertical blanking period
    /// from now.
    pub fn wait_vblank_start_multi(&self, vcount: u32, code: i32) -> (r: SceResult<()>)
        ensures
            code == 0 <==> r is Ok,
            r matches Err(e) ==> e.spec_code() == code,
    {
        let _ = vcount;
        crate::sce::sce_result_unit_from_code(code)
    }

    /// Clears the scanned-out framebuffer, accounting for the system
    /// call's status `code`; on success the framebuffer that was set, if
    /// any, is handed back.
    pub fn take_framebuf(&mut self, code: i32) -> (r: SceResult<Option<Framebuf>>)
        ensures
            code == 0 <==> r is Ok,
            code == 0 ==> final(self).spec_current() is None && (r matches Ok(prev) ==> prev == old(
                self,
            ).spec_current()),
            code != 0 ==> *final(self) == *old(self) && (r matches Err(e) ==> e.spec_code()
                == code),
    {
        if code == 0 {
            Ok(self.current.take())
        } else {
            Err(SceError::from_raw_error(code))
        }
    }
}

} // verus!
