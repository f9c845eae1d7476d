//! The framebuffer: its configuration, the message that asks the GPU for
//! it, and pixel writes.
use vstd::prelude::*;

pub mod font;
pub mod mailbox;

verus! {

/// Added to an ARM address to reach the same memory through the GPU's
/// uncached alias.
pub const GPU_NOCACHE: u32 = 0x40000000;

/// Screen width in pixels.
pub const WIDTH: u32 = 20;
/// Screen height in pixels.
pub const HEIGHT: u32 = 20;

/// The framebuffer request shared with the GPU; the GPU fills in `pitch`,
/// `framebuffer` and `size`.
#[derive(Clone, Copy, PartialEq, Eq, Structural, Debug)]
pub struct FbConfig {
    pub width: u32,
    pub height: u32,
    pub virtual_width: u32,
    pub virtual_height: u32,
    pub pitch: u32,
    pub depth: u32,
    pub x_offset: u32,
    pub y_offset: u32,
    pub framebuffer: u32,
    pub size: u32,
}

impl FbConfig {
    /// The request for a `WIDTH` by `HEIGHT` screen of 32-bit pixels.
    pub fn new() -> (c: FbConfig)
        ensures
            c == (FbConfig {
                width: WIDTH,
                height: HEIGHT,
                virtual_width: WIDTH,
                virtual_height: HEIGHT,
                pitch: 0,
                depth: 32,
                x_offset: 0,
                y_offset: 0,
                framebuffer: 0,
                size: 0,
            }),
    {
        FbConfig {
            width: WIDTH,
            height: HEIGHT,
            virtual_width: WIDTH,
            virtual_height: HEIGHT,
            depth: 32,
            x_offset: 0,
            y_offset: 0,
            // The GPU will fill these in.
            pitch: 0,
            framebuffer: 0,
            size: 0,
        }
    }
}

/// The mailbox message that hands the configuration at `config_addr` to
/// the GPU on the framebuffer channel, through the uncached alias.
pub fn init(config_addr: u32) -> (msg: u32)
    requires
        config_addr + GPU_NOCACHE <= u32::MAX,
        (config_addr + GPU_NOCACHE) as u32 & 0xFu32 == 0,
    ensures
        msg == config_addr + GPU_NOCACHE + mailbox::channel_num(mailbox::Channel::Framebuffer),
{
    let uncached_fb_config_addr = config_addr + GPU_NOCACHE;
    mailbox::write(mailbox::Channel::Framebuffer, uncached_fb_config_addr)
}

/// The framebuffer request goes out on channel 1 through the uncached
/// alias: the message is the configuration's address plus 0x40000000, with
/// 1 in its low four bits.
pub proof fn lemma_init_message(config_addr: u32)
    requires
        config_addr + GPU_NOCACHE <= u32::MAX,
        (config_addr + GPU_NOCACHE) as u32 & 0xFu32 == 0,
    ensures
        GPU_NOCACHE == 0x40000000,
        ((config_addr + GPU_NOCACHE + mailbox::channel_num(mailbox::Channel::Framebuffer)) as u32)
            & 0xFu32 == 1,
        config_addr + GPU_NOCACHE + mailbox::channel_num(mailbox::Channel::Framebuffer)
            == config_addr + 0x40000001,
{
    let a = (config_addr + GPU_NOCACHE) as u32;
    assert((((a + 1) as u32) & 0xFu32) == 1) by (bit_vector)
        requires
            a & 0xFu32 == 0,
    ;
}

/// Number of 32-bit pixels in the framebuffer the GPU handed out.
pub fn fb_len(config: &FbConfig) -> (n: usize)
    ensures
        n == config.size / 4,
{
    (config.size / 4) as usize
}

/// Writes `color` at column `x` of row `y`, rows being `config.width`
/// pixels apart.
pub fn set_pixel(fb: &mut [u32], config: &FbConfig, color: u32, x: usize, y: usize)
    requires
        y * config.width + x < old(fb)@.len(),
    ensures
        final(fb)@ == old(fb)@.update(y * config.width + x, color),
{
    let n = fb.len();
    proof {
        assert(0 <= y * config.width) by (nonlinear_arith)
            requires
                y >= 0,
                config.width >= 0,
        ;
        assert(y * config.width < n);
    }
    fb[(y * config.width as usize) + x] = color;
}

} // verus!
