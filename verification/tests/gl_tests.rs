use rpi_kernel::gl::mailbox;
use rpi_kernel::gl::mailbox::{can_read, can_write, channel_number, read, Channel};
use rpi_kernel::gl::{fb_len, init, set_pixel, FbConfig};

#[test]
fn mailbox_message_and_answer() {
    assert_eq!(channel_number(Channel::TagsVcToArm), 9);
    assert_eq!(mailbox::write(Channel::Framebuffer, 0x4000_1000), 0x4000_1001);
    assert!(read(Channel::Framebuffer, 0x1));
    assert!(!read(Channel::Framebuffer, 0x11));
    assert!(!read(Channel::Leds, 0x1));
    assert!(read(Channel::Framebuffer, mailbox::write(Channel::Framebuffer, 0)));
    assert!(!read(Channel::Leds, mailbox::write(Channel::Framebuffer, 0)));
}

#[test]
fn mailbox_status() {
    assert!(can_write(0x4000_0000));
    assert!(!can_write(0x8000_0000));
    assert!(can_read(0x8000_0000));
    assert!(!can_read(0x4000_0000));
}

#[test]
fn framebuffer_request() {
    let c = FbConfig::new();
    assert_eq!((c.width, c.height, c.depth, c.size), (20, 20, 32, 0));
    assert_eq!(init(0x0000_8010), 0x4000_8011);
    let filled = FbConfig { size: 1600, ..c };
    assert_eq!(fb_len(&filled), 400);
}

#[test]
fn pixel_lands_at_row_major_index() {
    let c = FbConfig::new();
    let mut fb = vec![0u32; 400];
    set_pixel(&mut fb, &c, 0xFF00FF, 3, 2);
    assert_eq!(fb[43], 0xFF00FF);
    assert_eq!(fb.iter().filter(|&&p| p != 0).count(), 1);
}
