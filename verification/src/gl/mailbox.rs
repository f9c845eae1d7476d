//! The mailbox between the ARM core and the GPU: a message is a word whose
//! low four bits name the channel and whose upper bits carry the data.
use vstd::prelude::*;

verus! {

pub const MAILBOX_BASE: u32 = 0x2000B880;
/// Register that yields the next message to the ARM core.
pub const READ_REG: u32 = 0x2000B880;
/// Register that tells whether the mailbox is full or empty.
pub const STATUS_REG: u32 = 0x2000B898;
/// Register that takes a message for the GPU.
pub const WRITE_REG: u32 = 0x2000B8A0;

pub const MAILBOX_FULL: u32 = 0x80000000;
pub const MAILBOX_EMPTY: u32 = 0x40000000;

/// The mailbox channels.
#[derive(Clone, Copy, PartialEq, Eq, Structural, Debug)]
pub enum Channel {
    PowerManagement,
    Framebuffer,
    VirtualUart,
    Vchiq,
    Leds,
    Buttons,
    Touchscreen,
    Unused,
    TagsArmToVc,
    TagsVcToArm,
}

/// The number of a channel.
pub open spec fn channel_num(channel: Channel) -> u32 {
    match channel {
        Channel::PowerManagement => 0,
        Channel::Framebuffer => 1,
        Channel::VirtualUart => 2,
        Channel::Vchiq => 3,
        Channel::Leds => 4,
        Channel::Buttons => 5,
        Channel::Touchscreen => 6,
        Channel::Unused => 7,
        Channel::TagsArmToVc => 8,
        Channel::TagsVcToArm => 9,
    }
}

/// The number of a channel.
pub fn channel_number(channel: Channel) -> (n: u32)
    ensures
        n == channel_num(channel),
{
    match channel {
        Channel::PowerManagement => 0,
        Channel::Framebuffer => 1,
        Channel::VirtualUart => 2,
        Channel::Vchiq => 3,
        Channel::Leds => 4,
        Channel::Buttons => 5,
        Channel::Touchscreen => 6,
        Channel::Unused => 7,
        Channel::TagsArmToVc => 8,
        Channel::TagsVcToArm => 9,
    }
}

/// Whether the status word lets a message be written (the mailbox is not full).
pub fn can_write(status: u32) -> (r: bool)
    ensures
        r == (status & MAILBOX_FULL == 0),
{
    status & MAILBOX_FULL == 0
}

/// Whether the status word lets a message be read (the mailbox is not empty).
pub fn can_read(status: u32) -> (r: bool)
    ensures
        r == (status & MAILBOX_EMPTY == 0),
{
    status & MAILBOX_EMPTY == 0
}

/// The message that sends `addr` on `channel`; `addr` must be a multiple of 16.
pub fn write(channel: Channel, addr: u32) -> (msg: u32)
    requires
        addr & 0xFu32 == 0,
    ensures
        msg == addr + channel_num(channel),
{
    proof {
        assert(addr & 0xFu32 == 0 ==> addr <= 0xFFFFFFF0u32) by (bit_vector);
    }
    addr + channel_number(channel)
}

/// The answer that `ra`, read from the mailbox, gives on `channel`: true when
/// the message is for `channel` and its data is zero.
pub fn read(channel: Channel, ra: u32) -> (ok: bool)
    ensures
        ok == ((ra & 0xF) == channel_num(channel) && (ra >> 4) == 0),
{
    if (ra & 0xF) == channel_number(channel) {
        return (ra >> 4) == 0;
    }
    return false;
}

/// The hardware numbers of the channels, in the order the mailbox defines
/// them: a message on a channel carries its number in the low four bits.
pub proof fn lemma_channel_numbers(addr: u32)
    requires
        addr & 0xFu32 == 0,
    ensures
        channel_num(Channel::PowerManagement) == 0,
        channel_num(Channel::Framebuffer) == 1,
        channel_num(Channel::VirtualUart) == 2,
        channel_num(Channel::Vchiq) == 3,
        channel_num(Channel::Leds) == 4,
        channel_num(Channel::Buttons) == 5,
        channel_num(Channel::Touchscreen) == 6,
        channel_num(Channel::Unused) == 7,
        channel_num(Channel::TagsArmToVc) == 8,
        channel_num(Channel::TagsVcToArm) == 9,
        forall|c1: Channel, c2: Channel| channel_num(c1) == channel_num(c2) ==> c1 == c2,
        forall|c: Channel| ((addr + #[trigger] channel_num(c)) as u32) & 0xFu32 == channel_num(c),
{
    assert forall|c: Channel| ((addr + #[trigger] channel_num(c)) as u32) & 0xFu32 == channel_num(c) by {
        let n = channel_num(c);
        assert(n < 16);
        assert(((addr + n) as u32) & 0xFu32 == n) by (bit_vector)
            requires
                addr & 0xFu32 == 0,
                n < 16,
        ;
    }
}

/// A message written on a channel and read back on a channel answers true
/// exactly when both channels agree and the data is zero.
pub proof fn lemma_message_roundtrip(sent: Channel, asked: Channel, addr: u32)
    requires
        addr & 0xFu32 == 0,
    ensures
        ({
            let msg = (addr + channel_num(sent)) as u32;
            ((msg & 0xF) == channel_num(asked) && (msg >> 4) == 0) == (sent == asked && addr == 0)
        }),
{
    let c = channel_num(sent);
    let d = channel_num(asked);
    assert(c < 16 && d < 16);
    let msg = (addr + c) as u32;
    assert(addr <= 0xFFFFFFF0u32) by (bit_vector)
        requires
            addr & 0xFu32 == 0,
    ;
    assert(msg & 0xF == c && (msg >> 4 == 0 <==> addr == 0)) by (bit_vector)
        requires
            addr & 0xFu32 == 0,
            c < 16,
            msg == (addr + c) as u32,
            addr <= 0xFFFFFFF0u32,
    ;
}

} // verus!
