//! The keyboard: PS/2 reception and translation of scan codes to characters.
//!
//! Scan codes arrive in a ring buffer filled by the receiver. `has_char`
//! consumes them: a release prefix drops the next code (and the one after
//! an extended prefix), shift and caps lock change the modifier state, and
//! any other code is translated through the keymap into the pending
//! character that `read_char` hands out.
use vstd::prelude::*;
use crate::mmio::MmioOp;
use crate::ringbuf::{lemma_pop_occupied, Buf, BufModel, SIZE};

pub mod ps2;

verus! {

pub const SCAN_RELEASE: u8 = 0xF0;
pub const SCAN_SPECIAL: u8 = 0xE0;

pub const SCAN_SPECIAL_LEFT: u8 = 0x6B;
pub const SCAN_SPECIAL_RIGHT: u8 = 0x74;
pub const SCAN_SPECIAL_UP: u8 = 0x75;
pub const SCAN_SPECIAL_DOWN: u8 = 0x72;

pub const SCAN_LSHIFT: u8 = 0x12;
pub const SCAN_RSHIFT: u8 = 0x59;
pub const SCAN_CAPSLOCK: u8 = 0x58;

/// Scan codes that `has_char` still has to take before it decides again.
#[derive(Clone, Copy, PartialEq, Eq, Structural, Debug)]
pub enum Pending {
    /// None: the next code starts a new key event.
    Nothing,
    /// A release prefix was taken; the released key's code comes next.
    Release,
    /// A release of an extended key: one more code is dropped.
    ReleaseSpecial,
    /// An extended prefix was taken; the next code is dropped.
    Special,
}

/// Modifier state and the character waiting to be read.
#[derive(Clone, Copy, PartialEq, Eq, Structural, Debug)]
pub struct Keyboard {
    pub shift: bool,
    pub capslock: bool,
    pub last_char: Option<char>,
    pub pending: Pending,
}

/// Translation of scan codes to characters, without and with shift.
pub struct Keymap {
    pub plain: [char; 256],
    pub shifted: [char; 256],
}

/// The character of `scan` under the current modifiers: shift and caps lock
/// cancel each other.
pub open spec fn translate(kb: Keyboard, km: &Keymap, scan: u8) -> char {
    if kb.shift != kb.capslock {
        km.shifted@[scan as int]
    } else {
        km.plain@[scan as int]
    }
}

/// `pop` of the scan buffer succeeds: `head` indexes a slot, and that slot
/// is occupied.
pub open spec fn pop_ok(m: BufModel<u8>) -> bool {
    0 <= m.head < m.slots.len() && m.can_pop()
}

/// The outcome of `has_char` on a keyboard state and a scan buffer: the new
/// state, the new buffer, and `Some(answer)`, or `None` when it stopped in
/// the middle of a key event for want of the next code. (Where a `pop` it
/// makes would fail, `has_char` does not return; `poll_ok` rules that out,
/// and the value here is then of no account.)
pub open spec fn poll(kb: Keyboard, m: BufModel<u8>, km: &Keymap) -> (Keyboard, BufModel<u8>, Option<bool>)
    decreases m.occupied_count(),
{
    match kb.pending {
        Pending::Nothing => {
            if m.is_empty() {
                (kb, m, Some(false))
            } else if kb.last_char is Some {
                (kb, m, Some(true))
            } else if !pop_ok(m) {
                (kb, m, None)
            } else {
                let scan = m.front();
                let rest = m.popped();
                proof {
                    lemma_pop_occupied(m);
                }
                if scan == SCAN_RELEASE {
                    poll(Keyboard { pending: Pending::Release, ..kb }, rest, km)
                } else if scan == SCAN_SPECIAL {
                    poll(Keyboard { pending: Pending::Special, ..kb }, rest, km)
                } else if scan == SCAN_LSHIFT || scan == SCAN_RSHIFT {
                    poll(Keyboard { shift: true, ..kb }, rest, km)
                } else if scan == SCAN_CAPSLOCK {
                    poll(Keyboard { capslock: !kb.capslock, ..kb }, rest, km)
                } else {
                    (Keyboard { last_char: Some(translate(kb, km, scan)), ..kb }, rest, Some(true))
                }
            }
        },
        Pending::Release => {
            if m.is_empty() || !pop_ok(m) {
                (kb, m, None)
            } else {
                let scan = m.front();
                let rest = m.popped();
                proof {
                    lemma_pop_occupied(m);
                }
                if scan == SCAN_LSHIFT || scan == SCAN_RSHIFT {
                    poll(Keyboard { shift: false, pending: Pending::Nothing, ..kb }, rest, km)
                } else if scan == SCAN_SPECIAL {
                    poll(Keyboard { pending: Pending::ReleaseSpecial, ..kb }, rest, km)
                } else {
                    poll(Keyboard { pending: Pending::Nothing, ..kb }, rest, km)
                }
            }
        },
        _ => {
            if m.is_empty() || !pop_ok(m) {
                (kb, m, None)
            } else {
                let rest = m.popped();
                proof {
                    lemma_pop_occupied(m);
                }
                poll(Keyboard { pending: Pending::Nothing, ..kb }, rest, km)
            }
        },
    }
}

/// Every `pop` that `has_char` makes on this state and buffer succeeds: the
/// inputs on which it returns.
pub open spec fn poll_ok(kb: Keyboard, m: BufModel<u8>, km: &Keymap) -> bool
    decreases m.occupied_count(),
{
    match kb.pending {
        Pending::Nothing => {
            if m.is_empty() || kb.last_char is Some {
                true
            } else if !pop_ok(m) {
                false
            } else {
                let scan = m.front();
                let rest = m.popped();
                proof {
                    lemma_pop_occupied(m);
                }
                if scan == SCAN_RELEASE {
                    poll_ok(Keyboard { pending: Pending::Release, ..kb }, rest, km)
                } else if scan == SCAN_SPECIAL {
                    poll_ok(Keyboard { pending: Pending::Special, ..kb }, rest, km)
                } else if scan == SCAN_LSHIFT || scan == SCAN_RSHIFT {
                    poll_ok(Keyboard { shift: true, ..kb }, rest, km)
                } else if scan == SCAN_CAPSLOCK {
                    poll_ok(Keyboard { capslock: !kb.capslock, ..kb }, rest, km)
                } else {
                    true
                }
            }
        },
        Pending::Release => {
            if m.is_empty() {
                true
            } else if !pop_ok(m) {
                false
            } else {
                let scan = m.front();
                let rest = m.popped();
                proof {
                    lemma_pop_occupied(m);
                }
                if scan == SCAN_LSHIFT || scan == SCAN_RSHIFT {
                    poll_ok(Keyboard { shift: false, pending: Pending::Nothing, ..kb }, rest, km)
                } else if scan == SCAN_SPECIAL {
                    poll_ok(Keyboard { pending: Pending::ReleaseSpecial, ..kb }, rest, km)
                } else {
                    poll_ok(Keyboard { pending: Pending::Nothing, ..kb }, rest, km)
                }
            }
        },
        _ => {
            if m.is_empty() {
                true
            } else if !pop_ok(m) {
                false
            } else {
                let rest = m.popped();
                proof {
                    lemma_pop_occupied(m);
                }
                poll_ok(Keyboard { pending: Pending::Nothing, ..kb }, rest, km)
            }
        },
    }
}

/// What `has_char` answers: `Some(true)` only with a character pending;
/// `Some(false)` only with the buffer empty and no key event half taken;
/// `None` only with the buffer empty in the middle of a key event. A state
/// with no character pending keeps none pending unless the answer is
/// `Some(true)`, and a well-formed buffer stays well formed.
pub proof fn lemma_poll_answers(kb: Keyboard, m: BufModel<u8>, km: &Keymap)
    requires
        poll_ok(kb, m, km),
    ensures
        ({
            let (kb2, m2, r) = poll(kb, m, km);
            &&& m.wf() ==> m2.wf()
            &&& r == Some(true) ==> kb2.last_char is Some
            &&& r == Some(false) ==> m2.is_empty() && kb2.pending == Pending::Nothing
            &&& r is None ==> m2.is_empty() && kb2.pending != Pending::Nothing
            &&& kb.last_char is None && r != Some(true) ==> kb2.last_char is None
        }),
    decreases m.occupied_count(),
{
    if m.wf() {
        crate::ringbuf::lemma_len_push_pop(m, 0u8);
    }
    if !m.is_empty() && pop_ok(m) {
        lemma_pop_occupied(m);
        let rest = m.popped();
        let scan = m.front();
        match kb.pending {
            Pending::Nothing => {
                if kb.last_char is None {
                    if scan == SCAN_RELEASE {
                        lemma_poll_answers(Keyboard { pending: Pending::Release, ..kb }, rest, km);
                    } else if scan == SCAN_SPECIAL {
                        lemma_poll_answers(Keyboard { pending: Pending::Special, ..kb }, rest, km);
                    } else if scan == SCAN_LSHIFT || scan == SCAN_RSHIFT {
                        lemma_poll_answers(Keyboard { shift: true, ..kb }, rest, km);
                    } else if scan == SCAN_CAPSLOCK {
                        lemma_poll_answers(Keyboard { capslock: !kb.capslock, ..kb }, rest, km);
                    }
                }
            },
            Pending::Release => {
                if scan == SCAN_LSHIFT || scan == SCAN_RSHIFT {
                    lemma_poll_answers(Keyboard { shift: false, pending: Pending::Nothing, ..kb }, rest, km);
                } else if scan == SCAN_SPECIAL {
                    lemma_poll_answers(Keyboard { pending: Pending::ReleaseSpecial, ..kb }, rest, km);
                } else {
                    lemma_poll_answers(Keyboard { pending: Pending::Nothing, ..kb }, rest, km);
                }
            },
            _ => {
                lemma_poll_answers(Keyboard { pending: Pending::Nothing, ..kb }, rest, km);
            },
        }
    }
}

/// After a release prefix, the released key's code is dropped and changes
/// nothing, unless it is a shift key (which clears `shift`) or an extended
/// prefix (which drops one code more). In particular releasing caps lock
/// leaves `capslock` as it was.
pub proof fn lemma_release_drops_code(kb: Keyboard, m: BufModel<u8>, km: &Keymap)
    requires
        kb.pending == Pending::Release,
        !m.is_empty(),
        pop_ok(m),
        m.front() != SCAN_LSHIFT,
        m.front() != SCAN_RSHIFT,
        m.front() != SCAN_SPECIAL,
    ensures
        poll(kb, m, km) == poll(Keyboard { pending: Pending::Nothing, ..kb }, m.popped(), km),
        poll_ok(kb, m, km) == poll_ok(Keyboard { pending: Pending::Nothing, ..kb }, m.popped(), km),
{
}

/// Releasing a shift key clears `shift` and changes nothing else.
pub proof fn lemma_shift_release(kb: Keyboard, m: BufModel<u8>, km: &Keymap)
    requires
        kb.pending == Pending::Release,
        !m.is_empty(),
        pop_ok(m),
        m.front() == 0x12u8 || m.front() == 0x59u8,
    ensures
        poll(kb, m, km) == poll(
            Keyboard { shift: false, pending: Pending::Nothing, ..kb },
            m.popped(),
            km,
        ),
{
}

/// A caps lock press followed by its release (0x58, 0xF0, 0x58) flips
/// `capslock` exactly once: the release pair 0xF0 0x58 has no effect at all.
pub proof fn lemma_capslock_press_release(kb: Keyboard, m: BufModel<u8>, km: &Keymap)
    requires
        kb.pending == Pending::Nothing,
        kb.last_char is None,
        !m.is_empty(),
        pop_ok(m),
        m.front() == 0xF0u8,
        !m.popped().is_empty(),
        pop_ok(m.popped()),
        m.popped().front() == 0x58u8,
    ensures
        poll(kb, m, km) == poll(kb, m.popped().popped(), km),
        poll_ok(kb, m, km) == poll_ok(kb, m.popped().popped(), km),
{
    let k1 = Keyboard { pending: Pending::Release, ..kb };
    assert(poll(kb, m, km) == poll(k1, m.popped(), km));
    assert(poll(k1, m.popped(), km) == poll(Keyboard { pending: Pending::Nothing, ..k1 }, m.popped().popped(), km));
    assert(Keyboard { pending: Pending::Nothing, ..k1 } == kb);
    assert(poll_ok(kb, m, km) == poll_ok(k1, m.popped(), km));
}

/// The caps lock make code (0x58) flips `capslock`; a shift make code
/// (0x12 or 0x59) sets `shift`; neither yields a character by itself.
pub proof fn lemma_modifier_make_codes(kb: Keyboard, m: BufModel<u8>, km: &Keymap)
    requires
        kb.pending == Pending::Nothing,
        kb.last_char is None,
        !m.is_empty(),
        pop_ok(m),
    ensures
        m.front() == 0x58u8 ==> poll(kb, m, km) == poll(
            Keyboard { capslock: !kb.capslock, ..kb },
            m.popped(),
            km,
        ),
        m.front() == 0x12u8 || m.front() == 0x59u8 ==> poll(kb, m, km) == poll(
            Keyboard { shift: true, ..kb },
            m.popped(),
            km,
        ),
{
}

/// A code that is neither a prefix nor a modifier is taken alone and
/// becomes the pending character: from the shifted table when exactly one
/// of shift and caps lock is on, else from the plain table; the modifiers
/// stay as they were.
pub proof fn lemma_key_translation(kb: Keyboard, m: BufModel<u8>, km: &Keymap)
    requires
        kb.pending == Pending::Nothing,
        kb.last_char is None,
        !m.is_empty(),
        pop_ok(m),
        m.front() != 0xF0u8,
        m.front() != 0xE0u8,
        m.front() != 0x12u8,
        m.front() != 0x59u8,
        m.front() != 0x58u8,
    ensures
        poll_ok(kb, m, km),
        poll(kb, m, km) == (
            Keyboard {
                last_char: Some(
                    if kb.shift != kb.capslock {
                        km.shifted@[m.front() as int]
                    } else {
                        km.plain@[m.front() as int]
                    },
                ),
                ..kb
            },
            m.popped(),
            Some(true),
        ),
{
}

/// With a character pending or an empty buffer, and no key event half
/// taken, `has_char` answers at once whether the buffer holds codes, and
/// changes nothing.
pub proof fn lemma_pending_or_empty(kb: Keyboard, m: BufModel<u8>, km: &Keymap)
    requires
        kb.pending == Pending::Nothing,
        kb.last_char is Some || m.is_empty(),
    ensures
        poll_ok(kb, m, km),
        poll(kb, m, km) == (kb, m, Some(!m.is_empty())),
{
}

impl Keyboard {
    /// No modifier held, nothing pending.
    pub fn new() -> (kb: Keyboard)
        ensures
            kb == (Keyboard { shift: false, capslock: false, last_char: None, pending: Pending::Nothing }),
    {
        Keyboard { shift: false, capslock: false, last_char: None, pending: Pending::Nothing }
    }

    /// Consumes scan codes until a character is pending or the buffer runs
    /// out: `Some(true)` when a character can be read, `Some(false)` when
    /// the buffer is empty, `None` when a key event still needs codes that
    /// have not arrived (the caller waits and asks again).
    pub fn has_char(&mut self, scans: &mut Buf<u8>, km: &Keymap) -> (r: Option<bool>)
        requires
            poll_ok(*old(self), old(scans)@, km),
        ensures
            (*final(self), final(scans)@, r) == poll(*old(self), old(scans)@, km),
    {
        self.try_has_char(scans, km).unwrap()
    }

    /// `has_char` on any input: `None` exactly where a `pop` it makes would
    /// fail (the state is then part-way through), else `Some` of what
    /// `has_char` returns.
    pub fn try_has_char(&mut self, scans: &mut Buf<u8>, km: &Keymap) -> (r: Option<Option<bool>>)
        ensures
            r is Some <==> poll_ok(*old(self), old(scans)@, km),
            r is Some ==> (*final(self), final(scans)@, r->Some_0) == poll(*old(self), old(scans)@, km),
    {
        loop
            invariant
                poll(*self, scans@, km) == poll(*old(self), old(scans)@, km),
                poll_ok(*self, scans@, km) == poll_ok(*old(self), old(scans)@, km),
            decreases scans@.occupied_count(),
        {
            match self.pending {
                Pending::Nothing => {
                    if scans.empty() {
                        return Some(Some(false));
                    }
                    if self.last_char.is_some() {
                        return Some(Some(true));
                    }
                    if scans.head >= SIZE || scans.elems[scans.head].is_none() {
                        return None;
                    }
                    proof {
                        lemma_pop_occupied(scans@);
                    }
                    let scan = scans.pop();
                    if scan == SCAN_RELEASE {
                        self.pending = Pending::Release;
                    } else if scan == SCAN_SPECIAL {
                        self.pending = Pending::Special;
                    } else if scan == SCAN_LSHIFT || scan == SCAN_RSHIFT {
                        self.shift = true;
                    } else if scan == SCAN_CAPSLOCK {
                        self.capslock = !self.capslock;
                    } else {
                        let c = if self.shift != self.capslock {
                            km.shifted[scan as usize]
                        } else {
                            km.plain[scan as usize]
                        };
                        self.last_char = Some(c);
                        return Some(Some(true));
                    }
                },
                Pending::Release => {
                    if scans.empty() {
                        return Some(None);
                    }
                    if scans.head >= SIZE || scans.elems[scans.head].is_none() {
                        return None;
                    }
                    proof {
                        lemma_pop_occupied(scans@);
                    }
                    let scan = scans.pop();
                    self.pending = Pending::Nothing;
                    if scan == SCAN_LSHIFT || scan == SCAN_RSHIFT {
                        self.shift = false;
                    } else if scan == SCAN_SPECIAL {
                        // Discard the next one too.
                        self.pending = Pending::ReleaseSpecial;
                    }
                },
                _ => {
                    if scans.empty() {
                        return Some(None);
                    }
                    if scans.head >= SIZE || scans.elems[scans.head].is_none() {
                        return None;
                    }
                    proof {
                        lemma_pop_occupied(scans@);
                    }
                    let _ = scans.pop();
                    self.pending = Pending::Nothing;
                },
            }
        }
    }

    /// Hands out the pending character, truncated to a byte, and clears it.
    pub fn read_char(&mut self) -> (c: u8)
        requires
            old(self).last_char is Some,
        ensures
            c == old(self).last_char->Some_0 as u8,
            *final(self) == (Keyboard { last_char: None, ..*old(self) }),
    {
        let c = self.last_char.unwrap();
        self.last_char = None;
        return c as u8;
    }
}

/// Sets the keyboard up (see `ps2::init_ops`).
pub fn init() -> (ops: Vec<MmioOp>)
    ensures
        ops@ == ps2::init_ops(),
{
    ps2::init()
}

/// One falling edge of the keyboard clock (see `ps2::interrupt`).
pub fn interrupt(scan: &mut ps2::Ps2, scanbuf: &mut Buf<u8>, data: bool)
    requires
        ps2::ps2_safe(*old(scan), data),
        ps2::ps2_step(*old(scan), data).1 is Some ==> {
            &&& old(scanbuf).head < SIZE
            &&& old(scanbuf).tail < usize::MAX
            &&& !old(scanbuf)@.is_full()
        },
    ensures
        ps2::ps2_wf(*old(scan)) ==> ps2::ps2_wf(*final(scan)),
        *final(scan) == ps2::ps2_step(*old(scan), data).0,
        final(scanbuf)@ == match ps2::ps2_step(*old(scan), data).1 {
            Some(c) => old(scanbuf)@.pushed(c),
            None => old(scanbuf)@,
        },
{
    ps2::interrupt(scan, scanbuf, data)
}

/// The next scan code, or `None` while the buffer is empty.
pub fn wait_for_next_scan(scans: &mut Buf<u8>) -> (c: Option<u8>)
    requires
        !old(scans)@.is_empty() ==> old(scans).head < SIZE && old(scans)@.can_pop(),
    ensures
        old(scans)@.is_empty() ==> c is None && final(scans)@ == old(scans)@,
        !old(scans)@.is_empty() ==> c == Some(old(scans)@.front()) && final(scans)@
            == old(scans)@.popped(),
{
    ps2::wait_for_char(scans)
}

} // verus!
