//! The mailbox: the register pair through which the ARM core hands the
//! firmware processor the address of a message buffer and learns that the
//! buffer has been answered.
//!
//! Nothing here touches a register. A [`Transfer`] says which access the
//! driver has to perform next and takes the word that the access produced, so
//! the whole protocol (polling with a bounded number of retries, barriers,
//! filtering of replies, classification of the response code) is decided in
//! one place and holds for every sequence of words the hardware may produce.

use vstd::prelude::*;
use crate::transfer::{Stage, Transfer};

verus! {

/// Address of the mailbox register block (offset `0xb880` in the peripheral
/// window).
pub const MAILBOX_BASE: u32 = 0x3F00_B880;

/// Offset of the register that carries words from the firmware to the ARM
/// core. The core must never write it.
pub const READ_OFFSET: u32 = 0x00;

/// Offset of the status register.
pub const STATUS_OFFSET: u32 = 0x18;

/// Offset of the register that carries words from the ARM core to the
/// firmware. The core must never read it.
pub const WRITE_OFFSET: u32 = 0x20;

/// The low four bits of a mailbox word hold the channel.
pub const CHANNEL_MASK: u32 = 0xf;

/// Position of the status bit that is set while the write mailbox is full.
pub const STATUS_FULL_BIT: usize = 31;

/// Position of the status bit that is set while the read mailbox is empty.
pub const STATUS_EMPTY_BIT: usize = 30;

/// Number of failed polls that a transfer tolerates in one direction. The
/// failed poll after that ends the transfer with a timeout.
pub const POLL_LIMIT: u32 = 0x0200_0000;

/// Code of a message that is a request.
pub const REQUEST: u32 = 0;

/// Response code: the request was processed.
pub const RESPONSE_SUCCESS: u32 = 0x8000_0000;

/// Response code: the firmware could not parse the request buffer.
pub const RESPONSE_ERROR: u32 = 0x8000_0001;

/// Number of words in a message buffer.
pub const BUFFER_WORDS: usize = 36;

/// Why a transfer failed.
#[derive(Clone, Copy, Debug, PartialEq, Eq, Structural)]
pub enum MboxError {
    /// The firmware reported that it could not parse the request.
    ResponseError,
    /// The response code is neither success nor the parse error.
    UnknownError,
    /// A register stayed busy for more polls than a transfer tolerates.
    Timeout,
}

/// The logical channels that share the one register pair.
#[derive(Clone, Copy, Debug, PartialEq, Eq, Structural)]
pub enum Channel {
    Power,
    Framebuffer,
    VirtualUart,
    VChiq,
    Leds,
    Buttons,
    TouchScreen,
    PropertyTagsArmToVc,
    PropertyTagsVcToArm,
}

impl Channel {
    /// The number of the channel on the wire.
    pub open spec fn spec_id(self) -> u32 {
        match self {
            Channel::Power => 0,
            Channel::Framebuffer => 1,
            Channel::VirtualUart => 2,
            Channel::VChiq => 3,
            Channel::Leds => 4,
            Channel::Buttons => 5,
            Channel::TouchScreen => 6,
            Channel::PropertyTagsArmToVc => 8,
            Channel::PropertyTagsVcToArm => 9,
        }
    }

    /// The number of the channel on the wire. It fits in four bits.
    pub fn id(self) -> (id: u32)
        ensures
            id == self.spec_id(),
            id <= CHANNEL_MASK,
    {
        match self {
            Channel::Power => 0,
            Channel::Framebuffer => 1,
            Channel::VirtualUart => 2,
            Channel::VChiq => 3,
            Channel::Leds => 4,
            Channel::Buttons => 5,
            Channel::TouchScreen => 6,
            Channel::PropertyTagsArmToVc => 8,
            Channel::PropertyTagsVcToArm => 9,
        }
    }

    /// The channel with wire number `id`, if there is one.
    pub fn from_id(id: u32) -> (channel: Option<Channel>)
        ensures
            match channel {
                Some(c) => c.spec_id() == id,
                None => forall|c: Channel| c.spec_id() != id,
            },
    {
        match id {
            0 => Some(Channel::Power),
            1 => Some(Channel::Framebuffer),
            2 => Some(Channel::VirtualUart),
            3 => Some(Channel::VChiq),
            4 => Some(Channel::Leds),
            5 => Some(Channel::Buttons),
            6 => Some(Channel::TouchScreen),
            8 => Some(Channel::PropertyTagsArmToVc),
            9 => Some(Channel::PropertyTagsVcToArm),
            _ => None,
        }
    }
}

/// Whether a status word says that the write mailbox is full.
pub open spec fn spec_write_full(status: u32) -> bool {
    status & 0x8000_0000 != 0
}

/// Whether a status word says that the read mailbox is empty.
pub open spec fn spec_read_empty(status: u32) -> bool {
    status & 0x4000_0000 != 0
}

/// The word that announces the buffer at `address` on `channel`: the address
/// without its low four bits, and the channel in their place.
pub open spec fn spec_doorbell_word(channel: u32, address: u32) -> u32 {
    (address & !CHANNEL_MASK) | (channel & CHANNEL_MASK)
}

/// Whether `data` answers the buffer at `address` on `channel`: its low four
/// bits are the channel and the rest is the address.
pub open spec fn spec_is_reply_for(data: u32, channel: u32, address: u32) -> bool {
    (data & CHANNEL_MASK) == channel && (data & !CHANNEL_MASK) == address
}

/// What a response code means for the caller.
pub open spec fn spec_response_result(code: u32) -> Result<(), MboxError> {
    if code == RESPONSE_SUCCESS {
        Ok(())
    } else if code == RESPONSE_ERROR {
        Err(MboxError::ResponseError)
    } else {
        Err(MboxError::UnknownError)
    }
}

/// What one more failed poll means for a transfer that has seen `failed` of
/// them and tolerates `max_attempts`: the new count, or a timeout once the
/// count has reached what is tolerated.
pub open spec fn spec_poll(failed: u32, max_attempts: u32) -> Result<u32, MboxError> {
    if failed >= max_attempts {
        Err(MboxError::Timeout)
    } else {
        Ok((failed + 1) as u32)
    }
}

/// Tests a bit field of a register value with `Field::is_set` of the
/// tock-registers crate. The field is `mask` shifted left by `shift`; the
/// result says whether the value has any bit of the field set. A shift of the
/// register's width or more is left out: the outside code overflows on it.
#[verifier::external_body]
fn field_is_set(value: u32, mask: u32, shift: usize) -> (set: bool)
    requires
        shift < 32,
    ensures
        set == ((value & (mask << shift)) != 0),
{
    tock_registers::fields::Field::<u32, ()>::new(mask, shift).is_set(value)
}

/// Counts one more failed poll against what is tolerated. Both directions of
/// a transfer wait with it: the count goes up to `max_attempts`, and the
/// failed poll after that is a timeout.
pub fn poll(failed: u32, max_attempts: u32) -> (counted: Result<u32, MboxError>)
    ensures
        counted == spec_poll(failed, max_attempts),
{
    if failed >= max_attempts {
        Err(MboxError::Timeout)
    } else {
        Ok(failed + 1)
    }
}

/// Whether a status word says that the write mailbox is full.
pub fn write_full(status: u32) -> (full: bool)
    ensures
        full == spec_write_full(status),
{
    assert(1u32 << 31usize == 0x8000_0000u32) by (bit_vector);
    field_is_set(status, 1, STATUS_FULL_BIT)
}

/// Whether a status word says that the read mailbox is empty.
pub fn read_empty(status: u32) -> (empty: bool)
    ensures
        empty == spec_read_empty(status),
{
    assert(1u32 << 30usize == 0x4000_0000u32) by (bit_vector);
    field_is_set(status, 1, STATUS_EMPTY_BIT)
}

/// The word to store in the write register to announce the buffer at
/// `address` on `channel`. For a channel of four bits and an address aligned
/// to 16 bytes the word is their sum, and each can be read back from it.
pub fn doorbell_word(channel: u32, address: u32) -> (word: u32)
    ensures
        word == spec_doorbell_word(channel, address),
        channel <= CHANNEL_MASK && address % 16 == 0 ==> {
            &&& word == address + channel
            &&& word & CHANNEL_MASK == channel
            &&& word & !CHANNEL_MASK == address
        },
{
    assert(channel <= 0xfu32 && address % 16 == 0 ==> {
        &&& ((address & !0xfu32) | (channel & 0xfu32)) == address + channel
        &&& ((address & !0xfu32) | (channel & 0xfu32)) & 0xfu32 == channel
        &&& ((address & !0xfu32) | (channel & 0xfu32)) & !0xfu32 == address
    }) by (bit_vector);
    (address & !CHANNEL_MASK) | (channel & CHANNEL_MASK)
}

/// Whether the word `data` from the read register answers the buffer at
/// `address` on `channel`.
pub fn is_reply_for(data: u32, channel: u32, address: u32) -> (matches: bool)
    ensures
        matches == spec_is_reply_for(data, channel, address),
{
    (data & CHANNEL_MASK) == channel && (data & !CHANNEL_MASK) == address
}

/// Classifies the response code that the firmware left in a message.
pub fn response_result(code: u32) -> (result: Result<(), MboxError>)
    ensures
        result == spec_response_result(code),
{
    if code == RESPONSE_SUCCESS {
        Ok(())
    } else if code == RESPONSE_ERROR {
        Err(MboxError::ResponseError)
    } else {
        Err(MboxError::UnknownError)
    }
}

/// A message buffer: 36 words that the firmware reads the request from and
/// writes its response to. In memory it has to stand at an address that is a
/// multiple of 16, because the low four bits of the doorbell word carry the
/// channel.
#[derive(Clone, Copy, Debug, PartialEq, Eq)]
pub struct Mailbox {
    pub buffer: [u32; 36],
}

impl Mailbox {
    /// A buffer of zeros.
    pub fn new() -> (mailbox: Mailbox)
        ensures
            mailbox.buffer@ == Seq::new(BUFFER_WORDS as nat, |i: int| 0u32),
    {
        let mailbox = Mailbox { buffer: [0u32;36] };
        assert(mailbox.buffer@ =~= Seq::new(BUFFER_WORDS as nat, |i: int| 0u32));
        mailbox
    }

    /// Starts a transfer that announces the buffer at `address` on `channel`
    /// and does not wait for a reply. The transfer polls the status register
    /// until the write mailbox has room, issues a barrier, so that the
    /// firmware sees the buffer's contents before it sees the doorbell, and
    /// stores the doorbell word. It ends with `Ok`, or with a timeout after
    /// more failed polls than [`POLL_LIMIT`].
    pub fn write(channel: u32, address: u32) -> (start: Transfer)
        ensures
            start == Transfer::spec_write(channel, address),
    {
        Transfer {
            stage: Stage::WritePoll,
            channel,
            address,
            polls: 0,
            then_read: false,
            data: 0,
            reply: None,
            outcome: Ok(()),
        }
    }

    /// Starts a transfer that waits for the reply to the buffer at `address`
    /// on `channel`. The transfer polls the status register until the read
    /// mailbox holds a word, loads the word between two barriers, and passes
    /// over every word that is for another channel or another buffer. Once
    /// the reply is there, the response code decides the result. Failed polls
    /// are counted over the whole transfer; one more than [`POLL_LIMIT`] ends
    /// it with a timeout.
    pub fn read(channel: u32, address: u32) -> (start: Transfer)
        ensures
            start == Transfer::spec_read(channel, address),
    {
        Transfer {
            stage: Stage::ReadPoll,
            channel,
            address,
            polls: 0,
            then_read: false,
            data: 0,
            reply: None,
            outcome: Ok(()),
        }
    }

    /// Starts a transfer that announces the buffer at `address` on `channel`
    /// and waits for the reply: a write, and after it a read, unless the
    /// write failed.
    pub fn call(channel: u32, address: u32) -> (start: Transfer)
        ensures
            start == Transfer::spec_call(channel, address),
    {
        Transfer {
            stage: Stage::WritePoll,
            channel,
            address,
            polls: 0,
            then_read: true,
            data: 0,
            reply: None,
            outcome: Ok(()),
        }
    }
}

} // verus!
