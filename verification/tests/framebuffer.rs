use vesper::display::{Display, PixelOrder, Size2d};
use vesper::mailbox::{Channel, Mailbox, MboxError};
use vesper::transfer::Action;
use vesper::vc::{VcError, VC};

const RESPONSE: u32 = 0x8000_0000;

/// What a simulated firmware answers with.
#[derive(Clone, Copy)]
struct Firmware {
    depth: Option<u32>,
    order: Option<u32>,
    pointer: u32,
    bytes: Option<u32>,
    unanswered: Option<usize>,
}

fn honest() -> Firmware {
    Firmware { depth: None, order: None, pointer: 0xfe40_2000, bytes: None, unanswered: None }
}

/// Answers the framebuffer request in `request` as the firmware would:
/// every tag is marked as answered, the geometry is taken over, the buffer is
/// allocated and the pitch is reported.
fn answer(firmware: Firmware, request: Mailbox) -> Mailbox {
    let mut reply = request;
    let b = &mut reply.buffer;
    let width = b[10];
    let height = b[11];
    let depth = firmware.depth.unwrap_or(b[20]);
    let pitch = width * (depth / 8);
    b[1] = RESPONSE;
    b[4] = RESPONSE | 8;
    b[9] = RESPONSE | 8;
    b[14] = RESPONSE | 8;
    b[19] = RESPONSE | 4;
    b[20] = depth;
    b[23] = RESPONSE | 4;
    b[24] = firmware.order.unwrap_or(b[24]);
    b[27] = RESPONSE | 8;
    b[28] = firmware.pointer;
    b[29] = firmware.bytes.unwrap_or(pitch * height);
    b[32] = RESPONSE | 4;
    b[33] = pitch;
    if let Some(offset) = firmware.unanswered {
        b[offset] &= !RESPONSE;
    }
    reply
}

fn init(firmware: Firmware, size: Size2d) -> Result<Display, VcError> {
    VC::init_fb(size, |_, request| Ok(answer(firmware, request)))
}

const SVGA: Size2d = Size2d { x: 800, y: 600 };

#[test]
fn request_is_laid_out_word_by_word() {
    let message = VC::fb_request(SVGA, 32, PixelOrder::RGB);
    let expected: [u32; 36] = [
        35 * 4,
        0,
        0x0004_8003,
        8,
        8,
        800,
        600,
        0x0004_8004,
        8,
        8,
        800,
        600,
        0x0004_8009,
        8,
        8,
        0,
        0,
        0x0004_8005,
        4,
        4,
        32,
        0x0004_8006,
        4,
        4,
        1,
        0x0004_0001,
        8,
        4,
        16,
        0,
        0x0004_0008,
        4,
        0,
        0,
        0,
        0,
    ];
    assert_eq!(message.buffer, expected);
}

#[test]
fn request_carries_depth_and_order() {
    let message = VC::fb_request(Size2d { x: 1, y: 2 }, 16, PixelOrder::BGR);
    assert_eq!(message.buffer[5], 1);
    assert_eq!(message.buffer[6], 2);
    assert_eq!(message.buffer[10], 1);
    assert_eq!(message.buffer[11], 2);
    assert_eq!(message.buffer[20], 16);
    assert_eq!(message.buffer[24], 0);
    let tags = message.tags().unwrap();
    assert_eq!(tags.len(), 7);
    assert!(tags.iter().all(|t| !t.is_response()));
}

#[test]
fn init_fb_hands_out_the_request() {
    let mut seen = None;
    let _ = VC::init_fb(SVGA, |channel, request| {
        seen = Some((channel, request));
        Err(MboxError::Timeout)
    });
    let request = VC::fb_request(SVGA, 32, PixelOrder::RGB);
    assert_eq!(seen, Some((Channel::PropertyTagsArmToVc, request)));
    assert_eq!(Channel::PropertyTagsArmToVc.id(), 8);
}

#[test]
fn honest_firmware_yields_display() {
    let display = init(honest(), SVGA).unwrap();
    assert_eq!(display.width(), 800);
    assert_eq!(display.height(), 600);
    assert_eq!(display.depth(), 32);
    assert!(display.pitch() >= 800 * 4);
    assert_eq!(display.pitch(), 3200);
    assert_eq!(display.order(), PixelOrder::RGB);
    assert_ne!(display.base(), 0);
    assert_eq!(display.base(), 0x3e40_2000);
    assert_eq!(display.size(), 3200 * 600);
    assert_eq!(display.max_x(), 100);
    assert_eq!(display.max_y(), 75);
}

#[test]
fn downgraded_depth_is_format_error() {
    let firmware = Firmware { depth: Some(16), ..honest() };
    assert_eq!(init(firmware, SVGA), Err(VcError::FormatError));
}

#[test]
fn unknown_pixel_order_is_invalid() {
    let firmware = Firmware { order: Some(2), ..honest() };
    assert_eq!(init(firmware, SVGA), Err(VcError::PixelOrderInvalid));
    let firmware = Firmware { order: Some(0xffff_ffff), ..honest() };
    assert_eq!(init(firmware, SVGA), Err(VcError::PixelOrderInvalid));
}

#[test]
fn substituted_pixel_order_is_stored() {
    let firmware = Firmware { order: Some(0), ..honest() };
    let display = init(firmware, SVGA).unwrap();
    assert_eq!(display.order(), PixelOrder::BGR);
}

#[test]
fn empty_allocation_is_format_error() {
    let firmware = Firmware { pointer: 0, ..honest() };
    assert_eq!(init(firmware, SVGA), Err(VcError::FormatError));
    let firmware = Firmware { bytes: Some(0), ..honest() };
    assert_eq!(init(firmware, SVGA), Err(VcError::FormatError));
}

#[test]
fn format_error_comes_before_pixel_order() {
    let firmware = Firmware { depth: Some(16), order: Some(2), ..honest() };
    assert_eq!(init(firmware, SVGA), Err(VcError::FormatError));
    let firmware = Firmware { bytes: Some(0), order: Some(2), ..honest() };
    assert_eq!(init(firmware, SVGA), Err(VcError::FormatError));
}

#[test]
fn unanswered_tag_is_format_error() {
    for offset in [4, 9, 14, 19, 23, 27, 32] {
        let firmware = Firmware { unanswered: Some(offset), ..honest() };
        assert_eq!(init(firmware, SVGA), Err(VcError::FormatError));
    }
}

#[test]
fn untouched_request_is_format_error() {
    let result = VC::init_fb(SVGA, |_, request| Ok(request));
    assert_eq!(result, Err(VcError::FormatError));
}

#[test]
fn garbled_answer_is_format_error() {
    let result = VC::init_fb(SVGA, |_, _| Ok(Mailbox::new()));
    assert_eq!(result, Err(VcError::FormatError));
    // One tag is missing.
    let mut reply = answer(honest(), VC::fb_request(SVGA, 32, PixelOrder::RGB));
    reply.buffer[0] = 31 * 4;
    reply.buffer[30] = 0;
    assert_eq!(VC::decode_fb(32, &reply), Err(VcError::FormatError));
    // A tag has another identifier.
    let mut reply = answer(honest(), VC::fb_request(SVGA, 32, PixelOrder::RGB));
    reply.buffer[17] = 0x0004_0005;
    assert_eq!(VC::decode_fb(32, &reply), Err(VcError::FormatError));
}

#[test]
fn transfer_errors_are_passed_on() {
    for e in [MboxError::Timeout, MboxError::ResponseError, MboxError::UnknownError] {
        assert_eq!(VC::init_fb(SVGA, |_, _| Err(e)), Err(VcError::MboxError(e)));
        assert_eq!(VC::fb_outcome(Err(e)), Err(VcError::MboxError(e)));
    }
}

#[test]
fn display_takes_negotiated_geometry() {
    // The firmware settles on another size than was asked for.
    let mut reply = answer(honest(), VC::fb_request(SVGA, 32, PixelOrder::RGB));
    reply.buffer[10] = 644;
    reply.buffer[11] = 481;
    reply.buffer[33] = 2600;
    let display = VC::decode_fb(32, &reply).unwrap();
    assert_eq!(display.width(), 644);
    assert_eq!(display.height(), 481);
    assert_eq!(display.max_x(), 80);
    assert_eq!(display.max_y(), 60);
    assert_eq!(display.pitch(), 2600);
}

#[test]
fn base_wraps_for_low_bus_addresses() {
    let firmware = Firmware { pointer: 0x1000, ..honest() };
    let display = init(firmware, SVGA).unwrap();
    assert_eq!(display.base(), 0x4000_1000);
}

#[test]
fn decode_checks_the_depth_asked_for() {
    let reply = answer(honest(), VC::fb_request(SVGA, 16, PixelOrder::RGB));
    assert_eq!(VC::decode_fb(16, &reply).map(|d| d.depth()), Ok(16));
    assert_eq!(VC::decode_fb(32, &reply), Err(VcError::FormatError));
}

/// The registers and the firmware behind them.
struct Machine {
    firmware: Firmware,
    memory: Mailbox,
    address: u32,
    pending: Vec<u32>,
    busy: u32,
    log: Vec<Action>,
}

/// Carries the request over the simulated registers and brings back the
/// buffer, as a driver does on the hardware.
fn transfer(
    machine: &mut Machine,
    channel: Channel,
    request: Mailbox,
) -> Result<Mailbox, MboxError> {
    machine.memory = request;
    let mut t = Mailbox::call(channel.id(), machine.address);
    loop {
        let action = t.action();
        machine.log.push(action);
        let word = match action {
            Action::ReadStatus => {
                if machine.busy > 0 {
                    machine.busy -= 1;
                    0xc000_0000
                } else if machine.pending.is_empty() {
                    0x4000_0000
                } else {
                    0
                }
            }
            Action::Barrier => 0,
            Action::WriteDoorbell(word) => {
                assert_eq!(word & !0xf, machine.address);
                assert_eq!(word & 0xf, 8);
                machine.memory = answer(machine.firmware, machine.memory);
                // A word for another channel is waiting ahead of the reply.
                machine.pending.push(word);
                machine.pending.push(0x0000_1231);
                0
            }
            Action::ReadData => machine.pending.pop().unwrap(),
            Action::ReadCode => machine.memory.buffer[1],
            Action::Done(result) => return result.map(|_| machine.memory),
        };
        t = t.step(word);
    }
}

fn machine(firmware: Firmware) -> Machine {
    Machine {
        firmware,
        memory: Mailbox::new(),
        address: 0x0007_ff00,
        pending: Vec::new(),
        busy: 3,
        log: Vec::new(),
    }
}

#[test]
fn end_to_end_over_simulated_registers() {
    let mut m = machine(honest());
    let display = VC::init_fb(SVGA, |channel, request| transfer(&mut m, channel, request)).unwrap();
    assert_eq!(display.width(), 800);
    assert_eq!(display.height(), 600);
    assert_eq!(display.depth(), 32);
    assert!(display.pitch() >= 800 * 4);
    assert_eq!(display.order(), PixelOrder::RGB);
    assert_ne!(display.base(), 0);
    let at = m.log.iter().position(|a| matches!(a, Action::WriteDoorbell(_))).unwrap();
    assert_eq!(m.log[at], Action::WriteDoorbell(0x0007_ff08));
    assert_eq!(m.log[at - 1], Action::Barrier);
    assert_eq!(m.log.iter().filter(|a| **a == Action::ReadData).count(), 2);
}

#[test]
fn end_to_end_unresponsive_firmware_times_out() {
    let mut m = machine(honest());
    m.busy = u32::MAX;
    let result = VC::init_fb(SVGA, |channel, request| transfer(&mut m, channel, request));
    assert_eq!(result, Err(VcError::MboxError(MboxError::Timeout)));
    assert!(!m.log.contains(&Action::ReadData));
}

#[test]
fn end_to_end_firmware_rejects_request() {
    let mut m = machine(honest());
    let result = VC::init_fb(SVGA, |channel, request| {
        let reply = transfer(&mut m, channel, request);
        assert!(reply.is_ok());
        let mut changed = m.memory;
        changed.buffer[1] = 0x8000_0001;
        m.memory = changed;
        Err(MboxError::ResponseError)
    });
    assert_eq!(result, Err(VcError::MboxError(MboxError::ResponseError)));
}
