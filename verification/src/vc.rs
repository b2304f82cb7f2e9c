//! Negotiation of a framebuffer with the firmware processor.
//!
//! One message carries all the tags: the physical and the virtual size, the
//! offset of the window, the depth, the pixel order, the allocation of the
//! buffer and the query for the pitch. The firmware may answer with other
//! values than it was asked for, so the answer is checked tag by tag before a
//! [`Display`] is made from it.

use vstd::prelude::*;
use crate::display::{Display, DisplayView, PixelOrder, Size2d, CHARSIZE_X, CHARSIZE_Y};
use crate::mailbox::{Channel, Mailbox, MboxError};
use crate::property::{
    encodable, framed, lemma_parse_encoded, lemma_tags_words_push, message_words, padded,
    parse_message, request_tag, tags_words, views, PropertyTag, TagView,
};
use crate::rpi3::{bus2phys, spec_bus2phys};
use crate::tag;

verus! {

/// Bits per pixel that [`VC::init_fb`] asks for.
pub const FB_DEPTH: u32 = 32;

/// Alignment in bytes that is asked for the framebuffer.
pub const FB_ALIGNMENT: u32 = 16;

/// Number of tags in the framebuffer request.
pub const FB_TAGS: usize = 7;

/// Handle for the services of the firmware processor.
pub struct VC;

/// Why no display could be set up.
#[derive(Clone, Copy, Debug, PartialEq, Eq)]
pub enum VcError {
    /// The transfer failed.
    MboxError(MboxError),
    /// The firmware answered, but the answer is not one to the request, or it
    /// does not honour the request.
    FormatError,
    /// The firmware reported a pixel order that is neither BGR nor RGB.
    PixelOrderInvalid,
}

/// The tags of the framebuffer request, in the order in which they are sent.
pub open spec fn fb_tags(size: Size2d, depth: u32, order: PixelOrder) -> Seq<TagView> {
    seq![
        request_tag(tag::SetPhysicalWH, seq![size.x, size.y], 2),
        request_tag(tag::SetVirtualWH, seq![size.x, size.y], 2),
        request_tag(tag::SetVirtualOffset, seq![0u32, 0u32], 2),
        request_tag(tag::SetDepth, seq![depth], 1),
        request_tag(tag::SetPixelOrder, seq![order.spec_code()], 1),
        request_tag(tag::AllocateBuffer, seq![FB_ALIGNMENT], 2),
        request_tag(tag::GetPitch, Seq::<u32>::empty(), 1),
    ]
}

/// The framebuffer request word by word, as it stands in the buffer.
pub open spec fn fb_request_words(size: Size2d, depth: u32, order: PixelOrder) -> Seq<u32> {
    seq![
        140u32,
        0u32,
        0x0004_8003u32,
        8u32,
        8u32,
        size.x,
        size.y,
        0x0004_8004u32,
        8u32,
        8u32,
        size.x,
        size.y,
        0x0004_8009u32,
        8u32,
        8u32,
        0u32,
        0u32,
        0x0004_8005u32,
        4u32,
        4u32,
        depth,
        0x0004_8006u32,
        4u32,
        4u32,
        order.spec_code(),
        0x0004_0001u32,
        8u32,
        4u32,
        16u32,
        0u32,
        0x0004_0008u32,
        4u32,
        0u32,
        0u32,
        0u32,
        0u32,
    ]
}

/// Whether `tags` are an answer to the framebuffer request: the seven tags of
/// the request in their order, each marked as answered by the firmware, each
/// with room for the values that are read from it.
pub open spec fn fb_answered(tags: Seq<TagView>) -> bool {
    &&& tags.len() == FB_TAGS
    &&& forall|i: int| 0 <= i < FB_TAGS ==> (#[trigger] tags[i]).is_response()
    &&& tags[0].id == tag::SetPhysicalWH
    &&& tags[1].id == tag::SetVirtualWH && tags[1].payload.len() >= 2
    &&& tags[2].id == tag::SetVirtualOffset
    &&& tags[3].id == tag::SetDepth && tags[3].payload.len() >= 1
    &&& tags[4].id == tag::SetPixelOrder && tags[4].payload.len() >= 1
    &&& tags[5].id == tag::AllocateBuffer && tags[5].payload.len() >= 2
    &&& tags[6].id == tag::GetPitch && tags[6].payload.len() >= 1
}

/// The display that the answered tags describe, or the reason why they
/// describe none. The checks come in this order: the depth has to be the one
/// asked for; the buffer's address and size must not be zero; the pixel order
/// has to be a known one. The display has the values that the firmware
/// reports, not those of the request; its base is the physical address of
/// the bus address that the firmware gives.
pub open spec fn fb_display(depth: u32, tags: Seq<TagView>) -> Result<DisplayView, VcError> {
    let width = tags[1].payload[0];
    let height = tags[1].payload[1];
    let pointer = tags[5].payload[0];
    let bytes = tags[5].payload[1];
    if tags[3].payload[0] != depth {
        Err(VcError::FormatError)
    } else if pointer == 0 || bytes == 0 {
        Err(VcError::FormatError)
    } else {
        match PixelOrder::spec_from_code(tags[4].payload[0]) {
            None => Err(VcError::PixelOrderInvalid),
            Some(order) => Ok(
                DisplayView {
                    base: spec_bus2phys(pointer),
                    size: bytes,
                    depth,
                    pitch: tags[6].payload[0],
                    max_x: width / CHARSIZE_X,
                    max_y: height / CHARSIZE_Y,
                    width,
                    height,
                    order,
                },
            ),
        }
    }
}

/// What the buffer that came back from a successful transfer means, where a
/// depth of `depth` bits was asked for.
pub open spec fn spec_decode_fb(depth: u32, buffer: Seq<u32>) -> Result<DisplayView, VcError> {
    match parse_message(buffer) {
        None => Err(VcError::FormatError),
        Some(tags) => if fb_answered(tags) {
            fb_display(depth, tags)
        } else {
            Err(VcError::FormatError)
        },
    }
}

/// What the outcome of the transfer means for the caller of
/// [`VC::init_fb`]: an error of the transfer is passed on, and the buffer of
/// a successful one is decoded.
pub open spec fn spec_fb_outcome(reply: Result<Mailbox, MboxError>) -> Result<
    DisplayView,
    VcError,
> {
    match reply {
        Err(e) => Err(VcError::MboxError(e)),
        Ok(mailbox) => spec_decode_fb(FB_DEPTH, mailbox.buffer@),
    }
}

/// Whether `result` is the display `expected`, or the same error.
pub open spec fn same_outcome(
    result: Result<Display, VcError>,
    expected: Result<DisplayView, VcError>,
) -> bool {
    match result {
        Ok(display) => expected == Ok::<DisplayView, VcError>(display@),
        Err(e) => expected == Err::<DisplayView, VcError>(e),
    }
}

/// The framebuffer request is the run of words that [`fb_request_words`]
/// spells out, and it can be sent in one message.
pub proof fn lemma_fb_request_words(size: Size2d, depth: u32, order: PixelOrder)
    ensures
        encodable(fb_tags(size, depth, order)),
        padded(message_words(fb_tags(size, depth, order))) == fb_request_words(size, depth, order),
{
    let t = fb_tags(size, depth, order);
    let s0 = Seq::<TagView>::empty();
    let s1 = s0.push(t[0]);
    let s2 = s1.push(t[1]);
    let s3 = s2.push(t[2]);
    let s4 = s3.push(t[3]);
    let s5 = s4.push(t[4]);
    let s6 = s5.push(t[5]);
    let s7 = s6.push(t[6]);
    assert(tags_words(s0) =~= Seq::<u32>::empty());
    lemma_tags_words_push(s0, t[0]);
    lemma_tags_words_push(s1, t[1]);
    lemma_tags_words_push(s2, t[2]);
    lemma_tags_words_push(s3, t[3]);
    lemma_tags_words_push(s4, t[4]);
    lemma_tags_words_push(s5, t[5]);
    lemma_tags_words_push(s6, t[6]);
    assert(s7 =~= t);
    assert(t[0].payload =~= seq![size.x, size.y]);
    assert(t[1].payload =~= seq![size.x, size.y]);
    assert(t[2].payload =~= seq![0u32, 0u32]);
    assert(t[3].payload =~= seq![depth]);
    assert(t[4].payload =~= seq![order.spec_code()]);
    assert(t[5].payload =~= seq![FB_ALIGNMENT, 0u32]);
    assert(t[6].payload =~= seq![0u32]);
    assert(tags_words(t).len() == 32);
    assert(padded(message_words(t)) =~= fb_request_words(size, depth, order));
}

/// A response that holds the seven tags of the request, each answered, is
/// decoded to what its tags say, whatever its code and whatever the values
/// are. So the display has the geometry, the pitch and the pixel order that
/// the firmware reports; a depth other than the one asked for is a format
/// error, as is an allocation without address or size; and a pixel order that
/// is neither 0 nor 1 is reported as invalid.
pub proof fn lemma_decode_answer(depth: u32, code: u32, tags: Seq<TagView>)
    requires
        encodable(tags),
        fb_answered(tags),
    ensures
        spec_decode_fb(depth, padded(framed(code, tags))) == fb_display(depth, tags),
        tags[3].payload[0] != depth ==> fb_display(depth, tags) == Err::<DisplayView, VcError>(
            VcError::FormatError,
        ),
        tags[5].payload[0] == 0 || tags[5].payload[1] == 0 ==> fb_display(depth, tags) == Err::<
            DisplayView,
            VcError,
        >(VcError::FormatError),
        tags[3].payload[0] == depth && tags[5].payload[0] != 0 && tags[5].payload[1] != 0 ==> {
            &&& tags[4].payload[0] > 1 ==> fb_display(depth, tags) == Err::<DisplayView, VcError>(
                VcError::PixelOrderInvalid,
            )
            &&& tags[4].payload[0] <= 1 ==> {
                &&& fb_display(depth, tags) matches Ok(display)
                &&& display.width == tags[1].payload[0]
                &&& display.height == tags[1].payload[1]
                &&& display.depth == depth
                &&& display.pitch == tags[6].payload[0]
                &&& display.order.spec_code() == tags[4].payload[0]
                &&& display.base == spec_bus2phys(tags[5].payload[0])
                &&& display.size == tags[5].payload[1]
                &&& display.max_x == display.width / 8
                &&& display.max_y == display.height / 8
            }
        },
{
    lemma_parse_encoded(code, tags);
}

impl VC {
    /// The message that asks for a framebuffer of `size` pixels, `depth` bits
    /// per pixel and the pixel order `order`.
    pub fn fb_request(size: Size2d, depth: u32, order: PixelOrder) -> (message: Mailbox)
        ensures
            message.buffer@ == padded(message_words(fb_tags(size, depth, order))),
            message.buffer@ == fb_request_words(size, depth, order),
    {
        let ghost wanted = fb_tags(size, depth, order);
        proof {
            lemma_fb_request_words(size, depth, order);
        }
        let mut tags: Vec<PropertyTag> = Vec::new();
        let extent = vec![size.x, size.y];
        let origin = vec![0u32, 0u32];
        let bits = vec![depth];
        let channels = vec![order.code()];
        let alignment = vec![FB_ALIGNMENT];
        let nothing: Vec<u32> = Vec::new();
        assert(extent@ =~= seq![size.x, size.y]);
        assert(origin@ =~= seq![0u32, 0u32]);
        assert(bits@ =~= seq![depth]);
        assert(channels@ =~= seq![order.spec_code()]);
        assert(alignment@ =~= seq![FB_ALIGNMENT]);
        assert(nothing@ =~= Seq::<u32>::empty());
        tags.push(PropertyTag::request(tag::SetPhysicalWH, &extent, 2).unwrap());
        tags.push(PropertyTag::request(tag::SetVirtualWH, &extent, 2).unwrap());
        tags.push(PropertyTag::request(tag::SetVirtualOffset, &origin, 2).unwrap());
        tags.push(PropertyTag::request(tag::SetDepth, &bits, 1).unwrap());
        tags.push(PropertyTag::request(tag::SetPixelOrder, &channels, 1).unwrap());
        tags.push(PropertyTag::request(tag::AllocateBuffer, &alignment, 2).unwrap());
        tags.push(PropertyTag::request(tag::GetPitch, &nothing, 1).unwrap());
        assert(views(tags@) =~= wanted);
        Mailbox::encode(&tags).unwrap()
    }

    /// Reads the display from the buffer that came back from a successful
    /// transfer, where a depth of `depth` bits was asked for. The buffer has
    /// to hold the seven tags of the request, each answered; the depth, the
    /// allocation and the pixel order are then checked as [`fb_display`]
    /// says.
    pub fn decode_fb(depth: u32, response: &Mailbox) -> (result: Result<Display, VcError>)
        ensures
            same_outcome(result, spec_decode_fb(depth, response.buffer@)),
    {
        let tags = match response.tags() {
            None => {
                return Err(VcError::FormatError);
            },
            Some(tags) => tags,
        };
        let ghost seen = views(tags@);
        if tags.len() != FB_TAGS {
            return Err(VcError::FormatError);
        }
        let mut i: usize = 0;
        while i < FB_TAGS
            invariant
                i <= FB_TAGS,
                tags.len() == FB_TAGS,
                seen == views(tags@),
                parse_message(response.buffer@) == Some(seen),
                forall|j: int| 0 <= j < i ==> (#[trigger] seen[j]).is_response(),
            decreases FB_TAGS - i,
        {
            if !tags[i].is_response() {
                assert(seen[i as int] == tags[i as int]@);
                assert(!seen[i as int].is_response());
                return Err(VcError::FormatError);
            }
            assert(seen[i as int] == tags[i as int]@);
            i = i + 1;
        }
        assert(forall|j: int| 0 <= j < FB_TAGS ==> seen[j] == (#[trigger] tags[j])@);
        if tags[0].id != tag::SetPhysicalWH
            || tags[1].id != tag::SetVirtualWH || tags[1].payload.len() < 2
            || tags[2].id != tag::SetVirtualOffset
            || tags[3].id != tag::SetDepth || tags[3].payload.len() < 1
            || tags[4].id != tag::SetPixelOrder || tags[4].payload.len() < 1
            || tags[5].id != tag::AllocateBuffer || tags[5].payload.len() < 2
            || tags[6].id != tag::GetPitch || tags[6].payload.len() < 1 {
            return Err(VcError::FormatError);
        }
        assert(fb_answered(seen));
        let width = tags[1].payload[0];
        let height = tags[1].payload[1];
        let pointer = tags[5].payload[0];
        let bytes = tags[5].payload[1];
        if tags[3].payload[0] != depth {
            return Err(VcError::FormatError);
        }
        if pointer == 0 || bytes == 0 {
            return Err(VcError::FormatError);
        }
        let order = match PixelOrder::from_code(tags[4].payload[0]) {
            None => {
                return Err(VcError::PixelOrderInvalid);
            },
            Some(order) => order,
        };
        Ok(
            Display::new(
                bus2phys(pointer),
                bytes,
                depth,
                tags[6].payload[0],
                width / CHARSIZE_X,
                height / CHARSIZE_Y,
                width,
                height,
                order,
            ),
        )
    }

    /// What the outcome of the transfer of the framebuffer request means: an
    /// error of the transfer is passed on, and the buffer of a successful one
    /// is decoded for the depth that [`VC::init_fb`] asks for.
    pub fn fb_outcome(reply: Result<Mailbox, MboxError>) -> (result: Result<Display, VcError>)
        ensures
            same_outcome(result, spec_fb_outcome(reply)),
    {
        match reply {
            Err(e) => Err(VcError::MboxError(e)),
            Ok(mailbox) => VC::decode_fb(FB_DEPTH, &mailbox),
        }
    }

    /// Sets up a framebuffer of `size` pixels with 32 bits per pixel in RGB
    /// order. `transfer` takes a request to the firmware on a channel and
    /// brings back the buffer as the firmware left it, or the error of the
    /// transfer. It is called once, with the channel for property tags from
    /// the ARM core to the firmware and the request of [`VC::fb_request`],
    /// and the result is what [`spec_fb_outcome`] makes of what it brought
    /// back.
    pub fn init_fb<F: FnOnce(Channel, Mailbox) -> Result<Mailbox, MboxError>>(
        size: Size2d,
        transfer: F,
    ) -> (result: Result<Display, VcError>)
        requires
            forall|request: Mailbox|
                request.buffer@ == fb_request_words(size, FB_DEPTH, PixelOrder::RGB)
                    ==> transfer.requires((Channel::PropertyTagsArmToVc, request)),
        ensures
            exists|request: Mailbox, reply: Result<Mailbox, MboxError>|
                {
                    &&& request.buffer@ == fb_request_words(size, FB_DEPTH, PixelOrder::RGB)
                    &&& #[trigger] transfer.ensures((Channel::PropertyTagsArmToVc, request), reply)
                    &&& same_outcome(result, spec_fb_outcome(reply))
                },
    {
        let request = VC::fb_request(size, FB_DEPTH, PixelOrder::RGB);
        let reply = transfer(Channel::PropertyTagsArmToVc, request);
        VC::fb_outcome(reply)
    }
}

} // verus!
