use vesper::mailbox::Mailbox;
use vesper::property::PropertyTag;
use vesper::tag;

fn words(prefix: &[u32]) -> Mailbox {
    let mut mailbox = Mailbox::new();
    mailbox.buffer[..prefix.len()].copy_from_slice(prefix);
    mailbox
}

fn plain_tag(id: u32, payload: Vec<u32>, length: u32) -> PropertyTag {
    PropertyTag { id, size: 4 * payload.len() as u32, length, payload }
}

#[test]
fn request_tag_sizes_follow_payload() {
    let tag = PropertyTag::request(tag::AllocateBuffer, &vec![16], 2).unwrap();
    assert_eq!(tag.id, 0x0004_0001);
    assert_eq!(tag.size, 8);
    assert_eq!(tag.length, 4);
    assert_eq!(tag.payload, vec![16, 0]);
    assert!(!tag.is_response());

    let tag = PropertyTag::request(tag::GetPitch, &vec![], 1).unwrap();
    assert_eq!((tag.size, tag.length), (4, 0));
    assert_eq!(tag.payload, vec![0]);

    let tag = PropertyTag::request(tag::SetPhysicalWH, &vec![800, 600], 2).unwrap();
    assert_eq!((tag.size, tag.length), (8, 8));
    assert_eq!(tag.payload, vec![800, 600]);

    let tag = PropertyTag::request(tag::SetOverscan, &vec![1, 2, 3, 4], 0).unwrap();
    assert_eq!((tag.size, tag.length), (16, 16));
    assert_eq!(tag.payload, vec![1, 2, 3, 4]);
}

#[test]
fn request_tag_refuses_end_marker_and_oversize() {
    assert_eq!(PropertyTag::request(0, &vec![1], 1), None);
    assert_eq!(PropertyTag::request(tag::GetPalette, &vec![], 31), None);
    assert_eq!(PropertyTag::request(tag::SetPalette, &vec![0; 31], 1), None);
    assert!(PropertyTag::request(tag::GetPalette, &vec![], 30).is_some());
    assert!(PropertyTag::request(tag::SetPalette, &vec![0; 30], 1).is_some());
}

#[test]
fn response_bit_and_length() {
    let answered = plain_tag(tag::GetPitch, vec![3200], 0x8000_0004);
    assert!(answered.is_response());
    assert_eq!(answered.value_length(), 4);
    let pending = plain_tag(tag::GetPitch, vec![0], 4);
    assert!(!pending.is_response());
    assert_eq!(pending.value_length(), 4);
}

#[test]
fn encode_lays_out_header_tags_and_end() {
    let tags = vec![
        PropertyTag::request(tag::GetVirtualWH, &vec![], 2).unwrap(),
        PropertyTag::request(tag::TestPixelOrder, &vec![1], 1).unwrap(),
    ];
    let message = Mailbox::encode(&tags).unwrap();
    let expected = [12 * 4, 0, 0x0004_0004, 8, 0, 0, 0, 0x0004_4006, 4, 4, 1, 0];
    assert_eq!(&message.buffer[..12], &expected[..]);
    assert!(message.buffer[12..].iter().all(|w| *w == 0));
}

#[test]
fn encode_empty_message() {
    let message = Mailbox::encode(&vec![]).unwrap();
    assert_eq!(&message.buffer[..3], &[12, 0, 0][..]);
    assert_eq!(message.tags(), Some(vec![]));
}

#[test]
fn encode_fills_buffer_to_the_last_word() {
    // 2 + (3 + 30) + 1 = 36 words.
    let tags = vec![plain_tag(tag::SetPalette, (1..=30).collect(), 120)];
    let message = Mailbox::encode(&tags).unwrap();
    assert_eq!(message.buffer[0], 144);
    assert_eq!(message.buffer[34], 30);
    assert_eq!(message.buffer[35], 0);
    assert_eq!(message.tags(), Some(tags));
}

#[test]
fn encode_refuses_what_does_not_fit() {
    let big = plain_tag(tag::SetPalette, vec![7; 31], 124);
    assert_eq!(Mailbox::encode(&vec![big]), None);
    // Each tag takes five words; six of them and the frame take 33, seven 38.
    let small = plain_tag(tag::GetDepth, vec![0, 0], 0);
    assert!(Mailbox::encode(&vec![small.clone(); 6]).is_some());
    assert_eq!(Mailbox::encode(&vec![small; 7]), None);
}

#[test]
fn encode_refuses_malformed_tags() {
    let end_marker = plain_tag(0, vec![0], 0);
    assert_eq!(Mailbox::encode(&vec![end_marker]), None);
    let wrong_size = PropertyTag { id: tag::GetDepth, size: 8, length: 0, payload: vec![0] };
    assert_eq!(Mailbox::encode(&vec![wrong_size]), None);
    let good = plain_tag(tag::GetDepth, vec![0], 0);
    let wrong_size = PropertyTag { id: tag::GetDepth, size: 3, length: 0, payload: vec![0] };
    assert_eq!(Mailbox::encode(&vec![good, wrong_size]), None);
}

#[test]
fn tags_read_back_what_was_encoded() {
    let tags = vec![
        PropertyTag::request(tag::SetPhysicalWH, &vec![1024, 768], 2).unwrap(),
        PropertyTag::request(tag::SetDepth, &vec![24], 1).unwrap(),
        PropertyTag::request(tag::GetPitch, &vec![], 1).unwrap(),
        PropertyTag::request(tag::GetBoardRev, &vec![], 0).unwrap(),
        plain_tag(tag::GetMacAddress, vec![0xdead_beef, 0x0000_cafe], 0x8000_0006),
    ];
    let message = Mailbox::encode(&tags).unwrap();
    assert_eq!(message.tags(), Some(tags));
}

#[test]
fn tags_of_an_answer() {
    let message = words(&[
        8 * 4,
        0x8000_0000,
        0x0004_0003,
        8,
        0x8000_0008,
        640,
        480,
        0,
    ]);
    let tags = message.tags().unwrap();
    assert_eq!(tags.len(), 1);
    assert_eq!(tags[0], plain_tag(tag::GetPhysicalWH, vec![640, 480], 0x8000_0008));
    assert!(tags[0].is_response());
}

#[test]
fn tags_refuse_bad_total_size() {
    // No multiple of four.
    assert_eq!(words(&[13, 0, 0]).tags(), None);
    // Too small for the frame.
    assert_eq!(words(&[8, 0, 0]).tags(), None);
    assert_eq!(words(&[0, 0, 0]).tags(), None);
    // Larger than the buffer.
    assert_eq!(words(&[148, 0, 0]).tags(), None);
    assert_eq!(words(&[0xffff_fffc, 0, 0]).tags(), None);
    // The end marker is not where the size puts it.
    assert_eq!(words(&[16, 0, 0, 0]).tags(), None);
    assert_eq!(words(&[12, 0, 0]).tags(), Some(vec![]));
}

#[test]
fn tags_refuse_broken_tag() {
    // The size of the value buffer is no multiple of four.
    assert_eq!(words(&[7 * 4, 0, 0x0004_0008, 3, 0, 0, 0]).tags(), None);
    // The value buffer runs over the end of the message.
    assert_eq!(words(&[7 * 4, 0, 0x0004_0008, 8, 0, 0, 0]).tags(), None);
    assert_eq!(words(&[7 * 4, 0, 0x0004_0008, 0xffff_fffc, 0, 0, 0]).tags(), None);
    // The tag is cut off after its identifier.
    assert_eq!(words(&[4 * 4, 0, 0x0004_0008, 0]).tags(), None);
    // The end marker is missing: the last word is the value.
    assert_eq!(words(&[6 * 4, 0, 0x0004_0008, 4, 0, 9]).tags(), None);
    // The message is well formed.
    assert_eq!(
        words(&[7 * 4, 0, 0x0004_0008, 4, 0, 9, 0]).tags(),
        Some(vec![plain_tag(tag::GetPitch, vec![9], 0)])
    );
}

#[test]
fn tags_ignore_words_after_the_message() {
    let message = words(&[7 * 4, 0, 0x0004_0008, 4, 0, 9, 0, 0xffff_ffff, 0x1234]);
    assert_eq!(message.tags(), Some(vec![plain_tag(tag::GetPitch, vec![9], 0)]));
}

#[test]
fn tag_identifiers() {
    assert_eq!(tag::SetPhysicalWH, 0x0004_8003);
    assert_eq!(tag::SetVirtualWH, 0x0004_8004);
    assert_eq!(tag::SetVirtualOffset, 0x0004_8009);
    assert_eq!(tag::SetDepth, 0x0004_8005);
    assert_eq!(tag::SetPixelOrder, 0x0004_8006);
    assert_eq!(tag::AllocateBuffer, 0x0004_0001);
    assert_eq!(tag::GetPitch, 0x0004_0008);
    assert_eq!(tag::End, 0);
}
