//! Property tags and the layout of a property message.
//!
//! A message is a run of 32-bit words: the size of the message in bytes, a
//! code (zero in a request, the response code in a reply), the tags one after
//! the other, and a zero word that ends the list. A tag is three words, its
//! identifier, the size of its value buffer in bytes and a length, followed by
//! the words of the value buffer. In a request the length is the number of
//! bytes of the request's values; the firmware replaces it by the length of
//! its answer with the highest bit set.

use vstd::prelude::*;
use crate::mailbox::{Mailbox, BUFFER_WORDS, REQUEST};

verus! {

/// Bit of a tag's length word that the firmware sets when it has answered the
/// tag.
pub const TAG_RESPONSE: u32 = 0x8000_0000;

/// Most words that the value buffer of one tag can have in a message of 36
/// words: the message's two leading words, the tag's three and the end marker
/// take the rest.
pub const MAX_PAYLOAD_WORDS: usize = 30;

/// One property tag.
#[derive(Clone, Debug, PartialEq, Eq)]
pub struct PropertyTag {
    /// Identifier of the tag.
    pub id: u32,
    /// Size of the value buffer in bytes.
    pub size: u32,
    /// Length word: bytes of the request's values, or, in a response, bytes
    /// of the answer with the highest bit set.
    pub length: u32,
    /// The words of the value buffer.
    pub payload: Vec<u32>,
}

/// A property tag as a mathematical value.
pub struct TagView {
    pub id: u32,
    pub size: u32,
    pub length: u32,
    pub payload: Seq<u32>,
}

impl View for PropertyTag {
    type V = TagView;

    open spec fn view(&self) -> TagView {
        TagView { id: self.id, size: self.size, length: self.length, payload: self.payload@ }
    }
}

impl TagView {
    /// A tag is well formed if its identifier is not the end marker and its
    /// size word is the size of its value buffer.
    pub open spec fn wf(self) -> bool {
        self.id != 0 && self.size as int == 4 * self.payload.len()
    }

    /// The words of the tag in a message.
    pub open spec fn words(self) -> Seq<u32> {
        seq![self.id, self.size, self.length] + self.payload
    }

    /// Whether the firmware has answered the tag.
    pub open spec fn is_response(self) -> bool {
        self.length & TAG_RESPONSE != 0
    }
}

/// The views of a run of tags.
pub open spec fn views(tags: Seq<PropertyTag>) -> Seq<TagView> {
    tags.map_values(|t: PropertyTag| t@)
}

/// The value buffer of a request: the request's values, filled up with zeros
/// to the number of words that the answer takes.
pub open spec fn request_payload(values: Seq<u32>, response_words: nat) -> Seq<u32> {
    if values.len() >= response_words {
        values
    } else {
        values + Seq::new((response_words - values.len()) as nat, |i: int| 0u32)
    }
}

/// The request tag `id` with the given values and room for an answer of
/// `response_words` words.
pub open spec fn request_tag(id: u32, values: Seq<u32>, response_words: nat) -> TagView {
    TagView {
        id,
        size: (4 * request_payload(values, response_words).len()) as u32,
        length: (4 * values.len()) as u32,
        payload: request_payload(values, response_words),
    }
}

/// The words of a run of tags, one tag after the other.
pub open spec fn tags_words(tags: Seq<TagView>) -> Seq<u32>
    decreases tags.len(),
{
    if tags.len() == 0 {
        Seq::empty()
    } else {
        tags[0].words() + tags_words(tags.drop_first())
    }
}

/// The words of the message with the code `code` that carries `tags`: its
/// size in bytes, the code, the tags and the end marker.
pub open spec fn framed(code: u32, tags: Seq<TagView>) -> Seq<u32> {
    seq![(4 * (tags_words(tags).len() + 3)) as u32, code] + tags_words(tags) + seq![0u32]
}

/// The words of the request that carries `tags`.
pub open spec fn message_words(tags: Seq<TagView>) -> Seq<u32> {
    framed(REQUEST, tags)
}

/// Whether a run of tags can be sent in one message: each tag is well formed
/// and the message fits in the buffer.
pub open spec fn encodable(tags: Seq<TagView>) -> bool {
    &&& forall|i: int| 0 <= i < tags.len() ==> (#[trigger] tags[i]).wf()
    &&& tags_words(tags).len() + 3 <= BUFFER_WORDS
}

/// `words` in a buffer of 36 words, with zeros after them.
pub open spec fn padded(words: Seq<u32>) -> Seq<u32> {
    Seq::new(
        BUFFER_WORDS as nat,
        |i: int|
            if i < words.len() {
                words[i]
            } else {
                0u32
            },
    )
}

/// The tags that `words` holds from index `at` on, up to the end marker,
/// which has to be the last word. There are none if a tag's size is no
/// multiple of four or if a tag does not leave room for the end marker.
pub open spec fn parse_tags(words: Seq<u32>, at: int) -> Option<Seq<TagView>>
    decreases words.len() - at,
{
    if at < 0 || at >= words.len() {
        None
    } else if words[at] == 0 {
        if at + 1 == words.len() {
            Some(Seq::empty())
        } else {
            None
        }
    } else if at + 3 > words.len() {
        None
    } else {
        let size = words[at + 1];
        let n = size as int / 4;
        if size % 4 != 0 || at + 3 + n >= words.len() {
            None
        } else {
            match parse_tags(words, at + 3 + n) {
                None => None,
                Some(rest) => Some(
                    seq![
                        TagView {
                            id: words[at],
                            size,
                            length: words[at + 2],
                            payload: words.subrange(at + 3, at + 3 + n),
                        },
                    ] + rest,
                ),
            }
        }
    }
}

/// The tags of the message in `buffer`. There are none unless the first word
/// is a multiple of four that covers at least the two leading words and the
/// end marker and at most the buffer, and the tags with the end marker take
/// exactly the bytes that the first word gives.
pub open spec fn parse_message(buffer: Seq<u32>) -> Option<Seq<TagView>> {
    if buffer.len() < 3 {
        None
    } else {
        let total = buffer[0];
        if total % 4 != 0 || total < 12 || total as int > 4 * buffer.len() {
            None
        } else {
            parse_tags(buffer.take(total as int / 4), 2)
        }
    }
}

impl PropertyTag {
    /// A request tag. `values` are the words of the request; the value buffer
    /// gets room for them and for an answer of `response_words` words,
    /// whichever is more, and the length word gives the bytes of the request.
    /// There is no tag with the identifier of the end marker, nor one whose
    /// value buffer would not fit in any message.
    pub fn request(id: u32, values: &Vec<u32>, response_words: usize) -> (tag: Option<PropertyTag>)
        ensures
            tag is Some <==> id != 0 && values.len() <= MAX_PAYLOAD_WORDS && response_words
                <= MAX_PAYLOAD_WORDS,
            tag matches Some(t) ==> t@ == request_tag(id, values@, response_words as nat) && t@.wf()
                && !t@.is_response(),
    {
        if id == 0 || values.len() > MAX_PAYLOAD_WORDS || response_words > MAX_PAYLOAD_WORDS {
            return None;
        }
        let mut payload: Vec<u32> = Vec::new();
        let mut i: usize = 0;
        while i < values.len()
            invariant
                i <= values.len(),
                payload@ == values@.take(i as int),
            decreases values.len() - i,
        {
            payload.push(values[i]);
            i = i + 1;
        }
        assert(values@.take(values.len() as int) =~= values@);
        while payload.len() < response_words
            invariant
                values.len() <= payload.len(),
                payload.len() <= response_words || payload.len() == values.len(),
                payload@ =~= values@ + Seq::new(
                    (payload.len() - values.len()) as nat,
                    |i: int| 0u32,
                ),
            decreases response_words - payload.len(),
        {
            payload.push(0);
        }
        assert(payload@ =~= request_payload(values@, response_words as nat));
        let size: u32 = (4 * payload.len()) as u32;
        let length: u32 = (4 * values.len()) as u32;
        assert(length & 0x8000_0000u32 == 0) by (bit_vector)
            requires
                length <= 120,
        ;
        Some(PropertyTag { id, size, length, payload })
    }

    /// Whether the firmware has answered the tag: the highest bit of the
    /// length word is set.
    pub fn is_response(&self) -> (answered: bool)
        ensures
            answered == self@.is_response(),
    {
        self.length & TAG_RESPONSE != 0
    }

    /// The length that the length word gives, without the response bit.
    pub fn value_length(&self) -> (length: u32)
        ensures
            length == self.length & !TAG_RESPONSE,
    {
        self.length & !TAG_RESPONSE
    }
}

/// `front`, followed by the tags of `rest` if there are any.
pub open spec fn prepend(front: Seq<TagView>, rest: Option<Seq<TagView>>) -> Option<Seq<TagView>> {
    match rest {
        None => None,
        Some(tags) => Some(front + tags),
    }
}

/// The words of two runs of tags, one after the other, are the words of the
/// first run followed by those of the second.
pub proof fn lemma_tags_words_concat(first: Seq<TagView>, second: Seq<TagView>)
    ensures
        tags_words(first + second) == tags_words(first) + tags_words(second),
    decreases first.len(),
{
    if first.len() == 0 {
        assert(first + second =~= second);
        assert(tags_words(first) + tags_words(second) =~= tags_words(second));
    } else {
        lemma_tags_words_concat(first.drop_first(), second);
        assert((first + second).drop_first() =~= first.drop_first() + second);
        assert(tags_words(first + second) =~= tags_words(first) + tags_words(second));
    }
}

/// The words of a run of tags with one more tag at its end.
pub proof fn lemma_tags_words_push(tags: Seq<TagView>, tag: TagView)
    ensures
        tags_words(tags.push(tag)) == tags_words(tags) + tag.words(),
{
    lemma_tags_words_concat(tags, seq![tag]);
    assert(tags.push(tag) =~= tags + seq![tag]);
    assert(seq![tag].drop_first() =~= Seq::<TagView>::empty());
    assert(tags_words(Seq::<TagView>::empty()) =~= Seq::<u32>::empty());
    assert(tags_words(seq![tag]) =~= tag.words());
}

/// The first tags of a run take no more words than the whole run.
pub proof fn lemma_tags_words_prefix(tags: Seq<TagView>, n: int)
    requires
        0 <= n <= tags.len(),
    ensures
        tags_words(tags.take(n)).len() <= tags_words(tags).len(),
{
    lemma_tags_words_concat(tags.take(n), tags.skip(n));
    assert(tags.take(n) + tags.skip(n) =~= tags);
}

impl Mailbox {
    /// The request that carries `tags`, if they can be sent in one message:
    /// the size of the message in bytes, the request code, the tags in their
    /// order and the end marker, and zeros in the rest of the buffer.
    pub fn encode(tags: &Vec<PropertyTag>) -> (message: Option<Mailbox>)
        ensures
            message is Some <==> encodable(views(tags@)),
            message matches Some(m) ==> m.buffer@ == padded(message_words(views(tags@))),
    {
        let ghost all = views(tags@);
        let mut words: Vec<u32> = Vec::new();
        let mut i: usize = 0;
        while i < tags.len()
            invariant
                i <= tags.len(),
                all == views(tags@),
                words@ == tags_words(all.take(i as int)),
                words.len() + 3 <= BUFFER_WORDS,
                forall|j: int| 0 <= j < i ==> (#[trigger] all[j]).wf(),
            decreases tags.len() - i,
        {
            let tag = &tags[i];
            let n = tag.payload.len();
            assert(all[i as int] == tag@);
            proof {
                lemma_tags_words_push(all.take(i as int), tag@);
                assert(all.take(i as int).push(tag@) =~= all.take(i + 1));
                lemma_tags_words_prefix(all, i + 1);
            }
            if n > MAX_PAYLOAD_WORDS || words.len() + 3 + n + 3 > BUFFER_WORDS {
                return None;
            }
            if tag.id == 0 || tag.size != (4 * n) as u32 {
                assert(!all[i as int].wf());
                return None;
            }
            let ghost before = words@;
            words.push(tag.id);
            words.push(tag.size);
            words.push(tag.length);
            let mut j: usize = 0;
            while j < n
                invariant
                    j <= n,
                    n == tag.payload.len(),
                    words@ == before + seq![tag.id, tag.size, tag.length] + tag.payload@.take(
                        j as int,
                    ),
                decreases n - j,
            {
                words.push(tag.payload[j]);
                assert(tag.payload@.take(j as int).push(tag.payload@[j as int])
                    =~= tag.payload@.take(j + 1));
                j = j + 1;
            }
            assert(tag.payload@.take(n as int) =~= tag.payload@);
            assert(words@ =~= before + tag@.words());
            i = i + 1;
        }
        assert(all.take(tags.len() as int) =~= all);
        let mut buffer = [0u32;36];
        let count = words.len();
        buffer[0] = (4 * (count + 3)) as u32;
        buffer[1] = REQUEST;
        let mut k: usize = 0;
        while k < count
            invariant
                k <= count,
                count == words.len(),
                count + 3 <= BUFFER_WORDS,
                buffer@.len() == BUFFER_WORDS,
                buffer@[0] == (4 * (count + 3)) as u32,
                buffer@[1] == REQUEST,
                forall|x: int| 0 <= x < k ==> buffer@[2 + x] == words@[x],
                forall|x: int| 2 + k <= x < BUFFER_WORDS ==> buffer@[x] == 0,
            decreases count - k,
        {
            buffer[2 + k] = words[k];
            k = k + 1;
        }
        assert(buffer@ =~= padded(message_words(all)));
        Some(Mailbox { buffer })
    }

    /// The tags of the message in the buffer, as [`parse_message`] reads
    /// them; none if the buffer holds no well-formed message. Every index is
    /// checked against the size that the message gives before it is used.
    pub fn tags(&self) -> (tags: Option<Vec<PropertyTag>>)
        ensures
            match tags {
                Some(v) => parse_message(self.buffer@) == Some(views(v@)),
                None => parse_message(self.buffer@) is None,
            },
    {
        let total = self.buffer[0];
        if total % 4 != 0 || total < 12 || total > 144 {
            return None;
        }
        let end: usize = (total / 4) as usize;
        let ghost words = self.buffer@.take(end as int);
        let mut out: Vec<PropertyTag> = Vec::new();
        let mut at: usize = 2;
        loop
            invariant
                2 <= at,
                3 <= end <= BUFFER_WORDS,
                words == self.buffer@.take(end as int),
                parse_message(self.buffer@) == parse_tags(words, 2),
                parse_tags(words, 2) == prepend(views(out@), parse_tags(words, at as int)),
            decreases end - at,
        {
            if at >= end {
                return None;
            }
            let id = self.buffer[at];
            if id == 0 {
                if at + 1 == end {
                    assert(views(out@) + Seq::<TagView>::empty() =~= views(out@));
                    return Some(out);
                } else {
                    return None;
                }
            }
            if at + 3 > end {
                return None;
            }
            let size = self.buffer[at + 1];
            if size % 4 != 0 {
                return None;
            }
            let n = (size / 4) as usize;
            if n >= end - at - 3 {
                return None;
            }
            let length = self.buffer[at + 2];
            let mut payload: Vec<u32> = Vec::new();
            let mut j: usize = 0;
            while j < n
                invariant
                    j <= n,
                    at + 3 + n < end,
                    end <= BUFFER_WORDS,
                    words == self.buffer@.take(end as int),
                    payload@ == words.subrange(at + 3, at + 3 + j),
                decreases n - j,
            {
                payload.push(self.buffer[at + 3 + j]);
                assert(words.subrange(at + 3, at + 3 + j).push(words[at + 3 + j])
                    =~= words.subrange(at + 3, at + 3 + j + 1));
                j = j + 1;
            }
            let tag = PropertyTag { id, size, length, payload };
            proof {
                let rest = parse_tags(words, at + 3 + n);
                assert(parse_tags(words, at as int) == prepend(seq![tag@], rest));
                assert(views(out@.push(tag)) =~= views(out@).push(tag@));
                if rest is Some {
                    assert(views(out@) + (seq![tag@] + rest->0) =~= views(out@).push(tag@)
                        + rest->0);
                }
            }
            out.push(tag);
            at = at + 3 + n;
        }
    }
}

/// Reading back what was encoded gives the tags that were encoded: a
/// message of a run of tags that can be sent in one message holds exactly
/// those tags, whatever its code is, so a request as well as a response.
pub proof fn lemma_parse_encoded(code: u32, tags: Seq<TagView>)
    requires
        encodable(tags),
    ensures
        parse_message(padded(framed(code, tags))) == Some(tags),
{
    let message = framed(code, tags);
    let buffer = padded(message);
    let head = seq![(4 * (tags_words(tags).len() + 3)) as u32, code];
    assert(buffer.take(message.len() as int) =~= message);
    assert(message =~= head + tags_words(tags) + seq![0u32]);
    lemma_parse_tags_words(head, tags);
}

/// The tags read from a run of words that holds, after `head`, the words of
/// `tags` and the end marker are `tags`.
pub proof fn lemma_parse_tags_words(head: Seq<u32>, tags: Seq<TagView>)
    requires
        forall|i: int| 0 <= i < tags.len() ==> (#[trigger] tags[i]).wf(),
    ensures
        parse_tags(head + tags_words(tags) + seq![0u32], head.len() as int) == Some(tags),
    decreases tags.len(),
{
    let words = head + tags_words(tags) + seq![0u32];
    let at = head.len() as int;
    if tags.len() == 0 {
        assert(words =~= head + seq![0u32]);
        assert(tags =~= Seq::<TagView>::empty());
    } else {
        let tag = tags[0];
        let rest = tags.drop_first();
        assert(tag.wf());
        let n = tag.payload.len() as int;
        assert(tags_words(tags) == tag.words() + tags_words(rest));
        let next = head + tag.words();
        assert(words =~= next + tags_words(rest) + seq![0u32]);
        assert forall|i: int| 0 <= i < rest.len() implies (#[trigger] rest[i]).wf() by {
            assert(rest[i] == tags[i + 1]);
        }
        lemma_parse_tags_words(next, rest);
        assert(words[at] == tag.id);
        assert(words[at + 1] == tag.size);
        assert(words[at + 2] == tag.length);
        assert(tag.size as int / 4 == n);
        assert(words.subrange(at + 3, at + 3 + n) =~= tag.payload);
        assert(next.len() == at + 3 + n);
        assert(seq![tag] + rest =~= tags);
    }
}

} // verus!
