//! The response of an HTTP proxy to a tunnel request: collecting it from
//! the reads of a stream, and deciding whether the proxy accepted.
use vstd::prelude::*;

use crate::errors::Error;
use crate::status::accepts_status;
use crate::is_ok_status;
use std::borrow::Cow;

verus! {

/// The text of `bytes` with each invalid UTF-8 sequence replaced by
/// U+FFFD, as `String::from_utf8_lossy` makes it.
pub uninterp spec fn lossy_utf8(bytes: Seq<u8>) -> Seq<char>;

/// `String::from_utf8_lossy`: the result is named by [`lossy_utf8`]; bytes
/// that are valid UTF-8 decode to the characters they encode (the function
/// then borrows the input unchanged). How invalid sequences are replaced is
/// left to the name.
#[verifier::external_body]
fn utf8_lossy(bytes: &[u8]) -> (s: String)
    ensures
        s@ == lossy_utf8(bytes@),
        vstd::utf8::valid_utf8(bytes@) ==> s@ == vstd::utf8::decode_utf8(bytes@),
{
    String::from_utf8_lossy(bytes).into_owned()
}

/// The empty line that ends the head of an HTTP response.
pub open spec fn blank_line() -> Seq<u8> {
    seq![0x0du8, 0x0au8, 0x0du8, 0x0au8]
}

/// `bytes` holds `\r\n\r\n` somewhere.
pub open spec fn holds_blank_line(bytes: Seq<u8>) -> bool {
    exists|i: int| 0 <= i && i + 4 <= bytes.len() && #[trigger] bytes.subrange(i, i + 4) == blank_line()
}

/// `bytes` ends with `\r\n\r\n`.
pub open spec fn ends_with_blank_line(bytes: Seq<u8>) -> bool {
    bytes.len() >= 4 && bytes.subrange(bytes.len() - 4, bytes.len() as int) == blank_line()
}

/// When a response is complete.
#[derive(Debug, Clone, Copy, PartialEq, Eq)]
pub enum Completion {
    /// Once `\r\n\r\n` occurs anywhere in what was received.
    BlankLineAnywhere,
    /// Once what was received ends with `\r\n\r\n`.
    BlankLineAtEnd,
}

impl Completion {
    /// `bytes` is a complete response under this rule.
    pub open spec fn completes(self, bytes: Seq<u8>) -> bool {
        match self {
            Completion::BlankLineAnywhere => holds_blank_line(bytes),
            Completion::BlankLineAtEnd => ends_with_blank_line(bytes),
        }
    }
}

/// What a proxy answered so far.
pub struct ProxyResponse {
    pub received: Vec<u8>,
    pub completion: Completion,
}

/// Whether `bytes` holds `\r\n\r\n`.
pub fn find_blank_line(bytes: &[u8]) -> (found: bool)
    ensures
        found == holds_blank_line(bytes@),
{
    if bytes.len() < 4 {
        return false;
    }
    let mut i: usize = 0;
    while i < bytes.len() - 3
        invariant
            bytes@.len() >= 4,
            i <= bytes@.len() - 3,
            forall|j: int| 0 <= j < i ==> #[trigger] bytes@.subrange(j, j + 4) != blank_line(),
        decreases bytes@.len() - i,
    {
        if bytes[i] == 0x0d && bytes[i + 1] == 0x0a && bytes[i + 2] == 0x0d && bytes[i + 3] == 0x0a {
            assert(bytes@.subrange(i as int, i + 4) =~= blank_line());
            return true;
        }
        assert(bytes@.subrange(i as int, i + 4)[0] == bytes@[i as int]);
        assert(bytes@.subrange(i as int, i + 4)[1] == bytes@[i + 1]);
        assert(bytes@.subrange(i as int, i + 4)[2] == bytes@[i + 2]);
        assert(bytes@.subrange(i as int, i + 4)[3] == bytes@[i + 3]);
        i = i + 1;
    }
    false
}

/// Whether `bytes` ends with `\r\n\r\n`.
pub fn ends_with_blank(bytes: &[u8]) -> (found: bool)
    ensures
        found == ends_with_blank_line(bytes@),
{
    let len = bytes.len();
    if len < 4 {
        return false;
    }
    let found = bytes[len - 4] == 0x0d && bytes[len - 3] == 0x0a && bytes[len - 2] == 0x0d
        && bytes[len - 1] == 0x0a;
    let ghost tail = bytes@.subrange(len - 4, len as int);
    assert(tail[0] == bytes@[len - 4]);
    assert(tail[1] == bytes@[len - 3]);
    assert(tail[2] == bytes@[len - 2]);
    assert(tail[3] == bytes@[len - 1]);
    if found {
        assert(tail =~= blank_line());
    }
    found
}

impl ProxyResponse {
    /// Nothing received yet.
    pub fn new(completion: Completion) -> (r: ProxyResponse)
        ensures
            r.received@ == Seq::<u8>::empty(),
            r.completion == completion,
    {
        ProxyResponse { received: Vec::new(), completion }
    }

    /// Takes in a read that filled the first `n` bytes of `buf`, and says
    /// whether to stop reading: at the end of the stream (a read of nothing)
    /// or once the response is complete.
    pub fn on_read(&mut self, buf: &[u8], n: usize) -> (done: bool)
        requires
            n <= buf@.len(),
        ensures
            final(self).completion == old(self).completion,
            n == 0 ==> done && final(self).received@ == old(self).received@,
            n > 0 ==> final(self).received@ == old(self).received@ + buf@.take(n as int),
            n > 0 ==> done == final(self).completion.completes(final(self).received@),
    {
        if n == 0 {
            return true;
        }
        let ghost start = self.received@;
        for i in 0..n
            invariant
                n <= buf@.len(),
                self.received@ == start + buf@.take(i as int),
                self.completion == old(self).completion,
                start == old(self).received@,
        {
            self.received.push(buf[i]);
            assert(start + buf@.take(i + 1) =~= start + buf@.take(i as int) + seq![buf@[i as int]]);
        }
        match self.completion {
            Completion::BlankLineAnywhere => find_blank_line(self.received.as_slice()),
            Completion::BlankLineAtEnd => ends_with_blank(self.received.as_slice()),
        }
    }

    /// The text of the response, each invalid UTF-8 sequence replaced.
    pub fn text(&self) -> (s: String)
        ensures
            s@ == lossy_utf8(self.received@),
            vstd::utf8::valid_utf8(self.received@) ==> s@ == vstd::utf8::decode_utf8(
                self.received@,
            ),
    {
        utf8_lossy(self.received.as_slice())
    }

    /// Whether the proxy accepted: the status code of the response's text
    /// is in `200..399`. Otherwise the error carries the whole text.
    pub fn verdict(&self) -> (r: Result<(), Error>)
        ensures
            r is Ok <==> accepts_status(lossy_utf8(self.received@)),
            r matches Err(e) ==> e.is_refusal(lossy_utf8(self.received@)),
            vstd::utf8::valid_utf8(self.received@) ==> (r is Ok <==> accepts_status(
                vstd::utf8::decode_utf8(self.received@),
            )),
            vstd::utf8::valid_utf8(self.received@) ==> (r matches Err(e) ==> e.is_refusal(
                vstd::utf8::decode_utf8(self.received@),
            )),
    {
        let text = self.text();
        if !is_ok_status(Cow::Borrowed(text.as_str())) {
            return Err(Error::ProxyResponseNotOk(text));
        }
        Ok(())
    }
}

/// The two completion rules, byte by byte: a response ends with the empty
/// line when its last four bytes are CR LF CR LF, and holds it when four
/// consecutive bytes somewhere are CR LF CR LF. A response that ends with the
/// empty line holds it, and a response that holds it still holds it after
/// more bytes arrive.
pub proof fn lemma_blank_line_bytes(bytes: Seq<u8>, more: Seq<u8>)
    ensures
        ends_with_blank_line(bytes) <==> (bytes.len() >= 4 && bytes[bytes.len() - 4] == 0x0d
            && bytes[bytes.len() - 3] == 0x0a && bytes[bytes.len() - 2] == 0x0d && bytes[bytes.len()
            - 1] == 0x0a),
        holds_blank_line(bytes) <==> (exists|i: int|
            0 <= i && i + 4 <= bytes.len() && #[trigger] bytes[i] == 0x0d && bytes[i + 1] == 0x0a
                && bytes[i + 2] == 0x0d && bytes[i + 3] == 0x0a),
        ends_with_blank_line(bytes) ==> holds_blank_line(bytes),
        holds_blank_line(bytes) ==> holds_blank_line(bytes + more),
        Completion::BlankLineAtEnd.completes(bytes) == ends_with_blank_line(bytes),
        Completion::BlankLineAnywhere.completes(bytes) == holds_blank_line(bytes),
{
    let len = bytes.len() as int;
    if len >= 4 {
        let tail = bytes.subrange(len - 4, len);
        assert(tail[0] == bytes[len - 4] && tail[1] == bytes[len - 3] && tail[2] == bytes[len - 2]
            && tail[3] == bytes[len - 1]);
        if bytes[len - 4] == 0x0d && bytes[len - 3] == 0x0a && bytes[len - 2] == 0x0d && bytes[len
            - 1] == 0x0a {
            assert(tail =~= blank_line());
        }
    }
    assert forall|i: int| 0 <= i && i + 4 <= bytes.len() implies (#[trigger] bytes.subrange(i, i + 4)
        == blank_line() <==> (bytes[i] == 0x0d && bytes[i + 1] == 0x0a && bytes[i + 2] == 0x0d
        && bytes[i + 3] == 0x0a)) by {
        let w = bytes.subrange(i, i + 4);
        assert(w[0] == bytes[i] && w[1] == bytes[i + 1] && w[2] == bytes[i + 2] && w[3] == bytes[i
            + 3]);
        if bytes[i] == 0x0d && bytes[i + 1] == 0x0a && bytes[i + 2] == 0x0d && bytes[i + 3] == 0x0a {
            assert(w =~= blank_line());
        }
    }
    if ends_with_blank_line(bytes) {
        assert(bytes.subrange(len - 4, (len - 4) + 4) == blank_line());
    }
    if holds_blank_line(bytes) {
        let i = choose|i: int|
            0 <= i && i + 4 <= bytes.len() && #[trigger] bytes.subrange(i, i + 4) == blank_line();
        assert(bytes[i] == 0x0d && bytes[i + 1] == 0x0a && bytes[i + 2] == 0x0d && bytes[i + 3]
            == 0x0a);
        assert((bytes + more).subrange(i, i + 4) =~= bytes.subrange(i, i + 4));
    }
    if exists|i: int|
        0 <= i && i + 4 <= bytes.len() && #[trigger] bytes[i] == 0x0d && bytes[i + 1] == 0x0a
            && bytes[i + 2] == 0x0d && bytes[i + 3] == 0x0a {
        let j = choose|i: int|
            0 <= i && i + 4 <= bytes.len() && #[trigger] bytes[i] == 0x0d && bytes[i + 1] == 0x0a
                && bytes[i + 2] == 0x0d && bytes[i + 3] == 0x0a;
        assert(bytes.subrange(j, j + 4) == blank_line());
    }
}

} // verus!
