//! The parts of HTTP that the usage request touches: which text may travel in
//! a header, and how a status code reads. Both come from `reqwest`.

use vstd::prelude::*;

verus! {

/// One header of a request: its name and its value.
#[derive(Debug, Clone, PartialEq, Eq)]
pub struct Header {
    pub name: String,
    pub value: String,
}

impl View for Header {
    type V = (Seq<char>, Seq<char>);

    open spec fn view(&self) -> (Seq<char>, Seq<char>) {
        (self.name@, self.value@)
    }
}

/// The names and values of `headers`, in order.
pub open spec fn headers_view(headers: Seq<Header>) -> Seq<(Seq<char>, Seq<char>)> {
    headers.map_values(|header: Header| header@)
}

/// A character that may stand in a header value: the tab, and everything from
/// the space upwards but the delete character.
pub open spec fn header_value_char(c: char) -> bool {
    c == '\t' || (c >= ' ' && c != '\x7f')
}

/// Text that may be sent as a header value.
pub open spec fn header_value_text(text: Seq<char>) -> bool {
    forall|i: int| 0 <= i < text.len() ==> header_value_char(#[trigger] text[i])
}

/// Whether `reqwest::header::HeaderValue::from_str` accepts `text`.
///
/// That function walks the bytes of `text` and rejects it on the first byte
/// that is below 32 and not the tab, or that is 127. Every byte of the UTF-8
/// form of a character beyond ASCII is 128 or above, so the contract states
/// the same rule character by character.
#[verifier::external_body]
pub(crate) fn is_header_value(text: &str) -> (accepted: bool)
    ensures
        accepted == header_value_text(text@),
{
    reqwest::header::HeaderValue::from_str(text).is_ok()
}

/// Text that is allowed in a header value stays allowed when more such text follows it.
pub proof fn lemma_header_value_concat(head: Seq<char>, tail: Seq<char>)
    ensures
        header_value_text(head + tail) <==> header_value_text(head) && header_value_text(tail),
{
    let whole = head + tail;
    if header_value_text(whole) {
        assert forall|i: int| 0 <= i < head.len() implies header_value_char(#[trigger] head[i]) by {
            assert(whole[i] == head[i]);
        }
        assert forall|i: int| 0 <= i < tail.len() implies header_value_char(#[trigger] tail[i]) by {
            assert(whole[head.len() + i] == tail[i]);
        }
    }
}

/// The reason phrase that `reqwest::StatusCode` prints after a status code:
/// the registered phrase of the code, or a fixed remark where the code has none.
pub uninterp spec fn reason_phrase(code: u16) -> Seq<char>;

/// The decimal digit `d`, for `0 <= d <= 9`.
pub open spec fn decimal_digit(d: int) -> char {
    if d == 0 {
        '0'
    } else if d == 1 {
        '1'
    } else if d == 2 {
        '2'
    } else if d == 3 {
        '3'
    } else if d == 4 {
        '4'
    } else if d == 5 {
        '5'
    } else if d == 6 {
        '6'
    } else if d == 7 {
        '7'
    } else if d == 8 {
        '8'
    } else {
        '9'
    }
}

/// The three decimal digits of a status code.
pub open spec fn status_digits(code: int) -> Seq<char> {
    seq![decimal_digit(code / 100), decimal_digit((code / 10) % 10), decimal_digit(code % 10)]
}

/// A status code as it is shown to the user: its digits, a space, its reason phrase.
pub open spec fn status_text(code: u16) -> Seq<char> {
    status_digits(code as int) + seq![' '] + reason_phrase(code)
}

/// The text that `reqwest::StatusCode` displays for `code`, and nothing where
/// `reqwest::StatusCode::from_u16` refuses the number.
///
/// `from_u16` accepts exactly the numbers from 100 to 999. The display of a
/// status code is the number in decimal, one space, and the canonical reason
/// phrase (or a placeholder for a code without one).
#[verifier::external_body]
pub(crate) fn status_line(code: u16) -> (line: Option<String>)
    ensures
        line is Some <==> 100 <= code <= 999,
        line matches Some(text) ==> text@ == status_digits(code as int) + seq![' '] + reason_phrase(
            code,
        ),
{
    reqwest::StatusCode::from_u16(code).ok().map(|status| status.to_string())
}

/// The status code of an HTTP response: a number from 100 to 999.
#[derive(Debug, Clone, Copy, PartialEq, Eq)]
pub struct HttpStatus {
    code: u16,
}

impl HttpStatus {
    #[verifier::type_invariant]
    spec fn in_range(self) -> bool {
        100 <= self.code <= 999
    }

    /// The number of the status.
    pub closed spec fn code(self) -> u16 {
        self.code
    }

    /// A status in the success class, 200 to 299.
    pub open spec fn is_success_code(self) -> bool {
        200 <= self.code() < 300
    }

    /// The status with number `code`, if there is one.
    pub fn from_u16(code: u16) -> (status: Option<HttpStatus>)
        ensures
            status is Some <==> 100 <= code <= 999,
            status matches Some(s) ==> s.code() == code,
    {
        if 100 <= code && code <= 999 {
            Some(HttpStatus { code })
        } else {
            None
        }
    }

    /// The number of the status.
    pub fn as_u16(&self) -> (code: u16)
        ensures
            code == self.code(),
            100 <= code <= 999,
    {
        proof {
            use_type_invariant(self);
        }
        self.code
    }

    /// Whether the status reports success.
    pub fn is_success(&self) -> (success: bool)
        ensures
            success == self.is_success_code(),
    {
        200 <= self.code && self.code < 300
    }

    /// The status as it is shown to the user, such as `404 Not Found`.
    pub fn describe(&self) -> (text: String)
        ensures
            text@ == status_text(self.code()),
    {
        proof {
            use_type_invariant(self);
        }
        match status_line(self.code) {
            Some(text) => text,
            None => String::new(),
        }
    }
}

} // verus!
