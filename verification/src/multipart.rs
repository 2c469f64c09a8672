//! The multipart/form-data request a document upload posts: a random boundary
//! in a fixed shape, the exact body layout (field ordering, separators,
//! terminator), and the matching Content-Type header.

use vstd::prelude::*;
use crate::encode::{hex_digit, hex_digit_exec};
use crate::strutil::push_char;
use crate::telegram::send_document_url;

verus! {

/// Relies on rand::random: a value drawn from the thread-local generator;
/// nothing is assumed of which value comes back.
pub assume_specification<T>[ rand::random::<T> ]() -> (r: T)
    where
        rand::distributions::Standard: rand::distributions::Distribution<T>,
;

/// A lowercase hexadecimal digit.
pub open spec fn is_hex_lower(c: char) -> bool {
    ('0' <= c && c <= '9') || ('a' <= c && c <= 'f')
}

/// The shape of every boundary this crate generates: twenty-four dashes
/// followed by twenty-four lowercase hexadecimal digits.
pub open spec fn boundary_wf(b: Seq<char>) -> bool {
    &&& b.len() == 48
    &&& forall|i: int| 0 <= i < 24 ==> b[i] == '-'
    &&& forall|i: int| 24 <= i < 48 ==> is_hex_lower(#[trigger] b[i])
}

/// Generate a fresh boundary: the fixed dash prefix and twenty-four random
/// hexadecimal digits.
pub fn make_boundary() -> (b: String)
    ensures
        boundary_wf(b@),
{
    let mut b = String::new();
    let mut i: usize = 0;
    while i < 24
        invariant
            i <= 24,
            b@.len() == i,
            forall|j: int| 0 <= j < i ==> b@[j] == '-',
        decreases 24 - i,
    {
        push_char(&mut b, '-');
        i = i + 1;
    }
    let mut k: usize = 0;
    while k < 24
        invariant
            k <= 24,
            b@.len() == 24 + k,
            forall|j: int| 0 <= j < 24 ==> b@[j] == '-',
            forall|j: int| 24 <= j < 24 + k ==> is_hex_lower(#[trigger] b@[j]),
        decreases 24 - k,
    {
        let r: usize = rand::random::<usize>();
        let d: u8 = (r % 16) as u8;
        let c = hex_digit_exec(d);
        proof {
            assert(is_hex_lower(hex_digit(d as nat)));
        }
        push_char(&mut b, c);
        k = k + 1;
    }
    b
}

/// The exact multipart body of a document upload: a chat-id field, then the
/// document with its file name and JSON content type, then the terminator.
pub open spec fn multipart_body(
    boundary: Seq<char>,
    chat_id: Seq<char>,
    file_name: Seq<char>,
    content: Seq<char>,
) -> Seq<char> {
    "--"@ + boundary + "\r\nContent-Disposition: form-data; name=\"chat_id\"\r\n\r\n"@ + chat_id
        + "\r\n--"@ + boundary
        + "\r\nContent-Disposition: form-data; name=\"document\"; filename=\""@ + file_name
        + "\"\r\nContent-Type: application/json\r\n\r\n"@ + content + "\r\n--"@ + boundary
        + "--\r\n"@
}

/// Build the multipart body for a boundary, destination chat, file name and
/// file content.
pub fn build_multipart_body(boundary: &str, chat_id: &str, file_name: &str, content: &str) -> (r:
    String)
    ensures
        r@ == multipart_body(boundary@, chat_id@, file_name@, content@),
{
    let mut s = String::from_str("--");
    s.append(boundary);
    s.append("\r\nContent-Disposition: form-data; name=\"chat_id\"\r\n\r\n");
    s.append(chat_id);
    s.append("\r\n--");
    s.append(boundary);
    s.append("\r\nContent-Disposition: form-data; name=\"document\"; filename=\"");
    s.append(file_name);
    s.append("\"\r\nContent-Type: application/json\r\n\r\n");
    s.append(content);
    s.append("\r\n--");
    s.append(boundary);
    s.append("--\r\n");
    proof {
        assert(s@ =~= multipart_body(boundary@, chat_id@, file_name@, content@));
    }
    s
}

/// The Content-Type header a multipart body is posted under.
pub fn multipart_content_type(boundary: &str) -> (r: String)
    ensures
        r@ == "multipart/form-data; boundary="@ + boundary@,
{
    let mut s = String::from_str("multipart/form-data; boundary=");
    s.append(boundary);
    s
}

/// Everything a document upload posts: where, under which header, and what.
pub struct DocumentRequest {
    pub url: String,
    pub content_type: String,
    pub body: String,
    pub boundary: String,
}

/// Assemble a complete document upload: a fresh well-formed boundary, the
/// sendDocument URL for the token, the matching header, and the exact body.
pub fn send_document_request(token: &str, chat_id: &str, content: &str, file_name: &str) -> (r:
    DocumentRequest)
    ensures
        boundary_wf(r.boundary@),
        r.url@ == "https://api.telegram.org/bot"@ + token@ + "/sendDocument"@,
        r.content_type@ == "multipart/form-data; boundary="@ + r.boundary@,
        r.body@ == multipart_body(r.boundary@, chat_id@, file_name@, content@),
{
    let boundary = make_boundary();
    let url = send_document_url(token);
    let content_type = multipart_content_type(boundary.as_str());
    let body = build_multipart_body(boundary.as_str(), chat_id, file_name, content);
    DocumentRequest { url, content_type, body, boundary }
}

} // verus!
