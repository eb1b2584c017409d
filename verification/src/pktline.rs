//! Git pkt-line framing for the ref advertisement: the four-digit length
//! prefix, the service announcement line, and the flush marker.

use vstd::prelude::*;
use vstd::string::StringSliceAdditionalSpecFns;
use crate::text::{spec_hex_char_of, hex_digit_str};
use crate::errors::Error;

verus! {

/// The four lowercase hexadecimal digits of a value below 65536,
/// most significant first.
pub open spec fn spec_hex4(n: int) -> Seq<char> {
    seq![
        spec_hex_char_of(n / 4096 % 16),
        spec_hex_char_of(n / 256 % 16),
        spec_hex_char_of(n / 16 % 16),
        spec_hex_char_of(n % 16),
    ]
}

/// Renders `n` as exactly four hexadecimal digits, as a pkt-line length
/// prefix demands.
pub fn hex4(n: usize) -> (r: String)
    requires
        n < 65536,
    ensures
        r@ =~= spec_hex4(n as int),
{
    let d0: u8 = ((n / 4096) % 16) as u8;
    let d1: u8 = ((n / 256) % 16) as u8;
    let d2: u8 = ((n / 16) % 16) as u8;
    let d3: u8 = (n % 16) as u8;
    let mut out = String::new();
    out.append(hex_digit_str(d0));
    out.append(hex_digit_str(d1));
    out.append(hex_digit_str(d2));
    out.append(hex_digit_str(d3));
    out
}

/// The full text that precedes the Git executable's output in a ref
/// advertisement: pkt-line length, `# service=<S>` line, flush marker.
pub open spec fn spec_advertisement_header(service: Seq<char>) -> Seq<char> {
    spec_hex4(15 + service.len() as int) + "# service="@ + service + "\n"@ + "0000"@
}

/// Frames a ref advertisement: the pkt-line service announcement and flush
/// marker, followed by the executable's raw output.
pub fn frame_advertisement(service: &str, payload: &Vec<u8>) -> (r: Vec<u8>)
    requires
        service.is_ascii(),
        service@.len() < 65000,
    ensures
        r@ =~= vstd::utf8::encode_utf8(spec_advertisement_header(service@)) + payload@,
{
    broadcast use vstd::string::is_ascii_spec_bytes;
    let service_len: usize = service.len();
    proof {
        assert(service.spec_bytes().len() == service@.len());
    }
    let mut header = String::new();
    let prefix = hex4(15 + service_len);
    header.append(prefix.as_str());
    header.append("# service=");
    header.append(service);
    header.append("\n");
    header.append("0000");
    proof {
        assert(header@ =~= spec_advertisement_header(service@));
    }
    let mut out = header.as_str().as_bytes_vec();
    let mut i: usize = 0;
    while i < payload.len()
        invariant
            i <= payload@.len(),
            out@ =~= vstd::utf8::encode_utf8(spec_advertisement_header(service@))
                + payload@.take(i as int),
        decreases payload@.len() - i,
    {
        let b = payload[i];
        out.push(b);
        proof {
            assert(payload@.take(i + 1) =~= payload@.take(i as int).push(payload@[i as int]));
        }
        i = i + 1;
    }
    proof {
        assert(payload@.take(payload@.len() as int) =~= payload@);
    }
    out
}

/// The two services a smart HTTP client may ask an advertisement for.
pub open spec fn spec_known_service(service: Seq<char>) -> bool {
    service =~= "git-upload-pack"@ || service =~= "git-receive-pack"@
}

/// Decides whether `service` names one of the two pack services; any other
/// value is the `UnknownService` error.
pub fn classify_service(service: &str) -> (r: Result<bool, Error>)
    ensures
        r is Ok <==> spec_known_service(service@),
        r is Ok ==> (r->Ok_0 == (service@ =~= "git-upload-pack"@)),
        r is Err ==> (r->Err_0 matches Error::UnknownService { service: s } && s@ =~= service@),
{
    if crate::text::str_eq(service, "git-upload-pack") {
        proof {
            reveal_strlit("git-upload-pack");
            reveal_strlit("git-receive-pack");
        }
        Ok(true)
    } else if crate::text::str_eq(service, "git-receive-pack") {
        Ok(false)
    } else {
        Err(Error::UnknownService { service: service.to_owned() })
    }
}

/// The query string of a ref advertisement request; the service may be
/// absent altogether.
#[derive(Debug, Clone)]
pub struct InfoRefsQuery {
    pub service: Option<String>,
}

impl InfoRefsQuery {
    /// The requested service, an empty string when none was given.
    pub fn service_or_default(&self) -> (r: String)
        ensures
            self.service matches Some(s) ==> r@ == s@,
            self.service is None ==> r@.len() == 0,
    {
        match &self.service {
            Some(s) => s.clone(),
            None => String::new(),
        }
    }
}

/// The HTTP content type of a ref advertisement for `service`; plain text
/// for anything else, as the wire behaviour has it.
pub fn advertisement_content_type(service: &str) -> (r: &'static str)
    ensures
        service@ =~= "git-upload-pack"@ ==> r@ =~= "application/x-git-upload-pack-advertisement"@,
        service@ =~= "git-receive-pack"@ ==> r@ =~= "application/x-git-receive-pack-advertisement"@,
        !spec_known_service(service@) ==> r@ =~= "text/plain"@,
{
    proof {
        reveal_strlit("git-upload-pack");
        reveal_strlit("git-receive-pack");
    }
    if crate::text::str_eq(service, "git-upload-pack") {
        "application/x-git-upload-pack-advertisement"
    } else if crate::text::str_eq(service, "git-receive-pack") {
        "application/x-git-receive-pack-advertisement"
    } else {
        "text/plain"
    }
}

} // verus!
