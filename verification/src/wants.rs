//! Parsing of an upload-pack negotiation body: the pkt-line stream is
//! scanned for `want` lines and each requested hash is collected, then held
//! against the ledger's answer before any subprocess may run.

use vstd::prelude::*;
use vstd::utf8::{valid_utf8, decode_utf8};
use crate::errors::Error;
use crate::text::{
    spec_is_space, spec_is_hex_char, spec_hex_val, spec_has_prefix, spec_trim_start,
    is_space, hex_val, utf8_to_str,
};
use crate::objects::Lookup;

verus! {

/// The longest prefix of `s` that holds no whitespace.
pub open spec fn spec_take_token(s: Seq<char>) -> Seq<char>
    decreases s.len(),
{
    if s.len() > 0 && !spec_is_space(s[0]) {
        seq![s[0]] + spec_take_token(s.drop_first())
    } else {
        Seq::empty()
    }
}

proof fn lemma_take_token(s: Seq<char>, j: int)
    requires
        0 <= j <= s.len(),
        forall|k: int| 0 <= k < j ==> !spec_is_space(s[k]),
        j < s.len() ==> spec_is_space(s[j]),
    ensures
        spec_take_token(s) =~= s.take(j),
    decreases j,
{
    if j == 0 {
        assert(spec_take_token(s) =~= s.take(0));
    } else {
        let t = s.drop_first();
        assert(forall|k: int| 0 <= k < j - 1 ==> !spec_is_space(t[k]));
        lemma_take_token(t, j - 1);
        assert(seq![s[0]] + t.take(j - 1) =~= s.take(j));
    }
}

/// The hash a single pkt-line payload asks for: the payload, less a trailing
/// newline, must start with `want `, and the first whitespace-separated
/// token after that prefix is the hash. Anything else asks for nothing.
pub open spec fn spec_want_of_payload(payload: Seq<char>) -> Option<Seq<char>> {
    let line = if payload.len() > 0 && payload.last() == '\n' {
        payload.drop_last()
    } else {
        payload
    };
    if spec_has_prefix(line, "want "@) {
        let token = spec_take_token(spec_trim_start(line.skip(5)));
        if token.len() > 0 {
            Some(token)
        } else {
            None
        }
    } else {
        None
    }
}

/// The value of the four hexadecimal digits at `pos`, or -1 when the four
/// characters are not all lowercase hexadecimal digits.
pub open spec fn spec_pkt_len(s: Seq<char>, pos: int) -> int {
    if 0 <= pos && pos + 4 <= s.len() && spec_is_hex_char(s[pos]) && spec_is_hex_char(s[pos + 1])
        && spec_is_hex_char(s[pos + 2]) && spec_is_hex_char(s[pos + 3]) {
        spec_hex_val(s[pos]) * 4096 + spec_hex_val(s[pos + 1]) * 256
            + spec_hex_val(s[pos + 2]) * 16 + spec_hex_val(s[pos + 3])
    } else {
        -1
    }
}

/// The hashes requested by the pkt-line stream of `s` from `pos` on. A
/// flush marker is skipped; a malformed or truncated frame ends the scan.
pub open spec fn spec_wants_from(s: Seq<char>, pos: int) -> Seq<Seq<char>>
    decreases s.len() - pos,
    when pos >= 0
{
    if pos < 0 || pos + 4 > s.len() {
        Seq::empty()
    } else {
        let n = spec_pkt_len(s, pos);
        if n == 0 {
            spec_wants_from(s, pos + 4)
        } else if n < 4 || pos + n > s.len() {
            Seq::empty()
        } else {
            let rest = spec_wants_from(s, pos + n);
            match spec_want_of_payload(s.subrange(pos + 4, pos + n)) {
                Some(h) => seq![h] + rest,
                None => rest,
            }
        }
    }
}

/// All hashes requested by a negotiation body.
pub open spec fn spec_wanted_objects(s: Seq<char>) -> Seq<Seq<char>> {
    spec_wants_from(s, 0)
}

/// Extracts every object hash named by a `want` line of the body's pkt-line
/// stream. Only a body that is not valid UTF-8 is rejected.
#[verifier::rlimit(60)]
pub fn parse_wanted_objects(body: &[u8]) -> (r: Result<Vec<String>, Error>)
    ensures
        r is Ok <==> valid_utf8(body@),
        r is Ok ==> r->Ok_0@.map_values(|t: String| t@) =~= spec_wanted_objects(
            decode_utf8(body@),
        ),
        r is Err ==> r->Err_0 is Malformed,
{
    let s = match utf8_to_str(body) {
        Some(s) => s,
        None => {
            return Err(Error::Malformed {
                message: "Request body is not valid UTF-8".to_owned(),
            });
        },
    };
    proof {
        vstd::utf8::encode_utf8_decode_utf8(s@);
        assert(decode_utf8(body@) =~= s@);
    }
    let len: usize = s.unicode_len();
    let mut out: Vec<String> = Vec::new();
    let mut pos: usize = 0;
    let mut live: bool = true;
    while live && len >= 4 && pos <= len - 4
        invariant
            len == s@.len(),
            pos <= len,
            live ==> spec_wants_from(s@, 0) =~= out@.map_values(|t: String| t@)
                + spec_wants_from(s@, pos as int),
            !live ==> spec_wants_from(s@, 0) =~= out@.map_values(|t: String| t@),
        decreases len - pos + (if live { 1int } else { 0int }),
    {
        let h0 = hex_val(s.get_char(pos));
        let h1 = hex_val(s.get_char(pos + 1));
        let h2 = hex_val(s.get_char(pos + 2));
        let h3 = hex_val(s.get_char(pos + 3));
        if h0 >= 16 || h1 >= 16 || h2 >= 16 || h3 >= 16 {
            proof {
                assert(spec_pkt_len(s@, pos as int) == -1);
                assert(spec_wants_from(s@, pos as int) =~= Seq::<Seq<char>>::empty());
            }
            live = false;
        } else {
            let n: usize = (h0 as usize) * 4096 + (h1 as usize) * 256 + (h2 as usize) * 16
                + (h3 as usize);
            proof {
                assert(spec_pkt_len(s@, pos as int) == n as int);
            }
            if n == 0 {
                pos = pos + 4;
            } else if n < 4 || n > len - pos {
                proof {
                    assert(spec_wants_from(s@, pos as int) =~= Seq::<Seq<char>>::empty());
                }
                live = false;
            } else {
                let ghost old_pos = pos as int;
                let ghost payload = s@.subrange(old_pos + 4, old_pos + n);
                let line_end: usize = if n > 4 && s.get_char(pos + n - 1) == '\n' {
                    pos + n - 1
                } else {
                    pos + n
                };
                let ghost line = s@.subrange(old_pos + 4, line_end as int);
                proof {
                    if payload.len() > 0 && payload.last() == '\n' {
                        assert(line =~= payload.drop_last());
                    } else {
                        assert(line =~= payload);
                    }
                }
                let start: usize = pos + 4;
                let mut token: Option<String> = None;
                let has_want = line_end - start >= 5 && s.get_char(start) == 'w'
                    && s.get_char(start + 1) == 'a' && s.get_char(start + 2) == 'n'
                    && s.get_char(start + 3) == 't' && s.get_char(start + 4) == ' ';
                proof {
                    reveal_strlit("want ");
                    if !has_want && spec_has_prefix(line, "want "@) {
                        assert(line.subrange(0, 5)[0] == line[0]);
                        assert(line.subrange(0, 5)[1] == line[1]);
                        assert(line.subrange(0, 5)[2] == line[2]);
                        assert(line.subrange(0, 5)[3] == line[3]);
                        assert(line.subrange(0, 5)[4] == line[4]);
                        assert(false);
                    }
                }
                if has_want {
                    proof {
                        assert(line.subrange(0, 5) =~= "want "@);
                        assert(spec_has_prefix(line, "want "@));
                    }
                    let mut a: usize = start + 5;
                    while a < line_end && is_space(s.get_char(a))
                        invariant
                            len == s@.len(),
                            start + 5 <= a <= line_end <= len,
                            forall|k: int| start + 5 <= k < a ==> spec_is_space(s@[k]),
                        decreases line_end - a,
                    {
                        a = a + 1;
                    }
                    let mut b: usize = a;
                    while b < line_end && !is_space(s.get_char(b))
                        invariant
                            len == s@.len(),
                            a <= b <= line_end <= len,
                            forall|k: int| a <= k < b ==> !spec_is_space(s@[k]),
                        decreases line_end - b,
                    {
                        b = b + 1;
                    }
                    proof {
                        let tail = line.skip(5);
                        assert(tail =~= s@.subrange(start + 5, line_end as int));
                        assert(forall|k: int| 0 <= k < a - (start + 5)
                            ==> spec_is_space(#[trigger] tail[k]));
                        crate::text::lemma_trim_start_skip(tail, a - (start + 5));
                        let trimmed = tail.skip(a - (start + 5));
                        assert(trimmed =~= s@.subrange(a as int, line_end as int));
                        assert(forall|k: int| 0 <= k < b - a
                            ==> !spec_is_space(#[trigger] trimmed[k]));
                        lemma_take_token(trimmed, b - a);
                        assert(spec_take_token(spec_trim_start(line.skip(5)))
                            =~= s@.subrange(a as int, b as int));
                    }
                    if b > a {
                        token = Some(s.substring_char(a, b).to_owned());
                    }
                }
                proof {
                    if token is Some {
                        assert(spec_want_of_payload(payload) == Some(token->0@));
                    } else {
                        assert(spec_want_of_payload(payload) is None);
                    }
                }
                let ghost prior = out@;
                if let Some(t) = token {
                    out.push(t);
                    proof {
                        assert(out@.map_values(|t: String| t@)
                            =~= prior.map_values(|t: String| t@).push(out@.last()@));
                    }
                }
                pos = pos + n;
                proof {
                    assert(spec_wants_from(s@, old_pos) =~= (match spec_want_of_payload(payload) {
                        Some(h) => seq![h] + spec_wants_from(s@, pos as int),
                        None => spec_wants_from(s@, pos as int),
                    }));
                    assert(spec_wants_from(s@, 0) =~= out@.map_values(|t: String| t@)
                        + spec_wants_from(s@, pos as int));
                }
            }
        }
    }
    proof {
        if pos + 4 > len {
            assert(spec_wants_from(s@, pos as int) =~= Seq::<Seq<char>>::empty());
        }
        assert(out@.map_values(|t: String| t@) =~= spec_wanted_objects(s@));
    }
    Ok(out)
}

/// Holds every requested hash against the ledger's existence answers: all
/// must be positively present before upload-pack may proceed. The first
/// miss is fatal, and an unanswered or failed lookup is fatal too.
pub fn check_wants(wants: &Vec<String>, lookups: &Vec<Lookup>) -> (r: Result<(), Error>)
    ensures
        r is Ok <==> (forall|i: int| 0 <= i < wants@.len()
            ==> i < lookups@.len() && (#[trigger] lookups@[i]) is Exists),
        r is Err ==> exists|j: int| {
            &&& 0 <= j < wants@.len()
            &&& (forall|k: int| 0 <= k < j ==> k < lookups@.len()
                && (#[trigger] lookups@[k]) is Exists)
            &&& !(j < lookups@.len() && (#[trigger] lookups@[j]) is Exists)
            &&& ((j < lookups@.len() && lookups@[j] is Absent) ==> (
                r->Err_0 matches Error::NotOurRef { hash } && hash@ == wants@[j]@))
            &&& ((j >= lookups@.len() || lookups@[j] is Unknown)
                ==> r->Err_0 is UpstreamUnavailable)
        },
{
    let mut i: usize = 0;
    while i < wants.len()
        invariant
            i <= wants@.len(),
            forall|k: int| 0 <= k < i ==> k < lookups@.len()
                && (#[trigger] lookups@[k]) is Exists,
        decreases wants@.len() - i,
    {
        if i >= lookups.len() {
            return Err(Error::UpstreamUnavailable {
                message: "Object existence results are missing".to_owned(),
            });
        }
        match &lookups[i] {
            Lookup::Exists => {},
            Lookup::Absent => {
                return Err(Error::NotOurRef { hash: wants[i].clone() });
            },
            Lookup::Unknown { message } => {
                let mut text = "Error checking commit existence: ".to_owned();
                text.append(message.as_str());
                return Err(Error::UpstreamUnavailable { message: text });
            },
        }
        i = i + 1;
    }
    Ok(())
}

} // verus!
