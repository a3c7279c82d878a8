use vstd::prelude::*;
use crate::identity::Name;

verus! {

/// TLS record content type of a handshake record.
pub const CONTENT_TYPE_HANDSHAKE: u8 = 22;

/// Handshake message type of a ClientHello.
pub const HANDSHAKE_CLIENT_HELLO: u8 = 1;

/// Extension number of server_name (SNI).
pub const EXTENSION_SERVER_NAME: usize = 0;

/// server_name entry type of a DNS host name.
pub const NAME_TYPE_HOST: u8 = 0;

/// Three-way classification of a byte buffer against a local identity name.
#[derive(Clone, Copy, Debug, PartialEq, Eq, Structural)]
pub enum Match {
    /// A complete ClientHello whose first SNI host name equals the local name.
    Matched,
    /// The bytes are not such a ClientHello (wrong framing, no SNI, or a
    /// different name): more data cannot change the verdict.
    NotMatched,
    /// The bytes are a prefix that could still become either.
    Incomplete,
}

/// What a parse of the buffer found: the first SNI host name of a complete
/// ClientHello, the definite absence of one, or too few bytes to tell.
pub enum SniParse {
    NeedMore,
    Absent,
    Found(Seq<u8>),
}

/// The same outcome in executable form: a found name is given by its byte
/// range within the input.
#[derive(Clone, Copy, Debug)]
pub enum ScanOutcome {
    NeedMore,
    Absent,
    Found(usize, usize),
}

/// The big-endian 16-bit integer at offset `i`.
pub open spec fn spec_u16_at(s: Seq<u8>, i: int) -> int {
    (s[i] as int) * 256 + (s[i + 1] as int)
}

/// How the SNI parse of `input` ends. Reads are bounded both by the bytes
/// present and by the record length the header declares; a read past that
/// bound means the verdict needs more data. Inner length fields that
/// contradict an enclosing bound mean the bytes are not a ClientHello.
pub open spec fn spec_extract_sni(input: Seq<u8>) -> SniParse {
    let n = input.len() as int;
    if n < 1 {
        SniParse::NeedMore
    } else if input[0] != CONTENT_TYPE_HANDSHAKE {
        SniParse::Absent
    } else if n < 5 {
        SniParse::NeedMore
    } else {
        let bound = 5 + spec_u16_at(input, 3);
        let limit = if n <= bound {
            n
        } else {
            bound
        };
        spec_parse_hello(input, limit)
    }
}

/// Parse of the ClientHello body: fixed fields, then the variable-length
/// session id, cipher suites and compression methods, then the extensions.
pub open spec fn spec_parse_hello(input: Seq<u8>, limit: int) -> SniParse {
    if limit < 6 {
        SniParse::NeedMore
    } else if input[5] != HANDSHAKE_CLIENT_HELLO {
        SniParse::Absent
    } else if limit < 44 {
        SniParse::NeedMore
    } else {
        let p1 = 44 + input[43] as int;
        if limit < p1 + 2 {
            SniParse::NeedMore
        } else {
            let p2 = p1 + 2 + spec_u16_at(input, p1);
            if limit < p2 + 1 {
                SniParse::NeedMore
            } else {
                let p3 = p2 + 1 + input[p2] as int;
                if limit < p3 + 2 {
                    SniParse::NeedMore
                } else {
                    let ext_end = p3 + 2 + spec_u16_at(input, p3);
                    spec_scan_exts(input, p3 + 2, ext_end, limit)
                }
            }
        }
    }
}

/// Walk the extension list, looking for server_name.
pub open spec fn spec_scan_exts(input: Seq<u8>, pos: int, ext_end: int, limit: int) -> SniParse
    decreases ext_end - pos,
{
    if pos >= ext_end {
        SniParse::Absent
    } else if ext_end < pos + 4 {
        SniParse::Absent
    } else if limit < pos + 4 {
        SniParse::NeedMore
    } else {
        let ty = spec_u16_at(input, pos);
        let content_end = pos + 4 + spec_u16_at(input, pos + 2);
        if content_end > ext_end {
            SniParse::Absent
        } else if ty == EXTENSION_SERVER_NAME {
            spec_parse_sni_list(input, pos + 4, content_end, limit)
        } else if content_end > limit {
            SniParse::NeedMore
        } else {
            spec_scan_exts(input, content_end, ext_end, limit)
        }
    }
}

/// Parse the ServerNameList inside a server_name extension.
pub open spec fn spec_parse_sni_list(input: Seq<u8>, pos: int, end: int, limit: int) -> SniParse {
    if end < pos + 2 {
        SniParse::Absent
    } else if limit < pos + 2 {
        SniParse::NeedMore
    } else {
        let list_end = pos + 2 + spec_u16_at(input, pos);
        if list_end > end {
            SniParse::Absent
        } else {
            spec_scan_names(input, pos + 2, list_end, limit)
        }
    }
}

/// Walk the server_name entries, yielding the first DNS host name.
pub open spec fn spec_scan_names(input: Seq<u8>, pos: int, list_end: int, limit: int) -> SniParse
    decreases list_end - pos,
{
    if pos >= list_end {
        SniParse::Absent
    } else if list_end < pos + 3 {
        SniParse::Absent
    } else if limit < pos + 3 {
        SniParse::NeedMore
    } else {
        let nty = input[pos];
        let name_end = pos + 3 + spec_u16_at(input, pos + 1);
        if name_end > list_end {
            SniParse::Absent
        } else if limit < name_end {
            SniParse::NeedMore
        } else if nty == NAME_TYPE_HOST {
            SniParse::Found(input.subrange(pos + 3, name_end))
        } else {
            spec_scan_names(input, name_end, list_end, limit)
        }
    }
}

/// The executable outcome `r` denotes the parse outcome `s` of `input`.
pub open spec fn outcome_matches(input: Seq<u8>, r: ScanOutcome, s: SniParse) -> bool {
    match (r, s) {
        (ScanOutcome::NeedMore, SniParse::NeedMore) => true,
        (ScanOutcome::Absent, SniParse::Absent) => true,
        (ScanOutcome::Found(a, b), SniParse::Found(sni)) => a <= b && b <= input.len() && sni
            == input.subrange(a as int, b as int),
        _ => false,
    }
}

/// Classification of `input` against the local identity name `name`.
pub open spec fn spec_match_client_hello(input: Seq<u8>, name: Seq<u8>) -> Match {
    match spec_extract_sni(input) {
        SniParse::NeedMore => Match::Incomplete,
        SniParse::Absent => Match::NotMatched,
        SniParse::Found(sni) => if sni == name {
            Match::Matched
        } else {
            Match::NotMatched
        },
    }
}

fn read_u16(input: &Vec<u8>, i: usize) -> (v: usize)
    requires
        i + 2 <= input@.len(),
    ensures
        v as int == spec_u16_at(input@, i as int),
        v <= 65535,
{
    let n = input.len();
    proof {
        assert(i + 2 <= n);
    }
    let hi = input[i] as usize;
    let lo = input[i + 1] as usize;
    hi * 256 + lo
}

fn scan_names(input: &Vec<u8>, pos: usize, list_end: usize, limit: usize) -> (r: ScanOutcome)
    requires
        limit <= input@.len(),
        pos <= list_end,
        list_end <= 0x50000,
    ensures
        outcome_matches(input@, r, spec_scan_names(input@, pos as int, list_end as int, limit as int)),
    decreases list_end - pos,
{
    if pos >= list_end {
        return ScanOutcome::Absent;
    }
    if list_end < pos + 3 {
        return ScanOutcome::Absent;
    }
    if limit < pos + 3 {
        return ScanOutcome::NeedMore;
    }
    let nty = input[pos];
    let name_len = read_u16(input, pos + 1);
    let name_end = pos + 3 + name_len;
    if name_end > list_end {
        return ScanOutcome::Absent;
    }
    if limit < name_end {
        return ScanOutcome::NeedMore;
    }
    if nty == NAME_TYPE_HOST {
        return ScanOutcome::Found(pos + 3, name_end);
    }
    scan_names(input, name_end, list_end, limit)
}

fn parse_sni_list(input: &Vec<u8>, pos: usize, end: usize, limit: usize) -> (r: ScanOutcome)
    requires
        limit <= input@.len(),
        pos <= end,
        end <= 0x40000,
    ensures
        outcome_matches(input@, r, spec_parse_sni_list(input@, pos as int, end as int, limit as int)),
{
    if end < pos + 2 {
        return ScanOutcome::Absent;
    }
    if limit < pos + 2 {
        return ScanOutcome::NeedMore;
    }
    let list_len = read_u16(input, pos);
    let list_end = pos + 2 + list_len;
    if list_end > end {
        return ScanOutcome::Absent;
    }
    scan_names(input, pos + 2, list_end, limit)
}

fn scan_extensions(input: &Vec<u8>, pos: usize, ext_end: usize, limit: usize) -> (r: ScanOutcome)
    requires
        limit <= input@.len(),
        pos <= ext_end,
        ext_end <= 0x40000,
    ensures
        outcome_matches(input@, r, spec_scan_exts(input@, pos as int, ext_end as int, limit as int)),
    decreases ext_end - pos,
{
    if pos >= ext_end {
        return ScanOutcome::Absent;
    }
    if ext_end < pos + 4 {
        return ScanOutcome::Absent;
    }
    if limit < pos + 4 {
        return ScanOutcome::NeedMore;
    }
    let ty = read_u16(input, pos);
    let content_len = read_u16(input, pos + 2);
    let content_end = pos + 4 + content_len;
    if content_end > ext_end {
        return ScanOutcome::Absent;
    }
    if ty == EXTENSION_SERVER_NAME {
        return parse_sni_list(input, pos + 4, content_end, limit);
    }
    if content_end > limit {
        return ScanOutcome::NeedMore;
    }
    scan_extensions(input, content_end, ext_end, limit)
}

fn extract_sni(input: &Vec<u8>) -> (r: ScanOutcome)
    ensures
        outcome_matches(input@, r, spec_extract_sni(input@)),
{
    let n = input.len();
    if n < 1 {
        return ScanOutcome::NeedMore;
    }
    if input[0] != CONTENT_TYPE_HANDSHAKE {
        return ScanOutcome::Absent;
    }
    if n < 5 {
        return ScanOutcome::NeedMore;
    }
    let rec_len = read_u16(input, 3);
    let bound = 5 + rec_len;
    let limit = if n <= bound {
        n
    } else {
        bound
    };
    if limit < 6 {
        return ScanOutcome::NeedMore;
    }
    if input[5] != HANDSHAKE_CLIENT_HELLO {
        return ScanOutcome::Absent;
    }
    if limit < 44 {
        return ScanOutcome::NeedMore;
    }
    let sid_len = input[43] as usize;
    let p1 = 44 + sid_len;
    if limit < p1 + 2 {
        return ScanOutcome::NeedMore;
    }
    let cs_len = read_u16(input, p1);
    let p2 = p1 + 2 + cs_len;
    if limit < p2 + 1 {
        return ScanOutcome::NeedMore;
    }
    let cm_len = input[p2] as usize;
    let p3 = p2 + 1 + cm_len;
    if limit < p3 + 2 {
        return ScanOutcome::NeedMore;
    }
    let ext_total = read_u16(input, p3);
    let ext_end = p3 + 2 + ext_total;
    scan_extensions(input, p3 + 2, ext_end, limit)
}

/// True when the bytes `input[start..end]` are exactly `name`'s bytes.
fn range_eq(input: &Vec<u8>, start: usize, end: usize, name: &Vec<u8>) -> (b: bool)
    requires
        start <= end,
        end <= input@.len(),
    ensures
        b == (input@.subrange(start as int, end as int) == name@),
{
    if end - start != name.len() {
        proof {
            assert(input@.subrange(start as int, end as int).len() != name@.len());
        }
        return false;
    }
    let n = name.len();
    let mut i: usize = 0;
    while i < n
        invariant
            start + n == end,
            end <= input@.len(),
            n == name@.len(),
            i <= n,
            forall|k: int| 0 <= k < i as int ==> input@[start as int + k] == #[trigger] name@[k],
        decreases n - i,
    {
        if input[start + i] != name[i] {
            proof {
                assert(input@.subrange(start as int, end as int)[i as int] != name@[i as int]);
            }
            return false;
        }
        i += 1;
    }
    proof {
        assert(input@.subrange(start as int, end as int) =~= name@);
    }
    true
}

/// Classify a byte buffer against the local identity name: Matched when it
/// holds a complete ClientHello whose first SNI host name equals the name,
/// NotMatched when it can never become one, Incomplete when more bytes could
/// still decide either way.
pub fn match_client_hello(input: &Vec<u8>, name: &Name) -> (m: Match)
    ensures
        m == spec_match_client_hello(input@, name@),
{
    let r = extract_sni(input);
    match r {
        ScanOutcome::NeedMore => Match::Incomplete,
        ScanOutcome::Absent => Match::NotMatched,
        ScanOutcome::Found(a, b) => {
            if range_eq(input, a, b, name.as_bytes()) {
                Match::Matched
            } else {
                Match::NotMatched
            }
        },
    }
}

/// SNI matching: a buffer that parses as a complete ClientHello whose first
/// SNI host name equals the local name classifies as Matched; one whose name
/// differs, or that holds no such name, as NotMatched; and a buffer the parse
/// cannot finish on the bytes present as Incomplete.
pub proof fn lemma_sni_matching(input: Seq<u8>, name: Seq<u8>)
    ensures
        spec_extract_sni(input) == SniParse::Found(name) ==> spec_match_client_hello(input, name)
            == Match::Matched,
        (spec_extract_sni(input) matches SniParse::Found(sni) && sni != name)
            ==> spec_match_client_hello(input, name) == Match::NotMatched,
        spec_extract_sni(input) == SniParse::Absent ==> spec_match_client_hello(input, name)
            == Match::NotMatched,
        spec_extract_sni(input) == SniParse::NeedMore ==> spec_match_client_hello(input, name)
            == Match::Incomplete,
{
}

} // verus!
