use vstd::prelude::*;

verus! {

/// The cumulative net flow as last stored: the block that set it, its
/// decimal text, and when it was written (unix seconds).
#[derive(Clone, Debug)]
pub struct NetflowSnapshot {
    pub block_number: u64,
    pub cumulative_netflow_raw: String,
    pub updated_at_unix: i64,
}

/// Why address configuration was rejected.
#[derive(Clone, Debug)]
pub enum AddressError {
    /// The text is not an address; it is carried along.
    Invalid(String),
    /// The list names no address at all.
    Empty,
}

impl AddressError {
    /// A one-line description of the error.
    pub fn message(&self) -> (r: String)
        ensures
            self matches AddressError::Invalid(t) ==> r@ == "Invalid address: "@ + t@,
            self matches AddressError::Empty ==> r@ == "No addresses to watch were provided"@,
    {
        match self {
            AddressError::Invalid(s) => {
                let mut m = String::from_str("Invalid address: ");
                m.append(s.as_str());
                m
            },
            AddressError::Empty => String::from_str("No addresses to watch were provided"),
        }
    }
}

/// Characters that hex decoding passes over.
pub open spec fn is_hex_space(c: char) -> bool {
    c == ' ' || c == '\r' || c == '\n' || c == '\t'
}

pub open spec fn is_hex_digit(c: char) -> bool {
    ('0' <= c && c <= '9') || ('a' <= c && c <= 'f') || ('A' <= c && c <= 'F')
}

pub open spec fn hex_digit_value(c: char) -> nat {
    if '0' <= c && c <= '9' {
        (c as u32 - '0' as u32) as nat
    } else if 'a' <= c && c <= 'f' {
        (c as u32 - 'a' as u32 + 10) as nat
    } else {
        (c as u32 - 'A' as u32 + 10) as nat
    }
}

/// The text after an optional leading `0x`.
pub open spec fn without_0x(s: Seq<char>) -> Seq<char> {
    if s.len() >= 2 && s[0] == '0' && s[1] == 'x' { s.subrange(2, s.len() as int) } else { s }
}

/// The hex digits of an address text: blanks inside it are skipped.
pub open spec fn address_digits(s: Seq<char>) -> Seq<char> {
    without_0x(s).filter(|c: char| !is_hex_space(c))
}

/// Whether `s` spells a 20-byte address: after an optional `0x`, forty hex
/// digits (either case) with nothing else but blanks.
pub open spec fn is_address_text(s: Seq<char>) -> bool {
    &&& forall|i: int| 0 <= i < without_0x(s).len()
        ==> is_hex_digit(#[trigger] without_0x(s)[i]) || is_hex_space(without_0x(s)[i])
    &&& address_digits(s).len() == 40
}

/// The 20 bytes that an address text spells, two digits per byte.
pub open spec fn address_bytes(s: Seq<char>) -> Seq<u8> {
    Seq::new(20, |i: int| (hex_digit_value(address_digits(s)[2 * i]) * 16
        + hex_digit_value(address_digits(s)[2 * i + 1])) as u8)
}

/// Relies on `FromStr for H160` (fixed-hash, through ethers): it strips one
/// leading `0x`, skips blanks, and reads exactly forty hex digits into 20
/// bytes, first digit pair first.
#[verifier::external_body]
fn h160_from_str(s: &str) -> (r: Option<Vec<u8>>)
    ensures
        r.is_some() <==> is_address_text(s@),
        r matches Some(a) ==> a@ == address_bytes(s@),
{
    match s.parse::<ethers::types::H160>() {
        Ok(a) => Some(a.as_bytes().to_vec()),
        Err(_) => None,
    }
}

/// Parses one address.
pub fn parse_address(s: &str) -> (r: Result<Vec<u8>, AddressError>)
    ensures
        r.is_ok() <==> is_address_text(s@),
        r matches Ok(a) ==> a@ == address_bytes(s@),
        r matches Err(e) ==> e matches AddressError::Invalid(t) && t@ == s@,
{
    match h160_from_str(s) {
        Some(a) => Ok(a),
        None => Err(AddressError::Invalid(s.to_owned())),
    }
}

/// The pieces of `s` between commas, in order; there is always at least one.
pub open spec fn comma_pieces(s: Seq<char>) -> Seq<Seq<char>>
    decreases s.len(),
{
    if s.len() == 0 {
        seq![Seq::empty()]
    } else {
        let rest = comma_pieces(s.drop_last());
        if s.last() == ',' {
            rest.push(Seq::empty())
        } else {
            rest.update(rest.len() - 1, rest.last().push(s.last()))
        }
    }
}

/// Unicode `White_Space`: the characters that `str::trim` removes.
pub open spec fn is_white_space(c: char) -> bool {
    ('\u{9}' <= c && c <= '\u{d}') || c == ' ' || c == '\u{85}' || c == '\u{a0}'
        || c == '\u{1680}' || ('\u{2000}' <= c && c <= '\u{200a}') || c == '\u{2028}'
        || c == '\u{2029}' || c == '\u{202f}' || c == '\u{205f}' || c == '\u{3000}'
}

pub open spec fn trim_start(s: Seq<char>) -> Seq<char>
    decreases s.len(),
{
    if s.len() > 0 && is_white_space(s[0]) { trim_start(s.drop_first()) } else { s }
}

pub open spec fn trim_end(s: Seq<char>) -> Seq<char>
    decreases s.len(),
{
    if s.len() > 0 && is_white_space(s.last()) { trim_end(s.drop_last()) } else { s }
}

/// A text without its leading and trailing white space.
pub open spec fn trimmed(s: Seq<char>) -> Seq<char> {
    trim_end(trim_start(s))
}

/// Relies on `str::split` with a `char` pattern: the pieces between the
/// commas, in order.
#[verifier::external_body]
fn split_commas(s: &str) -> (r: Vec<String>)
    ensures
        r@.map_values(|p: String| p@) == comma_pieces(s@),
{
    s.split(',').map(|p| p.to_owned()).collect()
}

/// Relies on `str::trim`: the text without leading and trailing Unicode
/// `White_Space`.
#[verifier::external_body]
fn trim_text(s: &str) -> (r: String)
    ensures
        r@ == trimmed(s@),
{
    s.trim().to_owned()
}

/// The addresses that a list of trimmed pieces names, empty pieces skipped;
/// `None` where a piece that is not empty is no address.
pub open spec fn listed_addresses(pieces: Seq<Seq<char>>) -> Option<Seq<Seq<u8>>>
    decreases pieces.len(),
{
    if pieces.len() == 0 {
        Some(Seq::empty())
    } else {
        match listed_addresses(pieces.drop_last()) {
            None => None,
            Some(v) => {
                let t = pieces.last();
                if t.len() == 0 {
                    Some(v)
                } else if is_address_text(t) {
                    Some(v.push(address_bytes(t)))
                } else {
                    None
                }
            },
        }
    }
}

/// The trimmed pieces of a comma-separated text.
pub open spec fn trimmed_pieces(s: Seq<char>) -> Seq<Seq<char>> {
    comma_pieces(s).map_values(|p: Seq<char>| trimmed(p))
}

proof fn lemma_listed_none_stays(pieces: Seq<Seq<char>>, k: int)
    requires
        0 <= k <= pieces.len(),
        listed_addresses(pieces.subrange(0, k)) is None,
    ensures
        listed_addresses(pieces) is None,
    decreases pieces.len() - k,
{
    if k < pieces.len() {
        assert(pieces.subrange(0, k + 1).drop_last() == pieces.subrange(0, k));
        lemma_listed_none_stays(pieces, k + 1);
    } else {
        assert(pieces.subrange(0, k) == pieces);
    }
}

/// Reads the addresses of a list of trimmed pieces. Empty pieces are
/// skipped; the first piece that is no address is the error, and a list that
/// names no address is rejected.
pub fn addresses_from_trimmed(pieces: &Vec<String>) -> (r: Result<Vec<Vec<u8>>, AddressError>)
    ensures
        r matches Ok(v) ==> listed_addresses(pieces@.map_values(|p: String| p@)) == Some(v@.map_values(|a: Vec<u8>| a@))
            && v@.len() > 0,
        r is Ok <==> (listed_addresses(pieces@.map_values(|p: String| p@)) matches Some(w) && w.len() > 0),
        r matches Err(AddressError::Empty) <==> listed_addresses(pieces@.map_values(|p: String| p@)) == Some(Seq::<Seq<u8>>::empty()),
        r matches Err(AddressError::Invalid(_)) <==> listed_addresses(pieces@.map_values(|p: String| p@)) is None,
{
    let ghost ps = pieces@.map_values(|p: String| p@);
    let mut out: Vec<Vec<u8>> = Vec::new();
    let mut i: usize = 0;
    while i < pieces.len()
        invariant
            i <= pieces@.len(),
            ps == pieces@.map_values(|p: String| p@),
            listed_addresses(ps.subrange(0, i as int)) == Some(out@.map_values(|a: Vec<u8>| a@)),
        decreases pieces@.len() - i,
    {
        assert(ps.subrange(0, i + 1).drop_last() == ps.subrange(0, i as int));
        assert(ps[i as int] == pieces@[i as int]@);
        let t = pieces[i].as_str();
        if t.is_empty() {
        } else {
            match parse_address(t) {
                Ok(a) => {
                    let ghost before = out@;
                    out.push(a);
                    assert(out@.map_values(|a: Vec<u8>| a@) == before.map_values(|a: Vec<u8>| a@).push(a@));
                },
                Err(e) => {
                    assert(listed_addresses(ps.subrange(0, i + 1)) is None);
                    proof { lemma_listed_none_stays(ps, i + 1); }
                    return Err(e);
                },
            }
        }
        i = i + 1;
    }
    assert(ps.subrange(0, i as int) == ps);
    if out.len() == 0 {
        assert(out@.map_values(|a: Vec<u8>| a@) == Seq::<Seq<u8>>::empty());
        return Err(AddressError::Empty);
    }
    Ok(out)
}

/// Parses a comma-separated address list: the pieces between commas are
/// trimmed and read by [`addresses_from_trimmed`].
pub fn parse_addresses(csv: &str) -> (r: Result<Vec<Vec<u8>>, AddressError>)
    ensures
        r matches Ok(v) ==> listed_addresses(trimmed_pieces(csv@)) == Some(v@.map_values(|a: Vec<u8>| a@))
            && v@.len() > 0,
        r is Ok <==> (listed_addresses(trimmed_pieces(csv@)) matches Some(w) && w.len() > 0),
        r matches Err(AddressError::Empty) <==> listed_addresses(trimmed_pieces(csv@)) == Some(Seq::<Seq<u8>>::empty()),
        r matches Err(AddressError::Invalid(_)) <==> listed_addresses(trimmed_pieces(csv@)) is None,
{
    let parts = split_commas(csv);
    let ghost cp = comma_pieces(csv@);
    let mut ts: Vec<String> = Vec::new();
    let mut i: usize = 0;
    while i < parts.len()
        invariant
            i <= parts@.len(),
            cp == comma_pieces(csv@),
            parts@.map_values(|p: String| p@) == cp,
            ts@.len() == i,
            forall|k: int| 0 <= k < i ==> (#[trigger] ts@[k])@ == trimmed(cp[k]),
        decreases parts@.len() - i,
    {
        assert(cp[i as int] == parts@[i as int]@);
        let t = trim_text(parts[i].as_str());
        ts.push(t);
        i = i + 1;
    }
    assert(ts@.map_values(|p: String| p@) =~= trimmed_pieces(csv@));
    addresses_from_trimmed(&ts)
}

/// An empty configuration text names no address and is rejected.
pub proof fn lemma_empty_list_rejected(csv: Seq<char>)
    requires
        csv.len() == 0,
    ensures
        listed_addresses(trimmed_pieces(csv)) == Some(Seq::<Seq<u8>>::empty()),
{
    let e = Seq::<char>::empty();
    assert(comma_pieces(csv) == seq![e]);
    assert(trimmed(e) == e);
    assert(trimmed_pieces(csv) =~= seq![e]);
    assert(seq![e].drop_last() =~= Seq::<Seq<char>>::empty());
    assert(listed_addresses(Seq::<Seq<char>>::empty()) == Some(Seq::<Seq<u8>>::empty()));
    assert(listed_addresses(seq![e]) == Some(Seq::<Seq<u8>>::empty()));
}

} // verus!
