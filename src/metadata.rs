use vstd::prelude::*;

verus! {

/// Length of an account address in bytes.
pub const ADDRESS_LEN: usize = 32;

/// `s` without its trailing zero bytes.
pub open spec fn trim_nulls_spec(s: Seq<u8>) -> Seq<u8>
    decreases s.len(),
{
    if s.len() > 0 && s.last() == 0 {
        trim_nulls_spec(s.drop_last())
    } else {
        s
    }
}

/// Drops the zero bytes that pad a fixed-width text field.
pub fn trim_trailing_nulls(b: &Vec<u8>) -> (r: Vec<u8>)
    ensures
        r@ == trim_nulls_spec(b@),
{
    let mut k: usize = b.len();
    assert(b@.take(b.len() as int) =~= b@);
    while k > 0 && b[k - 1] == 0
        invariant
            k <= b.len(),
            trim_nulls_spec(b@.take(k as int)) == trim_nulls_spec(b@),
        decreases k,
    {
        assert(b@.take(k as int).drop_last() =~= b@.take(k - 1));
        k = k - 1;
    }
    assert(trim_nulls_spec(b@.take(k as int)) == b@.take(k as int));
    let mut r: Vec<u8> = Vec::new();
    let mut i: usize = 0;
    while i < k
        invariant
            k <= b.len(),
            i <= k,
            r@ =~= b@.take(i as int),
        decreases k - i,
    {
        r.push(b[i]);
        i = i + 1;
    }
    r
}

/// The little-endian `u32` at `at`.
pub open spec fn le_u32(s: Seq<u8>, at: int) -> nat {
    (s[at] + s[at + 1] * 256 + s[at + 2] * 65536 + s[at + 3] * 16777216) as nat
}

/// A length-prefixed byte string at `at`: its bytes and the offset after it.
pub open spec fn read_bytes_spec(s: Seq<u8>, at: int) -> Option<(Seq<u8>, int)> {
    if 0 <= at && at + 4 <= s.len() && at + 4 + le_u32(s, at) <= s.len() {
        Some((s.subrange(at + 4, at + 4 + le_u32(s, at)), at + 4 + le_u32(s, at)))
    } else {
        None
    }
}

/// The leading fields of a metadata account: a kind byte, the update
/// authority, the mint, then name, symbol and uri as length-prefixed strings.
pub open spec fn metadata_layout(s: Seq<u8>) -> Option<(Seq<u8>, Seq<u8>, Seq<u8>, Seq<u8>, Seq<u8>)> {
    if s.len() < 65 {
        None
    } else {
        match read_bytes_spec(s, 65) {
            None => None,
            Some((name, p1)) => match read_bytes_spec(s, p1) {
                None => None,
                Some((symbol, p2)) => match read_bytes_spec(s, p2) {
                    None => None,
                    Some((uri, _p3)) => Some((s.subrange(1, 33), s.subrange(33, 65), name, symbol, uri)),
                },
            },
        }
    }
}

/// The fields of a metadata account as they are stored, text still padded.
#[derive(Clone, Debug, PartialEq, Eq)]
pub struct RawMetadata {
    pub update_authority: Vec<u8>,
    pub mint: Vec<u8>,
    pub name: Vec<u8>,
    pub symbol: Vec<u8>,
    pub uri: Vec<u8>,
}

impl RawMetadata {
    pub open spec fn view(&self) -> (Seq<u8>, Seq<u8>, Seq<u8>, Seq<u8>, Seq<u8>) {
        (self.update_authority@, self.mint@, self.name@, self.symbol@, self.uri@)
    }
}

fn copy_range(s: &[u8], from: usize, to: usize) -> (r: Vec<u8>)
    requires
        from <= to <= s@.len(),
    ensures
        r@ == s@.subrange(from as int, to as int),
{
    let mut r: Vec<u8> = Vec::new();
    let mut i: usize = from;
    while i < to
        invariant
            from <= i <= to,
            to <= s@.len(),
            r@ =~= s@.subrange(from as int, i as int),
        decreases to - i,
    {
        r.push(s[i]);
        i = i + 1;
    }
    r
}

/// Reads a length-prefixed byte string at `at`.
fn read_bytes(s: &[u8], at: usize) -> (r: Option<(Vec<u8>, usize)>)
    ensures
        match read_bytes_spec(s@, at as int) {
            None => r is None,
            Some((b, next)) => r matches Some((v, n)) && v@ == b && n == next,
        },
{
    if at > s.len() || s.len() - at < 4 {
        return None;
    }
    let n: u64 = s[at] as u64 + s[at + 1] as u64 * 256 + s[at + 2] as u64 * 65536
        + s[at + 3] as u64 * 16777216;
    assert(n == le_u32(s@, at as int));
    if n > (s.len() - at - 4) as u64 {
        return None;
    }
    let end = at + 4 + n as usize;
    Some((copy_range(s, at + 4, end), end))
}

/// Reads the leading fields of a metadata account's data; `None` when the
/// data is too short for them.
pub fn decode_metadata(data: &[u8]) -> (r: Option<RawMetadata>)
    ensures
        match metadata_layout(data@) {
            None => r is None,
            Some(m) => r matches Some(v) && v.view() == m,
        },
{
    if data.len() < 65 {
        return None;
    }
    let (name, p1) = match read_bytes(data, 65) {
        None => return None,
        Some(x) => x,
    };
    let (symbol, p2) = match read_bytes(data, p1) {
        None => return None,
        Some(x) => x,
    };
    let (uri, _p3) = match read_bytes(data, p2) {
        None => return None,
        Some(x) => x,
    };
    Some(RawMetadata {
        update_authority: copy_range(data, 1, 33),
        mint: copy_range(data, 33, 65),
        name,
        symbol,
        uri,
    })
}

} // verus!
