use vstd::prelude::*;

use crate::address::{metadata_address, metadata_address_spec};
use crate::codec::{
    base58_decode, base58_decoded, base58_encode, base58_of, encode_uri_token, opt_bytes_view,
    uri_token_of, utf8_decoded, utf8_text,
};
use crate::error::RpcError;
use crate::metadata::{decode_metadata, metadata_layout, trim_nulls_spec, trim_trailing_nulls, ADDRESS_LEN};

verus! {

/// One recovered NFT: addresses in base58, text without its padding, and the
/// uri as an opaque token.
#[derive(Clone, Debug, PartialEq, Eq)]
pub struct TokenMetadata {
    pub update_authority: String,
    pub mint: String,
    pub name: String,
    pub symbol: String,
    pub uri: String,
}

impl TokenMetadata {
    pub open spec fn view(&self) -> (Seq<char>, Seq<char>, Seq<char>, Seq<char>, Seq<char>) {
        (self.update_authority@, self.mint@, self.name@, self.symbol@, self.uri@)
    }
}

/// The parsed state of a token account, as the node reports it.
#[derive(Clone, Debug, PartialEq, Eq)]
pub struct ParsedTokenAccount {
    /// The mint address, base58.
    pub mint: String,
    /// The balance in raw units, absent when the node gave no balance.
    pub raw_amount: Option<u64>,
}

/// A token account of the owner, as listed by the node.
#[derive(Clone, Debug, PartialEq, Eq)]
pub struct TokenAccountInfo {
    /// The program that owns the account, base58.
    pub owner: String,
    /// The parsed account, absent when the data is not a parsed token account.
    pub parsed: Option<ParsedTokenAccount>,
}

/// The token program's id.
pub open spec fn token_program_id_spec() -> Seq<u8> {
    seq![6u8, 221, 246, 225, 215, 101, 161, 147, 217, 203, 225, 70, 206, 235, 121, 172,
         28, 180, 133, 237, 95, 91, 55, 145, 58, 140, 245, 133, 126, 255, 0, 169]
}

/// The second token program's id.
pub open spec fn token_2022_program_id_spec() -> Seq<u8> {
    seq![6u8, 221, 246, 225, 238, 117, 143, 222, 24, 66, 93, 188, 228, 108, 205, 218,
         182, 26, 252, 77, 131, 185, 13, 39, 254, 189, 249, 40, 216, 161, 139, 252]
}

pub fn token_program_id() -> (r: Vec<u8>)
    ensures
        r@ == token_program_id_spec(),
{
    let r: Vec<u8> = vec![6u8, 221, 246, 225, 215, 101, 161, 147, 217, 203, 225, 70, 206, 235, 121, 172,
         28, 180, 133, 237, 95, 91, 55, 145, 58, 140, 245, 133, 126, 255, 0, 169];
    assert(r@ =~= token_program_id_spec());
    r
}

fn token_2022_program_id() -> (r: Vec<u8>)
    ensures
        r@ == token_2022_program_id_spec(),
{
    let r: Vec<u8> = vec![6u8, 221, 246, 225, 238, 117, 143, 222, 24, 66, 93, 188, 228, 108, 205, 218,
         182, 26, 252, 77, 131, 185, 13, 39, 254, 189, 249, 40, 216, 161, 139, 252];
    assert(r@ =~= token_2022_program_id_spec());
    r
}

fn bytes_eq(a: &Vec<u8>, b: &Vec<u8>) -> (r: bool)
    ensures
        r == (a@ == b@),
{
    if a.len() != b.len() {
        return false;
    }
    let mut i: usize = 0;
    while i < a.len()
        invariant
            i <= a.len(),
            a.len() == b.len(),
            forall|k: int| 0 <= k < i ==> a@[k] == b@[k],
        decreases a.len() - i,
    {
        if a[i] != b[i] {
            return false;
        }
        i = i + 1;
    }
    assert(a@ =~= b@);
    true
}

/// The kinds of account whose parsed form the crawl understands.
#[derive(Clone, Copy, Debug, PartialEq, Eq, Structural)]
pub enum AccountKind {
    SplToken,
    SplToken2022,
    /// Any other program: its accounts are not token accounts.
    Unsupported,
}

pub open spec fn account_kind_spec(program: Seq<u8>) -> AccountKind {
    if program == token_program_id_spec() {
        AccountKind::SplToken
    } else if program == token_2022_program_id_spec() {
        AccountKind::SplToken2022
    } else {
        AccountKind::Unsupported
    }
}

/// The registry of owning programs whose accounts are parsed.
pub fn account_kind(program: &Vec<u8>) -> (r: AccountKind)
    ensures
        r == account_kind_spec(program@),
{
    if bytes_eq(program, &token_program_id()) {
        AccountKind::SplToken
    } else if bytes_eq(program, &token_2022_program_id()) {
        AccountKind::SplToken2022
    } else {
        AccountKind::Unsupported
    }
}

pub open spec fn is_address(b: Option<Seq<u8>>) -> bool {
    b is Some && b->0.len() == ADDRESS_LEN
}

/// Decodes an owner address; a text that is not base58 of 32 bytes is
/// refused.
pub fn validate_owner(addr: &str) -> (r: Result<Vec<u8>, RpcError>)
    ensures
        is_address(base58_decoded(addr@)) ==> r is Ok && Some(r->Ok_0@) == base58_decoded(addr@),
        !is_address(base58_decoded(addr@)) ==> r == Err::<Vec<u8>, RpcError>(RpcError::AddressValidation),
{
    match base58_decode(addr) {
        Some(b) => if b.len() == ADDRESS_LEN {
            Ok(b)
        } else {
            Err(RpcError::AddressValidation)
        },
        None => Err(RpcError::AddressValidation),
    }
}

/// The mint of an account that holds exactly one indivisible unit of it,
/// under the token program, with a readable balance and mint; else nothing.
pub open spec fn candidate_mint_spec(acc: TokenAccountInfo) -> Option<Seq<u8>> {
    match base58_decoded(acc.owner@) {
        Some(program) => if program == token_program_id_spec()
            && account_kind_spec(program) != AccountKind::Unsupported {
            match acc.parsed {
                Some(p) => if p.raw_amount == Some(1u64) && is_address(base58_decoded(p.mint@)) {
                    base58_decoded(p.mint@)
                } else {
                    None
                },
                None => None,
            }
        } else {
            None
        },
        None => None,
    }
}

/// Whether the account is an NFT candidate, and if so its mint.
pub fn nft_candidate(acc: &TokenAccountInfo) -> (r: Option<Vec<u8>>)
    ensures
        opt_bytes_view(r) == candidate_mint_spec(*acc),
{
    let program = match base58_decode(acc.owner.as_str()) {
        Some(p) => p,
        None => return None,
    };
    if !bytes_eq(&program, &token_program_id()) {
        return None;
    }
    if let AccountKind::Unsupported = account_kind(&program) {
        return None;
    }
    match &acc.parsed {
        None => None,
        Some(p) => {
            match p.raw_amount {
                Some(n) => if n != 1 {
                    return None;
                },
                None => return None,
            }
            match base58_decode(p.mint.as_str()) {
                Some(m) => if m.len() == ADDRESS_LEN {
                    Some(m)
                } else {
                    None
                },
                None => None,
            }
        },
    }
}

/// The record for a metadata account's data: nothing when the data does not
/// hold the layout or its text is not UTF-8.
pub open spec fn record_spec(data: Seq<u8>) -> Option<(Seq<char>, Seq<char>, Seq<char>, Seq<char>, Seq<char>)> {
    match metadata_layout(data) {
        None => None,
        Some((authority, mint, name, symbol, uri)) => {
            match (
                utf8_decoded(trim_nulls_spec(name)),
                utf8_decoded(trim_nulls_spec(symbol)),
                utf8_decoded(trim_nulls_spec(uri)),
            ) {
                (Some(n), Some(s), Some(_u)) => Some(
                    (base58_of(authority), base58_of(mint), n, s, uri_token_of(trim_nulls_spec(uri))),
                ),
                _ => None,
            }
        },
    }
}

/// Decodes a metadata account into the record that the crawl returns.
pub fn metadata_record(data: &[u8]) -> (r: Option<TokenMetadata>)
    ensures
        match record_spec(data@) {
            None => r is None,
            Some(v) => r is Some && r->0.view() == v,
        },
{
    let raw = match decode_metadata(data) {
        None => return None,
        Some(m) => m,
    };
    let name = match utf8_text(trim_trailing_nulls(&raw.name)) {
        None => return None,
        Some(t) => t,
    };
    let symbol = match utf8_text(trim_trailing_nulls(&raw.symbol)) {
        None => return None,
        Some(t) => t,
    };
    let uri = trim_trailing_nulls(&raw.uri);
    match utf8_text(uri.clone()) {
        None => return None,
        Some(_) => {},
    }
    Some(TokenMetadata {
        update_authority: base58_encode(&raw.update_authority),
        mint: base58_encode(&raw.mint),
        name,
        symbol,
        uri: encode_uri_token(&uri),
    })
}

/// The metadata address to fetch for an account: that of its mint when the
/// account is an NFT candidate.
pub open spec fn fetch_target(acc: TokenAccountInfo) -> Option<Seq<u8>> {
    match candidate_mint_spec(acc) {
        Some(mint) => metadata_address_spec(mint),
        None => None,
    }
}

/// The first account at or after `i` that is an NFT candidate with a metadata
/// address, or the number of accounts when none is.
pub open spec fn next_candidate(accs: Seq<TokenAccountInfo>, i: int) -> int
    decreases accs.len() - i,
{
    if i >= accs.len() {
        accs.len() as int
    } else if fetch_target(accs[i]) is Some {
        i
    } else {
        next_candidate(accs, i + 1)
    }
}

proof fn lemma_next_candidate_bounds(accs: Seq<TokenAccountInfo>, i: int)
    requires
        0 <= i <= accs.len(),
    ensures
        i <= next_candidate(accs, i) <= accs.len(),
        next_candidate(accs, i) < accs.len() ==> fetch_target(accs[next_candidate(accs, i)]) is Some,
    decreases accs.len() - i,
{
    if i < accs.len() && fetch_target(accs[i]) is None {
        lemma_next_candidate_bounds(accs, i + 1);
    }
}

/// No candidate is passed over: from any account on, the crawl stops at or
/// before each later account that is a candidate with a metadata address, so
/// after a candidate without metadata the remaining ones are still processed.
pub proof fn lemma_no_candidate_skipped(accs: Seq<TokenAccountInfo>, i: int, j: int)
    requires
        0 <= i <= j < accs.len(),
        fetch_target(accs[j]) is Some,
    ensures
        next_candidate(accs, i) <= j,
    decreases j - i,
{
    if i < j && fetch_target(accs[i]) is None {
        lemma_no_candidate_skipped(accs, i + 1, j);
    }
}

/// What the crawl needs next from the network.
#[derive(Clone, Debug, PartialEq, Eq)]
pub enum CrawlAction {
    /// The metadata account at this address, at confirmed commitment.
    FetchMetadata { address: Vec<u8> },
    /// Nothing: the records found are final.
    Done,
}

/// One crawl over the token accounts of an owner, in the order the node
/// listed them. Each account is passed over or, as a candidate, waits for its
/// metadata account before the next one is looked at.
pub struct Crawl {
    pub accounts: Vec<TokenAccountInfo>,
    /// The account being looked at.
    pub next: usize,
    pub found: Vec<TokenMetadata>,
}

impl Crawl {
    pub open spec fn wf(&self) -> bool {
        self.next <= self.accounts@.len()
    }

    /// A crawl over the accounts that the node listed for the owner.
    pub fn new(accounts: Vec<TokenAccountInfo>) -> (r: Crawl)
        ensures
            r.wf(),
            r.accounts@ == accounts@,
            r.next == 0,
            r.found@.len() == 0,
    {
        Crawl { accounts, next: 0, found: Vec::new() }
    }

    /// Passes over the accounts that are no NFT candidates and asks for the
    /// metadata of the next candidate, or ends when none is left.
    pub fn advance(&mut self) -> (r: CrawlAction)
        requires
            old(self).wf(),
        ensures
            final(self).wf(),
            final(self).accounts@ == old(self).accounts@,
            final(self).found@ == old(self).found@,
            final(self).next == next_candidate(old(self).accounts@, old(self).next as int),
            final(self).next < final(self).accounts@.len() ==> r is FetchMetadata
                && Some(r->address@) == fetch_target(final(self).accounts@[final(self).next as int]),
            final(self).next == final(self).accounts@.len() <==> r is Done,
    {
        proof {
            lemma_next_candidate_bounds(self.accounts@, self.next as int);
        }
        while self.next < self.accounts.len()
            invariant
                self.wf(),
                self.accounts@ == old(self).accounts@,
                self.found@ == old(self).found@,
                next_candidate(self.accounts@, self.next as int) == next_candidate(
                    old(self).accounts@,
                    old(self).next as int,
                ),
            decreases self.accounts@.len() - self.next,
        {
            match nft_candidate(&self.accounts[self.next]) {
                Some(mint) => match metadata_address(&mint) {
                    Some(address) => {
                        return CrawlAction::FetchMetadata { address };
                    },
                    None => {},
                },
                None => {},
            }
            self.next = self.next + 1;
        }
        CrawlAction::Done
    }

    /// Takes the metadata account of the candidate being looked at, absent
    /// when the node has none, and moves on to the next account. A candidate
    /// without metadata, or whose metadata does not decode, adds no record.
    pub fn on_metadata(&mut self, data: Option<&[u8]>)
        requires
            old(self).wf(),
            old(self).next < old(self).accounts@.len(),
        ensures
            final(self).wf(),
            final(self).accounts@ == old(self).accounts@,
            final(self).next == old(self).next + 1,
            match data {
                Some(d) => match record_spec(d@) {
                    Some(v) => final(self).found@.len() == old(self).found@.len() + 1
                        && final(self).found@.drop_last() == old(self).found@
                        && final(self).found@.last().view() == v,
                    None => final(self).found@ == old(self).found@,
                },
                None => final(self).found@ == old(self).found@,
            },
    {
        match data {
            Some(d) => match metadata_record(d) {
                Some(m) => {
                    self.found.push(m);
                    assert(self.found@.drop_last() =~= old(self).found@);
                },
                None => {},
            },
            None => {},
        }
        let n = self.accounts.len();
        assert(self.next < n);
        self.next = self.next + 1;
    }

    /// The records found, in the order of their accounts.
    pub fn finish(self) -> (r: Vec<TokenMetadata>)
        ensures
            r@ == self.found@,
    {
        self.found
    }
}

} // verus!
