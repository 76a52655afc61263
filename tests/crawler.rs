use solana_e::address::metadata_address;
use solana_e::codec::{decode_uri_token, encode_uri_token};
use solana_e::crawler::{
    account_kind, metadata_record, nft_candidate, token_program_id, validate_owner, AccountKind,
    Crawl, CrawlAction, ParsedTokenAccount, TokenAccountInfo, TokenMetadata,
};
use solana_e::error::RpcError;
use solana_e::metadata::{decode_metadata, trim_trailing_nulls};

const TOKEN_PROGRAM: &str = "TokenkegQfeZyiNwAJbNbGKPFXCWuBvf9Ss623VQ5DA";
const TOKEN_2022_PROGRAM: &str = "TokenzQdBNbLqP5VEhdkAS6EPFLC1PHnBqCXEpPxuEb";
const MINT_OF_TWOS: &str = "8qbHbw2BbbTHBW1sbeqakYXVKRQM8Ne7pLK7m6CVfeR";
const ADDRESS_OF_ONES: &str = "4vJ9JU1bJJE96FWSJKvHsmmFADCg4gpZQff4P3bkLKi";
const MINT_OF_THREES: &str = "CktRuQ2mttgRGkXJtyksdKHjUdc2C4TgDzyB98oEzy8";

fn push_text(out: &mut Vec<u8>, text: &[u8]) {
    out.extend_from_slice(&(text.len() as u32).to_le_bytes());
    out.extend_from_slice(text);
}

fn metadata_bytes(authority: u8, mint: u8, name: &[u8], symbol: &[u8], uri: &[u8]) -> Vec<u8> {
    let mut out = vec![4u8];
    out.extend_from_slice(&[authority; 32]);
    out.extend_from_slice(&[mint; 32]);
    push_text(&mut out, name);
    push_text(&mut out, symbol);
    push_text(&mut out, uri);
    // the fields after the uri, which the crawl does not read
    out.extend_from_slice(&[0xf4, 0x01, 0, 1, 1]);
    out
}

fn account(owner: &str, mint: &str, raw_amount: Option<u64>) -> TokenAccountInfo {
    TokenAccountInfo {
        owner: owner.to_string(),
        parsed: Some(ParsedTokenAccount { mint: mint.to_string(), raw_amount }),
    }
}

#[test]
fn null_padding_is_stripped() {
    assert_eq!(trim_trailing_nulls(&b"ABC\0\0\0".to_vec()), b"ABC".to_vec());
    assert_eq!(trim_trailing_nulls(&b"\0\0".to_vec()), Vec::<u8>::new());
    assert_eq!(trim_trailing_nulls(&Vec::new()), Vec::<u8>::new());
    assert_eq!(trim_trailing_nulls(&b"A\0B\0".to_vec()), b"A\0B".to_vec());
    assert_eq!(trim_trailing_nulls(&b"ABC".to_vec()), b"ABC".to_vec());
}

#[test]
fn uri_token_exact_values() {
    assert_eq!(encode_uri_token(&Vec::new()), "AQAAAAAAAAAA");
    assert_eq!(encode_uri_token(&b"ab".to_vec()), "AQIAAAAAAAAAYWI=");
    assert_eq!(encode_uri_token(&b"https://u".to_vec()), "AQkAAAAAAAAAaHR0cHM6Ly91");
}

#[test]
fn uri_token_round_trip() {
    for s in ["", "a", "https://arweave.net/abc?x=1", "ünï"] {
        let bytes = s.as_bytes().to_vec();
        let token = encode_uri_token(&bytes);
        assert_eq!(decode_uri_token(&token), Some(Some(bytes)));
    }
}

#[test]
fn uri_token_rejects_garbage() {
    assert_eq!(decode_uri_token("!!!"), None);
    assert_eq!(decode_uri_token("AA=="), Some(None));
    assert_eq!(decode_uri_token(""), None);
}

#[test]
fn metadata_layout_decodes() {
    let data = metadata_bytes(1, 2, b"ABC\0\0\0", b"XY\0", b"https://u\0\0");
    let raw = decode_metadata(&data).unwrap();
    assert_eq!(raw.update_authority, vec![1u8; 32]);
    assert_eq!(raw.mint, vec![2u8; 32]);
    assert_eq!(raw.name, b"ABC\0\0\0".to_vec());
    assert_eq!(raw.symbol, b"XY\0".to_vec());
    assert_eq!(raw.uri, b"https://u\0\0".to_vec());
}

#[test]
fn metadata_too_short_is_refused() {
    assert!(decode_metadata(&[4u8; 64]).is_none());
    let mut data = metadata_bytes(1, 2, b"ABC", b"XY", b"u");
    data.truncate(65 + 4 + 3 + 4 + 2 + 4);
    assert!(decode_metadata(&data).is_none());
    let mut long_name = vec![4u8; 65];
    long_name.extend_from_slice(&100u32.to_le_bytes());
    long_name.extend_from_slice(b"short");
    assert!(decode_metadata(&long_name).is_none());
}

#[test]
fn metadata_record_fields() {
    let data = metadata_bytes(1, 2, b"ABC\0\0\0", b"XY\0", b"https://u\0\0");
    let rec = metadata_record(&data).unwrap();
    assert_eq!(
        rec,
        TokenMetadata {
            update_authority: ADDRESS_OF_ONES.to_string(),
            mint: MINT_OF_TWOS.to_string(),
            name: "ABC".to_string(),
            symbol: "XY".to_string(),
            uri: "AQkAAAAAAAAAaHR0cHM6Ly91".to_string(),
        }
    );
}

#[test]
fn metadata_record_refuses_invalid_text() {
    let data = metadata_bytes(1, 2, &[0xff, 0xfe], b"XY", b"u");
    assert!(metadata_record(&data).is_none());
}

#[test]
fn invalid_owner_address_is_refused() {
    assert_eq!(validate_owner("0OIl"), Err(RpcError::AddressValidation));
    assert_eq!(validate_owner("abc"), Err(RpcError::AddressValidation));
    assert_eq!(validate_owner(""), Err(RpcError::AddressValidation));
    assert_eq!(validate_owner(TOKEN_PROGRAM), Ok(token_program_id()));
}

#[test]
fn account_kind_registry() {
    assert_eq!(account_kind(&token_program_id()), AccountKind::SplToken);
    assert_eq!(account_kind(&vec![0u8; 32]), AccountKind::Unsupported);
}

#[test]
fn one_unit_accounts_are_candidates() {
    assert_eq!(nft_candidate(&account(TOKEN_PROGRAM, MINT_OF_TWOS, Some(1))), Some(vec![2u8; 32]));
    assert_eq!(nft_candidate(&account(TOKEN_PROGRAM, MINT_OF_TWOS, Some(2))), None);
    assert_eq!(nft_candidate(&account(TOKEN_PROGRAM, MINT_OF_TWOS, Some(0))), None);
    assert_eq!(nft_candidate(&account(TOKEN_PROGRAM, MINT_OF_TWOS, None)), None);
    assert_eq!(nft_candidate(&account(TOKEN_2022_PROGRAM, MINT_OF_TWOS, Some(1))), None);
    assert_eq!(nft_candidate(&account(TOKEN_PROGRAM, "not-a-mint", Some(1))), None);
    assert_eq!(nft_candidate(&TokenAccountInfo { owner: TOKEN_PROGRAM.to_string(), parsed: None }), None);
}

#[test]
fn crawl_without_accounts_is_empty() {
    let mut crawl = Crawl::new(Vec::new());
    assert_eq!(crawl.advance(), CrawlAction::Done);
    assert!(crawl.finish().is_empty());
}

#[test]
fn crawl_skips_missing_metadata_and_goes_on() {
    let accounts = vec![
        account(TOKEN_PROGRAM, MINT_OF_TWOS, Some(2)),
        account(TOKEN_PROGRAM, MINT_OF_TWOS, Some(1)),
        account(TOKEN_2022_PROGRAM, MINT_OF_THREES, Some(1)),
        account(TOKEN_PROGRAM, MINT_OF_THREES, Some(1)),
    ];
    let mut crawl = Crawl::new(accounts);
    assert_eq!(crawl.advance(), CrawlAction::FetchMetadata { address: metadata_address(&vec![2u8; 32]).unwrap() });
    crawl.on_metadata(None);
    assert_eq!(crawl.advance(), CrawlAction::FetchMetadata { address: metadata_address(&vec![3u8; 32]).unwrap() });
    let data = metadata_bytes(1, 3, b"Third\0", b"T", b"ab");
    crawl.on_metadata(Some(&data));
    assert_eq!(crawl.advance(), CrawlAction::Done);
    let found = crawl.finish();
    assert_eq!(found.len(), 1);
    assert_eq!(found[0].mint, MINT_OF_THREES);
    assert_eq!(found[0].name, "Third");
    assert_eq!(found[0].uri, "AQIAAAAAAAAAYWI=");
}

#[test]
fn crawl_keeps_listing_order() {
    let accounts = vec![
        account(TOKEN_PROGRAM, MINT_OF_THREES, Some(1)),
        account(TOKEN_PROGRAM, MINT_OF_TWOS, Some(1)),
    ];
    let mut crawl = Crawl::new(accounts);
    let three = metadata_address(&vec![3u8; 32]).unwrap();
    while let CrawlAction::FetchMetadata { address } = crawl.advance() {
        let mint = if address == three { 3 } else { 2 };
        let data = metadata_bytes(1, mint, b"N", b"S", b"u");
        crawl.on_metadata(Some(&data));
    }
    let found = crawl.finish();
    let mints: Vec<String> = found.into_iter().map(|m| m.mint).collect();
    assert_eq!(mints, vec![MINT_OF_THREES.to_string(), MINT_OF_TWOS.to_string()]);
}

#[test]
fn metadata_address_is_derived() {
    let mint = vec![2u8; 32];
    let a = metadata_address(&mint).unwrap();
    assert_eq!(a.len(), 32);
    assert_ne!(a, mint);
    assert_eq!(metadata_address(&mint), Some(a.clone()));
    assert_ne!(metadata_address(&vec![3u8; 32]).unwrap(), a);
}
