use solana_program::program_option::COption;
use solana_program::program_pack::Pack;
use solana_program::pubkey::Pubkey;
use solana_program::sysvar::rent as rent_sysvar;
use token_mint::mint::{pack, unpack, Mint, MINT_LEN};

fn sample_record() -> Mint {
    Mint {
        mint_authority: Some([5u8; 32]),
        supply: 0x0123_4567_89ab_cdef,
        decimals: 9,
        is_initialized: true,
        freeze_authority: Some([6u8; 32]),
    }
}

fn to_spl(m: &Mint) -> spl_token::state::Mint {
    spl_token::state::Mint {
        mint_authority: match m.mint_authority {
            Some(k) => COption::Some(Pubkey::new_from_array(k)),
            None => COption::None,
        },
        supply: m.supply,
        decimals: m.decimals,
        is_initialized: m.is_initialized,
        freeze_authority: match m.freeze_authority {
            Some(k) => COption::Some(Pubkey::new_from_array(k)),
            None => COption::None,
        },
    }
}

#[test]
fn round_trip_is_byte_identical() {
    let record = sample_record();
    let stored = pack(&record, vec![0u8; MINT_LEN]).unwrap();
    let decoded = unpack(&stored).unwrap();
    let restored = pack(&decoded, stored.clone()).unwrap();
    assert_eq!(restored, stored);
}

#[test]
fn round_trip_preserves_absent_key_bytes() {
    // An absent freeze authority writes only its tag, so whatever stood in
    // the 32 bytes after it survives the round trip untouched.
    let record = Mint {
        freeze_authority: None,
        mint_authority: None,
        ..sample_record()
    };
    let mut junk = vec![0u8; MINT_LEN];
    for (i, b) in junk.iter_mut().enumerate() {
        *b = 0xa0 ^ (i as u8);
    }
    let stored = pack(&record, junk.clone()).unwrap();
    assert_eq!(stored[50..82], junk[50..82]);
    let decoded = unpack(&stored).unwrap();
    assert_eq!(decoded.freeze_authority, None);
    let restored = pack(&decoded, stored.clone()).unwrap();
    assert_eq!(restored, stored);
}

#[test]
fn pack_matches_token_program_codec() {
    let record = sample_record();
    let ours = pack(&record, vec![0u8; MINT_LEN]).unwrap();
    let mut theirs = vec![0u8; MINT_LEN];
    spl_token::state::Mint::pack(to_spl(&record), &mut theirs).unwrap();
    assert_eq!(ours, theirs);

    let no_freeze = Mint {
        freeze_authority: None,
        ..record
    };
    let ours = pack(&no_freeze, vec![0u8; MINT_LEN]).unwrap();
    let mut theirs = vec![0u8; MINT_LEN];
    spl_token::state::Mint::pack(to_spl(&no_freeze), &mut theirs).unwrap();
    assert_eq!(ours, theirs);
}

#[test]
fn unpack_matches_token_program_codec() {
    let mut stored = vec![0u8; MINT_LEN];
    spl_token::state::Mint::pack(to_spl(&sample_record()), &mut stored).unwrap();
    let ours = unpack(&stored).unwrap();
    let theirs = spl_token::state::Mint::unpack(&stored).unwrap();
    assert_eq!(ours.mint_authority, Some([5u8; 32]));
    assert_eq!(theirs.mint_authority, COption::Some(Pubkey::new_from_array([5u8; 32])));
    assert_eq!(ours.supply, theirs.supply);
    assert_eq!(ours.decimals, theirs.decimals);
    assert_eq!(ours.is_initialized, theirs.is_initialized);
    assert_eq!(ours.freeze_authority, Some([6u8; 32]));
}

#[test]
fn unpack_decodes_zeroed_storage() {
    let record = unpack(&vec![0u8; MINT_LEN]).unwrap();
    assert_eq!(record.mint_authority, None);
    assert_eq!(record.supply, 0);
    assert_eq!(record.decimals, 0);
    assert!(!record.is_initialized);
    assert_eq!(record.freeze_authority, None);
}

#[test]
fn unpack_rejects_malformed_storage() {
    assert!(unpack(&vec![0u8; 81]).is_err());
    assert!(unpack(&vec![0u8; 83]).is_err());
    assert!(unpack(&Vec::new()).is_err());

    let mut bad_tag = vec![0u8; MINT_LEN];
    bad_tag[46] = 9;
    assert!(unpack(&bad_tag).is_err());

    let mut bad_flag = vec![0u8; MINT_LEN];
    bad_flag[45] = 2;
    assert!(unpack(&bad_flag).is_err());

    // The token program's codec rejects the same storage.
    assert!(spl_token::state::Mint::unpack_unchecked(&bad_tag).is_err());
    assert!(spl_token::state::Mint::unpack_unchecked(&bad_flag).is_err());
}

#[test]
fn pack_rejects_wrong_buffer_size() {
    assert!(pack(&sample_record(), vec![0u8; 81]).is_err());
    assert!(pack(&sample_record(), Vec::new()).is_err());
}

#[test]
fn supply_is_little_endian() {
    let record = Mint {
        supply: 0x0102_0304_0506_0708,
        ..sample_record()
    };
    let stored = pack(&record, vec![0u8; MINT_LEN]).unwrap();
    assert_eq!(&stored[36..44], &[8, 7, 6, 5, 4, 3, 2, 1]);
    assert_eq!(unpack(&stored).unwrap().supply, 0x0102_0304_0506_0708);
}

#[test]
fn rent_sysvar_key_check_matches_runtime_id() {
    assert!(token_mint::rent::is_rent_sysvar_key(
        &rent_sysvar::id().to_bytes()
    ));
    assert!(!token_mint::rent::is_rent_sysvar_key(&[0u8; 32]));
    let mut off_by_one = rent_sysvar::id().to_bytes();
    off_by_one[31] ^= 1;
    assert!(!token_mint::rent::is_rent_sysvar_key(&off_by_one));
}
