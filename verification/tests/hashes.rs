use cnft::{decode_32, encode_32, Error, PubkeyWrapper};

const BUBBLEGUM: &str = "BGUMAp9Gq7iTEuizy4pqaxsTyUCBK68MDfK752saRPUY";

#[test]
fn decode_32_reads_thirty_two_bytes() {
    let hash = decode_32(BUBBLEGUM).unwrap();
    assert_eq!(hash, mpl_bubblegum::ID.to_bytes());
    assert_eq!(decode_32("11111111111111111111111111111111").unwrap(), [0u8; 32]);
}

#[test]
fn decode_32_round_trip_reproduces_text() {
    let texts = [
        BUBBLEGUM,
        "cmtDvXumGCrqC1Age74AVPhSRVXJMd8PJS91L8KbNCK",
        "noopb9bkMVfRPU8AsbpTUg8AQkHtKwMYZiFUjNRtMmV",
        "11111111111111111111111111111111",
    ];
    for text in texts {
        let hash = decode_32(text).unwrap();
        assert_eq!(encode_32(&hash), text);
    }
}

#[test]
fn encode_then_decode_gives_bytes_back() {
    let mut hash = [0u8; 32];
    for round in 0u8..50 {
        for (i, byte) in hash.iter_mut().enumerate() {
            *byte = round.wrapping_mul(37).wrapping_add((i as u8).wrapping_mul(11));
        }
        let text = encode_32(&hash);
        assert_eq!(text, bs58::encode(hash).into_string());
        assert_eq!(decode_32(&text), Ok(hash));
    }
}

#[test]
fn decode_32_rejects_thirty_one_bytes() {
    let text = bs58::encode([7u8; 31]).into_string();
    assert_eq!(decode_32(&text), Err(Error::MalformedHash));
}

#[test]
fn decode_32_rejects_thirty_three_bytes() {
    let text = bs58::encode([7u8; 33]).into_string();
    assert_eq!(decode_32(&text), Err(Error::MalformedHash));
}

#[test]
fn decode_32_rejects_text_that_is_not_base_58() {
    assert_eq!(decode_32("0OIl"), Err(Error::MalformedHash));
    assert_eq!(decode_32("not base58!"), Err(Error::MalformedHash));
    assert_eq!(decode_32("h\u{e9}llo"), Err(Error::MalformedHash));
}

#[test]
fn decode_32_rejects_empty_text() {
    assert_eq!(decode_32(""), Err(Error::MalformedHash));
}

#[test]
fn pubkey_decode_reads_an_address() {
    let key = PubkeyWrapper::decode(BUBBLEGUM).unwrap();
    assert_eq!(key.0, mpl_bubblegum::ID.to_bytes());
    assert_eq!(key.to_base58(), BUBBLEGUM);
}

#[test]
fn pubkey_decode_rejects_other_lengths_and_alphabets() {
    let short = bs58::encode([1u8; 31]).into_string();
    let long = bs58::encode([1u8; 33]).into_string();
    assert_eq!(PubkeyWrapper::decode(&short), Err(Error::InvalidAddress));
    assert_eq!(PubkeyWrapper::decode(&long), Err(Error::InvalidAddress));
    assert_eq!(PubkeyWrapper::decode("invalid_pubkey"), Err(Error::InvalidAddress));
    assert_eq!(PubkeyWrapper::decode(""), Err(Error::InvalidAddress));
}

#[test]
fn pubkey_to_base58_is_what_the_ledger_prints() {
    let key = solana_program::pubkey::Pubkey::new_from_array([9u8; 32]);
    assert_eq!(PubkeyWrapper([9u8; 32]).to_base58(), key.to_string());
}

#[test]
fn pubkey_same_as_compares_bytes() {
    let a = PubkeyWrapper([3u8; 32]);
    let mut other = [3u8; 32];
    assert!(a.same_as(&PubkeyWrapper(other)));
    other[31] = 4;
    assert!(!a.same_as(&PubkeyWrapper(other)));
    other[31] = 3;
    other[0] = 0;
    assert!(!a.same_as(&PubkeyWrapper(other)));
}

#[test]
fn program_ids_are_those_of_the_programs() {
    assert_eq!(cnft::pubkey::BUBBLEGUM_PROGRAM_ID, mpl_bubblegum::ID.to_bytes());
    assert_eq!(
        cnft::pubkey::COMPRESSION_PROGRAM_ID,
        mpl_bubblegum::programs::SPL_ACCOUNT_COMPRESSION_ID.to_bytes()
    );
    assert_eq!(cnft::pubkey::COMPRESSION_PROGRAM_ID, spl_account_compression::ID.to_bytes());
    assert_eq!(
        cnft::pubkey::LOG_WRAPPER_PROGRAM_ID,
        mpl_bubblegum::programs::SPL_NOOP_ID.to_bytes()
    );
    assert_eq!(
        cnft::pubkey::SYSTEM_PROGRAM_ID,
        solana_program::system_program::ID.to_bytes()
    );
}

#[test]
fn pubkey_decode_accepts_what_the_ledger_accepts() {
    let mut texts: Vec<String> = vec![
        String::new(),
        "1".repeat(31),
        "1".repeat(32),
        "1".repeat(33),
        "1".repeat(44),
        "1".repeat(45),
        "z".repeat(43),
        "z".repeat(44),
        "z".repeat(45),
        "2".repeat(44),
        "JEKNVnkbo3jma5nREBBJCDoXFVeKkD56V3xKrvRmWxFG".to_string(),
        "JEKNVnkbo3jma5nREBBJCDoXFVeKkD56V3xKrvRmWxFGx".to_string(),
        "JEKNVnkbo3jma5nREBBJCDoXFVeKkD56V3xKrvRmWxF".to_string(),
        "JEKNVnkbo3jma5nREBBJCDoXFVeKkD56V3xKrvRmWxF0".to_string(),
        " JEKNVnkbo3jma5nREBBJCDoXFVeKkD56V3xKrvRmWxFG".to_string(),
        "\u{e9}".repeat(22),
    ];
    for fill in [0u8, 1, 127, 128, 255] {
        for length in [31usize, 32, 33] {
            texts.push(bs58::encode(vec![fill; length]).into_string());
        }
    }
    let mut leading = [255u8; 32];
    for zeros in 0..32 {
        leading[zeros] = 0;
        texts.push(bs58::encode(leading).into_string());
    }
    for text in texts {
        let ours = PubkeyWrapper::decode(&text).map(|key| key.0).ok();
        let theirs = text.parse::<solana_program::pubkey::Pubkey>().map(|key| key.to_bytes()).ok();
        assert_eq!(ours, theirs, "{text:?}");
    }
}
