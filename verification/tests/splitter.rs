use smpp_codec::splitter::split_message;
use smpp_codec::splitter::EncodingType;
use smpp_codec::splitter::SplitMode;

#[test]
fn test_split_message_gsm7bit() {
    let text = "Hello World".to_string();
    let result = split_message(text, EncodingType::Gsm7Bit, SplitMode::Payload)
        .expect("Failed to split message");

    assert_eq!(result.parts.len(), 1);
    assert_eq!(result.data_coding, 0x00); // GSM 7-bit
}

#[test]
fn test_split_message_ucs2() {
    let text = "Hello World \u{1F680}".to_string(); // Contains emoji, needs UCS2
    let result = split_message(text, EncodingType::Ucs2, SplitMode::Payload)
        .expect("Failed to split message");

    // Check if it decided to use UCS2 (data_coding 0x08)
    assert_eq!(result.data_coding, 0x08);
}

#[test]
fn test_split_message_concat_sar() {
    // Create a long string > 160 chars (GSM 7-bit limit) or > 140 bytes
    let text = "A".repeat(1000);
    // GSM 7-bit: 200 chars.
    // If we force UDH or SAR, it should split.
    // SAR mode
    let result = split_message(text.clone(), EncodingType::Latin1, SplitMode::Sar)
        .expect("Failed to split message");

    println!(
        "Parts: {}, len[0]: {}, dcs: {}",
        result.parts.len(),
        result.parts[0].len(),
        result.data_coding
    );

    assert!(result.parts.len() > 1);
    assert_eq!(result.data_coding, 0x03);
}

#[test]
fn test_split_sar_part_budgets() {
    let text = "A".repeat(1000);
    let result = split_message(text.clone(), EncodingType::Latin1, SplitMode::Sar).unwrap();
    // 1000 bytes at 140 per part: seven full parts and one of 20.
    assert_eq!(result.parts.len(), 8);
    let mut total = 0;
    for part in &result.parts {
        assert!(part.len() <= 140);
        total += part.len();
    }
    assert_eq!(total, 1000);
    assert_eq!(result.parts[0], "A".repeat(140).into_bytes());
    assert_eq!(result.parts[7], "A".repeat(20).into_bytes());
}

#[test]
fn test_split_udh_headers() {
    let text = "B".repeat(300);
    let result = split_message(text, EncodingType::Latin1, SplitMode::Udh).unwrap();
    // 300 bytes at 134 per part: three parts, each led by the six-byte
    // concatenation header.
    assert_eq!(result.parts.len(), 3);
    assert_eq!(result.data_coding, 0x03);
    let reference = (300 % 256) as u8;
    for (i, part) in result.parts.iter().enumerate() {
        assert_eq!(part[0], 5);
        assert_eq!(part[1], 0);
        assert_eq!(part[2], 3);
        assert_eq!(part[3], reference);
        assert_eq!(part[4], 3);
        assert_eq!(part[5], (i + 1) as u8);
        assert!(part.len() <= 140);
    }
    assert_eq!(result.parts[0].len(), 6 + 134);
    assert_eq!(result.parts[2].len(), 6 + 32);
}

#[test]
fn test_split_upgrades_encoding() {
    // Latin-1 covers "é" so the request is honoured.
    let r1 = split_message("caf\u{e9}".to_string(), EncodingType::Latin1, SplitMode::Payload)
        .unwrap();
    assert_eq!(r1.data_coding, 0x03);
    assert_eq!(r1.parts[0], vec![0x63, 0x61, 0x66, 0xE9]);

    // GSM 7-bit cannot encode "ł": the splitter upgrades past Latin-1 too,
    // because Latin-1 cannot hold it either.
    let r2 = split_message("ma\u{142}y".to_string(), EncodingType::Gsm7Bit, SplitMode::Payload)
        .unwrap();
    assert_eq!(r2.data_coding, 0x08);
    assert_eq!(r2.parts[0], vec![0x00, 0x6D, 0x00, 0x61, 0x01, 0x42, 0x00, 0x79]);

    // GSM 7-bit cannot encode "é"? It can: "é" is in the basic table, so
    // the request stays GSM.
    let r3 = split_message("caf\u{e9}".to_string(), EncodingType::Gsm7Bit, SplitMode::Payload)
        .unwrap();
    assert_eq!(r3.data_coding, 0x00);
}

#[test]
fn test_split_gsm7_packing() {
    // "AB": septets 65 and 66 packed into two octets.
    let r = split_message("AB".to_string(), EncodingType::Gsm7Bit, SplitMode::Payload).unwrap();
    assert_eq!(r.parts[0], vec![0x41, 0x21]);

    // The euro sign takes the escape septet and its extension code.
    let r2 = split_message("\u{20ac}".to_string(), EncodingType::Gsm7Bit, SplitMode::Payload)
        .unwrap();
    assert_eq!(r2.parts[0], vec![0x9B, 0x32]);
}

#[test]
fn test_split_ucs2_surrogates() {
    // A character beyond the basic multilingual plane becomes a surrogate
    // pair on the wire and counts two units.
    let r = split_message("\u{1F680}".to_string(), EncodingType::Ucs2, SplitMode::Payload)
        .unwrap();
    assert_eq!(r.parts[0], vec![0xD8, 0x3D, 0xDE, 0x80]);
}

#[test]
fn test_split_single_part_within_budget() {
    // 160 GSM characters still fit one part in SAR mode.
    let text = "C".repeat(160);
    let r = split_message(text, EncodingType::Gsm7Bit, SplitMode::Sar).unwrap();
    assert_eq!(r.parts.len(), 1);
    assert_eq!(r.parts[0].len(), 140); // 160 septets packed

    // One more character forces a split.
    let text2 = "C".repeat(161);
    let r2 = split_message(text2, EncodingType::Gsm7Bit, SplitMode::Sar).unwrap();
    assert!(r2.parts.len() > 1);
}

#[test]
fn test_split_payload_size_exceeded() {
    // 65536 Latin-1 bytes exceed the payload parameter's bound.
    let text = "D".repeat(65536);
    assert!(split_message(text, EncodingType::Latin1, SplitMode::Payload).is_err());

    // One byte fewer fits.
    let text2 = "D".repeat(65535);
    let r = split_message(text2, EncodingType::Latin1, SplitMode::Payload).unwrap();
    assert_eq!(r.parts.len(), 1);
    assert_eq!(r.parts[0].len(), 65535);
}
