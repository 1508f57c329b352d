use water::{
    BinaryReader, BinaryReaderError, Chunk, ParseError, Parser, PreambleReaderError,
    PreambleValidationError, ValidationError, Validator,
};

fn encode_u32(mut num: u32) -> Vec<u8> {
    let mut result = Vec::new();
    loop {
        let mut byte = num as u8 & 0b0111_1111;
        num >>= 7;
        if num != 0 {
            byte |= 0b1000_0000;
        }
        result.push(byte);
        if num == 0 {
            break;
        }
    }
    result
}

fn encode_s64(mut num: i64) -> Vec<u8> {
    let mut result = Vec::new();
    let mut more = true;
    loop {
        let mut byte = num as u8 & 0b0111_1111;
        num >>= 7;
        if (num == 0 && byte & 0b0100_0000 == 0) || (num == -1 && byte & 0b0100_0000 == 0b0100_0000)
        {
            more = false;
        } else {
            byte |= 0b1000_0000;
        }
        result.push(byte);
        if !more {
            break;
        }
    }
    result
}

#[test]
fn binary_reader_s64_roundtrip() {
    let mut lot = 1;
    let lot_size = 1000000;
    let ranges = vec![
        -9_223_372_036_854_775_808..-9_223_372_036_854_775_808 + lot_size,
        -lot_size..lot_size,
        (9_223_372_036_854_775_807 - lot_size)..9_223_372_036_854_775_807,
    ];
    let total = ranges.iter().fold(0, |acc, x| acc + (x.end - x.start));
    for r in ranges {
        for i in r {
            let encoded = encode_s64(i);
            let mut reader = BinaryReader::new(&encoded);
            let actual_result: Result<i64, BinaryReaderError> = reader.read_leb128_s64();
            assert_eq!(Ok(i), actual_result);
            if i % lot_size == 0 {
                println!("Done {} lots of {}", lot, total / lot_size);
                lot += 1;
            }
        }
    }
}

#[test]
fn binary_s64_roundtrip() {
    let mut lot = 1;
    let lot_size = 100000;
    let ranges = vec![
        -9_223_372_036_854_775_808..-9_223_372_036_854_775_808 + lot_size,
        -lot_size..lot_size,
        (9_223_372_036_854_775_807 - lot_size)..9_223_372_036_854_775_807,
    ];
    let total = ranges.iter().fold(0, |acc, x| acc + (x.end - x.start));
    for r in ranges {
        for i in r {
            let encoded = encode_s64(i);
            let mut reader = BinaryReader::new(&encoded);
            let actual_result: Result<i64, BinaryReaderError> = reader.read_leb128_s64();
            assert_eq!(Ok(i), actual_result);
            if i % lot_size == 0 {
                println!("Done {} lots of {}", lot, total / lot_size);
                lot += 1;
            }
        }
    }
}

#[test]
fn leb128_u32_roundtrip_sampled() {
    let mut i: u64 = 0;
    while i <= u32::MAX as u64 {
        let encoded = encode_u32(i as u32);
        let mut reader = BinaryReader::new(&encoded);
        assert_eq!(Ok(i as u32), reader.read_leb128_u32());
        i = i * 3 + 1;
    }
}

#[test]
fn leb128_u32_rejects_high_bits_in_fifth_byte() {
    // 2^28 encoded with the fifth byte's continuation bit forced on.
    let encoded = vec![0x80, 0x80, 0x80, 0x80, 0x91];
    let mut reader = BinaryReader::new(&encoded);
    assert_eq!(Err(BinaryReaderError::InvalidU32), reader.read_leb128_u32());
}

#[test]
fn leb128_s32_roundtrip_sampled() {
    let mut i: i64 = i32::MIN as i64;
    while i <= i32::MAX as i64 {
        let encoded = encode_s64(i);
        let mut reader = BinaryReader::new(&encoded);
        assert_eq!(Ok(i as i32), reader.read_leb128_s32());
        i += 40_503_137;
    }
}

#[test]
fn leb128_s33_roundtrip_sampled() {
    let mut i: i64 = -4_294_967_296;
    while i <= 4_294_967_295 {
        let encoded = encode_s64(i);
        let mut reader = BinaryReader::new(&encoded);
        assert_eq!(Ok(i), reader.read_leb128_s33());
        i += 81_006_277;
    }
}

#[test]
fn parse_header_from_empty() {
    let mut parser = Parser::new();
    let result = parser.parse(&[]);
    assert!(matches!(
        result,
        Err(ParseError::PreambleReader(PreambleReaderError::BinaryReaderError(
            BinaryReaderError::UnexpectedEof
        )))
    ));
}

#[test]
fn parse_header_bad_magic_no() {
    let mut parser = Parser::new();
    let result = parser.parse(b"\0as");
    assert!(matches!(
        result,
        Err(ParseError::PreambleReader(PreambleReaderError::BinaryReaderError(
            BinaryReaderError::UnexpectedEof
        )))
    ));
}

#[test]
fn parse_header_only_magic_no() {
    let mut parser = Parser::new();
    let result = parser.parse(b"\0asm");
    assert!(matches!(
        result,
        Err(ParseError::PreambleReader(PreambleReaderError::BinaryReaderError(
            BinaryReaderError::UnexpectedEof
        )))
    ));
}

#[test]
fn parse_header_bad_version() {
    let mut parser = Parser::new();
    let mut validator = Validator::new();
    let result = parser.parse(b"\0asm\x02\0\0\0").unwrap();
    let actual = validator.validate(&result.1);
    let expected = Err(ValidationError::PreambleValidation(PreambleValidationError::BadVersion));
    assert_eq!(expected, actual);
}

#[test]
fn parse_good_header() {
    let mut parser = Parser::new();
    let result = parser.parse(b"\0asm\x01\0\0\0");
    match result {
        Ok((consumed, Chunk::Preamble(magic, version))) => {
            assert_eq!(8, consumed);
            assert_eq!(b"\0asm", magic);
            assert_eq!(1, version);
        },
        _ => panic!("expected the preamble"),
    }
}

#[test]
fn parser_is_done_on_empty_buffer_and_rejects_more_bytes() {
    let mut parser = Parser::new();
    let _ = parser.parse(b"\0asm\x01\0\0\0").unwrap();
    assert!(matches!(parser.parse(&[]), Ok((0, Chunk::Done))));
    assert!(matches!(parser.parse(&[]), Ok((0, Chunk::Done))));
    assert!(matches!(parser.parse(b"more"), Err(ParseError::UnneededBytes)));
}
