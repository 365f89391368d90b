use rv64_asm::inst::{
    decode_func3, decode_func7, decode_opcode, decode_rd, decode_rs1, decode_rs2, Add, Addw,
    RCodec,
};

#[test]
fn add_encodes_to_the_reference_word() {
    // A 64-bit add with rd = a0 (x10), rs1 = a1 (x11), rs2 = a2 (x12):
    // 0000000_01100_01011_000_01010_0110011.
    let word = RCodec::encode(Add::new(10, 11, 12));
    assert_eq!(word, 0x00C58533);
}

#[test]
fn addw_differs_from_add_only_in_the_opcode_field() {
    let add = RCodec::encode(Add::new(10, 11, 12));
    let addw = RCodec::encode(Addw::new(10, 11, 12));
    assert_ne!(add, addw);
    assert_eq!(decode_opcode(add), 0b0110011);
    assert_eq!(decode_opcode(addw), 0b0111011);
    assert_eq!(decode_rd(addw), 10);
    assert_eq!(decode_rs1(addw), 11);
    assert_eq!(decode_rs2(addw), 12);
    assert_eq!(decode_func3(addw), 0);
    assert_eq!(decode_func7(addw), 0);
}

#[test]
fn every_register_index_round_trips_in_every_role() {
    for i in 0u8..32u8 {
        let word = RCodec::encode(Add::new(i, 0, 0));
        assert_eq!(decode_rd(word), i as u32);
        let word = RCodec::encode(Add::new(0, i, 0));
        assert_eq!(decode_rs1(word), i as u32);
        let word = RCodec::encode(Add::new(0, 0, i));
        assert_eq!(decode_rs2(word), i as u32);
    }
}

#[test]
fn all_fields_of_the_reference_word_decode_exactly() {
    let word = RCodec::encode(Add::new(10, 11, 12));
    assert_eq!(decode_opcode(word), 0b0110011);
    assert_eq!(decode_rd(word), 10);
    assert_eq!(decode_func3(word), 0);
    assert_eq!(decode_rs1(word), 11);
    assert_eq!(decode_rs2(word), 12);
    assert_eq!(decode_func7(word), 0);
}

#[test]
fn distinct_register_tuples_encode_to_distinct_words() {
    let a = RCodec::encode(Add::new(1, 2, 3));
    let b = RCodec::encode(Add::new(3, 2, 1));
    let c = RCodec::encode(Add::new(2, 1, 3));
    assert_ne!(a, b);
    assert_ne!(a, c);
    assert_ne!(b, c);
}

#[test]
fn no_two_encodable_instructions_collide() {
    // All words of both instruction types over a register sample: every
    // distinct (mnemonic, rd, rs1, rs2) combination gets its own word.
    let sample = [0u8, 1, 2, 15, 16, 30, 31];
    let mut words: Vec<u32> = Vec::new();
    for &rd in &sample {
        for &rs1 in &sample {
            for &rs2 in &sample {
                words.push(RCodec::encode(Add::new(rd, rs1, rs2)));
                words.push(RCodec::encode(Addw::new(rd, rs1, rs2)));
            }
        }
    }
    let mut sorted = words.clone();
    sorted.sort();
    sorted.dedup();
    assert_eq!(sorted.len(), words.len());
}

#[test]
fn conversion_into_a_word_matches_the_encoder() {
    let add = Add::new(4, 5, 6);
    let addw = Addw::new(4, 5, 6);
    assert_eq!(u32::from(add), RCodec::encode(add));
    assert_eq!(u32::from(addw), RCodec::encode(addw));
}
