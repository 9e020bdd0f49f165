use message_io::util::encoding::{decode_size, encode_size, Decoder, MAX_ENCODED_SIZE};

const MESSAGE_SIZE: usize = 20; // only works if (X + PADDING ) % 6 == 0
const ENCODED_MESSAGE_SIZE: usize = 1 + MESSAGE_SIZE; // 1 = log_2(20)/7
const MESSAGE: [u8; MESSAGE_SIZE] = [42; MESSAGE_SIZE];
const MESSAGE_A: [u8; MESSAGE_SIZE] = [b'A'; MESSAGE_SIZE];
const MESSAGE_B: [u8; MESSAGE_SIZE] = [b'B'; MESSAGE_SIZE];
const MESSAGE_C: [u8; MESSAGE_SIZE] = [b'C'; MESSAGE_SIZE];

fn encode_message(buffer: &mut Vec<u8>, message: &[u8]) {
    let mut buf = [0; MAX_ENCODED_SIZE];
    buffer.extend_from_slice(&*encode_size(message, &mut buf));
    buffer.extend_from_slice(message);
}

#[test]
fn encoding_encode_one_message() {
    let mut buffer = Vec::new();
    encode_message(&mut buffer, &MESSAGE);

    assert_eq!(ENCODED_MESSAGE_SIZE, buffer.len());
    let (expected_size, used_bytes) = decode_size(&buffer).unwrap();
    assert_eq!(MESSAGE_SIZE, expected_size);
    assert_eq!(used_bytes, 1);
    assert_eq!(&MESSAGE, &buffer[used_bytes..]);
}

#[test]
fn encode_one_big_message() {
    let mut buffer = Vec::new();
    encode_message(&mut buffer, &vec![0; 1000]);

    assert_eq!(1002, buffer.len());
    let (expected_size, used_bytes) = decode_size(&buffer).unwrap();
    assert_eq!(1000, expected_size);
    assert_eq!(used_bytes, 2);
    assert_eq!(&vec![0; 1000], &buffer[used_bytes..]);
}

#[test]
// [ data  ]
// [message]
fn encoding_decode_one_message() {
    let mut buffer = Vec::new();
    encode_message(&mut buffer, &MESSAGE);

    let mut decoder = Decoder::default();
    let mut times_called = 0;
    for decoded in decoder.decode(&buffer) {
        times_called += 1;
        assert_eq!(MESSAGE, decoded[..]);
    }

    assert_eq!(1, times_called);
    assert_eq!(0, decoder.stored_size());
}

#[test]
// [          4B         ]
// [       message       ]
fn decode_message_no_size() {
    let mut buffer = Vec::new();
    encode_message(&mut buffer, &[]);

    let mut decoder = Decoder::default();

    let mut times_called = 0;
    for _decoded in decoder.decode(&buffer) {
        // Should not be called
        times_called += 1;
    }

    assert_eq!(1, times_called);
    assert_eq!(0, decoder.stored_size());
}

#[test]
// [          5B          ]
// [        message       ]
fn decode_message_one_byte() {
    let mut buffer = Vec::new();
    encode_message(&mut buffer, &[0xFF]);

    let mut decoder = Decoder::default();

    let mut times_called = 0;
    for decoded in decoder.decode(&buffer) {
        times_called += 1;
        assert_eq!([0xFF], decoded[..]);
    }

    assert_eq!(1, times_called);
    assert_eq!(0, decoder.stored_size());
}

#[test]
// [          data           ]
// [message][message][message]
fn encoding_decode_multiple_messages_exact() {
    let mut buffer = Vec::new();

    let messages = [&MESSAGE_A, &MESSAGE_B, &MESSAGE_C];
    encode_message(&mut buffer, messages[0]);
    encode_message(&mut buffer, messages[1]);
    encode_message(&mut buffer, messages[2]);

    let mut decoder = Decoder::default();

    let mut times_called = 0;
    for decoded in decoder.decode(&buffer) {
        assert_eq!(messages[times_called][..], decoded[..]);
        times_called += 1;
    }

    assert_eq!(3, times_called);
    assert_eq!(0, decoder.stored_size());
}

#[test]
// [ data ][ data ]
// [    message   ]
fn encoding_decode_one_message_in_two_parts() {
    let mut buffer = Vec::new();
    encode_message(&mut buffer, &MESSAGE);

    const SPLIT: usize = ENCODED_MESSAGE_SIZE / 2;
    let (first, second) = buffer.split_at(SPLIT);

    let mut decoder = Decoder::default();

    let mut times_called = 0;
    for _decoded in decoder.decode(first) {
        // Should not be called
        times_called += 1;
    }

    assert_eq!(0, times_called);
    assert_eq!(SPLIT, decoder.stored_size());

    for decoded in decoder.decode(second) {
        times_called += 1;
        assert_eq!(MESSAGE, decoded[..]);
    }

    assert_eq!(1, times_called);
    assert_eq!(0, decoder.stored_size());
}

#[test]
// [ data ][        data        ]
// [   message   ][   message   ]
fn encoding_decode_two_messages_in_two_parts() {
    let mut buffer = Vec::new();
    encode_message(&mut buffer, &MESSAGE);
    encode_message(&mut buffer, &MESSAGE);

    const SPLIT: usize = ENCODED_MESSAGE_SIZE * 2 / 3;
    let (first, second) = buffer.split_at(SPLIT);

    let mut decoder = Decoder::default();

    let mut times_called = 0;
    for _decoded in decoder.decode(first) {
        // Should not be called
        times_called += 1;
    }

    assert_eq!(0, times_called);
    assert_eq!(SPLIT, decoder.stored_size());

    for decoded in decoder.decode(second) {
        times_called += 1;
        assert_eq!(MESSAGE, decoded[..]);
    }

    assert_eq!(2, times_called);
    assert_eq!(0, decoder.stored_size());
}

#[test]
// [ 1B ][ 1B ][...][ 1B ]
// [       message       ]
fn encoding_decode_byte_per_byte() {
    let mut buffer = Vec::new();
    encode_message(&mut buffer, &MESSAGE);

    let mut decoder = Decoder::default();

    let mut times_called = 0;
    for i in 0..buffer.len() {
        for decoded in decoder.decode(&buffer[i..i + 1]) {
            assert_eq!(buffer.len() - 1, i);
            times_called += 1;
            assert_eq!(MESSAGE, decoded[..]);
        }

        if i < buffer.len() - 1 {
            assert_eq!(i + 1, decoder.stored_size());
        }
    }

    assert_eq!(0, decoder.stored_size());
    assert_eq!(1, times_called);
}

#[test]
// [ 1B ][   remaining   ]
// [       message       ]
fn decode_message_after_non_enough_padding() {
    let msg = [0; 1000];
    let mut buffer = Vec::new();
    encode_message(&mut buffer, &msg);

    let (start_1b, remaining) = buffer.split_at(2);

    let mut decoder = Decoder::default();

    let mut times_called = 0;
    for _decoded in decoder.decode(start_1b) {
        // Should not be called
        times_called += 1;
    }

    assert_eq!(0, times_called);
    assert_eq!(2, decoder.stored_size());

    for decoded in decoder.decode(remaining) {
        times_called += 1;
        assert_eq!(msg, decoded[..]);
    }

    assert_eq!(1, times_called);
    assert_eq!(0, decoder.stored_size());
}

#[test]
// [ 1B ][ 1B ][ remaining   ]
// [         message         ]
fn decode_message_var_size_in_two_data() {
    let msg = [0; 1000];
    let mut buffer = Vec::new();
    encode_message(&mut buffer, &msg);

    let (start_1b, remaining) = buffer.split_at(1);

    let mut decoder = Decoder::default();

    let mut times_called = 0;
    for _decoded in decoder.decode(start_1b) {
        // Should not be called
        times_called += 1;
    }

    assert_eq!(0, times_called);
    assert_eq!(1, decoder.stored_size());

    let (next_1b, remaining) = remaining.split_at(1);

    let mut times_called = 0;
    for _decoded in decoder.decode(next_1b) {
        // Should not be called
        times_called += 1;
    }

    assert_eq!(0, times_called);
    assert_eq!(2, decoder.stored_size());

    for decoded in decoder.decode(remaining) {
        times_called += 1;
        assert_eq!(msg, decoded[..]);
    }

    assert_eq!(1, times_called);
    assert_eq!(0, decoder.stored_size());
}

#[test]
fn varint_header_values() {
    let mut buf = [0; MAX_ENCODED_SIZE];
    assert_eq!(&[0xAC, 0x02], encode_size(&vec![0; 300], &mut buf));
    assert_eq!(Some((300, 2)), decode_size(&[0xAC, 0x02, 0xFF]));
    assert_eq!(None, decode_size(&[0xAC]));
    assert_eq!(None, decode_size(&[0xFF; 11]));
}

#[test]
fn varint_chunks_in_any_cut_give_messages_back() {
    let messages: Vec<Vec<u8>> = vec![vec![1, 2, 3], vec![9; 300], vec![], vec![7]];
    let mut stream = Vec::new();
    for m in &messages {
        let mut buf = [0; MAX_ENCODED_SIZE];
        stream.extend_from_slice(encode_size(m, &mut buf));
        stream.extend_from_slice(m);
    }
    for cut in 1..stream.len() {
        let mut decoder = Decoder::default();
        let mut decoded = Vec::new();
        for chunk in stream.chunks(cut) {
            assert!(decoder.accepts(chunk));
            decoded.extend(decoder.decode(chunk));
        }
        assert_eq!(messages, decoded);
        assert_eq!(0, decoder.stored_size());
    }
}

#[test]
fn varint_invalid_header_keeps_ten_bytes() {
    let mut decoder = Decoder::default();
    assert!(decoder.decode(&[0xFF]).is_empty());
    assert!(decoder.accepts(&[0xFF; 20]));
    assert!(decoder.decode(&[0xFF; 20]).is_empty());
    assert_eq!(MAX_ENCODED_SIZE, decoder.stored_size());
}

#[test]
fn varint_overlong_header_is_refused() {
    // 0x85 0x00 announces 5 bytes in two header bytes, but eight bytes
    // after the header were already taken in with the header.
    let mut decoder = Decoder::default();
    assert!(decoder.decode(&[0x85]).is_empty());
    assert!(!decoder.accepts(&[0x00, 1, 2, 3, 4, 5, 6, 7, 8, 9]));
    assert!(decoder.accepts(&[0x00, 1, 2, 3, 4, 5]));
}
