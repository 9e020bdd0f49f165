use message_io::encoding::{decode_size, encode_size, Decoder, PADDING};

const MESSAGE_SIZE: usize = 20; // only works if (X + PADDING ) % 6 == 0
const ENCODED_MESSAGE_SIZE: usize = PADDING + MESSAGE_SIZE;
const MESSAGE: [u8; MESSAGE_SIZE] = [42; MESSAGE_SIZE];
const MESSAGE_A: [u8; MESSAGE_SIZE] = [b'A'; MESSAGE_SIZE];
const MESSAGE_B: [u8; MESSAGE_SIZE] = [b'B'; MESSAGE_SIZE];
const MESSAGE_C: [u8; MESSAGE_SIZE] = [b'C'; MESSAGE_SIZE];

fn encode_message(buffer: &mut Vec<u8>, message: &[u8]) {
    buffer.extend_from_slice(&encode_size(&MESSAGE));
    buffer.extend_from_slice(message);
}

#[test]
fn encode_one_message() {
    let mut buffer = Vec::new();
    encode_message(&mut buffer, &MESSAGE);

    assert_eq!(ENCODED_MESSAGE_SIZE, buffer.len());
    let expected_size = decode_size(&buffer).unwrap();
    assert_eq!(MESSAGE_SIZE, expected_size);
    assert_eq!(&MESSAGE, &buffer[PADDING..]);
}

#[test]
// [ data  ]
// [message]
fn decode_one_message() {
    let mut buffer = Vec::new();
    encode_message(&mut buffer, &MESSAGE);

    let mut decoder = Decoder::default();
    let mut times_called = 0;
    for decoded in decoder.decode(&buffer) {
        times_called += 1;
        assert_eq!(MESSAGE, decoded[..]);
    }

    assert_eq!(1, times_called);
    assert_eq!(0, decoder.stored_size());
}

#[test]
// [          data           ]
// [message][message][message]
fn decode_multiple_messages_exact() {
    let mut buffer = Vec::new();

    let messages = [&MESSAGE_A, &MESSAGE_B, &MESSAGE_C];
    encode_message(&mut buffer, messages[0]);
    encode_message(&mut buffer, messages[1]);
    encode_message(&mut buffer, messages[2]);

    let mut decoder = Decoder::default();

    let mut times_called = 0;
    for decoded in decoder.decode(&buffer) {
        assert_eq!(messages[times_called][..], decoded[..]);
        times_called += 1;
    }

    assert_eq!(3, times_called);
    assert_eq!(0, decoder.stored_size());
}

#[test]
// [ data ][ data ]
// [    message   ]
fn decode_one_message_in_two_parts() {
    let mut buffer = Vec::new();
    encode_message(&mut buffer, &MESSAGE);

    const SPLIT: usize = ENCODED_MESSAGE_SIZE / 2;
    let (first, second) = buffer.split_at(SPLIT);

    let mut decoder = Decoder::default();

    let mut times_called = 0;
    for _decoded in decoder.decode(first) {
        // Should not be called
        times_called += 1;
    }

    assert_eq!(0, times_called);
    assert_eq!(SPLIT, decoder.stored_size());

    for decoded in decoder.decode(second) {
        times_called += 1;
        assert_eq!(MESSAGE, decoded[..]);
    }

    assert_eq!(1, times_called);
    assert_eq!(0, decoder.stored_size());
}

#[test]
// [ data ][        data        ]
// [   message   ][   message   ]
fn decode_two_messages_in_two_parts() {
    let mut buffer = Vec::new();
    encode_message(&mut buffer, &MESSAGE);
    encode_message(&mut buffer, &MESSAGE);

    const SPLIT: usize = ENCODED_MESSAGE_SIZE * 2 / 3;
    let (first, second) = buffer.split_at(SPLIT);

    let mut decoder = Decoder::default();

    let mut times_called = 0;
    for _decoded in decoder.decode(first) {
        // Should not be called
        times_called += 1;
    }

    assert_eq!(0, times_called);
    assert_eq!(SPLIT, decoder.stored_size());

    for decoded in decoder.decode(second) {
        times_called += 1;
        assert_eq!(MESSAGE, decoded[..]);
    }

    assert_eq!(2, times_called);
    assert_eq!(0, decoder.stored_size());
}

#[test]
// [ 1B ][ 1B ][...][ 1B ]
// [       message       ]
fn decode_byte_per_byte() {
    let mut buffer = Vec::new();
    encode_message(&mut buffer, &MESSAGE);

    let mut decoder = Decoder::default();

    let mut times_called = 0;
    for i in 0..buffer.len() {
        for decoded in decoder.decode(&buffer[i..i + 1]) {
            assert_eq!(buffer.len() - 1, i);
            times_called += 1;
            assert_eq!(MESSAGE, decoded[..]);
        }

        if i < buffer.len() - 1 {
            assert_eq!(i + 1, decoder.stored_size());
        }
    }

    assert_eq!(0, decoder.stored_size());
    assert_eq!(1, times_called);
}

#[test]
fn fixed_header_is_little_endian() {
    assert_eq!([0x04, 0x03, 0x02, 0x01], encode_size(&vec![0; 0x0102_0304]));
    assert_eq!(Some(0x0102_0304), decode_size(&[0x04, 0x03, 0x02, 0x01, 9]));
    assert_eq!(None, decode_size(&[1, 2, 3]));
}

#[test]
fn fixed_empty_message_completed_by_kept_bytes_is_given_at_once() {
    // A zero-size header completed by the next chunk is an empty message.
    let mut decoder = Decoder::default();
    assert!(decoder.decode(&[0, 0, 0]).is_empty());
    assert_eq!(3, decoder.stored_size());
    assert_eq!(vec![Vec::<u8>::new()], decoder.decode(&[0]));
    assert_eq!(0, decoder.stored_size());
    assert!(decoder.decode(&[0, 0]).is_empty());
    assert_eq!(vec![Vec::<u8>::new(), vec![7]], decoder.decode(&[0, 0, 1, 0, 0, 0, 7]));
    assert_eq!(0, decoder.stored_size());
}

#[test]
fn fixed_prefix_keeps_the_unfinished_frame() {
    let mut decoder = Decoder::default();
    assert_eq!(vec![vec![5u8]], decoder.decode(&[1, 0, 0, 0, 5, 2, 0]));
    assert_eq!(2, decoder.stored_size());
    assert_eq!(vec![vec![8u8, 9]], decoder.decode(&[0, 0, 8, 9, 0]));
    assert_eq!(1, decoder.stored_size());
}

#[test]
fn fixed_chunks_in_any_cut_give_messages_back() {
    let messages: Vec<Vec<u8>> = vec![vec![1, 2, 3], vec![], vec![9; 300], vec![], vec![7]];
    let mut stream = Vec::new();
    for m in &messages {
        stream.extend_from_slice(&encode_size(m));
        stream.extend_from_slice(m);
    }
    for cut in 1..stream.len() {
        let mut decoder = Decoder::default();
        let mut decoded = Vec::new();
        for chunk in stream.chunks(cut) {
            decoded.extend(decoder.decode(chunk));
        }
        assert_eq!(messages, decoded);
        assert_eq!(0, decoder.stored_size());
    }
}
