use fuel_types::bytes::{self, LengthError, WORD_SIZE};
use fuel_types::Word;

#[test]
fn padded_len_to_fit_word_len() {
    assert_eq!(WORD_SIZE * 0, bytes::padded_len(&[]));
    assert_eq!(WORD_SIZE * 1, bytes::padded_len(&[0]));
    assert_eq!(WORD_SIZE * 1, bytes::padded_len(&[0; WORD_SIZE]));
    assert_eq!(WORD_SIZE * 2, bytes::padded_len(&[0; WORD_SIZE + 1]));
    assert_eq!(WORD_SIZE * 2, bytes::padded_len(&[0; WORD_SIZE * 2]));
}

#[test]
fn store_restore_number_unchecked_works() {
    fn store_restore<T>(n: T, x: usize, f: fn(&[u8]) -> (T, &[u8]))
    where
        T: core::fmt::Debug + Copy + Eq,
        Word: From<T>,
    {
        let mut buffer = [0u8; 255];

        assert_eq!(
            0,
            bytes::store_number_unchecked(&mut buffer[..WORD_SIZE], Word::from(n)).len()
        );
        assert_eq!(n, f(&buffer).0);
        assert_eq!(0, f(&buffer[..WORD_SIZE]).1.len());

        assert_eq!(
            x,
            bytes::store_number_unchecked(&mut buffer[..WORD_SIZE + x], Word::from(n)).len()
        );
        assert_eq!(n, f(&buffer).0);
        assert_eq!(x, f(&buffer[..WORD_SIZE + x]).1.len());
    }

    store_restore::<Word>(65, 5, bytes::restore_number_unchecked);
    store_restore::<Word>(65, 5, bytes::restore_word_unchecked);
    store_restore::<u8>(65, 5, bytes::restore_u8_unchecked);
    store_restore::<u16>(65, 5, bytes::restore_u16_unchecked);
    store_restore::<u32>(65, 5, bytes::restore_u32_unchecked);
}

#[test]
fn store_restore_number_checked_works() {
    type Func<T> = fn(&[u8]) -> Result<(T, &[u8]), LengthError>;
    fn store_restore<T>(n: T, x: usize, f: Func<T>)
    where
        T: core::fmt::Debug + Copy + Eq,
        Word: From<T>,
    {
        let mut buffer = [0u8; 255];

        assert_eq!(
            0,
            bytes::store_number_checked(&mut buffer[..WORD_SIZE], Word::from(n))
                .unwrap()
                .len()
        );
        assert_eq!(n, f(&buffer).unwrap().0);
        assert_eq!(0, f(&buffer[..WORD_SIZE]).unwrap().1.len());

        assert_eq!(
            x,
            bytes::store_number_checked(&mut buffer[..WORD_SIZE + x], Word::from(n))
                .unwrap()
                .len()
        );
        assert_eq!(n, f(&buffer).unwrap().0);
        assert_eq!(x, f(&buffer[..WORD_SIZE + x]).unwrap().1.len());
    }

    store_restore::<Word>(65, 5, bytes::restore_number_checked);
    store_restore::<Word>(65, 5, bytes::restore_word_checked);
    store_restore::<u8>(65, 5, bytes::restore_u8_checked);
    store_restore::<u16>(65, 5, bytes::restore_u16_checked);
    store_restore::<u32>(65, 5, bytes::restore_u32_checked);
}

#[test]
fn stored_word_is_big_endian() {
    let mut buffer = [0u8; 8];
    bytes::store_number_unchecked(&mut buffer[..], 0x0102030405060708u64);
    assert_eq!(buffer, [1, 2, 3, 4, 5, 6, 7, 8]);
}

#[test]
fn narrow_value_fills_low_order_bytes_of_the_word() {
    let mut buffer = [0xffu8; 8];
    bytes::store_number_unchecked(&mut buffer[..], Word::from(0xabcdu16));
    assert_eq!(buffer, [0, 0, 0, 0, 0, 0, 0xab, 0xcd]);
}

#[test]
fn checked_store_on_short_buffer_fails_and_leaves_buffer_unmodified() {
    let mut buffer = [7u8; 7];
    let r = bytes::store_number_checked(&mut buffer[..], 65u64);
    assert_eq!(
        r.unwrap_err(),
        LengthError {
            required: WORD_SIZE,
            available: 7
        }
    );
    assert_eq!(buffer, [7u8; 7]);
}

#[test]
fn checked_restore_on_short_buffer_fails() {
    let buffer = [0u8; 7];
    let expected = LengthError {
        required: WORD_SIZE,
        available: 7,
    };
    assert_eq!(bytes::restore_number_checked(&buffer).unwrap_err(), expected);
    assert_eq!(bytes::restore_word_checked(&buffer).unwrap_err(), expected);
    assert_eq!(bytes::restore_u8_checked(&buffer).unwrap_err(), expected);
    assert_eq!(bytes::restore_u16_checked(&buffer).unwrap_err(), expected);
    assert_eq!(bytes::restore_u32_checked(&buffer).unwrap_err(), expected);
}

#[test]
fn store_then_restore_on_a_thirteen_byte_buffer() {
    let mut buffer = [0u8; 13];
    let remainder = bytes::store_number_checked(&mut buffer[..], 65u64).unwrap();
    assert_eq!(5, remainder.len());

    let (value, remainder) = bytes::restore_number_checked(&buffer).unwrap();
    assert_eq!(65u64, value);
    assert_eq!(5, remainder.len());
}

#[test]
fn checked_and_unchecked_stores_agree_bit_for_bit() {
    for value in [0u64, 1, 65, 0xabcd, u64::MAX] {
        let mut checked = [0u8; 13];
        let mut unchecked = [0u8; 13];
        let rem_c = bytes::store_number_checked(&mut checked[..], value)
            .unwrap()
            .len();
        let rem_u = bytes::store_number_unchecked(&mut unchecked[..], value).len();
        assert_eq!(rem_c, rem_u);
        assert_eq!(checked, unchecked);
    }
}

#[test]
fn checked_and_unchecked_restores_agree_for_every_width() {
    let mut buffer = [0u8; 13];
    bytes::store_number_unchecked(&mut buffer[..], 0x01020304050607f8u64);

    let (n_u, rem_u) = bytes::restore_number_unchecked(&buffer);
    let (n_c, rem_c) = bytes::restore_number_checked(&buffer).unwrap();
    assert_eq!(n_u, n_c);
    assert_eq!(rem_u, rem_c);

    let (w_u, _) = bytes::restore_word_unchecked(&buffer);
    let (w_c, _) = bytes::restore_word_checked(&buffer).unwrap();
    assert_eq!(w_u, w_c);

    let (a_u, _) = bytes::restore_u8_unchecked(&buffer);
    let (a_c, _) = bytes::restore_u8_checked(&buffer).unwrap();
    assert_eq!(a_u, a_c);
    assert_eq!(a_u, 0xf8);

    let (b_u, _) = bytes::restore_u16_unchecked(&buffer);
    let (b_c, _) = bytes::restore_u16_checked(&buffer).unwrap();
    assert_eq!(b_u, b_c);
    assert_eq!(b_u, 0x07f8);

    let (c_u, _) = bytes::restore_u32_unchecked(&buffer);
    let (c_c, _) = bytes::restore_u32_checked(&buffer).unwrap();
    assert_eq!(c_u, c_c);
    assert_eq!(c_u, 0x050607f8);
}

#[test]
fn round_trip_holds_for_every_supported_width() {
    let mut buffer = [0u8; 16];

    for value in [0u64, 65, u64::from(u8::MAX), 0xabcd, 0xdeadbeef, u64::MAX] {
        bytes::store_number_unchecked(&mut buffer[..], value);
        assert_eq!(bytes::restore_number_unchecked(&buffer).0, value);
        assert_eq!(bytes::restore_word_unchecked(&buffer).0, value);
        assert_eq!(bytes::restore_u8_unchecked(&buffer).0, value as u8);
        assert_eq!(bytes::restore_u16_unchecked(&buffer).0, value as u16);
        assert_eq!(bytes::restore_u32_unchecked(&buffer).0, value as u32);
    }
}
