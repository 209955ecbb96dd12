use rs_tcp::auth::generate_random_string;
use rs_tcp::cipher::{decrypt, encrypt};

fn is_token(s: &str, max: usize) -> bool {
    !s.is_empty() && s.len() < max && s.chars().all(|c| c.is_ascii_alphanumeric())
}

#[test]
fn crypt_test_test() {
    let data: [u8; 4] = [0, 1, 255, 254];
    let encrypted_data = encrypt(&data, 1);
    let decrypted_data = decrypt(&encrypted_data, 1);
    assert_eq!(encrypted_data, vec![1, 2, 0, 255]);
    assert_eq!(decrypted_data, data.to_vec());

    let encrypted_data = encrypt(&data, 2);
    let decrypted_data = decrypt(&encrypted_data, 2);
    assert_eq!(encrypted_data, vec![2, 3, 1, 0]);
    assert_eq!(decrypted_data, data.to_vec());

    let encrypted_data = encrypt(&data, 255);
    let decrypted_data = decrypt(&encrypted_data, 255);
    assert_eq!(encrypted_data, vec![255, 0, 254, 253]);
    assert_eq!(decrypted_data, data.to_vec());

    let encrypted_data = encrypt(&data, 0);
    let decrypted_data = decrypt(&encrypted_data, 0);
    assert_eq!(encrypted_data, vec![128, 129, 127, 126]);
    assert_eq!(decrypted_data, data.to_vec());

    let a = generate_random_string(10);
    let b = generate_random_string(255);
    assert!(is_token(&a, 10));
    assert!(is_token(&b, 255));
}

#[test]
fn zero_key_acts_as_128() {
    let data = [10u8, 200, 128];
    assert_eq!(encrypt(&data, 0), encrypt(&data, 128));
    assert_eq!(decrypt(&data, 0), vec![138, 72, 0]);
}

#[test]
fn decrypt_wraps_below_zero() {
    assert_eq!(decrypt(&[0, 5], 10), vec![246, 251]);
}

#[test]
fn empty_data_stays_empty() {
    assert!(encrypt(&[], 7).is_empty());
    assert!(decrypt(&[], 7).is_empty());
}

#[test]
fn cipher_roundtrip_every_key() {
    let data: Vec<u8> = (0..=255u8).collect();
    for key in 0..=255u8 {
        let e = encrypt(&data, key);
        assert_ne!(e, data);
        assert_eq!(decrypt(&e, key), data);
        assert_eq!(encrypt(&decrypt(&data, key), key), data);
    }
}

#[test]
fn random_string_short_bound() {
    for _ in 0..50 {
        let s = generate_random_string(2);
        assert_eq!(s.len(), 1);
        assert!(s.chars().all(|c| c.is_ascii_alphanumeric()));
    }
}
