use labyrinth::error::Error;
use labyrinth::passwd::{
    check_new_password, digest_number, digests_from_bytes, is_ascending, is_bad_password,
    is_long_enough, search_sorted, BadPasswords, Password,
};

#[test]
fn hash_with_salt_is_argon2i_and_matches() {
    let password = "correct horse".to_string();
    let salt = b"0123456789abcdef".to_vec();
    let hash = Password::hash_with_salt(&password, &salt).unwrap();
    assert!(hash.starts_with("$argon2i$v=19$m=65536,t=10,p=4$MDEyMzQ1Njc4OWFiY2RlZg$"), "{}", hash);
    assert_ne!(hash, password);
    assert_eq!(Password::hash_with_salt(&password, &salt).unwrap(), hash);
    assert_eq!(Password::matches(&hash, &password).unwrap(), true);
    assert_eq!(Password::matches(&hash, &"correct horse ".to_string()).unwrap(), false);
}

#[test]
fn hash_draws_a_salt() {
    let password = "correct horse".to_string();
    let one = Password::hash(&password).unwrap();
    let two = Password::hash(&password).unwrap();
    assert_ne!(one, two);
    assert_eq!(Password::matches(&one, &password).unwrap(), true);
}

#[test]
fn salt_that_is_too_short_is_refused() {
    let r = Password::hash_with_salt(&"correct horse".to_string(), &b"short".to_vec());
    assert!(matches!(r, Err(Error::HashingError)));
}

#[test]
fn matches_known_hash() {
    let hash = "$argon2i$v=19$m=4096,t=3,p=1$c29tZXNhbHQ$iWh06vD8Fy27wf9npn6FXWiCX4K6pW6Ue1Bnzz07Z8A"
        .to_string();
    assert_eq!(Password::matches(&hash, &"password".to_string()).unwrap(), true);
    assert_eq!(Password::matches(&hash, &"Password".to_string()).unwrap(), false);
}

#[test]
fn unreadable_hash_is_an_error() {
    let r = Password::matches(&"not a hash".to_string(), &"password".to_string());
    assert!(matches!(r, Err(Error::HashingError)));
}

#[test]
fn digest_number_is_big_endian() {
    let mut digest = [0u8; 16];
    digest[15] = 1;
    assert_eq!(digest_number(&digest), 1);
    digest[0] = 0x80;
    assert_eq!(digest_number(&digest), (1u128 << 127) + 1);
    assert_eq!(digest_number(&[0xff; 16]), u128::MAX);
}

#[test]
fn search_sorted_finds_what_is_there() {
    let list: Vec<u128> = vec![2, 3, 5, 7, 11, 13, u128::MAX];
    for x in &list {
        assert!(search_sorted(&list, *x));
    }
    for x in [0u128, 1, 4, 6, 12, 14, u128::MAX - 1] {
        assert!(!search_sorted(&list, x));
    }
    assert!(!search_sorted(&Vec::new(), 5));
    assert!(search_sorted(&vec![5], 5));
    assert!(!search_sorted(&vec![5], 4));
    assert!(!search_sorted(&vec![5], 6));
}

#[test]
fn bad_passwords_are_known_by_their_md5() {
    // md5("password") = 5f4dcc3b5aa765d61d8327deb882cf99
    let digest: u128 = 0x5f4dcc3b5aa765d61d8327deb882cf99;
    let bad = BadPasswords::from_digests(vec![1u128, digest, u128::MAX]).unwrap();
    assert_eq!(bad.len(), 3);
    assert!(bad.holds(&"password".to_string()));
    assert!(is_bad_password(&"password".to_string(), &bad));
    assert!(!is_bad_password(&"Password".to_string(), &bad));
    let other = BadPasswords::from_digests(vec![1u128, digest + 1]).unwrap();
    assert!(!is_bad_password(&"password".to_string(), &other));
    assert!(!is_bad_password(&"password".to_string(), &BadPasswords::none()));
    assert_eq!(BadPasswords::none().len(), 0);
    // A list that does not ascend is no list of bad passwords.
    assert!(BadPasswords::from_digests(vec![digest, 1u128]).is_none());
    assert!(BadPasswords::from_digests(vec![1u128, 1u128]).is_some());
}

#[test]
fn digests_are_read_sixteen_bytes_each() {
    // In a record the last byte weighs most.
    let mut bytes: Vec<u8> = Vec::new();
    bytes.push(7);
    bytes.extend_from_slice(&[0u8; 15]);
    bytes.extend_from_slice(&[0x99, 0xcf, 0x82, 0xb8, 0xde, 0x27, 0x83, 0x1d]);
    bytes.extend_from_slice(&[0xd6, 0x65, 0xa7, 0x5a, 0x3b, 0xcc, 0x4d, 0x5f]);
    bytes.extend_from_slice(&[1, 2, 3]);
    let digests = digests_from_bytes(&bytes);
    assert_eq!(digests, vec![7u128, 0x5f4dcc3b5aa765d61d8327deb882cf99]);
    let bad = BadPasswords::from_bytes(&bytes).unwrap();
    assert_eq!(bad.len(), 2);
    assert!(is_bad_password(&"password".to_string(), &bad));
    assert!(!is_bad_password(&"Password".to_string(), &bad));
    assert!(digests_from_bytes(&vec![1u8; 15]).is_empty());
    assert!(digests_from_bytes(&Vec::new()).is_empty());
    assert_eq!(BadPasswords::from_bytes(&Vec::new()).unwrap().len(), 0);
    let mut unsorted = vec![9u8; 16];
    unsorted.extend_from_slice(&[1u8; 16]);
    assert!(BadPasswords::from_bytes(&unsorted).is_none());
}

#[test]
fn records_and_digests_weigh_their_bytes_the_other_way_round() {
    let mut record = [0u8; 16];
    record[0] = 1;
    record[15] = 2;
    // As a digest, the first byte weighs most; as a record of the file, the last.
    assert_eq!(digest_number(&record), (1u128 << 120) + 2);
    assert_eq!(digests_from_bytes(&record.to_vec()), vec![(2u128 << 120) + 1]);
    // The digest of "password", written the way a digest is, is no record of it.
    let as_digest: Vec<u8> = vec![
        0x5f, 0x4d, 0xcc, 0x3b, 0x5a, 0xa7, 0x65, 0xd6, 0x1d, 0x83, 0x27, 0xde, 0xb8, 0x82, 0xcf,
        0x99,
    ];
    let bad = BadPasswords::from_bytes(&as_digest).unwrap();
    assert!(!is_bad_password(&"password".to_string(), &bad));
    let as_record: Vec<u8> = as_digest.iter().rev().cloned().collect();
    let bad = BadPasswords::from_bytes(&as_record).unwrap();
    assert!(is_bad_password(&"password".to_string(), &bad));
    // Two records that ascend as the file reads them.
    let mut two = vec![0u8; 32];
    two[0] = 9;
    two[31] = 1;
    assert_eq!(digests_from_bytes(&two), vec![9u128, 1u128 << 120]);
    assert!(BadPasswords::from_bytes(&two).is_some());
    two.swap(0, 16);
    two.swap(15, 31);
    assert_eq!(digests_from_bytes(&two), vec![1u128 << 120, 9u128]);
    assert!(BadPasswords::from_bytes(&two).is_none());
}

#[test]
fn passwords_need_eight_bytes() {
    assert!(!is_long_enough(&"".to_string()));
    assert!(!is_long_enough(&"1234567".to_string()));
    assert!(is_long_enough(&"12345678".to_string()));
    // Four characters of two bytes each.
    assert!(is_long_enough(&"\u{e4}\u{f6}\u{fc}\u{df}".to_string()));
    assert!(!is_long_enough(&"\u{e4}\u{f6}\u{fc}a".to_string()));
}

#[test]
fn lists_ascend_or_do_not() {
    assert!(is_ascending(&Vec::new()));
    assert!(is_ascending(&vec![5]));
    assert!(is_ascending(&vec![1, 1, 2, 3, u128::MAX]));
    assert!(!is_ascending(&vec![2, 1]));
    assert!(!is_ascending(&vec![1, 2, 3, 2, 5]));
    assert!(!is_ascending(&vec![1, 2, 3, 4, 3]));
    let bad = BadPasswords::from_digests(vec![0x5f4dcc3b5aa765d61d8327deb882cf99u128]).unwrap();
    assert!(check_new_password(&"long enough".to_string(), &bad).is_ok());
    assert!(matches!(check_new_password(&"short".to_string(), &bad), Err(Error::PasswordTooShortError)));
    assert!(matches!(check_new_password(&"password".to_string(), &bad), Err(Error::UnsafePasswordError)));
}
