use backup_manager::security::{bytes_equal, validate_password_strength, SecureClear, SecurePassword};

#[test]
fn test_secure_password() {
    let password = SecurePassword::new("test123".to_string());
    assert_eq!(password.len(), 7);
    assert!(!password.is_empty());

    let hash = password.hash();
    assert!(password.verify_hash(&hash));
}

#[test]
fn test_password_strength() {
    let weak = SecurePassword::new("123".to_string());
    let strength = validate_password_strength(&weak);
    assert!(strength.score < 40);

    let strong = SecurePassword::new("MyStr0ng!P@ssw0rd".to_string());
    let strength = validate_password_strength(&strong);
    assert!(strength.score >= 80);
}

#[test]
fn digest_is_sha256() {
    let password = SecurePassword::new("abc".to_string());
    let expected: Vec<u8> = vec![
        0xba, 0x78, 0x16, 0xbf, 0x8f, 0x01, 0xcf, 0xea, 0x41, 0x41, 0x40, 0xde, 0x5d, 0xae, 0x22,
        0x23, 0xb0, 0x03, 0x61, 0xa3, 0x96, 0x17, 0x7a, 0x9c, 0xb4, 0x10, 0xff, 0x61, 0xf2, 0x00,
        0x15, 0xad,
    ];
    assert_eq!(password.hash(), expected);
    assert!(!password.verify_hash(b"abc"));
}

#[test]
fn from_bytes_keeps_the_bytes() {
    let password = SecurePassword::from_bytes(vec![1, 2, 3]);
    assert_eq!(password.as_bytes(), &[1u8, 2, 3][..]);
}

#[test]
fn clear_empties_secrets_of_any_length() {
    for len in [0usize, 1, 200] {
        let mut password = SecurePassword::from_bytes(vec![7u8; len]);
        password.clear();
        assert!(password.is_empty());
        assert_eq!(password.as_bytes().len(), 0);
    }
}

#[test]
fn secure_clear_empties_strings_and_buffers() {
    let mut s = String::from("hunter2");
    s.secure_clear();
    assert!(s.is_empty());
    let mut v: Vec<u8> = vec![1, 2, 3];
    v.secure_clear();
    assert!(v.is_empty());
}

#[test]
fn redacted_form_shows_only_the_length() {
    let password = SecurePassword::new("secret".to_string());
    assert_eq!(password.redacted(), "SecurePassword[*** 6 bytes ***]");
}

#[test]
fn weak_password_feedback() {
    let weak = SecurePassword::new("123".to_string());
    let strength = validate_password_strength(&weak);
    assert_eq!(strength.score, 10);
    assert_eq!(
        strength.feedback,
        vec![
            "Password should be at least 8 characters long".to_string(),
            "Password should include different character types".to_string(),
            "Avoid common patterns and dictionary words".to_string(),
            "Weak password - consider making it stronger".to_string(),
        ]
    );
}

#[test]
fn strong_password_feedback() {
    let strong = SecurePassword::new("MyStr0ng!P@ssw0rd".to_string());
    let strength = validate_password_strength(&strong);
    assert_eq!(strength.score, 100);
    assert_eq!(strength.feedback, vec!["Strong password!".to_string()]);
}

#[test]
fn repetition_and_case_folding_lower_the_score() {
    // "ABC" folds to "abc", a denied pattern; "xyz" repeats.
    let p = SecurePassword::new("ABCxyzxyz".to_string());
    let strength = validate_password_strength(&p);
    // 9 bytes: 20; lower+upper: 20; common: 40 - 20 = 20; repeated: 20 - 10 = 10.
    assert_eq!(strength.score, 10);
    assert!(strength.feedback.contains(&"Avoid repeating patterns".to_string()));
}

#[test]
fn compares_bytes() {
    assert!(bytes_equal(b"abc", b"abc"));
    assert!(!bytes_equal(b"abc", b"abd"));
    assert!(!bytes_equal(b"abc", b"ab"));
}
