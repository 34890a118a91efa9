use captcha_auth::challenge::{
    draw_captcha, get_captcha, issue_captcha, issue_captcha_at, png_data_url, CAPTCHA_ID_LEN,
    CAPTCHA_TTL_SECONDS,
};
use captcha_auth::store::{CaptchaEntry, CaptchaStore};
use captcha_auth::text::{eq_ignore_ascii_case, trim};

fn store_with(id: &str, answer: &str, expires_at: i64) -> CaptchaStore {
    let mut store = CaptchaStore::new();
    store.insert(
        id.to_string(),
        CaptchaEntry { answer: answer.to_string(), expires_at },
    );
    store
}

#[test]
fn expired_challenge_rejects_correct_answer() {
    let issued = 1_000_000;
    let mut store = store_with("c1", "AB3D9", issued + 120);
    assert!(!store.verify_and_consume_at("c1", "ab3d9", issued + 200));
    assert!(store.lookup("c1").is_none());
}

#[test]
fn trimmed_case_insensitive_answer_is_consumed_once() {
    let issued = 1_000_000;
    let mut store = store_with("c1", "AB3D9", issued + 120);
    assert!(store.verify_and_consume_at("c1", " ab3d9 ", issued));
    assert!(!store.verify_and_consume_at("c1", " ab3d9 ", issued));
    assert!(store.lookup("c1").is_none());
}

#[test]
fn wrong_answer_keeps_challenge() {
    let mut store = store_with("c1", "AB3D9", 500);
    assert!(!store.verify_and_consume_at("c1", "AB3D8", 100));
    assert_eq!(store.lookup("c1"), Some(("AB3D9".to_string(), 500)));
    assert!(store.verify_and_consume_at("c1", "AB3D9", 100));
}

#[test]
fn unknown_id_fails() {
    let mut store = store_with("c1", "AB3D9", 500);
    assert!(!store.verify_and_consume_at("c2", "AB3D9", 100));
    assert!(store.lookup("c1").is_some());
}

#[test]
fn challenge_valid_at_its_expiry_second() {
    let mut store = store_with("c1", "X", 500);
    assert!(store.verify_and_consume_at("c1", "x", 500));
}

#[test]
fn many_correct_submissions_succeed_once() {
    let mut store = store_with("c1", "Q7", 1000);
    let mut wins = 0;
    for t in 0..10 {
        if store.verify_and_consume_at("c1", "q7", t) {
            wins += 1;
        }
    }
    assert_eq!(wins, 1);
}

#[test]
fn current_time_verification_of_fresh_and_stale() {
    let mut store = CaptchaStore::default();
    store.insert("fresh".to_string(), CaptchaEntry { answer: "abc".to_string(), expires_at: i64::MAX });
    store.insert("stale".to_string(), CaptchaEntry { answer: "abc".to_string(), expires_at: 0 });
    assert!(!store.verify_and_consume("stale", "abc"));
    assert!(store.lookup("stale").is_none());
    assert!(store.verify_and_consume("fresh", "ABC"));
}

#[test]
fn insert_replaces_existing_entry() {
    let mut store = store_with("c1", "OLD", 500);
    store.insert("c1".to_string(), CaptchaEntry { answer: "NEW".to_string(), expires_at: 600 });
    assert!(!store.verify_and_consume_at("c1", "old", 100));
    assert!(store.verify_and_consume_at("c1", "new", 100));
}

#[test]
fn sweep_removes_only_expired() {
    let mut store = CaptchaStore::new();
    store.insert("a".to_string(), CaptchaEntry { answer: "1".to_string(), expires_at: 99 });
    store.insert("b".to_string(), CaptchaEntry { answer: "2".to_string(), expires_at: 100 });
    store.insert("c".to_string(), CaptchaEntry { answer: "3".to_string(), expires_at: 101 });
    store.cleanup_expired_at(100);
    assert!(store.lookup("a").is_none());
    assert_eq!(store.lookup("b"), Some(("2".to_string(), 100)));
    assert_eq!(store.lookup("c"), Some(("3".to_string(), 101)));
    store.cleanup_expired_at(100);
    assert!(store.lookup("b").is_some());
    store.cleanup_expired();
    assert!(store.lookup("b").is_none());
    assert!(store.lookup("c").is_none());
}

#[test]
fn trim_removes_unicode_whitespace() {
    assert_eq!(trim("  a b \t\n"), "a b");
    assert_eq!(trim("\u{3000}x\u{a0}"), "x");
    assert_eq!(trim("   "), "");
    assert_eq!(trim(""), "");
}

#[test]
fn ascii_case_comparison() {
    assert!(eq_ignore_ascii_case("AbC9", "aBc9"));
    assert!(!eq_ignore_ascii_case("abc", "abd"));
    assert!(!eq_ignore_ascii_case("abc", "abcd"));
    assert!(!eq_ignore_ascii_case("É", "é"));
    assert!(eq_ignore_ascii_case("", ""));
}

#[test]
fn data_url_holds_base64_png() {
    assert_eq!(png_data_url(&vec![1u8, 2, 3]), "data:image/png;base64,AQID");
    assert_eq!(png_data_url(&vec![0xffu8]), "data:image/png;base64,/w==");
    assert_eq!(png_data_url(&vec![]), "data:image/png;base64,");
}

#[test]
fn issued_challenge_is_stored_with_ttl() {
    let mut store = CaptchaStore::new();
    let resp = issue_captcha_at(&mut store, "id1".to_string(), "K4P2Z".to_string(), &vec![1u8, 2, 3], 1000);
    assert_eq!(resp.captcha_id, "id1");
    assert_eq!(resp.image, "data:image/png;base64,AQID");
    assert_eq!(resp.expires_in, 120);
    assert_eq!(store.lookup("id1"), Some(("K4P2Z".to_string(), 1000 + CAPTCHA_TTL_SECONDS)));
    assert!(!store.verify_and_consume_at("id1", "k4p2z", 1200));
}

#[test]
fn generated_challenge_has_random_alphanumeric_id() {
    let mut store = CaptchaStore::new();
    let a = get_captcha(&mut store).expect("rendered");
    let b = get_captcha(&mut store).expect("rendered");
    assert_eq!(a.captcha_id.chars().count(), CAPTCHA_ID_LEN);
    assert!(a.captcha_id.chars().all(|c| c.is_ascii_alphanumeric()));
    assert_ne!(a.captcha_id, b.captcha_id);
    assert!(a.image.starts_with("data:image/png;base64,"));
    let (answer, _) = store.lookup(&a.captcha_id).expect("stored");
    assert_eq!(answer.chars().count(), 5);
    assert!(store.verify_and_consume(&a.captcha_id, &answer.to_lowercase()));
    assert!(!store.verify_and_consume(&a.captcha_id, &answer));
}

#[test]
fn drawn_challenge_is_recorded_separately() {
    let drawn = draw_captcha().expect("rendered");
    assert_eq!(drawn.id.chars().count(), CAPTCHA_ID_LEN);
    assert!(!drawn.png.is_empty());
    assert!(drawn.answer.chars().count() <= 5);
    assert!(drawn.answer.chars().all(|c| c.is_ascii_alphanumeric()));
    let id = drawn.id.clone();
    let answer = drawn.answer.clone();
    let mut store = CaptchaStore::new();
    assert!(store.lookup(&id).is_none());
    let resp = issue_captcha(&mut store, drawn).expect("issued");
    assert_eq!(resp.captcha_id, id);
    let (stored, _) = store.lookup(&id).expect("stored");
    assert_eq!(stored, answer);
}

#[test]
fn base64_of_longer_input() {
    assert_eq!(png_data_url(&b"Man is".to_vec()), "data:image/png;base64,TWFuIGlz");
    assert_eq!(png_data_url(&b"hello".to_vec()), "data:image/png;base64,aGVsbG8=");
}
