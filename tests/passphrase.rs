use passwd_gen::{
    assemble, compose, decimal_text, digits_text, mix, passphrase_for, seed, split_lines,
    GenError, Msg, PasswdGen, WordPool, RESERVED_PREFIX, SEPARATORS,
};

fn strings(ws: &[&str]) -> Vec<String> {
    ws.iter().map(|w| w.to_string()).collect()
}

/// The passphrase of the fixed scenario: request 200, load 100, latency 50.
const GOLDEN: &str = "BRAVO7-charlie-golf";

const TAIL: [&str; 7] = ["alpha", "bravo", "charlie", "delta", "echo", "foxtrot", "golf"];

/// A pool of forty words whose last seven are the NATO words above.
fn pool_of_forty() -> WordPool {
    let mut words: Vec<String> = (0..33).map(|i| format!("reserved{}", i)).collect();
    words.extend(strings(&TAIL));
    WordPool::from_words(words)
}

fn pool_of(n: usize) -> WordPool {
    WordPool::from_words((0..n).map(|i| format!("w{}", i)).collect())
}

/// Whether `p` follows `word filler sep word filler sep word filler` over
/// `words`, with one word upper-cased, one digit and one separator.
fn conforms(p: &str, words: &[String]) -> bool {
    let mut found = 0;
    for a in words {
        for b in words {
            for c in words {
                for upper in 0..3usize {
                    for slot in 0..3usize {
                        for digit in 0..10u64 {
                            for sep in SEPARATORS.chars() {
                                let s = sep.to_string();
                                if compose(a, b, c, upper, slot, digit, &s) == p {
                                    found += 1;
                                }
                            }
                        }
                    }
                }
            }
        }
    }
    found >= 1
}

#[test]
fn decimal_text_of_integers() {
    assert_eq!(decimal_text(0), "0");
    assert_eq!(decimal_text(7), "7");
    assert_eq!(decimal_text(200), "200");
    assert_eq!(decimal_text(-45), "-45");
    assert_eq!(decimal_text(i64::MAX), i64::MAX.to_string());
    assert_eq!(decimal_text(i64::MIN), i64::MIN.to_string());
    assert_eq!(digits_text(1234567890), "1234567890");
}

#[test]
fn seed_concatenates_in_request_load_latency_order() {
    assert_eq!(seed(200, 100, 50), "20010050");
    assert_eq!(seed(1, 23, 4), "1234");
}

#[test]
fn mix_is_a_lowercase_hex_digest() {
    let d = mix(200, 100, 50);
    assert_eq!(d.len(), 128);
    assert!(d.chars().all(|c| c.is_ascii_hexdigit() && !c.is_ascii_uppercase()));
    assert_ne!(d, seed(200, 100, 50));
}

#[test]
fn mix_is_deterministic() {
    assert_eq!(mix(200, 100, 50), mix(200, 100, 50));
}

#[test]
fn mix_changes_with_each_timestamp() {
    let base = mix(200, 100, 50);
    assert_ne!(base, mix(201, 100, 50));
    assert_ne!(base, mix(200, 101, 50));
    assert_ne!(base, mix(200, 100, 51));
    assert_ne!(base, mix(200, 100, -50));
}

#[test]
fn load_splits_lines() {
    let text = "a\r\nb\n\nc\n".to_string();
    let pool = WordPool::load(&text);
    assert_eq!(pool.words(), &strings(&["a", "b", "", "c"]));
    assert_eq!(pool.len(), 4);
}

#[test]
fn split_lines_edge_cases() {
    assert_eq!(split_lines(""), Vec::<String>::new());
    assert_eq!(split_lines("\n"), strings(&[""]));
    assert_eq!(split_lines("one"), strings(&["one"]));
    assert_eq!(split_lines("one\ntwo"), strings(&["one", "two"]));
    assert_eq!(split_lines("one\n\n"), strings(&["one", ""]));
    assert_eq!(split_lines("x\r\r\ny"), strings(&["x\r", "y"]));
    assert_eq!(split_lines("x\r"), strings(&["x\r"]));
    assert_eq!(split_lines("\r\n\r\n"), strings(&["", ""]));
    assert_eq!(split_lines("é\r\nñ"), strings(&["é", "ñ"]));
}

#[test]
fn load_of_thirty_four_lines_has_one_usable_word() {
    let text: Vec<String> = (0..34).map(|i| format!("w{}", i)).collect();
    let pool = WordPool::load(&(text.join("\n") + "\n"));
    assert_eq!(pool.len(), 34);
    assert_eq!(pool.usable_subset().unwrap(), strings(&["w33"]));
}

#[test]
fn usable_subset_skips_reserved_prefix() {
    let pool = pool_of_forty();
    let usable = pool.usable_subset().unwrap();
    assert_eq!(usable, strings(&TAIL));
    assert_eq!(RESERVED_PREFIX, 33);
}

#[test]
fn usable_subset_of_thirty_four_lines_has_one_word() {
    let usable = pool_of(34).usable_subset().unwrap();
    assert_eq!(usable, strings(&["w33"]));
}

#[test]
fn usable_subset_of_small_pools_fails() {
    for n in 0..=33 {
        assert_eq!(pool_of(n).usable_subset(), Err(GenError::InsufficientWords));
        assert_eq!(passphrase_for(200, 100, 50, &pool_of(n)), Err(GenError::InsufficientWords));
    }
}

#[test]
fn compose_follows_the_template() {
    let (a, b, c) = ("alpha".to_string(), "bravo".to_string(), "charlie".to_string());
    assert_eq!(compose(&a, &b, &c, 1, 2, 7, &"-".to_string()), "alpha-BRAVO-charlie7");
    assert_eq!(compose(&a, &b, &c, 0, 0, 0, &"@".to_string()), "ALPHA0@bravo@charlie");
    assert_eq!(compose(&a, &a, &a, 2, 1, 9, &"\"".to_string()), "alpha\"alpha9\"ALPHA");
}

#[test]
fn assemble_without_words_fails() {
    let digest = mix(200, 100, 50);
    assert_eq!(assemble(&digest, &Vec::new()), Err(GenError::InsufficientWords));
}

#[test]
fn assemble_is_deterministic_and_conforms() {
    let digest = mix(200, 100, 50);
    let usable = strings(&TAIL);
    let p = assemble(&digest, &usable).unwrap();
    assert_eq!(p, assemble(&digest, &usable).unwrap());
    assert!(conforms(&p, &usable));
}

#[test]
fn passphrase_of_fixed_scenario() {
    let p = passphrase_for(200, 100, 50, &pool_of_forty()).unwrap();
    assert_eq!(p, GOLDEN);
    assert!(conforms(&p, &strings(&TAIL)));
}

#[test]
fn regeneration_changes_passphrase() {
    let pool = pool_of_forty();
    let first = passphrase_for(200, 100, 50, &pool).unwrap();
    let second = passphrase_for(201, 100, 50, &pool).unwrap();
    assert_ne!(first, second);
    assert!(conforms(&second, &strings(&TAIL)));
}

fn word_text() -> String {
    let mut lines: Vec<String> = (0..33).map(|i| format!("reserved{}", i)).collect();
    lines.extend(strings(&TAIL));
    lines.join("\n")
}

#[test]
fn session_generates_after_words_arrive() {
    let mut s = PasswdGen::create(100);
    assert!(s.update(Msg::StartFetch, 120));
    assert_eq!(s.readiness(), Err(GenError::MissingTimestamp));
    assert!(s.update(Msg::GetWordsSuccess(word_text()), 150));
    assert_eq!(s.delta_fetch(), Some(50));
    assert_eq!(s.readiness(), Ok(()));
    assert!(s.update(Msg::CreatePasswd, 200));
    assert_eq!(s.button_press_time(), Some(200));
    let p = s.passwd().unwrap();
    assert_eq!(p, passphrase_for(200, 100, 50, &pool_of_forty()).unwrap());
    assert!(s.update(Msg::CreatePasswd, 201));
    assert_eq!(s.passwd().unwrap(), passphrase_for(201, 100, 50, &pool_of_forty()).unwrap());
}

#[test]
fn session_without_words_makes_no_passphrase() {
    let mut s = PasswdGen::create(100);
    assert!(s.update(Msg::CreatePasswd, 200));
    assert_eq!(s.passwd(), None);
    assert_eq!(s.generate(300), Err(GenError::MissingTimestamp));
}

#[test]
fn session_with_failed_fetch_is_unavailable() {
    let mut s = PasswdGen::create(100);
    assert!(!s.update(Msg::GetWordsError, 150));
    assert_eq!(s.readiness(), Err(GenError::WordSourceUnavailable));
    assert!(s.update(Msg::CreatePasswd, 200));
    assert_eq!(s.passwd(), None);
}

#[test]
fn session_with_small_pool_fails_closed() {
    let mut s = PasswdGen::create(100);
    let text: Vec<String> = (0..33).map(|i| format!("w{}", i)).collect();
    assert!(s.update(Msg::GetWordsSuccess(text.join("\n")), 150));
    assert_eq!(s.readiness(), Err(GenError::InsufficientWords));
    assert!(s.update(Msg::CreatePasswd, 200));
    assert_eq!(s.passwd(), None);
    assert_eq!(s.generate(200), Err(GenError::InsufficientWords));
}

#[test]
fn reserved_lines_do_not_change_passphrase() {
    let mut other: Vec<String> = (0..33).map(|i| format!("other{}", i)).collect();
    other.extend(strings(&TAIL));
    let p = passphrase_for(200, 100, 50, &pool_of_forty()).unwrap();
    let q = passphrase_for(200, 100, 50, &WordPool::from_words(other)).unwrap();
    assert_eq!(p, q);
}

#[test]
fn equal_sessions_make_equal_passphrases() {
    let mut s1 = PasswdGen::create(100);
    let mut s2 = PasswdGen::create(100);
    s1.update(Msg::GetWordsSuccess(word_text()), 150);
    s2.update(Msg::GetWordsSuccess(word_text()), 150);
    s1.update(Msg::CreatePasswd, 200);
    s2.update(Msg::CreatePasswd, 200);
    assert_eq!(s1.passwd(), s2.passwd());
    assert_eq!(s1.passwd().unwrap(), GOLDEN);
}

#[test]
fn second_word_list_is_ignored() {
    let mut s = PasswdGen::create(100);
    assert!(s.update(Msg::GetWordsSuccess(word_text()), 150));
    assert!(!s.update(Msg::GetWordsSuccess("a\nb".to_string()), 180));
    assert_eq!(s.delta_fetch(), Some(50));
    assert_eq!(s.readiness(), Ok(()));
    s.update(Msg::CreatePasswd, 200);
    assert_eq!(s.passwd().unwrap(), GOLDEN);
}
