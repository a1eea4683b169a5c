use multi_group_mining::manager::MultiGroupXmrigManager;
use multi_group_mining::text::{to_decimal, with_decimal};

#[test]
fn new_instances_have_random_tokens() {
    let manager = MultiGroupXmrigManager::new(vec![8080, 8081]);
    let ports = manager.get_ports();
    assert_eq!(ports.len(), 2);
    assert_eq!(ports[0].0, 8080);
    assert_eq!(ports[1].0, 8081);
    assert_ne!(ports[0].1, ports[1].1);
    for (_, token) in &ports {
        let chars: Vec<char> = token.chars().collect();
        assert_eq!(chars.len(), 36);
        for (i, c) in chars.iter().enumerate() {
            if i == 8 || i == 13 || i == 18 || i == 23 {
                assert_eq!(*c, '-');
            } else {
                assert!(c.is_ascii_hexdigit() && !c.is_ascii_uppercase());
            }
        }
        assert_eq!(chars[14], '4');
        assert!(matches!(chars[19], '8' | '9' | 'a' | 'b'));
    }
    assert!(manager.get_pids().is_empty());
}

#[test]
fn ports_and_tokens_are_handed_out() {
    let manager = MultiGroupXmrigManager::with_tokens(
        vec![1, 65535],
        vec!["first".to_string(), "second".to_string()],
    );
    assert_eq!(
        manager.get_ports(),
        vec![(1, "first".to_string()), (65535, "second".to_string())]
    );
}

#[test]
fn running_needs_instances() {
    assert!(!MultiGroupXmrigManager::new(vec![]).is_running());
    assert!(MultiGroupXmrigManager::new(vec![8080]).is_running());
}

#[test]
fn stop_renews_the_shared_flag() {
    let mut manager = MultiGroupXmrigManager::new(vec![8080]);
    let ports = manager.get_ports();
    assert!(manager.stop().pids.is_empty());
    assert!(manager.is_running());
    assert_eq!(manager.get_ports(), ports);
    let mut empty = MultiGroupXmrigManager::new(vec![]);
    assert!(empty.stop().pids.is_empty());
    assert!(!empty.is_running());
}

#[test]
fn numbers_in_decimal() {
    assert_eq!(to_decimal(0), "0");
    assert_eq!(to_decimal(7), "7");
    assert_eq!(to_decimal(10), "10");
    assert_eq!(to_decimal(909), "909");
    assert_eq!(to_decimal(1234567890), "1234567890");
    assert_eq!(to_decimal(u64::MAX), "18446744073709551615");
    assert_eq!(with_decimal("n=", 42), "n=42");
}

#[test]
fn raised_flag_is_handed_out() {
    let mut manager = MultiGroupXmrigManager::new(vec![8080]);
    assert!(manager.stop().is_raised());
    assert!(manager.is_running());
    assert!(manager.stop().is_raised());
    assert!(manager.is_running());
}
