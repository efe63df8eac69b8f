use yubigoblin::users::{list_system_users, parse_uid};

fn chars(s: &str) -> Vec<char> {
    s.chars().collect()
}

#[test]
fn service_account_excluded_human_included() {
    let passwd = "svc:x:999:999::/var/lib/svc:/usr/sbin/nologin\nalice:x:1001:1001:Alice:/home/alice:/bin/bash\n";
    assert_eq!(list_system_users(passwd), vec!["alice".to_string()]);
}

#[test]
fn disabled_shells_and_short_lines_excluded() {
    let passwd = "root:x:0:0:root:/root:/bin/bash\n\
bob:x:1000:1000::/home/bob:/bin/false\n\
carol:x:1002:1002::/home/carol:/usr/sbin/nologin\n\
short:x:1003:1003\n\
dave:x:abc:1004::/home/dave:/bin/sh\n\
erin:x:1005:1005::/home/erin:/bin/zsh";
    assert_eq!(list_system_users(passwd), vec!["erin".to_string()]);
}

#[test]
fn uid_boundary_and_order() {
    let passwd = "a:x:1000:1:::/bin/sh\nb:x:999:1:::/bin/sh\nc:x:+4294967295:1:::/bin/sh\nd:x:4294967296:1:::/bin/sh\n";
    assert_eq!(list_system_users(passwd), vec!["a".to_string(), "c".to_string()]);
}

#[test]
fn empty_database_has_no_users() {
    assert!(list_system_users("").is_empty());
}

#[test]
fn uid_parsing_matches_std() {
    for s in ["0", "1000", "+7", "", "+", "-1", "12a", "4294967295", "4294967296", "007"] {
        assert_eq!(parse_uid(&chars(s)), s.parse::<u32>().ok(), "input {:?}", s);
    }
}
