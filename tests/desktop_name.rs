use yubigoblin::desktop::{display_name, title_case};

#[test]
fn title_case_capitalises_each_word() {
    assert_eq!(title_case("yubi goblin"), "Yubi Goblin");
    assert_eq!(title_case("  hello   WORLD \t"), "Hello World");
    assert_eq!(title_case("aBC"), "Abc");
    assert_eq!(title_case(""), "");
    assert_eq!(title_case("éCOLE ßtraße"), "École SStraße");
}

#[test]
fn display_name_reads_separators_as_spaces() {
    assert_eq!(display_name("yubigoblin"), "Yubigoblin");
    assert_eq!(display_name("yubi_goblin-app.x"), "Yubi Goblin App X");
    assert_eq!(display_name("--"), "");
}
