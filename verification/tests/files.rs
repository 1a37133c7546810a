use mc_transaction_signer::files::{is_json, JsonFile, UnsupportedFormat};
use mc_transaction_signer::{read_input, write_output};

fn readable(name: &str) -> bool {
    read_input(name, String::from("{}")) == Ok(String::from("{}"))
}

#[test]
fn json_files_are_read() {
    assert!(readable("a.json"));
    assert!(readable("dir.d/a.json"));
    assert!(readable("/tmp/a.b.json"));
    assert!(readable("..json"));
    assert!(readable("../a.json"));
}

#[test]
fn contents_go_through_unread() {
    assert_eq!(read_input("a.json", String::from("no json")), Ok(String::from("no json")));
}

#[test]
fn trailing_separators_and_dots_are_passed_over() {
    assert!(readable("a.json/"));
    assert!(readable("a.json/."));
    assert!(readable("a.json/.//"));
    assert!(!readable("a.json/.."));
}

#[test]
fn other_files_are_refused() {
    for name in ["", "a", "json", ".json", "a.JSON", "a.json.bak", "a.json/b", "a.", "/", ".", ".."] {
        assert_eq!(read_input(name, String::from("{}")), Err(UnsupportedFormat));
        assert_eq!(write_output(name, 1u8), Err(UnsupportedFormat));
    }
}

#[test]
fn output_keeps_name_and_value() {
    assert_eq!(
        write_output("out/a.json", 7u8),
        Ok(JsonFile { file_name: String::from("out/a.json"), value: 7u8 })
    );
}

#[test]
fn written_files_are_readable() {
    for name in ["a.json", "x/y.json/", "a.txt", "a", ".json"] {
        assert_eq!(write_output(name, ()).is_ok(), readable(name));
    }
}

#[test]
fn only_the_exact_extension_is_json() {
    assert!(is_json(&Some(String::from("json"))));
    assert!(!is_json(&Some(String::from("Json"))));
    assert!(!is_json(&Some(String::new())));
    assert!(!is_json(&None));
}

#[test]
fn drives_and_backslashes_do_not_hide_the_extension() {
    for name in ["C:/a.json", "C:a.json", "C:\\a.json", "dir\\a.json", "a:b.c.json", "\\a.json"] {
        assert!(readable(name));
        assert!(write_output(name, ()).is_ok());
    }
    for name in ["C:/a.json/", "C:/a.json/./", "dir\\a.json/."] {
        assert!(readable(name));
    }
    for name in ["C:\\dir.json\\out", "C:/dir.json/out", "C:/a.json/..", "C:/a.txt", "dir\\a.json.bak", "C:/a"] {
        assert!(!readable(name));
    }
}

#[test]
fn names_of_dots_have_no_extension() {
    for name in ["..", "a/..", "...", "a/."] {
        assert!(!readable(name));
    }
}

#[test]
fn reading_undoes_writing() {
    let file = write_output("C:/n.json", 1234u32).unwrap();
    let contents = file.value.to_string();
    let text = read_input(&file.file_name, contents).unwrap();
    assert_eq!(text.parse::<u32>(), Ok(1234));
}
