use ripasso_cursive::entry_path::password_file_components;

fn comps(name: &str) -> Vec<String> {
    password_file_components(name)
}

#[test]
fn nested_name_gives_directories_and_file() {
    assert_eq!(comps("web/github/user"), vec!["web", "github", "user.gpg"]);
}

#[test]
fn plain_name_gives_one_file() {
    assert_eq!(comps("bank"), vec!["bank.gpg"]);
}

#[test]
fn empty_pieces_are_kept() {
    assert_eq!(comps(""), vec![".gpg"]);
    assert_eq!(comps("a/"), vec!["a", ".gpg"]);
    assert_eq!(comps("/a"), vec!["", "a.gpg"]);
    assert_eq!(comps("a//b"), vec!["a", "", "b.gpg"]);
}

#[test]
fn pieces_join_back_to_the_name_with_suffix() {
    for name in ["web/github/user", "bank", "a//b", "ü/ß/東京"].iter() {
        let c = comps(name);
        assert_eq!(c.join("/"), format!("{}.gpg", name));
        assert_eq!(c.len(), name.matches('/').count() + 1);
        assert!(c.iter().all(|p| !p.contains('/')));
    }
}

#[test]
fn same_split_as_str_split() {
    let name = "x/yy/zzz/w";
    let mut expected: Vec<String> = name.split('/').map(|s| s.to_string()).collect();
    let last = expected.pop().unwrap();
    expected.push(format!("{}.gpg", last));
    assert_eq!(comps(name), expected);
}
