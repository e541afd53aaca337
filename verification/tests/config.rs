use linux_toolbox::catalog::{Catalog, Category, Program};
use linux_toolbox::config::{build_catalog, join_path, load_config, ConfigError};

fn program(name: &str, script: &str) -> Program {
    Program::new(name.to_string(), script.to_string())
}

#[test]
fn loads_categories_and_programs_in_file_order() {
    let text = "[Network]\nping = \"ping.sh\"\n\n[Disk]\ncleanup = \"cleanup.sh\"\ncheck = \"disk/check_disk.sh\"\n";
    let expected = Catalog::new(vec![
        Category::new("Network".to_string(), vec![program("ping", "tools/ping.sh")]),
        Category::new(
            "Disk".to_string(),
            vec![
                program("cleanup", "tools/cleanup.sh"),
                program("check", "tools/disk/check_disk.sh"),
            ],
        ),
    ]);
    assert_eq!(load_config(text, "tools"), Ok(expected));
}

#[test]
fn order_of_the_file_wins_over_the_alphabet() {
    let text = "[Zeta]\nz = \"z.sh\"\nb = \"b.sh\"\n[Alpha]\na = \"a.sh\"\n";
    let catalog = load_config(text, "").unwrap();
    assert_eq!(catalog.categories[0].name, "Zeta");
    assert_eq!(catalog.categories[1].name, "Alpha");
    assert_eq!(catalog.categories[0].programs[0].name, "z");
    assert_eq!(catalog.categories[0].programs[1].name, "b");
    assert_eq!(catalog.categories[0].programs[1].script, "b.sh");
}

#[test]
fn no_loaded_program_is_a_favorite() {
    let catalog = load_config("[A]\nx = \"x.sh\"\ny = \"y.sh\"\n", ".").unwrap();
    assert!(catalog.categories[0].programs.iter().all(|p| !p.is_favorite));
    assert_eq!(catalog.categories[0].programs[1].script, "./y.sh");
}

#[test]
fn empty_document_is_an_empty_catalog() {
    assert_eq!(load_config("", "tools"), Ok(Catalog::new(vec![])));
    assert_eq!(
        load_config("[Empty]\n", "tools"),
        Ok(Catalog::new(vec![Category::new("Empty".to_string(), vec![])]))
    );
}

#[test]
fn malformed_text_is_rejected() {
    match load_config("[Network\nping = ", "tools") {
        Err(ConfigError::Malformed(message)) => assert!(!message.is_empty()),
        other => panic!("unexpected: {:?}", other),
    }
    assert!(matches!(load_config("ping = = 3", "tools"), Err(ConfigError::Malformed(_))));
}

#[test]
fn top_level_value_must_be_a_table() {
    assert_eq!(
        load_config("title = \"tools\"\n[Network]\nping = \"ping.sh\"\n", "tools"),
        Err(ConfigError::NotATable("title".to_string()))
    );
}

#[test]
fn program_path_must_be_a_string() {
    assert_eq!(
        load_config("[Network]\nping = \"ping.sh\"\ncount = 80\n", "tools"),
        Err(ConfigError::NotAString("Network".to_string(), "count".to_string()))
    );
    assert_eq!(
        load_config("[Network]\nping = \"ping.sh\"\n[Network.nested]\nx = \"x.sh\"\n", "tools"),
        Err(ConfigError::NotAString("Network".to_string(), "nested".to_string()))
    );
}

#[test]
fn first_error_in_the_document_decides() {
    assert_eq!(
        load_config("[A]\nx = 1\ny = true\n[B]\nz = 2\n", "tools"),
        Err(ConfigError::NotAString("A".to_string(), "x".to_string()))
    );
    assert_eq!(
        load_config("first = 1\n[A]\nx = 1\n", "tools"),
        Err(ConfigError::NotATable("first".to_string()))
    );
}

#[test]
fn catalog_is_built_from_a_table() {
    let mut programs = toml::Table::new();
    programs.insert("ping".to_string(), toml::Value::String("ping.sh".to_string()));
    let mut document = toml::Table::new();
    document.insert("Network".to_string(), toml::Value::Table(programs));
    assert_eq!(
        build_catalog(&document, "/opt/tools/"),
        Ok(Catalog::new(vec![Category::new(
            "Network".to_string(),
            vec![program("ping", "/opt/tools/ping.sh")]
        )]))
    );
    document.insert("Count".to_string(), toml::Value::Integer(3));
    assert_eq!(
        build_catalog(&document, "/opt/tools/"),
        Err(ConfigError::NotATable("Count".to_string()))
    );
}

#[test]
fn paths_are_joined_as_on_unix() {
    assert_eq!(join_path("", "ping.sh"), "ping.sh");
    assert_eq!(join_path(".", "ping.sh"), "./ping.sh");
    assert_eq!(join_path("tools", "net/ping.sh"), "tools/net/ping.sh");
    assert_eq!(join_path("tools/", "ping.sh"), "tools/ping.sh");
    assert_eq!(join_path("/", "ping.sh"), "/ping.sh");
    assert_eq!(join_path("tools", "/usr/bin/ping"), "/usr/bin/ping");
    assert_eq!(join_path("tools", ""), "tools/");
    assert_eq!(join_path("", ""), "");
    assert_eq!(join_path("äö", "ü.sh"), "äö/ü.sh");
}

#[test]
fn joined_paths_agree_with_the_standard_library() {
    let dirs = ["", ".", "tools", "tools/", "/", "/opt/x", "a/b/"];
    let paths = ["ping.sh", "net/ping.sh", "/abs.sh", "", "./x.sh"];
    for dir in dirs {
        for path in paths {
            let expected = std::path::Path::new(dir).join(path);
            assert_eq!(join_path(dir, path), expected.to_str().unwrap());
        }
    }
}
