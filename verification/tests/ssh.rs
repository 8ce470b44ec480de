use oat::ssh::FlagProblem;
use oat::ssh::{config_file_path_in, config_path_in, get_config_file_path, get_config_path, join_path};

#[test]
fn paths_are_joined_with_one_separator() {
    assert_eq!(join_path("/home/alice", ".oat"), "/home/alice/.oat");
    assert_eq!(join_path("/home/alice/", ".oat"), "/home/alice/.oat");
    assert_eq!(join_path("/", ".oat"), "/.oat");
    assert_eq!(join_path("", ".oat"), ".oat");
    assert_eq!(join_path("rel", "a/b"), "rel/a/b");
}

#[test]
fn config_lives_below_the_home_directory() {
    assert_eq!(config_path_in("/home/alice"), "/home/alice/.oat");
    assert_eq!(config_file_path_in("/home/alice"), "/home/alice/.oat/ssh_config.json");
    assert_eq!(config_file_path_in("/Users/Alice/"), "/Users/Alice/.oat/ssh_config.json");
}

#[test]
fn config_file_is_in_the_config_directory() {
    match (get_config_path(), get_config_file_path()) {
        (Some(dir), Some(file)) => {
            assert!(dir.ends_with(".oat"));
            assert_eq!(file, format!("{}/ssh_config.json", dir));
        }
        (None, None) => {}
        _ => panic!("home directory found by one and not by the other"),
    }
}

fn conn(name: &str, port: u16, key: Option<&str>) -> oat::ssh::SshConnection {
    oat::ssh::SshConnection {
        name: name.to_string(),
        user: "alice".to_string(),
        host: format!("{}.example.org", name),
        port,
        identity_file: key.map(|k| k.to_string()),
    }
}

fn names(list: &Vec<oat::ssh::SshConnection>) -> Vec<String> {
    list.iter().map(|c| c.name.clone()).collect()
}

#[test]
fn connections_are_found_by_name() {
    let list = vec![conn("web", 22, None), conn("db", 22, None), conn("web", 2222, None)];
    assert_eq!(oat::ssh::find_connection(&list, "web"), Some(0));
    assert_eq!(oat::ssh::find_connection(&list, "db"), Some(1));
    assert_eq!(oat::ssh::find_connection(&list, "mail"), None);
    assert_eq!(oat::ssh::find_connection(&Vec::new(), "web"), None);
    assert!(oat::ssh::has_connection(&list, "db"));
    assert!(!oat::ssh::has_connection(&list, "DB"));
}

#[test]
fn removing_keeps_the_others_in_order() {
    let mut list = vec![
        conn("a", 22, None),
        conn("x", 22, None),
        conn("b", 22, None),
        conn("x", 23, None),
        conn("c", 22, None),
    ];
    oat::ssh::remove_connection(&mut list, "x");
    assert_eq!(names(&list), vec!["a", "b", "c"]);
    oat::ssh::remove_connection(&mut list, "nobody");
    assert_eq!(names(&list), vec!["a", "b", "c"]);
    oat::ssh::remove_connection(&mut list, "a");
    oat::ssh::remove_connection(&mut list, "c");
    oat::ssh::remove_connection(&mut list, "b");
    assert!(list.is_empty());
}

#[test]
fn arguments_for_ssh() {
    let args = |c: &oat::ssh::SshConnection| oat::ssh::ssh_arguments(c);
    assert_eq!(args(&conn("web", 22, None)), vec!["alice@web.example.org"]);
    assert_eq!(args(&conn("web", 2222, None)), vec!["-p", "2222", "alice@web.example.org"]);
    assert_eq!(
        args(&conn("web", 22, Some("~/.ssh/id"))),
        vec!["-i", "~/.ssh/id", "alice@web.example.org"]
    );
    assert_eq!(
        args(&conn("web", 65535, Some("k"))),
        vec!["-i", "k", "-p", "65535", "alice@web.example.org"]
    );
    assert_eq!(args(&conn("web", 0, None)), vec!["-p", "0", "alice@web.example.org"]);
}

#[test]
fn answers_fall_back_to_the_default() {
    assert_eq!(oat::ssh::answer_or_default("  bob \n", Some("alice")), "bob");
    assert_eq!(oat::ssh::answer_or_default("\n", Some("alice")), "alice");
    assert_eq!(oat::ssh::answer_or_default("", Some("22")), "22");
    assert_eq!(oat::ssh::answer_or_default("   ", None), "");
    assert_eq!(oat::ssh::answer_or_default("x", None), "x");
}

#[test]
fn ports_are_read_as_std_reads_them() {
    for text in ["22", "0", "65535", "65536", "+22", "-22", "-0", "", "ssh", " 22", "0022", "99999999999999999999"] {
        assert_eq!(oat::ssh::parse_port(text), text.parse::<u16>().ok(), "{:?}", text);
    }
    assert_eq!(oat::ssh::parse_port("2222"), Some(2222));
    assert_eq!(oat::ssh::parse_port("65536"), None);
}

#[test]
fn identity_answers() {
    assert_eq!(oat::ssh::identity_from_answer(String::new()), None);
    assert_eq!(oat::ssh::identity_from_answer("none".to_string()), None);
    assert_eq!(oat::ssh::identity_from_answer("None".to_string()), Some("None".to_string()));
    assert_eq!(oat::ssh::identity_from_answer("~/.ssh/id".to_string()), Some("~/.ssh/id".to_string()));
}

fn flags(name: Option<&str>, user: Option<&str>, host: Option<&str>) -> oat::ssh::ConnectionFlags {
    oat::ssh::ConnectionFlags {
        name: name.map(|s| s.to_string()),
        user: user.map(|s| s.to_string()),
        host: host.map(|s| s.to_string()),
        port: None,
        identity_file: None,
    }
}

#[test]
fn flags_without_name_user_and_host_ask_interactively() {
    assert!(matches!(oat::ssh::connection_from_flags(flags(None, None, None)), Ok(None)));
    let mut only_port = flags(None, None, None);
    only_port.port = Some(2222);
    only_port.identity_file = Some("k".to_string());
    assert!(matches!(oat::ssh::connection_from_flags(only_port), Ok(None)));
}

#[test]
fn flags_report_the_first_problem() {
    let problem = |f| oat::ssh::connection_from_flags(f).unwrap_err();
    assert_eq!(problem(flags(None, Some("u"), Some("h"))), FlagProblem::NameMissing);
    assert_eq!(problem(flags(None, None, Some("h"))), FlagProblem::NameMissing);
    assert_eq!(problem(flags(Some(""), None, None)), FlagProblem::NameEmpty);
    assert_eq!(problem(flags(Some("n"), None, Some("h"))), FlagProblem::UserMissing);
    assert_eq!(problem(flags(Some("n"), Some(""), None)), FlagProblem::UserEmpty);
    assert_eq!(problem(flags(Some("n"), Some("u"), None)), FlagProblem::HostMissing);
    assert_eq!(problem(flags(Some("n"), Some("u"), Some(""))), FlagProblem::HostEmpty);
    assert_eq!(FlagProblem::NameMissing.message(), Some("--name is required"));
    assert_eq!(FlagProblem::UserMissing.message(), Some("--user is required"));
    assert_eq!(FlagProblem::HostMissing.message(), Some("--host is required"));
    assert_eq!(FlagProblem::NameEmpty.message(), None);
    assert_eq!(FlagProblem::UserEmpty.message(), None);
    assert_eq!(FlagProblem::HostEmpty.message(), None);
}

#[test]
fn flags_give_a_connection() {
    let c = oat::ssh::connection_from_flags(flags(Some("web"), Some("bob"), Some("h"))).unwrap().unwrap();
    assert_eq!((c.name.as_str(), c.user.as_str(), c.host.as_str()), ("web", "bob", "h"));
    assert_eq!(c.port, 22);
    assert_eq!(c.identity_file, None);
    let mut f = flags(Some("web"), Some("bob"), Some("h"));
    f.port = Some(2222);
    f.identity_file = Some("key".to_string());
    let c = oat::ssh::connection_from_flags(f).unwrap().unwrap();
    assert_eq!(c.port, 2222);
    assert_eq!(c.identity_file, Some("key".to_string()));
    let mut f = flags(Some("web"), Some("bob"), Some("h"));
    f.port = Some(65536 + 22);
    assert_eq!(oat::ssh::connection_from_flags(f).unwrap().unwrap().port, 22);
    let mut f = flags(Some("web"), Some("bob"), Some("h"));
    f.port = Some(-1);
    assert_eq!(oat::ssh::connection_from_flags(f).unwrap().unwrap().port, 65535);
}

#[test]
fn adding_asks_before_it_overwrites() {
    let mut list = vec![conn("a", 22, None), conn("b", 22, None)];
    assert!(oat::ssh::add_connection(&mut list, conn("c", 22, None), false));
    assert_eq!(names(&list), vec!["a", "b", "c"]);
    assert!(!oat::ssh::add_connection(&mut list, conn("a", 2222, None), false));
    assert_eq!(names(&list), vec!["a", "b", "c"]);
    assert_eq!(list[0].port, 22);
    assert!(oat::ssh::add_connection(&mut list, conn("a", 2222, None), true));
    assert_eq!(names(&list), vec!["b", "c", "a"]);
    assert_eq!(list[2].port, 2222);
}

#[test]
fn editing_moves_the_connection_to_the_end() {
    let mut list = vec![conn("a", 22, None), conn("b", 22, None), conn("c", 22, None)];
    assert!(oat::ssh::replace_connection(&mut list, "a", conn("a", 2200, None)));
    assert_eq!(names(&list), vec!["b", "c", "a"]);
    assert_eq!(list[2].port, 2200);
    assert!(oat::ssh::replace_connection(&mut list, "b", conn("z", 22, None)));
    assert_eq!(names(&list), vec!["c", "a", "z"]);
}

#[test]
fn editing_refuses_a_name_that_is_taken() {
    let mut list = vec![conn("a", 22, None), conn("b", 22, None)];
    assert!(!oat::ssh::replace_connection(&mut list, "a", conn("b", 2200, None)));
    assert_eq!(names(&list), vec!["a", "b"]);
    assert_eq!(list[1].port, 22);
}
