//! Saved SSH connections: where the list is kept, how it is searched and
//! changed, and what is handed to `ssh` to open one.

use crate::text::{decimal, parse_i64, parsed_i64, to_decimal, trim, trimmed};
use vstd::prelude::*;
use vstd::string::StringExecFns;

verus! {

/// Asks `dirs::home_dir` for the home directory of the current user and
/// hands it on as text. The answer depends on the environment, so nothing is
/// claimed of it. A home directory whose name is not valid Unicode counts as
/// none.
#[verifier::external_body]
fn home_directory() -> (home: Option<String>) {
    match dirs::home_dir() {
        Some(path) => path.into_os_string().into_string().ok(),
        None => None,
    }
}

/// `name` placed in the directory `base`: with a `/` between the two,
/// unless `base` is empty or ends in one.
pub open spec fn joined(base: Seq<char>, name: Seq<char>) -> Seq<char> {
    if base.len() > 0 && base.last() != '/' {
        base.push('/') + name
    } else {
        base + name
    }
}

/// The directory that holds the toolkit's files, for the home directory `home`.
pub open spec fn config_dir(home: Seq<char>) -> Seq<char> {
    joined(home, ".oat"@)
}

/// The file that holds the saved connections, for the home directory `home`.
pub open spec fn config_file(home: Seq<char>) -> Seq<char> {
    joined(config_dir(home), "ssh_config.json"@)
}

/// Last character of `text`, if it has one.
fn last_char(text: &str) -> (last: Option<char>)
    ensures
        match last {
            Some(c) => text@.len() > 0 && c == text@.last(),
            None => text@.len() == 0,
        },
{
    let mut last: Option<char> = None;
    for c in it: text.chars()
        invariant
            it.seq() == text@,
            match last {
                Some(c) => it.index() > 0 && c == text@[it.index() - 1],
                None => it.index() == 0,
            },
    {
        last = Some(c);
    }
    last
}

/// Places `name` in the directory `base`.
pub fn join_path(base: &str, name: &str) -> (path: String)
    ensures
        path@ == joined(base@, name@),
{
    let mut path = base.to_owned();
    match last_char(base) {
        Some(c) => {
            if c != '/' {
                path.append("/");
                proof {
                    reveal_strlit("/");
                    assert("/"@ =~= seq!['/']);
                    assert(path@ =~= base@.push('/'));
                }
            }
        },
        None => {},
    }
    path.append(name);
    path
}

/// The directory that holds the toolkit's files, below the home directory `home`.
pub fn config_path_in(home: &str) -> (path: String)
    ensures
        path@ == config_dir(home@),
{
    join_path(home, ".oat")
}

/// The file that holds the saved connections, below the home directory `home`.
pub fn config_file_path_in(home: &str) -> (path: String)
    ensures
        path@ == config_file(home@),
{
    let dir = config_path_in(home);
    join_path(dir.as_str(), "ssh_config.json")
}

/// The directory that holds the toolkit's files, or `None` where the user
/// has no home directory.
pub fn get_config_path() -> (path: Option<String>)
    ensures
        path matches Some(p) ==> exists|home: Seq<char>| p@ == config_dir(home),
{
    match home_directory() {
        Some(home) => Some(config_path_in(home.as_str())),
        None => None,
    }
}

/// The file that holds the saved connections, or `None` where the user has
/// no home directory.
pub fn get_config_file_path() -> (path: Option<String>)
    ensures
        path matches Some(p) ==> exists|home: Seq<char>| p@ == config_file(home),
{
    match home_directory() {
        Some(home) => Some(config_file_path_in(home.as_str())),
        None => None,
    }
}

/// Port on which `ssh` listens where none is named.
pub const DEFAULT_PORT: u16 = 22;

/// A saved connection.
#[derive(Debug)]
pub struct SshConnection {
    /// Name under which the connection is saved.
    pub name: String,
    /// User to log in as.
    pub user: String,
    /// Host name or address.
    pub host: String,
    /// Port of the `ssh` service.
    pub port: u16,
    /// Path of the private key to log in with, if any.
    pub identity_file: Option<String>,
}

/// The mathematical content of an [`SshConnection`].
pub struct ConnectionSpec {
    pub name: Seq<char>,
    pub user: Seq<char>,
    pub host: Seq<char>,
    pub port: u16,
    pub identity_file: Option<Seq<char>>,
}

impl View for SshConnection {
    type V = ConnectionSpec;

    open spec fn view(&self) -> ConnectionSpec {
        ConnectionSpec {
            name: self.name@,
            user: self.user@,
            host: self.host@,
            port: self.port,
            identity_file: match self.identity_file {
                Some(path) => Some(path@),
                None => None,
            },
        }
    }
}

/// The contents of a list of connections, in order.
pub open spec fn contents(connections: Seq<SshConnection>) -> Seq<ConnectionSpec> {
    connections.map_values(|c: SshConnection| c@)
}

/// Whether a connection in `list` goes by `name`.
pub open spec fn has_name(list: Seq<ConnectionSpec>, name: Seq<char>) -> bool {
    exists|i: int| 0 <= i < list.len() && (#[trigger] list[i]).name == name
}

/// `list` without the connections that go by `name`, the others in their order.
pub open spec fn without_name(list: Seq<ConnectionSpec>, name: Seq<char>) -> Seq<ConnectionSpec>
    decreases list.len(),
{
    if list.len() == 0 {
        Seq::empty()
    } else if list.last().name == name {
        without_name(list.drop_last(), name)
    } else {
        without_name(list.drop_last(), name).push(list.last())
    }
}

/// Looks for the first connection that goes by `name`.
pub fn find_connection(connections: &Vec<SshConnection>, name: &str) -> (found: Option<usize>)
    ensures
        match found {
            Some(i) => {
                &&& i < connections@.len()
                &&& connections@[i as int]@.name == name@
                &&& forall|j: int| 0 <= j < i ==> connections@[j]@.name != name@
            },
            None => !has_name(contents(connections@), name@),
        },
{
    let mut i: usize = 0;
    while i < connections.len()
        invariant
            i <= connections@.len(),
            forall|j: int| 0 <= j < i ==> connections@[j]@.name != name@,
        decreases connections@.len() - i,
    {
        if *connections[i].name.as_str() == *name {
            return Some(i);
        }
        i += 1;
    }
    None
}

/// Whether a connection in the list goes by `name`.
pub fn has_connection(connections: &Vec<SshConnection>, name: &str) -> (found: bool)
    ensures
        found == has_name(contents(connections@), name@),
{
    match find_connection(connections, name) {
        Some(i) => {
            assert(contents(connections@)[i as int].name == name@);
            true
        },
        None => false,
    }
}

/// Removes every connection that goes by `name` and keeps the others in
/// their order.
pub fn remove_connection(connections: &mut Vec<SshConnection>, name: &str)
    ensures
        contents(final(connections)@) == without_name(contents(old(connections)@), name@),
{
    let ghost before = contents(connections@);
    let mut kept: Vec<SshConnection> = Vec::new();
    let mut rest: Vec<SshConnection> = Vec::new();
    std::mem::swap(&mut rest, connections);
    // taken from the end, so what is kept comes out reversed
    while rest.len() > 0
        invariant
            rest@.len() <= before.len(),
            contents(rest@) == before.take(rest@.len() as int),
            without_name(before, name@) == without_name(contents(rest@), name@) + contents(
                kept@,
            ).reverse(),
        decreases rest@.len(),
    {
        let ghost longer = contents(rest@);
        let last = rest.pop().unwrap();
        proof {
            assert(contents(rest@) =~= longer.drop_last());
            assert(longer.last() == last@);
            assert(longer.drop_last() =~= before.take(rest@.len() as int));
        }
        if *last.name.as_str() != *name {
            let ghost shorter_kept = contents(kept@);
            kept.push(last);
            proof {
                assert(contents(kept@) =~= shorter_kept.push(last@));
                assert(contents(kept@).reverse() =~= seq![last@] + shorter_kept.reverse());
                assert(without_name(longer, name@) + shorter_kept.reverse() =~= without_name(
                    longer.drop_last(),
                    name@,
                ) + (seq![last@] + shorter_kept.reverse()));
            }
        }
    }
    assert(contents(rest@) =~= Seq::<ConnectionSpec>::empty());
    assert(without_name(before, name@) =~= contents(kept@).reverse());
    while kept.len() > 0
        invariant
            without_name(before, name@) == contents(connections@) + contents(kept@).reverse(),
        decreases kept@.len(),
    {
        let ghost longer = contents(kept@);
        let ghost so_far = contents(connections@);
        let next = kept.pop().unwrap();
        connections.push(next);
        proof {
            assert(contents(kept@) =~= longer.drop_last());
            assert(contents(connections@) =~= so_far.push(next@));
            assert(longer.reverse() =~= seq![next@] + longer.drop_last().reverse());
            assert(so_far + longer.reverse() =~= so_far.push(next@) + longer.drop_last().reverse());
        }
    }
    assert(contents(kept@).reverse() =~= Seq::<ConnectionSpec>::empty());
}

/// What is handed to `ssh` to open a connection: the key where one is
/// named, the port where it is not the usual one, and then the user at the
/// host.
pub open spec fn arguments(c: ConnectionSpec) -> Seq<Seq<char>> {
    let key = match c.identity_file {
        Some(path) => seq!["-i"@, path],
        None => Seq::empty(),
    };
    let port = if c.port != DEFAULT_PORT {
        seq!["-p"@, decimal(c.port as nat)]
    } else {
        Seq::empty()
    };
    key + port + seq![c.user + "@"@ + c.host]
}

/// Lists what is handed to `ssh` to open `connection`.
pub fn ssh_arguments(connection: &SshConnection) -> (args: Vec<String>)
    ensures
        args.deep_view() == arguments(connection@),
{
    let mut args: Vec<String> = Vec::new();
    match &connection.identity_file {
        Some(path) => {
            args.push("-i".to_owned());
            args.push(path.clone());
        },
        None => {},
    }
    if connection.port != DEFAULT_PORT {
        args.push("-p".to_owned());
        args.push(to_decimal(connection.port as u64));
    }
    let mut target = connection.user.clone();
    target.append("@");
    target.append(connection.host.as_str());
    args.push(target);
    assert(args.deep_view() =~= arguments(connection@));
    args
}

/// The answer to a prompt: what was typed, without the white space around
/// it, or the default where nothing else was typed; empty where there is no
/// default either.
pub open spec fn answer(input: Seq<char>, default: Option<Seq<char>>) -> Seq<char> {
    if trimmed(input).len() == 0 {
        match default {
            Some(d) => d,
            None => Seq::empty(),
        }
    } else {
        trimmed(input)
    }
}

/// Works out the answer to a prompt from the line that was typed.
pub fn answer_or_default(input: &str, default: Option<&str>) -> (text: String)
    ensures
        text@ == answer(
            input@,
            match default {
                Some(d) => Some(d@),
                None => None,
            },
        ),
{
    let inner = trim(input);
    if inner.as_str().unicode_len() == 0 {
        match default {
            Some(d) => d.to_owned(),
            None => String::new(),
        }
    } else {
        inner
    }
}

/// The port that `text` writes: decimal digits, with a `+` in front if at
/// all signed, for a number up to 65535.
pub open spec fn parsed_port(text: Seq<char>) -> Option<u16> {
    if text.len() > 0 && text[0] == '-' {
        None
    } else {
        match parsed_i64(text) {
            Some(n) => if 0 <= n <= u16::MAX {
                Some(n as u16)
            } else {
                None
            },
            None => None,
        }
    }
}

/// Reads a port number.
pub fn parse_port(text: &str) -> (port: Option<u16>)
    ensures
        port == parsed_port(text@),
{
    if text.unicode_len() > 0 && text.get_char(0) == '-' {
        return None;
    }
    match parse_i64(text) {
        Some(n) => if 0 <= n && n <= 65535 {
            Some(n as u16)
        } else {
            None
        },
        None => None,
    }
}

/// The key file that an answer names: none where the answer is empty or
/// the word `none`.
pub fn identity_from_answer(answer: String) -> (identity: Option<String>)
    ensures
        match identity {
            Some(path) => path@ == answer@ && answer@.len() > 0 && answer@ != "none"@,
            None => answer@.len() == 0 || answer@ == "none"@,
        },
{
    if answer.as_str().unicode_len() == 0 || *answer.as_str() == *"none" {
        None
    } else {
        Some(answer)
    }
}

/// The flags of the command that adds a connection, as the command line
/// gave them.
#[derive(Debug)]
pub struct ConnectionFlags {
    /// `--name`, if given.
    pub name: Option<String>,
    /// `--user`, if given.
    pub user: Option<String>,
    /// `--host`, if given.
    pub host: Option<String>,
    /// `--port`, if given.
    pub port: Option<isize>,
    /// `--identity-file`, if given.
    pub identity_file: Option<String>,
}

/// Why the flags describe no connection.
#[derive(Clone, Copy, Debug, PartialEq, Eq, Structural)]
pub enum FlagProblem {
    /// `--name` is not given though another flag is.
    NameMissing,
    /// `--name` is given and empty.
    NameEmpty,
    /// `--user` is not given.
    UserMissing,
    /// `--user` is given and empty.
    UserEmpty,
    /// `--host` is not given.
    HostMissing,
    /// `--host` is given and empty.
    HostEmpty,
}

impl FlagProblem {
    /// The text shown for this problem, if any is shown.
    pub fn message(&self) -> (text: Option<&'static str>)
        ensures
            match *self {
                FlagProblem::NameMissing => text matches Some(t) && t@ == "--name is required"@,
                FlagProblem::UserMissing => text matches Some(t) && t@ == "--user is required"@,
                FlagProblem::HostMissing => text matches Some(t) && t@ == "--host is required"@,
                _ => text is None,
            },
    {
        match self {
            FlagProblem::NameMissing => Some("--name is required"),
            FlagProblem::UserMissing => Some("--user is required"),
            FlagProblem::HostMissing => Some("--host is required"),
            _ => None,
        }
    }
}

/// The first problem of a required flag: missing, or given and empty.
pub open spec fn flag_problem(
    value: Option<String>,
    missing: FlagProblem,
    empty: FlagProblem,
) -> Option<FlagProblem> {
    match value {
        None => Some(missing),
        Some(text) => if text@.len() == 0 {
            Some(empty)
        } else {
            None
        },
    }
}

/// Whether the flags leave everything to be asked: none of name, user and
/// host is given.
pub open spec fn asks_interactively(flags: ConnectionFlags) -> bool {
    flags.name is None && flags.user is None && flags.host is None
}

/// The first problem among the flags, name before user before host.
pub open spec fn first_problem(flags: ConnectionFlags) -> Option<FlagProblem> {
    match flag_problem(flags.name, FlagProblem::NameMissing, FlagProblem::NameEmpty) {
        Some(p) => Some(p),
        None => match flag_problem(flags.user, FlagProblem::UserMissing, FlagProblem::UserEmpty) {
            Some(p) => Some(p),
            None => flag_problem(flags.host, FlagProblem::HostMissing, FlagProblem::HostEmpty),
        },
    }
}

/// Builds the connection that the flags describe. `Ok(None)` says that the
/// flags name nothing and everything is to be asked.
pub fn connection_from_flags(flags: ConnectionFlags) -> (r: Result<
    Option<SshConnection>,
    FlagProblem,
>)
    ensures
        match r {
            Ok(None) => asks_interactively(flags),
            Ok(Some(c)) => {
                &&& !asks_interactively(flags)
                &&& first_problem(flags) is None
                &&& c@.name == flags.name->0@
                &&& c@.user == flags.user->0@
                &&& c@.host == flags.host->0@
                &&& c@.port == match flags.port {
                    Some(n) => n as u16,
                    None => DEFAULT_PORT,
                }
                &&& c.identity_file == flags.identity_file
            },
            Err(p) => !asks_interactively(flags) && first_problem(flags) == Some(p),
        },
{
    if flags.name.is_none() && flags.user.is_none() && flags.host.is_none() {
        return Ok(None);
    }
    let name = match flags.name {
        None => {
            return Err(FlagProblem::NameMissing);
        },
        Some(name) => name,
    };
    if name.as_str().unicode_len() == 0 {
        return Err(FlagProblem::NameEmpty);
    }
    let user = match flags.user {
        None => {
            return Err(FlagProblem::UserMissing);
        },
        Some(user) => user,
    };
    if user.as_str().unicode_len() == 0 {
        return Err(FlagProblem::UserEmpty);
    }
    let host = match flags.host {
        None => {
            return Err(FlagProblem::HostMissing);
        },
        Some(host) => host,
    };
    if host.as_str().unicode_len() == 0 {
        return Err(FlagProblem::HostEmpty);
    }
    let port = match flags.port {
        Some(n) => n as u16,
        None => DEFAULT_PORT,
    };
    Ok(Some(SshConnection { name, user, host, port, identity_file: flags.identity_file }))
}

/// Saves `connection` in the list. Connections that already go by its name
/// are dropped first; where there is one and `overwrite` is not given,
/// nothing changes and the result is `false`.
pub fn add_connection(
    connections: &mut Vec<SshConnection>,
    connection: SshConnection,
    overwrite: bool,
) -> (saved: bool)
    ensures
        saved == (overwrite || !has_name(contents(old(connections)@), connection@.name)),
        saved ==> contents(final(connections)@) == without_name(
            contents(old(connections)@),
            connection@.name,
        ).push(connection@),
        !saved ==> final(connections)@ == old(connections)@,
{
    let taken = has_connection(connections, connection.name.as_str());
    if taken && !overwrite {
        return false;
    }
    remove_connection(connections, connection.name.as_str());
    let ghost shorter = contents(connections@);
    connections.push(connection);
    assert(contents(connections@) =~= shorter.push(connection@));
    true
}

/// Puts `updated` in the place of the connection that goes by `former`.
/// Where `updated` has another name and that name is taken by a connection
/// that stays, nothing changes and the result is `false`.
pub fn replace_connection(
    connections: &mut Vec<SshConnection>,
    former: &str,
    updated: SshConnection,
) -> (replaced: bool)
    ensures
        replaced == !(updated@.name != former@ && has_name(
            without_name(contents(old(connections)@), former@),
            updated@.name,
        )),
        replaced ==> contents(final(connections)@) == without_name(
            contents(old(connections)@),
            former@,
        ).push(updated@),
        !replaced ==> final(connections)@ == old(connections)@,
{
    if *updated.name.as_str() != *former {
        // the connections that stay are those with another name than `former`
        let mut i: usize = 0;
        while i < connections.len()
            invariant
                i <= connections@.len(),
                updated@.name != former@,
                forall|j: int|
                    0 <= j < i ==> (#[trigger] connections@[j])@.name != updated@.name,
            decreases connections@.len() - i,
        {
            if *connections[i].name.as_str() == *updated.name.as_str() {
                proof {
                    lemma_kept_has_name(contents(connections@), former@, i as int);
                }
                return false;
            }
            i += 1;
        }
        proof {
            lemma_kept_names(contents(connections@), former@, updated@.name);
        }
    } else {
        proof {
            lemma_kept_lacks_name(contents(connections@), former@);
        }
    }
    remove_connection(connections, former);
    let ghost shorter = contents(connections@);
    connections.push(updated);
    assert(contents(connections@) =~= shorter.push(updated@));
    true
}

/// A connection with another name than the one removed stays in the list.
proof fn lemma_kept_has_name(list: Seq<ConnectionSpec>, removed: Seq<char>, i: int)
    requires
        0 <= i < list.len(),
        list[i].name != removed,
    ensures
        has_name(without_name(list, removed), list[i].name),
    decreases list.len(),
{
    let rest = without_name(list.drop_last(), removed);
    if i == list.len() - 1 {
        assert(without_name(list, removed) == rest.push(list.last()));
        assert(without_name(list, removed)[rest.len() as int].name == list[i].name);
    } else {
        lemma_kept_has_name(list.drop_last(), removed, i);
        let k = choose|k: int| 0 <= k < rest.len() && (#[trigger] rest[k]).name == list[i].name;
        if list.last().name == removed {
        } else {
            assert(without_name(list, removed)[k] == rest[k]);
        }
    }
}

/// What stays in the list was in the list.
proof fn lemma_kept_names(list: Seq<ConnectionSpec>, removed: Seq<char>, name: Seq<char>)
    requires
        forall|j: int| 0 <= j < list.len() ==> (#[trigger] list[j]).name != name,
    ensures
        !has_name(without_name(list, removed), name),
    decreases list.len(),
{
    if list.len() > 0 {
        let shorter = list.drop_last();
        assert forall|j: int| 0 <= j < shorter.len() implies (#[trigger] shorter[j]).name
            != name by {
            assert(shorter[j] == list[j]);
        }
        lemma_kept_names(shorter, removed, name);
        let rest = without_name(shorter, removed);
        let kept = without_name(list, removed);
        assert forall|k: int| 0 <= k < kept.len() implies (#[trigger] kept[k]).name != name by {
            if k < rest.len() {
                assert(kept[k] == rest[k]);
            } else {
                assert(kept[k] == list.last());
                assert(list[list.len() - 1].name != name);
            }
        }
    }
}

/// Nothing that stays in the list goes by the name that was removed.
proof fn lemma_kept_lacks_name(list: Seq<ConnectionSpec>, removed: Seq<char>)
    ensures
        !has_name(without_name(list, removed), removed),
    decreases list.len(),
{
    if list.len() > 0 {
        lemma_kept_lacks_name(list.drop_last(), removed);
        let rest = without_name(list.drop_last(), removed);
        let kept = without_name(list, removed);
        assert forall|k: int| 0 <= k < kept.len() implies (#[trigger] kept[k]).name
            != removed by {
            if k < rest.len() {
                assert(kept[k] == rest[k]);
            }
        }
    }
}

} // verus!
