//! Backend client: connection configuration and the resolution of symbolic
//! names (user, node) to the numeric identities the remote management API
//! assigns.
//!
//! The HTTP transport is an external collaborator: the embedding program
//! performs the wire call (the URL and the bearer header are built here) and
//! hands the raw response back as a plain [`Response`] value.  Everything
//! from the status check on — body decoding, the exact-match scan of the
//! first result page, identity caching — is verified code.

use crate::json::{decode_id_name_list, id_name_list_of};
use vstd::prelude::*;
use vstd::string::StringExecFns;

verus! {

/// The numeric identities resolved once, after the configuration is valid.
#[derive(Clone, Copy, Debug)]
pub struct ResolvedValues {
    /// The id of the configured user in the remote user directory.
    pub user: u32,
}

/// Connection configuration plus, once resolution succeeded, the cached
/// identities.  A field is usable only when it is present and non-empty.
#[derive(Debug)]
pub struct Backend {
    pub url: Option<String>,
    pub token: Option<String>,
    pub user: Option<String>,
    pub resolved: Option<ResolvedValues>,
}

/// One user of the remote user directory.
pub struct RemoteUser {
    pub id: u32,
    pub username: String,
}

/// One worker node known to the remote management API.
pub struct RemoteNode {
    pub id: u32,
    pub name: String,
}

/// A raw HTTP response as the transport collaborator hands it over.
pub struct Response {
    pub status_code: u32,
    pub reason_phrase: String,
    pub bytes: Vec<u8>,
}

/// Which required configuration fields are missing, each by name.
#[derive(Debug)]
pub struct ConfigError {
    pub missing_url: bool,
    pub missing_token: bool,
    pub missing_user: bool,
}

/// Identity resolution failed for this configured username.
#[derive(Debug)]
pub struct ResolveError {
    pub username: String,
}

/// Why the backend client could not be brought up.
#[derive(Debug)]
pub enum BackendError {
    /// The configuration is incomplete.
    Config(ConfigError),
    /// The configuration is valid, but the configured user could not be
    /// resolved against the remote user directory.
    Resolve(ResolveError),
}

/// The value a configuration field takes once the environment is consulted:
/// an environment value overrides the persisted one field by field.
pub open spec fn chosen(file: Option<String>, env: Option<String>) -> Option<String> {
    if env is Some {
        env
    } else {
        file
    }
}

/// A required field is present when it is set and non-empty.
pub open spec fn field_present(f: Option<String>) -> bool {
    f matches Some(s) && s@.len() > 0
}

/// The position of the first user whose name matches exactly.
pub open spec fn first_user_match(users: Seq<RemoteUser>, name: Seq<char>, i: int) -> bool {
    &&& 0 <= i < users.len()
    &&& users[i].username@ == name
    &&& forall|j: int| 0 <= j < i ==> users[j].username@ != name
}

/// The position of the first node whose name matches exactly.
pub open spec fn first_node_match(nodes: Seq<RemoteNode>, name: Seq<char>, i: int) -> bool {
    &&& 0 <= i < nodes.len()
    &&& nodes[i].name@ == name
    &&& forall|j: int| 0 <= j < i ==> nodes[j].name@ != name
}

/// The decoded user page of a transport answer: present exactly for a
/// 200 answer whose body decodes as a user list.
pub open spec fn user_entries(response: Option<Response>) -> Option<Seq<(u32, Seq<char>)>> {
    match response {
        Some(resp) => if resp.status_code == 200 {
            id_name_list_of(resp.bytes@, "/attributes/username"@)
        } else {
            None
        },
        None => None,
    }
}

/// The decoded node page of a transport answer: present exactly for a
/// 200 answer whose body decodes as a node list.
pub open spec fn node_entries(response: Option<Response>) -> Option<Seq<(u32, Seq<char>)>> {
    match response {
        Some(resp) => if resp.status_code == 200 {
            id_name_list_of(resp.bytes@, "/attributes/name"@)
        } else {
            None
        },
        None => None,
    }
}

/// The position of the first decoded entry whose name matches exactly.
pub open spec fn first_entry_match(entries: Seq<(u32, Seq<char>)>, name: Seq<char>, i: int) -> bool {
    &&& 0 <= i < entries.len()
    &&& entries[i].1 == name
    &&& forall|j: int| 0 <= j < i ==> entries[j].1 != name
}

/// Some entry of the decoded page carries exactly this name.
pub open spec fn page_has_match(entries: Seq<(u32, Seq<char>)>, name: Seq<char>) -> bool {
    exists|i: int| 0 <= i < entries.len() && entries[i].1 == name
}

fn field_present_exec(f: &Option<String>) -> (r: bool)
    ensures
        r == field_present(*f),
{
    match f {
        Some(s) => !s.as_str().is_empty(),
        None => false,
    }
}

/// Keeps the body of a transport answer exactly when one arrived with the
/// expected status code; an absent answer or an unexpected status is a soft
/// failure.
pub fn handle_response(response: Option<Response>, expected_code: u32) -> (r: Option<Vec<u8>>)
    ensures
        match response {
            None => r is None,
            Some(resp) => if resp.status_code == expected_code {
                r matches Some(b) && b@ == resp.bytes@
            } else {
                r is None
            },
        },
{
    match response {
        None => None,
        Some(resp) => {
            if resp.status_code == expected_code {
                Some(resp.bytes)
            } else {
                None
            }
        },
    }
}

/// The first user in the list whose username equals `username` exactly
/// (case-sensitive); `None` when no user matches.
pub fn find_user(users: &Vec<RemoteUser>, username: &String) -> (r: Option<RemoteUser>)
    ensures
        match r {
            Some(u) => exists|i: int|
                #[trigger] first_user_match(users@, username@, i) && u.id == users@[i].id
                    && u.username@ == users@[i].username@,
            None => forall|i: int|
                0 <= i < users@.len() ==> users@[i].username@ != username@,
        },
{
    let mut i: usize = 0;
    while i < users.len()
        invariant
            i <= users@.len(),
            forall|j: int| 0 <= j < i ==> users@[j].username@ != username@,
        decreases users@.len() - i,
    {
        let entry = &users[i];
        if entry.username.eq(username) {
            proof {
                assert(first_user_match(users@, username@, i as int));
            }
            return Some(RemoteUser { id: entry.id, username: entry.username.clone() });
        }
        i = i + 1;
    }
    None
}

/// The first node in the list whose name equals `name` exactly
/// (case-sensitive); `None` when no node matches.
pub fn find_node(nodes: &Vec<RemoteNode>, name: &String) -> (r: Option<RemoteNode>)
    ensures
        match r {
            Some(n) => exists|i: int|
                #[trigger] first_node_match(nodes@, name@, i) && n.id == nodes@[i].id && n.name@
                    == nodes@[i].name@,
            None => forall|i: int| 0 <= i < nodes@.len() ==> nodes@[i].name@ != name@,
        },
{
    let mut i: usize = 0;
    while i < nodes.len()
        invariant
            i <= nodes@.len(),
            forall|j: int| 0 <= j < i ==> nodes@[j].name@ != name@,
        decreases nodes@.len() - i,
    {
        let entry = &nodes[i];
        if entry.name.eq(name) {
            proof {
                assert(first_node_match(nodes@, name@, i as int));
            }
            return Some(RemoteNode { id: entry.id, name: entry.name.clone() });
        }
        i = i + 1;
    }
    None
}

/// Identity resolution over one page of users: the id of the first exact
/// username match, or a failure naming the username that matched nothing.
pub fn resolve_user_id(users: &Vec<RemoteUser>, username: &String) -> (r: Result<u32, ResolveError>)
    ensures
        (r is Ok) <==> exists|i: int|
            0 <= i < users@.len() && #[trigger] users@[i].username@ == username@,
        r matches Ok(id) ==> exists|i: int|
            #[trigger] first_user_match(users@, username@, i) && users@[i].id == id,
        r matches Err(e) ==> e.username@ == username@,
{
    match find_user(users, username) {
        Some(u) => Ok(u.id),
        None => Err(ResolveError { username: username.clone() }),
    }
}

/// Decodes a user-list answer into typed users: a list exactly when the
/// answer arrived with status 200 and its body decodes, and then element
/// for element the decoded page.
fn users_from_response(response: Option<Response>) -> (r: Option<Vec<RemoteUser>>)
    ensures
        match r {
            Some(users) => user_entries(response) matches Some(s) && users@.len() == s.len()
                && forall|k: int|
                    0 <= k < s.len() ==> users@[k].id == s[k].0 && users@[k].username@ == s[k].1,
            None => user_entries(response) is None,
        },
{
    let bytes = match handle_response(response, 200) {
        Some(b) => b,
        None => {
            return None;
        },
    };
    let entries = match decode_id_name_list(bytes.as_slice(), "/attributes/username") {
        Some(e) => e,
        None => {
            return None;
        },
    };
    let mut users: Vec<RemoteUser> = Vec::new();
    let mut i: usize = 0;
    while i < entries.len()
        invariant
            i <= entries@.len(),
            users@.len() == i,
            forall|k: int|
                0 <= k < i ==> users@[k].id == entries@[k].0 && users@[k].username@
                    == entries@[k].1@,
        decreases entries@.len() - i,
    {
        let entry = &entries[i];
        users.push(RemoteUser { id: entry.0, username: entry.1.clone() });
        i = i + 1;
    }
    Some(users)
}

/// Decodes a node-list answer into typed nodes, as
/// [`users_from_response`] does for users.
fn nodes_from_response(response: Option<Response>) -> (r: Option<Vec<RemoteNode>>)
    ensures
        match r {
            Some(nodes) => node_entries(response) matches Some(s) && nodes@.len() == s.len()
                && forall|k: int|
                    0 <= k < s.len() ==> nodes@[k].id == s[k].0 && nodes@[k].name@ == s[k].1,
            None => node_entries(response) is None,
        },
{
    let bytes = match handle_response(response, 200) {
        Some(b) => b,
        None => {
            return None;
        },
    };
    let entries = match decode_id_name_list(bytes.as_slice(), "/attributes/name") {
        Some(e) => e,
        None => {
            return None;
        },
    };
    let mut nodes: Vec<RemoteNode> = Vec::new();
    let mut i: usize = 0;
    while i < entries.len()
        invariant
            i <= entries@.len(),
            nodes@.len() == i,
            forall|k: int|
                0 <= k < i ==> nodes@[k].id == entries@[k].0 && nodes@[k].name@ == entries@[k].1@,
        decreases entries@.len() - i,
    {
        let entry = &entries[i];
        nodes.push(RemoteNode { id: entry.0, name: entry.1.clone() });
        i = i + 1;
    }
    Some(nodes)
}

impl ResolvedValues {
    /// Resolves the configured user against the user-list answer: succeeds
    /// exactly when the decoded page holds an exact username match, and
    /// then caches the first match's id; every failure names the configured
    /// username.  Fatal to driver initialization when it fails.
    pub fn new_resolved(backend: &Backend, response: Option<Response>) -> (r: Result<
        ResolvedValues,
        ResolveError,
    >)
        requires
            backend.user is Some,
        ensures
            ({
                let name = backend.user->Some_0;
                match user_entries(response) {
                    Some(entries) => {
                        &&& (r is Ok) == page_has_match(entries, name@)
                        &&& (r matches Ok(rv) ==> exists|i: int|
                            #[trigger] first_entry_match(entries, name@, i) && rv.user
                                == entries[i].0)
                        &&& (r matches Err(e) ==> e.username@ == name@)
                    },
                    None => r matches Err(e) && e.username@ == name@,
                }
            }),
    {
        let username = match &backend.user {
            Some(u) => u,
            None => {
                proof {
                    assert(false);
                }
                return Err(ResolveError { username: String::new() });
            },
        };
        let users = match users_from_response(response) {
            Some(u) => u,
            None => {
                return Err(ResolveError { username: username.clone() });
            },
        };
        let resolved = resolve_user_id(&users, username);
        proof {
            let s = user_entries(response)->Some_0;
            if resolved is Ok {
                let i = choose|i: int|
                    #[trigger] first_user_match(users@, username@, i) && users@[i].id
                        == resolved->Ok_0;
                assert forall|j: int| 0 <= j < i implies s[j].1 != username@ by {
                    assert(users@[j].username@ != username@);
                }
                assert(first_entry_match(s, username@, i) && resolved->Ok_0 == s[i].0);
                assert(page_has_match(s, username@));
            } else {
                assert forall|i: int| 0 <= i < s.len() implies s[i].1 != username@ by {
                    assert(users@[i].username@ != username@);
                }
                assert(!page_has_match(s, username@));
            }
        }
        match resolved {
            Ok(id) => Ok(ResolvedValues { user: id }),
            Err(e) => Err(e),
        }
    }
}

impl Backend {
    /// A configuration whose required fields are all set and empty, with
    /// nothing resolved: the template persisted when none exists yet.
    pub fn new_empty() -> (r: Backend)
        ensures
            r.url matches Some(u) && u@.len() == 0,
            r.token matches Some(t) && t@.len() == 0,
            r.user matches Some(s) && s@.len() == 0,
            r.resolved is None,
    {
        Backend {
            url: Some(String::new()),
            token: Some(String::new()),
            user: Some(String::new()),
            resolved: None,
        }
    }

    /// The persisted configuration when one could be read, else the empty
    /// template.
    pub fn load_or_empty(file: Option<Backend>) -> (r: Backend)
        ensures
            file matches Some(b) ==> r == b,
            file is None ==> {
                &&& r.url matches Some(u) && u@.len() == 0
                &&& r.token matches Some(t) && t@.len() == 0
                &&& r.user matches Some(s) && s@.len() == 0
                &&& r.resolved is None
            },
    {
        match file {
            Some(b) => b,
            None => Backend::new_empty(),
        }
    }

    /// Overrides the loaded configuration field by field with the
    /// environment values, then validates: all three fields must end up
    /// non-empty, else the failure names every missing field.
    pub fn new_filled(
        loaded: Backend,
        env_url: Option<String>,
        env_token: Option<String>,
        env_user: Option<String>,
    ) -> (r: Result<Backend, ConfigError>)
        ensures
            ({
                let url = chosen(loaded.url, env_url);
                let token = chosen(loaded.token, env_token);
                let user = chosen(loaded.user, env_user);
                match r {
                    Ok(b) => {
                        &&& field_present(url)
                        &&& field_present(token)
                        &&& field_present(user)
                        &&& b.url == url
                        &&& b.token == token
                        &&& b.user == user
                        &&& b.resolved == loaded.resolved
                    },
                    Err(e) => {
                        &&& !(field_present(url) && field_present(token) && field_present(user))
                        &&& e.missing_url == !field_present(url)
                        &&& e.missing_token == !field_present(token)
                        &&& e.missing_user == !field_present(user)
                    },
                }
            }),
    {
        let mut backend = loaded;
        if env_url.is_some() {
            backend.url = env_url;
        }
        if env_token.is_some() {
            backend.token = env_token;
        }
        if env_user.is_some() {
            backend.user = env_user;
        }
        let missing_url = !field_present_exec(&backend.url);
        let missing_token = !field_present_exec(&backend.token);
        let missing_user = !field_present_exec(&backend.user);
        if missing_url || missing_token || missing_user {
            return Err(ConfigError { missing_url, missing_token, missing_user });
        }
        Ok(backend)
    }

    /// Brings the backend client up in one step: loads (already read)
    /// configuration, applies the environment, validates, and resolves the
    /// configured user against the user-list answer.  On success the
    /// resolved identity is cached; each failure keeps its cause.
    pub fn new_filled_and_resolved(
        loaded: Backend,
        env_url: Option<String>,
        env_token: Option<String>,
        env_user: Option<String>,
        response: Option<Response>,
    ) -> (r: Result<Backend, BackendError>)
        ensures
            ({
                let url = chosen(loaded.url, env_url);
                let token = chosen(loaded.token, env_token);
                let user = chosen(loaded.user, env_user);
                match r {
                    Ok(b) => {
                        &&& field_present(url)
                        &&& field_present(token)
                        &&& field_present(user)
                        &&& b.url == url
                        &&& b.token == token
                        &&& b.user == user
                        &&& (b.resolved matches Some(rv) && user_entries(response) matches Some(
                            entries,
                        ) && exists|i: int|
                            #[trigger] first_entry_match(entries, user->Some_0@, i) && rv.user
                                == entries[i].0)
                    },
                    Err(BackendError::Config(e)) => {
                        &&& !(field_present(url) && field_present(token) && field_present(user))
                        &&& e.missing_url == !field_present(url)
                        &&& e.missing_token == !field_present(token)
                        &&& e.missing_user == !field_present(user)
                    },
                    Err(BackendError::Resolve(e)) => {
                        &&& field_present(url)
                        &&& field_present(token)
                        &&& field_present(user)
                        &&& user matches Some(su) && e.username@ == su@
                        &&& match user_entries(response) {
                            Some(entries) => !page_has_match(entries, user->Some_0@),
                            None => true,
                        }
                    },
                }
            }),
    {
        let mut backend = match Backend::new_filled(loaded, env_url, env_token, env_user) {
            Ok(b) => b,
            Err(e) => {
                return Err(BackendError::Config(e));
            },
        };
        match ResolvedValues::new_resolved(&backend, response) {
            Ok(rv) => {
                backend.resolved = Some(rv);
                Ok(backend)
            },
            Err(e) => Err(BackendError::Resolve(e)),
        }
    }

    /// Searches the first page of the user-list answer for an exact
    /// (case-sensitive) username match: the first matching user, with its
    /// id, exactly when the decoded page holds one.  An absent answer, an
    /// unexpected status code or an undecodable body yields `None`: "could
    /// not determine", not necessarily "does not exist".
    pub fn get_user_by_name(&self, username: &String, response: Option<Response>) -> (r: Option<
        RemoteUser,
    >)
        ensures
            match r {
                Some(u) => user_entries(response) matches Some(entries) && exists|i: int|
                    #[trigger] first_entry_match(entries, username@, i) && u.id == entries[i].0
                        && u.username@ == entries[i].1,
                None => match user_entries(response) {
                    Some(entries) => !page_has_match(entries, username@),
                    None => true,
                },
            },
    {
        let users = match users_from_response(response) {
            Some(u) => u,
            None => {
                return None;
            },
        };
        let found = find_user(&users, username);
        proof {
            let s = user_entries(response)->Some_0;
            match &found {
                Some(u) => {
                    let i = choose|i: int|
                        #[trigger] first_user_match(users@, username@, i) && u.id == users@[i].id
                            && u.username@ == users@[i].username@;
                    assert forall|j: int| 0 <= j < i implies s[j].1 != username@ by {
                        assert(users@[j].username@ != username@);
                    }
                    assert(first_entry_match(s, username@, i) && u.id == s[i].0 && u.username@
                        == s[i].1);
                },
                None => {
                    assert forall|i: int| 0 <= i < s.len() implies s[i].1 != username@ by {
                        assert(users@[i].username@ != username@);
                    }
                    assert(!page_has_match(s, username@));
                },
            }
        }
        found
    }

    /// Searches the first page of the node-list answer for an exact
    /// (case-sensitive) name match: the first matching node, with its id,
    /// exactly when the decoded page holds one.  Only that one page is
    /// consulted — the remote API paginates, historically at 50 nodes per
    /// page, and this client deliberately preserves that limitation — so a
    /// node beyond the first page is reported as not found.
    pub fn get_node_by_name(&self, name: &String, response: Option<Response>) -> (r: Option<
        RemoteNode,
    >)
        ensures
            match r {
                Some(n) => node_entries(response) matches Some(entries) && exists|i: int|
                    #[trigger] first_entry_match(entries, name@, i) && n.id == entries[i].0
                        && n.name@ == entries[i].1,
                None => match node_entries(response) {
                    Some(entries) => !page_has_match(entries, name@),
                    None => true,
                },
            },
    {
        let nodes = match nodes_from_response(response) {
            Some(n) => n,
            None => {
                return None;
            },
        };
        let found = find_node(&nodes, name);
        proof {
            let s = node_entries(response)->Some_0;
            match &found {
                Some(n) => {
                    let i = choose|i: int|
                        #[trigger] first_node_match(nodes@, name@, i) && n.id == nodes@[i].id
                            && n.name@ == nodes@[i].name@;
                    assert forall|j: int| 0 <= j < i implies s[j].1 != name@ by {
                        assert(nodes@[j].name@ != name@);
                    }
                    assert(first_entry_match(s, name@, i) && n.id == s[i].0 && n.name@ == s[i].1);
                },
                None => {
                    assert forall|i: int| 0 <= i < s.len() implies s[i].1 != name@ by {
                        assert(nodes@[i].name@ != name@);
                    }
                    assert(!page_has_match(s, name@));
                },
            }
        }
        found
    }

    /// A field-for-field copy: the read-only backend handle a cloudlet
    /// keeps is a copy, never a mutable-aliasing path to the driver's own.
    pub fn duplicate(&self) -> (r: Backend)
        ensures
            r == *self,
    {
        let url = match &self.url {
            Some(s) => Some(s.clone()),
            None => None,
        };
        let token = match &self.token {
            Some(s) => Some(s.clone()),
            None => None,
        };
        let user = match &self.user {
            Some(s) => Some(s.clone()),
            None => None,
        };
        Backend { url, token, user, resolved: self.resolved }
    }

    /// The URL of a list query against the remote API:
    /// `{url}{endpoint}/{target}`, as the transport collaborator sends it.
    pub fn request_url(&self, endpoint: &str, target: &str) -> (r: String)
        requires
            self.url is Some,
        ensures
            self.url matches Some(u) && r@ == u@ + endpoint@ + seq!['/'] + target@,
    {
        proof {
            reveal_strlit("/");
            assert("/"@ =~= seq!['/']);
        }
        let mut out = String::new();
        match &self.url {
            Some(u) => out.append(u.as_str()),
            None => {
                proof {
                    assert(false);
                }
            },
        }
        out.append(endpoint);
        out.append("/");
        out.append(target);
        proof {
            if let Some(u) = &self.url {
                assert(out@ =~= u@ + endpoint@ + seq!['/'] + target@);
            }
        }
        out
    }

    /// The value of the `Authorization` header every API call carries:
    /// `Bearer {token}`.
    pub fn bearer_token(&self) -> (r: String)
        requires
            self.token is Some,
        ensures
            self.token matches Some(t) && r@ == "Bearer "@ + t@,
    {
        let mut out = String::new();
        out.append("Bearer ");
        match &self.token {
            Some(t) => out.append(t.as_str()),
            None => {
                proof {
                    assert(false);
                }
            },
        }
        out
    }
}

} // verus!
