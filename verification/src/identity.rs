//! The identity store and the session resolver: registered users, the shared
//! server state they live in, and the lookup that turns a session claim into
//! a stored identity.

use vstd::prelude::*;

verus! {

/// A registered user's durable record: login name, credential secret and
/// stable identifier. The credential is a plaintext placeholder until a real
/// registry replaces the seed list.
#[derive(Clone, Debug)]
pub struct UserInfo {
    pub login: String,
    pub password: String,
    pub id: String,
}

impl UserInfo {
    pub fn new(login: &str, password: &str, id: &str) -> (u: UserInfo)
        ensures
            u.login@ == login@,
            u.password@ == password@,
            u.id@ == id@,
    {
        UserInfo { login: login.to_owned(), password: password.to_owned(), id: id.to_owned() }
    }
}

/// The process-wide server state: the identity store, the listening port and
/// master credentials reserved for future administrative use.
pub struct Server {
    pub users: Vec<UserInfo>,
    pub port: u16,
    pub master_login: String,
    pub master_password: String,
}

/// Identifiers are unique across the identity store.
pub open spec fn ids_unique(users: Seq<UserInfo>) -> bool {
    forall|i: int, j: int| 0 <= i < j < users.len() ==> users[i].id@ != users[j].id@
}

/// Some stored identity carries the given identifier.
pub open spec fn has_user(users: Seq<UserInfo>, id: Seq<char>) -> bool {
    exists|i: int| 0 <= i < users.len() && users[i].id@ == id
}

/// Builds the startup state: a fixed seed list of five identities (a
/// stand-in for a future persistent registry), the fixed port and the fixed
/// master credentials.
pub fn init_server() -> (s: Server)
    ensures
        s.users@.len() == 5,
        s.users@[0].id@ == "a"@ && s.users@[0].login@ == "a"@ && s.users@[0].password@ == "a"@,
        s.users@[1].id@ == "b"@ && s.users@[1].login@ == "b"@ && s.users@[1].password@ == "b"@,
        s.users@[2].id@ == "c"@ && s.users@[2].login@ == "c"@ && s.users@[2].password@ == "c"@,
        s.users@[3].id@ == "d"@ && s.users@[3].login@ == "d"@ && s.users@[3].password@ == "d"@,
        s.users@[4].id@ == "e"@ && s.users@[4].login@ == "e"@ && s.users@[4].password@ == "e"@,
        ids_unique(s.users@),
        s.port == 2345,
        s.master_login@ == "admin"@,
        s.master_password@ == "admin"@,
{
    let mut users: Vec<UserInfo> = Vec::new();
    users.push(UserInfo::new("a", "a", "a"));
    users.push(UserInfo::new("b", "b", "b"));
    users.push(UserInfo::new("c", "c", "c"));
    users.push(UserInfo::new("d", "d", "d"));
    users.push(UserInfo::new("e", "e", "e"));
    proof {
        reveal_strlit("a");
        reveal_strlit("b");
        reveal_strlit("c");
        reveal_strlit("d");
        reveal_strlit("e");
        assert forall|i: int, j: int| 0 <= i < j < users@.len() implies
            users@[i].id@ != users@[j].id@ by {
            assert(users@[i].id@[0] != users@[j].id@[0]);
        }
    }
    Server {
        users,
        port: 2345,
        master_login: "admin".to_owned(),
        master_password: "admin".to_owned(),
    }
}

/// Why a session claim failed to resolve: no claim at all, or a claim naming
/// no stored identity.
#[derive(Clone, Copy, Debug, PartialEq, Eq, Structural)]
pub enum AuthError {
    Unauthorized,
    NotFound,
}

/// The session claim as a mathematical value: the identifier's characters,
/// or nothing for an anonymous caller.
pub open spec fn claim_view(claim: Option<String>) -> Option<Seq<char>> {
    match claim {
        Some(id) => Some(id@),
        None => None,
    }
}

/// How authentication of a claim against the store ends: `None` means the
/// claim resolves, otherwise the failure is named.
pub open spec fn auth_result(claim: Option<Seq<char>>, users: Seq<UserInfo>) -> Option<AuthError> {
    match claim {
        None => Some(AuthError::Unauthorized),
        Some(id) => if has_user(users, id) {
            None
        } else {
            Some(AuthError::NotFound)
        },
    }
}

/// Reads the identifier from the session claim; its absence means the caller
/// is anonymous and must log in first.
pub fn get_id_from_session(claim: &Option<String>) -> (r: Result<&String, AuthError>)
    ensures
        match claim_view(*claim) {
            Some(id) => r is Ok && r->Ok_0@ == id,
            None => r == Err::<&String, AuthError>(AuthError::Unauthorized),
        },
{
    match claim.as_ref() {
        Some(id) => Ok(id),
        None => Err(AuthError::Unauthorized),
    }
}

/// Resolves the session claim against the identity store: the first stored
/// identity whose identifier matches the claim, or the failure that ends the
/// request.
pub fn get_user_entry<'a>(claim: &Option<String>, server: &'a Server) -> (r: Result<
    &'a UserInfo,
    AuthError,
>)
    ensures
        match auth_result(claim_view(*claim), server.users@) {
            Some(e) => r == Err::<&'a UserInfo, AuthError>(e),
            None => {
                &&& r is Ok
                &&& exists|i: int|
                    {
                        &&& 0 <= i < server.users@.len()
                        &&& server.users@[i] == *r->Ok_0
                        &&& server.users@[i].id@ == claim_view(*claim)->Some_0
                        &&& forall|j: int|
                            0 <= j < i ==> server.users@[j].id@ != claim_view(*claim)->Some_0
                    }
            },
        },
{
    match get_id_from_session(claim) {
        Err(e) => Err(e),
        Ok(id) => {
            let n: usize = server.users.len();
            let mut k: usize = 0;
            while k < n
                invariant
                    n == server.users@.len(),
                    0 <= k <= n,
                    claim_view(*claim) == Some(id@),
                    forall|j: int| 0 <= j < k ==> server.users@[j].id@ != id@,
                decreases n - k,
            {
                if server.users[k].id == *id {
                    let u = &server.users[k];
                    proof {
                        assert(0 <= k < server.users@.len() && server.users@[k as int] == *u
                            && server.users@[k as int].id@ == id@
                            && forall|j: int| 0 <= j < k ==> server.users@[j].id@ != id@);
                        assert(has_user(server.users@, id@));
                    }
                    return Ok(u);
                }
                k = k + 1;
            }
            Err(AuthError::NotFound)
        },
    }
}

} // verus!
