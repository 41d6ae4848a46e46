use crate::library::{deduplicate, is_deduplication, Library};
use vstd::prelude::*;

verus! {

/// Any authentication, network or decoding failure of a remote call; the
/// cause is not kept.
#[derive(Clone, Copy, Debug, PartialEq, Eq, Structural)]
pub struct RemoteFailure;

/// What the remote service answered to a creation request.
#[derive(Clone, Copy, Debug, PartialEq, Eq, Structural)]
pub enum CreationOutcome {
    Created,
    Refused,
}

/// The answer by which the service reports a creation as done: the JSON
/// string `"success"`, quotes included.
pub open spec fn success_sentinel() -> Seq<char> {
    seq!['"', 's', 'u', 'c', 'c', 'e', 's', 's', '"']
}

/// Whether two texts are equal.
pub fn text_equals(a: &str, b: &str) -> (r: bool)
    ensures
        r == (a@ == b@),
{
    let n = a.unicode_len();
    if n != b.unicode_len() {
        return false;
    }
    let mut i: usize = 0;
    while i < n
        invariant
            n == a@.len(),
            n == b@.len(),
            i <= n,
            a@.take(i as int) == b@.take(i as int),
        decreases n - i,
    {
        if a.get_char(i) != b.get_char(i) {
            return false;
        }
        assert(a@.take(i + 1) =~= a@.take(i as int).push(a@[i as int]));
        assert(b@.take(i + 1) =~= b@.take(i as int).push(b@[i as int]));
        i = i + 1;
    }
    assert(a@.take(n as int) =~= a@);
    assert(b@.take(n as int) =~= b@);
    true
}

/// Reads the answer to a creation request: only the exact sentinel means
/// that the entry was created.
pub fn decode_creation(body: &str) -> (r: CreationOutcome)
    ensures
        r == (if body@ == success_sentinel() {
            CreationOutcome::Created
        } else {
            CreationOutcome::Refused
        }),
{
    let sentinel = "\"success\"";
    proof {
        reveal_strlit("\"success\"");
        assert(sentinel@ =~= success_sentinel());
    }
    if text_equals(body, sentinel) {
        CreationOutcome::Created
    } else {
        CreationOutcome::Refused
    }
}

/// A copy of a list of libraries.
pub fn copy_libraries(v: &Vec<Library>) -> (r: Vec<Library>)
    ensures
        r@ == v@,
{
    let mut r: Vec<Library> = Vec::new();
    let mut i: usize = 0;
    while i < v.len()
        invariant
            i <= v@.len(),
            r@ == v@.take(i as int),
        decreases v@.len() - i,
    {
        r.push(v[i].duplicate());
        assert(r@ =~= v@.take(i + 1));
        i = i + 1;
    }
    assert(r@ =~= v@);
    r
}

/// The state of a client of the remote service: where it is and whom to log
/// in as, the authorization once obtained, and the library list once
/// fetched. Neither cache expires by itself.
pub struct SeafileAPI {
    pub server: String,
    pub username: String,
    pub password: String,
    pub authorization: Option<String>,
    pub libraries: Option<Vec<Library>>,
}

/// The cached library list, if any.
pub open spec fn cached_list(api: SeafileAPI) -> Option<Seq<Library>> {
    match api.libraries {
        Some(v) => Some(v@),
        None => None,
    }
}

/// Listing libraries has to ask the remote service.
pub open spec fn fetch_needed(api: SeafileAPI) -> bool {
    api.libraries is None
}

/// `after` is `before` with the deduplication `r` of `fetched` cached.
pub open spec fn stores_libraries(
    before: SeafileAPI,
    after: SeafileAPI,
    fetched: Seq<Library>,
    r: Seq<Library>,
) -> bool {
    &&& is_deduplication(r, fetched)
    &&& cached_list(after) == Some(r)
    &&& after.server == before.server
    &&& after.username == before.username
    &&& after.password == before.password
    &&& after.authorization == before.authorization
}

/// Once a fetched list has been stored, listing libraries is answered from
/// the cache, with that same list, and never asks the remote service again.
pub proof fn lemma_library_list_cached(
    before: SeafileAPI,
    after: SeafileAPI,
    fetched: Seq<Library>,
    r: Seq<Library>,
)
    requires
        stores_libraries(before, after, fetched, r),
    ensures
        !fetch_needed(after),
        cached_list(after) == Some(r),
        is_deduplication(r, fetched),
{
}

impl SeafileAPI {
    pub fn new(server: &str, username: &str, password: &str) -> (r: SeafileAPI)
        ensures
            r.server@ == server@,
            r.username@ == username@,
            r.password@ == password@,
            r.authorization is None,
            r.libraries is None,
    {
        SeafileAPI {
            server: String::from_str(server),
            username: String::from_str(username),
            password: String::from_str(password),
            authorization: None,
            libraries: None,
        }
    }

    /// The cached authorization, if a login has happened.
    pub fn cached_authorization(&self) -> (r: Option<String>)
        ensures
            r == self.authorization,
    {
        match &self.authorization {
            Some(a) => Some(a.clone()),
            None => None,
        }
    }

    /// Caches and returns the authorization made of a token the service
    /// issued.
    pub fn store_token(&mut self, token: &str) -> (r: String)
        ensures
            r@ == "Token "@ + token@,
            final(self).authorization == Some(r),
            final(self).server == old(self).server,
            final(self).username == old(self).username,
            final(self).password == old(self).password,
            final(self).libraries == old(self).libraries,
    {
        let mut a = String::from_str("Token ");
        a.append(token);
        self.authorization = Some(a.clone());
        a
    }

    /// Whether listing libraries has to ask the remote service.
    pub fn needs_library_fetch(&self) -> (r: bool)
        ensures
            r == fetch_needed(*self),
    {
        self.libraries.is_none()
    }

    /// The cached library list, if it has been fetched.
    pub fn cached_libraries(&self) -> (r: Option<Vec<Library>>)
        ensures
            match r {
                Some(v) => cached_list(*self) == Some(v@),
                None => cached_list(*self) is None,
            },
    {
        match &self.libraries {
            Some(v) => Some(copy_libraries(v)),
            None => None,
        }
    }

    /// Deduplicates a freshly fetched list, caches it, and returns it.
    pub fn store_libraries(&mut self, fetched: &Vec<Library>) -> (r: Vec<Library>)
        ensures
            stores_libraries(*old(self), *final(self), fetched@, r@),
    {
        let r = deduplicate(fetched);
        self.libraries = Some(copy_libraries(&r));
        r
    }

    /// Drops the cached library list, so that the next listing fetches it.
    pub fn invalidate_libraries(&mut self)
        ensures
            fetch_needed(*final(self)),
            final(self).server == old(self).server,
            final(self).username == old(self).username,
            final(self).password == old(self).password,
            final(self).authorization == old(self).authorization,
    {
        self.libraries = None;
    }

    /// Where a token is exchanged for the credentials.
    pub fn auth_url(&self) -> (r: String)
        ensures
            r@ == self.server@ + "/api2/auth-token/"@,
    {
        let mut u = self.server.clone();
        u.append("/api2/auth-token/");
        u
    }

    /// Where the libraries are listed.
    pub fn repos_url(&self) -> (r: String)
        ensures
            r@ == self.server@ + "/api2/repos/"@,
    {
        let mut u = self.server.clone();
        u.append("/api2/repos/");
        u
    }

    /// Where directories of library `id` are listed, created and removed.
    pub fn dir_url(&self, id: &str) -> (r: String)
        ensures
            r@ == self.server@ + "/api2/repos/"@ + id@ + "/dir/"@,
    {
        let mut u = self.repos_url();
        u.append(id);
        u.append("/dir/");
        u
    }

    /// Where files of library `id` are created and their download links
    /// issued.
    pub fn file_url(&self, id: &str) -> (r: String)
        ensures
            r@ == self.server@ + "/api2/repos/"@ + id@ + "/file/"@,
    {
        let mut u = self.repos_url();
        u.append(id);
        u.append("/file/");
        u
    }
}

} // verus!
