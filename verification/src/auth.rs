//! Authentication: the server's credential stores and the client's credentials.
use vstd::prelude::*;
use vstd::utf8::{decode_utf8, encode_utf8, encode_utf8_decode_utf8};
use crate::error::{ErrorView, SocksError};
use crate::protocol::AuthMethod;

verus! {

broadcast use encode_utf8_decode_utf8;

/// Whether two strings hold the same characters.
pub(crate) fn str_eq(a: &str, b: &str) -> (eq: bool)
    ensures
        eq == (a@ == b@),
{
    let x = a.as_bytes();
    let y = b.as_bytes();
    proof {
        assert(decode_utf8(x@) == a@);
        assert(decode_utf8(y@) == b@);
    }
    if x.len() != y.len() {
        proof {
            if a@ == b@ {
                assert(x@ == y@);
            }
        }
        return false;
    }
    let mut i: usize = 0;
    while i < x.len()
        invariant
            i <= x@.len(),
            x@.len() == y@.len(),
            x@ == encode_utf8(a@),
            y@ == encode_utf8(b@),
            forall|j: int| 0 <= j < i ==> x@[j] == y@[j],
        decreases x@.len() - i,
    {
        if x[i] != y[i] {
            proof {
                if a@ == b@ {
                    assert(x@ == y@);
                }
            }
            return false;
        }
        i = i + 1;
    }
    assert(x@ =~= y@);
    true
}

/// No authentication - accepts all connections
#[derive(Debug, Clone, Default)]
pub struct NoAuth;

impl NoAuth {
    /// Accepts every username and password.
    pub fn authenticate(&self, username: &str, password: &str) -> (ok: bool)
        ensures
            ok,
    {
        true
    }

    /// The one method it serves: no authentication.
    pub fn supported_methods(&self) -> (methods: Vec<AuthMethod>)
        ensures
            methods@ == seq![AuthMethod::NoAuth],
    {
        let mut v: Vec<AuthMethod> = Vec::new();
        v.push(AuthMethod::NoAuth);
        v
    }
}

/// The map from username to password that a list of pairs gives, a later
/// pair for a username replacing an earlier one.
pub open spec fn credential_map(pairs: Seq<(Seq<char>, Seq<char>)>) -> Map<Seq<char>, Seq<char>>
    decreases pairs.len(),
{
    if pairs.len() == 0 {
        Map::empty()
    } else {
        credential_map(pairs.drop_last()).insert(pairs.last().0, pairs.last().1)
    }
}

/// The pairs of a list of string pairs, as characters.
pub open spec fn pair_views(pairs: Seq<(String, String)>) -> Seq<(Seq<char>, Seq<char>)> {
    pairs.map_values(|p: (String, String)| (p.0@, p.1@))
}

/// Username/Password authentication with a static credential store
#[derive(Debug, Clone)]
pub struct UserPassAuth {
    credentials: Vec<(String, String)>,
}

impl View for UserPassAuth {
    type V = Map<Seq<char>, Seq<char>>;

    closed spec fn view(&self) -> Map<Seq<char>, Seq<char>> {
        credential_map(pair_views(self.credentials@))
    }
}

proof fn lemma_credential_map_last(pairs: Seq<(Seq<char>, Seq<char>)>, i: int, k: Seq<char>)
    requires
        0 <= i <= pairs.len(),
        forall|j: int| i <= j < pairs.len() ==> (#[trigger] pairs[j]).0 != k,
    ensures
        credential_map(pairs).contains_key(k) == credential_map(pairs.take(i)).contains_key(k),
        credential_map(pairs).contains_key(k) ==> credential_map(pairs)[k] == credential_map(
            pairs.take(i),
        )[k],
    decreases pairs.len() - i,
{
    if i < pairs.len() {
        let p = pairs.take(i + 1);
        assert(p.drop_last() =~= pairs.take(i));
        assert(p.last() == pairs[i]);
        lemma_credential_map_last(pairs, i + 1, k);
    } else {
        assert(pairs.take(i) =~= pairs);
    }
}

/// A username that some pair names is in the map, with the password of the
/// last pair that names it.
pub proof fn lemma_credential_last_wins(pairs: Seq<(Seq<char>, Seq<char>)>, k: Seq<char>, i: int)
    requires
        0 <= i < pairs.len(),
        pairs[i].0 == k,
        forall|j: int| i < j < pairs.len() ==> (#[trigger] pairs[j]).0 != k,
    ensures
        credential_map(pairs).contains_key(k),
        credential_map(pairs)[k] == pairs[i].1,
{
    lemma_credential_map_last(pairs, i + 1, k);
    let p = pairs.take(i + 1);
    assert(p.last() == pairs[i]);
}

/// A username that no pair names is not in the map.
pub proof fn lemma_credential_absent(pairs: Seq<(Seq<char>, Seq<char>)>, k: Seq<char>)
    requires
        forall|j: int| 0 <= j < pairs.len() ==> (#[trigger] pairs[j]).0 != k,
    ensures
        !credential_map(pairs).contains_key(k),
{
    lemma_credential_map_last(pairs, 0, k);
    assert(pairs.take(0) =~= Seq::<(Seq<char>, Seq<char>)>::empty());
}

impl UserPassAuth {
    /// Create a new username/password authenticator with credentials; where
    /// a username occurs more than once, its last password counts.
    pub fn new(credentials: Vec<(String, String)>) -> (auth: UserPassAuth)
        ensures
            auth@ == credential_map(pair_views(credentials@)),
    {
        UserPassAuth { credentials }
    }

    /// Create a new authenticator with a single user
    pub fn single_user(username: String, password: String) -> (auth: UserPassAuth)
        ensures
            auth@ == Map::<Seq<char>, Seq<char>>::empty().insert(username@, password@),
    {
        let ghost u = username@;
        let ghost p = password@;
        let mut credentials: Vec<(String, String)> = Vec::new();
        credentials.push((username, password));
        let ghost pv = pair_views(credentials@);
        assert(pv.len() == 1);
        assert(pv.last() == (u, p));
        assert(pv.drop_last() =~= Seq::<(Seq<char>, Seq<char>)>::empty());
        assert(credential_map(pv.drop_last()) == Map::<Seq<char>, Seq<char>>::empty());
        Self::new(credentials)
    }

    /// Create a new authenticator with multiple users; a later pair for a
    /// username replaces an earlier one.
    pub fn with_users(users: Vec<(String, String)>) -> (auth: UserPassAuth)
        ensures
            auth@ == credential_map(pair_views(users@)),
    {
        Self::new(users)
    }

    /// Accepts exactly the username that the store holds, with its password.
    pub fn authenticate(&self, username: &str, password: &str) -> (ok: bool)
        ensures
            ok == (self@.contains_key(username@) && self@[username@] == password@),
    {
        let ghost pv = pair_views(self.credentials@);
        let mut i: usize = self.credentials.len();
        while i > 0
            invariant
                i <= self.credentials@.len(),
                pv == pair_views(self.credentials@),
                forall|j: int| i <= j < pv.len() ==> (#[trigger] pv[j]).0 != username@,
            decreases i,
        {
            i = i - 1;
            let entry = &self.credentials[i];
            if str_eq(entry.0.as_str(), username) {
                proof {
                    lemma_credential_map_last(pv, i + 1, username@);
                    let p = pv.take(i + 1);
                    assert(p.drop_last() =~= pv.take(i as int));
                    assert(p.last() == pv[i as int]);
                }
                return str_eq(entry.1.as_str(), password);
            }
        }
        proof {
            lemma_credential_map_last(pv, 0, username@);
            assert(pv.take(0) =~= Seq::<(Seq<char>, Seq<char>)>::empty());
        }
        false
    }

    /// The one method it serves: username and password.
    pub fn supported_methods(&self) -> (methods: Vec<AuthMethod>)
        ensures
            methods@ == seq![AuthMethod::UserPass],
    {
        let mut v: Vec<AuthMethod> = Vec::new();
        v.push(AuthMethod::UserPass);
        v
    }
}

/// What a multi-method authenticator keeps for one method: one of the
/// library's authenticators, or one that its user supplied.
#[derive(Debug, Clone)]
pub enum MethodHandler<A> {
    NoAuth(NoAuth),
    UserPass(UserPassAuth),
    Custom(A),
}

/// How a multi-method authenticator answers a username and password: by
/// itself, or by handing them to the authenticator its user supplied.
pub enum MultiDecision<'a, A> {
    Decided(bool),
    Delegate(&'a A),
}

/// Combined authenticator supporting multiple methods
#[derive(Debug, Clone)]
pub struct MultiAuth<A> {
    authenticators: Vec<(AuthMethod, MethodHandler<A>)>,
}

/// The index of the first entry for a method, if any.
pub open spec fn first_entry<A>(entries: Seq<(AuthMethod, A)>, method: AuthMethod) -> Option<int> {
    if exists|i: int| 0 <= i < entries.len() && (#[trigger] entries[i]).0 == method {
        Some(
            choose|i: int|
                0 <= i < entries.len() && (#[trigger] entries[i]).0 == method && forall|j: int|
                    0 <= j < i ==> (#[trigger] entries[j]).0 != method,
        )
    } else {
        None
    }
}

/// The methods of a list of entries, in order.
pub open spec fn entry_methods<A>(entries: Seq<(AuthMethod, A)>) -> Seq<AuthMethod> {
    entries.map_values(|e: (AuthMethod, A)| e.0)
}

/// The entry that a lookup finds is the earliest one for the method: it is
/// for that method and no entry before it is; and the lookup finds nothing
/// exactly when no entry is for the method.
pub proof fn lemma_first_entry<A>(entries: Seq<(AuthMethod, A)>, method: AuthMethod)
    ensures
        first_entry(entries, method) matches Some(i) ==> 0 <= i < entries.len() && entries[i].0
            == method && forall|j: int| 0 <= j < i ==> (#[trigger] entries[j]).0 != method,
        first_entry(entries, method) is None <==> forall|j: int|
            0 <= j < entries.len() ==> (#[trigger] entries[j]).0 != method,
{
    if exists|i: int| 0 <= i < entries.len() && (#[trigger] entries[i]).0 == method {
        let k = choose|i: int| 0 <= i < entries.len() && (#[trigger] entries[i]).0 == method;
        lemma_earliest_entry(entries, method, k);
    }
}

proof fn lemma_earliest_entry<A>(entries: Seq<(AuthMethod, A)>, method: AuthMethod, k: int)
    requires
        0 <= k < entries.len(),
        entries[k].0 == method,
    ensures
        exists|i: int|
            0 <= i < entries.len() && (#[trigger] entries[i]).0 == method && forall|j: int|
                0 <= j < i ==> (#[trigger] entries[j]).0 != method,
    decreases k,
{
    if exists|j: int| 0 <= j < k && (#[trigger] entries[j]).0 == method {
        let j = choose|j: int| 0 <= j < k && (#[trigger] entries[j]).0 == method;
        lemma_earliest_entry(entries, method, j);
    } else {
        assert(forall|j: int| 0 <= j < k ==> (#[trigger] entries[j]).0 != method);
    }
}

impl<A> MultiAuth<A> {
    /// The methods and handlers, in the order they were added.
    pub closed spec fn entries(&self) -> Seq<(AuthMethod, MethodHandler<A>)> {
        self.authenticators@
    }

    /// Create a new multi-method authenticator
    pub fn new() -> (m: MultiAuth<A>)
        ensures
            m.entries() == Seq::<(AuthMethod, MethodHandler<A>)>::empty(),
    {
        MultiAuth { authenticators: Vec::new() }
    }

    /// Add an authentication method served by an authenticator of the user's.
    pub fn add_method(self, method: AuthMethod, auth: A) -> (m: MultiAuth<A>)
        ensures
            m.entries() == self.entries().push((method, MethodHandler::Custom(auth))),
    {
        self.add_handler(method, MethodHandler::Custom(auth))
    }

    fn add_handler(self, method: AuthMethod, handler: MethodHandler<A>) -> (m: MultiAuth<A>)
        ensures
            m.entries() == self.entries().push((method, handler)),
    {
        let mut s = self;
        s.authenticators.push((method, handler));
        s
    }

    /// Add no-auth support
    pub fn with_no_auth(self) -> (m: MultiAuth<A>)
        ensures
            m.entries() == self.entries().push(
                (AuthMethod::NoAuth, MethodHandler::NoAuth(NoAuth)),
            ),
    {
        self.add_handler(AuthMethod::NoAuth, MethodHandler::NoAuth(NoAuth))
    }

    /// Add username/password authentication
    pub fn with_user_pass(self, auth: UserPassAuth) -> (m: MultiAuth<A>)
        ensures
            m.entries() == self.entries().push((AuthMethod::UserPass, MethodHandler::UserPass(auth))),
    {
        self.add_handler(AuthMethod::UserPass, MethodHandler::UserPass(auth))
    }

    /// Get the authenticator for a specific method: the first one added for it.
    pub fn get_authenticator(&self, method: AuthMethod) -> (h: Option<&MethodHandler<A>>)
        ensures
            match first_entry(self.entries(), method) {
                Some(i) => h == Some(&self.entries()[i].1),
                None => h is None,
            },
    {
        let mut i: usize = 0;
        while i < self.authenticators.len()
            invariant
                i <= self.authenticators@.len(),
                forall|j: int| 0 <= j < i ==> (#[trigger] self.authenticators@[j]).0 != method,
            decreases self.authenticators@.len() - i,
        {
            if self.authenticators[i].0 == method {
                proof {
                    let e = self.entries();
                    assert(e[i as int].0 == method);
                    let k = first_entry(e, method).unwrap();
                    if k < i {
                        assert(e[k].0 != method);
                    }
                    if k > i {
                        assert(e[i as int].0 != method);
                    }
                }
                return Some(&self.authenticators[i].1);
            }
            i = i + 1;
        }
        None
    }

    /// Get supported authentication methods, in the order they were added.
    pub fn supported_methods(&self) -> (methods: Vec<AuthMethod>)
        ensures
            methods@ == entry_methods(self.entries()),
    {
        let mut v: Vec<AuthMethod> = Vec::new();
        let mut i: usize = 0;
        while i < self.authenticators.len()
            invariant
                i <= self.authenticators@.len(),
                v@ == entry_methods(self.authenticators@.take(i as int)),
            decreases self.authenticators@.len() - i,
        {
            v.push(self.authenticators[i].0);
            i = i + 1;
            assert(entry_methods(self.authenticators@.take(i as int)) =~= entry_methods(
                self.authenticators@.take((i - 1) as int),
            ).push(self.authenticators@[i - 1].0));
        }
        assert(self.authenticators@.take(i as int) =~= self.authenticators@);
        v
    }

    /// Authenticate with username and password: by the username/password
    /// authenticator if one was added (the first one), refusing otherwise.
    pub fn authenticate<'a>(&'a self, username: &str, password: &str) -> (d: MultiDecision<'a, A>)
        ensures
            match first_entry(self.entries(), AuthMethod::UserPass) {
                None => d == MultiDecision::<'a, A>::Decided(false),
                Some(i) => match self.entries()[i].1 {
                    MethodHandler::NoAuth(_) => d == MultiDecision::<'a, A>::Decided(true),
                    MethodHandler::UserPass(u) => d == MultiDecision::<'a, A>::Decided(
                        u@.contains_key(username@) && u@[username@] == password@,
                    ),
                    MethodHandler::Custom(a) => d == MultiDecision::<'a, A>::Delegate(&a),
                },
            },
    {
        match self.get_authenticator(AuthMethod::UserPass) {
            None => MultiDecision::Decided(false),
            Some(MethodHandler::NoAuth(n)) => MultiDecision::Decided(n.authenticate(username, password)),
            Some(MethodHandler::UserPass(u)) => MultiDecision::Decided(u.authenticate(username, password)),
            Some(MethodHandler::Custom(a)) => MultiDecision::Delegate(a),
        }
    }
}

impl<A> Default for MultiAuth<A> {
    fn default() -> (m: MultiAuth<A>)
        ensures
            m.entries() == Seq::<(AuthMethod, MethodHandler<A>)>::empty(),
    {
        MultiAuth::new()
    }
}

/// Client-side authentication credentials
#[derive(Debug, Clone)]
pub enum ClientAuth {
    /// No authentication
    NoAuth,
    /// Username and password
    Password { username: String, password: String },
}

/// The methods a client offers, most preferred first.
pub open spec fn client_methods(auth: ClientAuth) -> Seq<AuthMethod> {
    match auth {
        ClientAuth::NoAuth => seq![AuthMethod::NoAuth],
        ClientAuth::Password { .. } => seq![AuthMethod::UserPass, AuthMethod::NoAuth],
    }
}

impl ClientAuth {
    /// Get preferred authentication methods
    pub fn preferred_methods(&self) -> (methods: Vec<AuthMethod>)
        ensures
            methods@ == client_methods(*self),
    {
        let mut v: Vec<AuthMethod> = Vec::new();
        match self {
            ClientAuth::NoAuth => {
                v.push(AuthMethod::NoAuth);
            },
            ClientAuth::Password { .. } => {
                v.push(AuthMethod::UserPass);
                v.push(AuthMethod::NoAuth);
            },
        }
        v
    }

    /// Get username and password if available
    pub fn credentials(&self) -> (c: Option<(&str, &str)>)
        ensures
            match self {
                ClientAuth::NoAuth => c is None,
                ClientAuth::Password { username, password } => c matches Some((u, p)) && u@
                    == username@ && p@ == password@,
            },
    {
        match self {
            ClientAuth::NoAuth => None,
            ClientAuth::Password { username, password } => Some((username.as_str(), password.as_str())),
        }
    }
}

impl Default for ClientAuth {
    fn default() -> (a: ClientAuth)
        ensures
            a is NoAuth,
    {
        ClientAuth::NoAuth
    }
}

/// Validate username and password format
pub fn validate_credentials(username: &str, password: &str) -> (res: Result<(), SocksError>)
    ensures
        username@.len() == 0 ==> (res matches Err(e) && e@ == ErrorView::AuthenticationFailed(
            "Username cannot be empty"@,
        )),
        username@.len() != 0 && password@.len() == 0 ==> (res matches Err(e) && e@
            == ErrorView::AuthenticationFailed("Password cannot be empty"@)),
        username@.len() != 0 && password@.len() != 0 && encode_utf8(username@).len() > 255 ==> (
        res matches Err(e) && e@ == ErrorView::AuthenticationFailed("Username too long"@)),
        username@.len() != 0 && password@.len() != 0 && encode_utf8(username@).len() <= 255
            && encode_utf8(password@).len() > 255 ==> (res matches Err(e) && e@
            == ErrorView::AuthenticationFailed("Password too long"@)),
        res is Ok <==> (username@.len() != 0 && password@.len() != 0 && encode_utf8(username@).len()
            <= 255 && encode_utf8(password@).len() <= 255),
{
    if username.is_empty() {
        return Err(SocksError::AuthenticationFailed("Username cannot be empty".to_owned()));
    }
    if password.is_empty() {
        return Err(SocksError::AuthenticationFailed("Password cannot be empty".to_owned()));
    }
    if username.as_bytes().len() > 255 {
        return Err(SocksError::AuthenticationFailed("Username too long".to_owned()));
    }
    if password.as_bytes().len() > 255 {
        return Err(SocksError::AuthenticationFailed("Password too long".to_owned()));
    }
    Ok(())
}

} // verus!
