//! The session store: for each account, the one refresh token that is
//! currently valid.
//!
//! The store keeps the account rows themselves, since each row carries its
//! own refresh token. A store that mirrors a persistent table is filled with
//! [`SessionStore::insert`]; one that stands alone hands out ids itself
//! through [`SessionStore::add`].
//!
//! The value of a store is the sequence of its accounts. What a caller can
//! observe of it are the lookups [`account_by_id`], [`account_by_name`] and
//! [`stored_token`] and whether an email is in use; every operation says what
//! it does to the sequence and, through [`holds_nothing`], [`grows_by`] and
//! [`token_change`], what it does to each of these.

use vstd::prelude::*;
use crate::models::user::{User, UserView, user_view};
use crate::views::text_view;

verus! {

/// The accounts, in the order in which they were added.
#[derive(Debug)]
pub struct SessionStore {
    users: Vec<User>,
    next_id: i64,
}

impl View for SessionStore {
    type V = Seq<UserView>;

    closed spec fn view(&self) -> Seq<UserView> {
        self.users@.map_values(|u: User| u@)
    }
}

/// The ids of the accounts, in order.
pub open spec fn ids(s: Seq<UserView>) -> Seq<i32> {
    s.map_values(|u: UserView| u.id)
}

/// The names of the accounts, in order.
pub open spec fn names(s: Seq<UserView>) -> Seq<Seq<char>> {
    s.map_values(|u: UserView| u.name)
}

/// The emails of the accounts, in order.
pub open spec fn emails(s: Seq<UserView>) -> Seq<Seq<char>> {
    s.map_values(|u: UserView| u.email)
}

/// No two accounts share an id.
pub open spec fn unique_ids(s: Seq<UserView>) -> bool {
    forall|i: int, j: int| 0 <= i < j < s.len() ==> s[i].id != s[j].id
}

/// The account with the given id, if there is one.
pub open spec fn account_by_id(s: Seq<UserView>, id: i32) -> Option<UserView> {
    match ids(s).index_of_first(id) {
        Some(i) => Some(s[i]),
        None => None,
    }
}

/// The first account with the given name, if there is one.
pub open spec fn account_by_name(s: Seq<UserView>, name: Seq<char>) -> Option<UserView> {
    match names(s).index_of_first(name) {
        Some(i) => Some(s[i]),
        None => None,
    }
}

/// Whether some account has the given email.
pub open spec fn email_taken(s: Seq<UserView>, email: Seq<char>) -> bool {
    emails(s).contains(email)
}

/// The refresh token stored for account `id`; `None` where the session is
/// cleared or no account has that id.
pub open spec fn stored_token(s: Seq<UserView>, id: i32) -> Option<Seq<char>> {
    match account_by_id(s, id) {
        Some(u) => u.refresh_token,
        None => None,
    }
}

/// An account with another refresh token.
pub open spec fn retokened(account: UserView, token: Option<Seq<char>>) -> UserView {
    UserView { refresh_token: token, ..account }
}

/// The accounts after the refresh token of account `id` is replaced; the same
/// accounts where no account has that id.
pub open spec fn with_token(s: Seq<UserView>, id: i32, token: Option<Seq<char>>) -> Seq<UserView> {
    match ids(s).index_of_first(id) {
        Some(i) => s.update(i, retokened(s[i], token)),
        None => s,
    }
}

/// Every lookup in `s` comes back empty.
pub open spec fn holds_nothing(s: Seq<UserView>) -> bool {
    &&& s.len() == 0
    &&& forall|id: i32| #[trigger] account_by_id(s, id) is None
    &&& forall|name: Seq<char>| #[trigger] account_by_name(s, name) is None
    &&& forall|email: Seq<char>| !#[trigger] email_taken(s, email)
}

/// How the lookups change when `account` is added at the end of `before`
/// under an id that was free: the new account is found by its id, by its
/// name unless an older account has that name, and its email is in use;
/// every other lookup gives what it gave before.
pub open spec fn grows_by(before: Seq<UserView>, after: Seq<UserView>, account: UserView) -> bool {
    &&& after.len() == before.len() + 1
    &&& account_by_id(after, account.id) == Some(account)
    &&& forall|other: i32|
        other != account.id ==> #[trigger] account_by_id(after, other) == account_by_id(
            before,
            other,
        )
    &&& forall|name: Seq<char>| #[trigger]
        account_by_name(after, name) == if account_by_name(before, name) is Some {
            account_by_name(before, name)
        } else if name == account.name {
            Some(account)
        } else {
            None
        }
    &&& forall|email: Seq<char>| #[trigger]
        email_taken(after, email) == (email_taken(before, email) || email == account.email)
}

/// How the lookups change when the refresh token of account `id` is
/// replaced: that account, however it is looked up, shows the new token and
/// is otherwise as it was; every other account, and the emails in use, are
/// as they were. Nothing changes where no account has that id.
pub open spec fn token_change(
    before: Seq<UserView>,
    after: Seq<UserView>,
    id: i32,
    token: Option<Seq<char>>,
) -> bool {
    &&& after.len() == before.len()
    &&& account_by_id(after, id) == match account_by_id(before, id) {
        Some(account) => Some(retokened(account, token)),
        None => None,
    }
    &&& forall|other: i32|
        other != id ==> #[trigger] account_by_id(after, other) == account_by_id(before, other)
    &&& forall|name: Seq<char>| #[trigger]
        account_by_name(after, name) == match account_by_name(before, name) {
            Some(account) => Some(
                if account.id == id {
                    retokened(account, token)
                } else {
                    account
                },
            ),
            None => None,
        }
    &&& forall|email: Seq<char>| #[trigger] email_taken(after, email) == email_taken(before, email)
}

/// The first index of a value is the index before which it does not occur.
pub proof fn lemma_first_index<A>(s: Seq<A>, needle: A, i: int)
    requires
        0 <= i < s.len(),
        s[i] == needle,
        forall|j: int| 0 <= j < i ==> s[j] != needle,
    ensures
        s.index_of_first(needle) == Some(i),
        s.contains(needle),
{
    s.index_of_first_ensures(needle);
    assert(s.contains(needle));
}

/// A value that occurs nowhere has no first index.
pub proof fn lemma_no_index<A>(s: Seq<A>, needle: A)
    requires
        forall|j: int| 0 <= j < s.len() ==> s[j] != needle,
    ensures
        s.index_of_first(needle) is None,
        !s.contains(needle),
{
    s.index_of_first_ensures(needle);
}

/// Where a value first occurs once another value is appended: where it first
/// occurred before, else at the end if the appended value is the one.
pub proof fn lemma_first_index_push<A>(s: Seq<A>, last: A, needle: A)
    ensures
        s.push(last).index_of_first(needle) == match s.index_of_first(needle) {
            Some(i) => Some(i),
            None => if last == needle {
                Some(s.len() as int)
            } else {
                None
            },
        },
{
    s.index_of_first_ensures(needle);
    match s.index_of_first(needle) {
        Some(i) => {
            lemma_first_index(s.push(last), needle, i);
        },
        None => {
            if last == needle {
                lemma_first_index(s.push(last), needle, s.len() as int);
            } else {
                lemma_no_index(s.push(last), needle);
            }
        },
    }
}

/// An account is found by its id exactly when its id occurs among the ids.
pub proof fn lemma_account_exists(s: Seq<UserView>, id: i32)
    ensures
        account_by_id(s, id) is Some <==> ids(s).contains(id),
        account_by_id(s, id) matches Some(account) ==> account.id == id && s.contains(account),
{
    ids(s).index_of_first_ensures(id);
}

/// The empty sequence holds nothing.
pub proof fn lemma_empty_holds_nothing()
    ensures
        holds_nothing(Seq::<UserView>::empty()),
{
    let s = Seq::<UserView>::empty();
    assert forall|id: i32| #[trigger] account_by_id(s, id) is None by {
        lemma_no_index(ids(s), id);
    }
    assert forall|name: Seq<char>| #[trigger] account_by_name(s, name) is None by {
        lemma_no_index(names(s), name);
    }
}

/// Adding an account under a free id makes the lookups grow by that account.
pub proof fn lemma_push_grows(s: Seq<UserView>, account: UserView)
    requires
        !ids(s).contains(account.id),
    ensures
        grows_by(s, s.push(account), account),
        ids(s.push(account)) == ids(s).push(account.id),
        unique_ids(s) ==> unique_ids(s.push(account)),
{
    let t = s.push(account);
    assert(ids(t) =~= ids(s).push(account.id));
    assert(names(t) =~= names(s).push(account.name));
    assert(emails(t) =~= emails(s).push(account.email));
    assert forall|other: i32| #[trigger]
        account_by_id(t, other) == if other == account.id {
            Some(account)
        } else {
            account_by_id(s, other)
        } by {
        lemma_first_index_push(ids(s), account.id, other);
        ids(s).index_of_first_ensures(other);
    }
    assert forall|name: Seq<char>| #[trigger]
        account_by_name(t, name) == if account_by_name(s, name) is Some {
            account_by_name(s, name)
        } else if name == account.name {
            Some(account)
        } else {
            None
        } by {
        lemma_first_index_push(names(s), account.name, name);
        names(s).index_of_first_ensures(name);
    }
    assert forall|email: Seq<char>| #[trigger]
        email_taken(t, email) == (email_taken(s, email) || email == account.email) by {
        if email_taken(s, email) {
            let k = choose|k: int| 0 <= k < emails(s).len() && emails(s)[k] == email;
            assert(emails(t)[k] == email);
        }
        if email == account.email {
            assert(emails(t)[s.len() as int] == email);
        }
    }
    if unique_ids(s) {
        assert forall|i: int, j: int| 0 <= i < j < t.len() implies t[i].id != t[j].id by {
            if j == s.len() {
                assert(ids(s)[i] == s[i].id);
            }
        }
    }
}

/// Replacing a refresh token changes no id, so it changes neither which
/// accounts exist nor where they stand.
pub proof fn lemma_with_token_keeps_ids(s: Seq<UserView>, id: i32, token: Option<Seq<char>>)
    ensures
        ids(with_token(s, id, token)) == ids(s),
        names(with_token(s, id, token)) == names(s),
        emails(with_token(s, id, token)) == emails(s),
        with_token(s, id, token).len() == s.len(),
        unique_ids(s) ==> unique_ids(with_token(s, id, token)),
{
    ids(s).index_of_first_ensures(id);
    let t = with_token(s, id, token);
    assert(ids(t) =~= ids(s));
    assert(names(t) =~= names(s));
    assert(emails(t) =~= emails(s));
    if unique_ids(s) {
        assert forall|i: int, j: int| 0 <= i < j < t.len() implies t[i].id != t[j].id by {
            assert(ids(t)[i] == ids(s)[i]);
            assert(ids(t)[j] == ids(s)[j]);
        }
    }
}

/// The store is last-writer-wins: after a token is set for an account that
/// exists, that token is the one stored for it.
pub proof fn lemma_set_then_get(s: Seq<UserView>, id: i32, token: Option<Seq<char>>)
    ensures
        account_by_id(s, id) is Some ==> stored_token(with_token(s, id, token), id) == token,
        account_by_id(s, id) is None ==> stored_token(with_token(s, id, token), id) is None,
{
    lemma_with_token_keeps_ids(s, id, token);
    ids(s).index_of_first_ensures(id);
}

/// Operations are scoped per account: setting the token of one account
/// leaves every other account as it was.
pub proof fn lemma_set_leaves_others(s: Seq<UserView>, id: i32, token: Option<Seq<char>>, other: i32)
    ensures
        other != id ==> account_by_id(with_token(s, id, token), other) == account_by_id(s, other),
        other != id ==> stored_token(with_token(s, id, token), other) == stored_token(s, other),
{
    lemma_with_token_keeps_ids(s, id, token);
    ids(s).index_of_first_ensures(id);
    ids(s).index_of_first_ensures(other);
}

/// Clearing is idempotent: clearing a session that is already empty leaves
/// the store as it is.
pub proof fn lemma_clear_idempotent(s: Seq<UserView>, id: i32)
    ensures
        with_token(with_token(s, id, None), id, None) == with_token(s, id, None),
{
    lemma_with_token_keeps_ids(s, id, None);
    ids(s).index_of_first_ensures(id);
    assert(with_token(with_token(s, id, None), id, None) =~= with_token(s, id, None));
}

/// Replacing the refresh token of an account changes the lookups as
/// [`token_change`] says, where ids are unique.
pub proof fn lemma_with_token_changes(s: Seq<UserView>, id: i32, token: Option<Seq<char>>)
    requires
        unique_ids(s),
    ensures
        token_change(s, with_token(s, id, token), id, token),
{
    let t = with_token(s, id, token);
    lemma_with_token_keeps_ids(s, id, token);
    ids(s).index_of_first_ensures(id);
    assert forall|other: i32| other != id implies #[trigger] account_by_id(t, other)
        == account_by_id(s, other) by {
        lemma_set_leaves_others(s, id, token, other);
    }
    assert forall|name: Seq<char>| #[trigger]
        account_by_name(t, name) == match account_by_name(s, name) {
            Some(account) => Some(
                if account.id == id {
                    retokened(account, token)
                } else {
                    account
                },
            ),
            None => None,
        } by {
        names(s).index_of_first_ensures(name);
        match names(s).index_of_first(name) {
            Some(k) => {
                match ids(s).index_of_first(id) {
                    Some(i) => {
                        assert(ids(s)[i] == s[i].id);
                        assert(ids(s)[k] == s[k].id);
                        if s[k].id == id {
                            assert(k == i);
                        }
                    },
                    None => {
                        assert(ids(s)[k] == s[k].id);
                    },
                }
            },
            None => {},
        }
    }
}

impl SessionStore {
    /// Ids are unique, and every id lies below the next id that the store
    /// would hand out.
    #[verifier::type_invariant]
    spec fn inv(self) -> bool {
        &&& unique_ids(self@)
        &&& forall|i: int| 0 <= i < self@.len() ==> self@[i].id < self.next_id
        &&& 1 <= self.next_id <= 0x8000_0000
    }

    /// The id that [`SessionStore::add`] gives to the next account; one past
    /// the largest `i32` when the ids are used up.
    pub closed spec fn next_id(&self) -> int {
        self.next_id as int
    }

    /// An empty store, whose first account will get id 1.
    pub fn new() -> (store: SessionStore)
        ensures
            store@ == Seq::<UserView>::empty(),
            holds_nothing(store@),
            store.next_id() == 1,
    {
        let store = SessionStore { users: Vec::new(), next_id: 1 };
        proof {
            assert(store@ =~= Seq::<UserView>::empty());
            lemma_empty_holds_nothing();
        }
        store
    }

    /// The number of accounts. No two of them share an id, and every id lies
    /// below the next id of the store.
    pub fn len(&self) -> (n: usize)
        ensures
            n == self@.len(),
            unique_ids(self@),
            forall|i: int| 0 <= i < self@.len() ==> self@[i].id < self.next_id(),
            1 <= self.next_id() <= 0x8000_0000,
    {
        proof {
            use_type_invariant(self);
        }
        self.users.len()
    }

    /// The position of the account with the given id.
    fn position_of_id(&self, id: i32) -> (position: Option<usize>)
        ensures
            match position {
                Some(i) => ids(self@).index_of_first(id) == Some(i as int) && i < self@.len(),
                None => ids(self@).index_of_first(id) is None,
            },
            position is Some == ids(self@).contains(id),
            position is Some == account_by_id(self@, id) is Some,
    {
        let mut i: usize = 0;
        while i < self.users.len()
            invariant
                i <= self.users.len(),
                forall|j: int| 0 <= j < i ==> ids(self@)[j] != id,
            decreases self.users.len() - i,
        {
            if self.users[i].id == id {
                proof {
                    lemma_first_index(ids(self@), id, i as int);
                }
                return Some(i);
            }
            i += 1;
        }
        proof {
            lemma_no_index(ids(self@), id);
        }
        None
    }

    /// Looks an account up by id.
    pub fn find_by_id(&self, id: i32) -> (found: Option<User>)
        ensures
            user_view(found) == account_by_id(self@, id),
    {
        match self.position_of_id(id) {
            Some(i) => Some(self.users[i].clone()),
            None => None,
        }
    }

    /// Looks an account up by name. Where several accounts share the name,
    /// the one that was added first is returned.
    pub fn find_by_name(&self, name: &str) -> (found: Option<User>)
        ensures
            user_view(found) == account_by_name(self@, name@),
    {
        let wanted = name.to_owned();
        let mut i: usize = 0;
        while i < self.users.len()
            invariant
                i <= self.users.len(),
                wanted@ == name@,
                forall|j: int| 0 <= j < i ==> names(self@)[j] != name@,
            decreases self.users.len() - i,
        {
            if self.users[i].name == wanted {
                proof {
                    lemma_first_index(names(self@), name@, i as int);
                }
                return Some(self.users[i].clone());
            }
            i += 1;
        }
        proof {
            lemma_no_index(names(self@), name@);
        }
        None
    }

    /// Whether some account has the given email.
    pub fn email_in_use(&self, email: &str) -> (used: bool)
        ensures
            used == email_taken(self@, email@),
    {
        let wanted = email.to_owned();
        let mut i: usize = 0;
        while i < self.users.len()
            invariant
                i <= self.users.len(),
                wanted@ == email@,
                forall|j: int| 0 <= j < i ==> emails(self@)[j] != email@,
            decreases self.users.len() - i,
        {
            if self.users[i].email == wanted {
                assert(emails(self@)[i as int] == email@);
                return true;
            }
            i += 1;
        }
        false
    }

    /// A copy of every account, in order.
    pub fn all(&self) -> (users: Vec<User>)
        ensures
            users@.map_values(|u: User| u@) == self@,
    {
        let mut users: Vec<User> = Vec::new();
        let mut i: usize = 0;
        while i < self.users.len()
            invariant
                i <= self.users.len(),
                users@.len() == i,
                forall|j: int| 0 <= j < i ==> users@[j]@ == self@[j],
            decreases self.users.len() - i,
        {
            users.push(self.users[i].clone());
            i += 1;
        }
        assert(users@.map_values(|u: User| u@) =~= self@);
        users
    }

    /// Adds an account under the id it already has, as when a row is loaded
    /// from a persistent table. Refused, with the store unchanged, where the
    /// id is taken.
    pub fn insert(&mut self, user: User) -> (added: bool)
        ensures
            added == account_by_id(old(self)@, user.id) is None,
            added ==> final(self)@ == old(self)@.push(user@),
            added ==> grows_by(old(self)@, final(self)@, user@),
            !added ==> final(self)@ == old(self)@,
            final(self).next_id() == if added && user.id >= old(self).next_id() {
                user.id + 1
            } else {
                old(self).next_id()
            },
    {
        proof {
            use_type_invariant(&*self);
        }
        if self.position_of_id(user.id).is_some() {
            return false;
        }
        let ghost before = self@;
        let mut users: Vec<User> = Vec::new();
        std::mem::swap(&mut users, &mut self.users);
        assert(users@.map_values(|u: User| u@) =~= before);
        if self.next_id <= user.id as i64 {
            self.next_id = user.id as i64 + 1;
        }
        users.push(user);
        proof {
            assert(users@.map_values(|u: User| u@) =~= before.push(user@));
            lemma_push_grows(before, user@);
        }
        self.users = users;
        true
    }

    /// Adds a new account with no session and hands out its id. `None`, with
    /// the store unchanged, when the ids are used up.
    pub fn add(&mut self, name: String, email: String, password: String) -> (id: Option<i32>)
        ensures
            match id {
                Some(id) => {
                    let account = UserView {
                        id,
                        name: name@,
                        email: email@,
                        password: password@,
                        refresh_token: None,
                    };
                    &&& id == old(self).next_id()
                    &&& account_by_id(old(self)@, id) is None
                    &&& final(self)@ == old(self)@.push(account)
                    &&& grows_by(old(self)@, final(self)@, account)
                    &&& final(self).next_id() == id + 1
                },
                None => {
                    &&& old(self).next_id() == 0x8000_0000
                    &&& final(self)@ == old(self)@
                    &&& final(self).next_id() == old(self).next_id()
                },
            },
    {
        proof {
            use_type_invariant(&*self);
        }
        if self.next_id > i32::MAX as i64 {
            return None;
        }
        let id: i32 = self.next_id as i32;
        let ghost before = self@;
        let user = User { id, name, email, password, refresh_token: None };
        let mut users: Vec<User> = Vec::new();
        std::mem::swap(&mut users, &mut self.users);
        assert(users@.map_values(|u: User| u@) =~= before);
        self.next_id = self.next_id + 1;
        users.push(user);
        proof {
            assert(users@.map_values(|u: User| u@) =~= before.push(user@));
            assert(!ids(before).contains(id)) by {
                if ids(before).contains(id) {
                    let k = choose|k: int| 0 <= k < ids(before).len() && ids(before)[k] == id;
                    assert(before[k].id == id);
                }
            }
            lemma_account_exists(before, id);
            lemma_push_grows(before, user@);
        }
        self.users = users;
        Some(id)
    }

    /// Replaces the refresh token of account `id`, if there is such an
    /// account, and says whether there is.
    fn replace_token(&mut self, id: i32, token: Option<String>) -> (found: bool)
        ensures
            final(self).next_id() == old(self).next_id(),
            final(self)@ == with_token(old(self)@, id, text_view(token)),
            token_change(old(self)@, final(self)@, id, text_view(token)),
            found == account_by_id(old(self)@, id) is Some,
            found ==> stored_token(final(self)@, id) == text_view(token),
            !found ==> final(self)@ == old(self)@,
    {
        let ghost before = self@;
        proof {
            use_type_invariant(&*self);
            lemma_with_token_changes(before, id, text_view(token));
            lemma_with_token_keeps_ids(before, id, text_view(token));
        }
        match self.position_of_id(id) {
            Some(i) => {
                let mut users: Vec<User> = Vec::new();
                std::mem::swap(&mut users, &mut self.users);
                assert(users@.map_values(|u: User| u@) =~= before);
                users[i].refresh_token = token;
                proof {
                    let after = users@.map_values(|u: User| u@);
                    assert(after =~= with_token(before, id, text_view(token)));
                    assert forall|k: int| 0 <= k < after.len() implies after[k].id
                        < self.next_id by {
                        assert(ids(after)[k] == ids(before)[k]);
                        assert(before[k].id < self.next_id);
                    }
                }
                self.users = users;
                true
            },
            None => false,
        }
    }

    /// Overwrites the refresh token of account `id`; the token that was stored
    /// before is thereby revoked. Returns whether the account exists; nothing
    /// is stored where it does not.
    pub fn set_refresh_token(&mut self, id: i32, token: String) -> (found: bool)
        ensures
            final(self).next_id() == old(self).next_id(),
            final(self)@ == with_token(old(self)@, id, Some(token@)),
            token_change(old(self)@, final(self)@, id, Some(token@)),
            found == account_by_id(old(self)@, id) is Some,
            found ==> stored_token(final(self)@, id) == Some(token@),
            !found ==> final(self)@ == old(self)@,
    {
        self.replace_token(id, Some(token))
    }

    /// The refresh token currently stored for account `id`.
    pub fn get_refresh_token(&self, id: i32) -> (token: Option<String>)
        ensures
            text_view(token) == stored_token(self@, id),
    {
        match self.position_of_id(id) {
            Some(i) => match &self.users[i].refresh_token {
                Some(t) => Some(t.clone()),
                None => None,
            },
            None => None,
        }
    }

    /// Clears the session of account `id`. Clearing a session that is already
    /// empty succeeds. Returns whether the account exists.
    pub fn clear(&mut self, id: i32) -> (found: bool)
        ensures
            final(self).next_id() == old(self).next_id(),
            final(self)@ == with_token(old(self)@, id, None),
            token_change(old(self)@, final(self)@, id, None),
            found == account_by_id(old(self)@, id) is Some,
            stored_token(final(self)@, id) is None,
            !found ==> final(self)@ == old(self)@,
    {
        self.replace_token(id, None)
    }
}

} // verus!
