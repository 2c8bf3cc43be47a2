use vstd::prelude::*;

use crate::text::str_eq;

verus! {

/// A failure of the credential store. The store's own error is kept as its
/// message.
#[derive(Debug, Clone, PartialEq, Eq)]
pub enum StoreError {
    IoError(String),
    InternalError(String),
}

impl StoreError {
    /// A copy of this error.
    pub fn duplicate(&self) -> (r: StoreError)
        ensures
            r == *self,
    {
        match self {
            StoreError::IoError(m) => StoreError::IoError(m.clone()),
            StoreError::InternalError(m) => StoreError::InternalError(m.clone()),
        }
    }

    /// The message of the underlying failure.
    pub fn description(&self) -> (r: &str)
        ensures
            r@ == match self {
                StoreError::IoError(m) => m@,
                StoreError::InternalError(m) => m@,
            },
    {
        match self {
            StoreError::IoError(m) => m.as_str(),
            StoreError::InternalError(m) => m.as_str(),
        }
    }
}

/// A registered relying party. `redirect_urls` is its allow-list of redirect
/// targets, in the order of registration.
#[derive(Debug, Clone)]
pub struct Client {
    pub id: String,
    pub name: String,
    pub redirect_urls: Vec<String>,
}

/// An end user. `password` is the stored salted hash, if the store hands it out.
#[derive(Debug, Clone)]
pub struct User {
    pub id: String,
    pub email: String,
    pub password: Option<String>,
    pub groups: Vec<String>,
}

/// One row of a user query: the user's identifier and e-mail, and one of its
/// groups, if it has any.
#[derive(Debug, Clone)]
pub struct UserRow {
    pub id: String,
    pub email: String,
    pub group: Option<String>,
}

/// One row of a client query: the client's identifier and name, and one of
/// its redirect URLs, if it has any.
#[derive(Debug, Clone)]
pub struct ClientRow {
    pub id: String,
    pub name: String,
    pub redirect_url: Option<String>,
}

/// The groups that the rows name, in row order.
pub open spec fn row_groups(rows: Seq<UserRow>) -> Seq<Seq<char>>
    decreases rows.len(),
{
    if rows.len() == 0 {
        Seq::empty()
    } else {
        match rows.last().group {
            Some(g) => row_groups(rows.drop_last()).push(g@),
            None => row_groups(rows.drop_last()),
        }
    }
}

/// The redirect URLs that the rows name, in row order.
pub open spec fn row_redirect_urls(rows: Seq<ClientRow>) -> Seq<Seq<char>>
    decreases rows.len(),
{
    if rows.len() == 0 {
        Seq::empty()
    } else {
        match rows.last().redirect_url {
            Some(u) => row_redirect_urls(rows.drop_last()).push(u@),
            None => row_redirect_urls(rows.drop_last()),
        }
    }
}

pub open spec fn texts_view(v: Seq<String>) -> Seq<Seq<char>> {
    v.map_values(|s: String| s@)
}

/// The user that the rows of a query for one user describe: identifier and
/// e-mail from the first row, the groups of all rows. No row, no user.
pub fn rows_to_user(rows: &Vec<UserRow>) -> (r: Option<User>)
    ensures
        r is None <==> rows@.len() == 0,
        r matches Some(u) ==> {
            &&& u.id == rows@[0].id
            &&& u.email == rows@[0].email
            &&& u.password is None
            &&& texts_view(u.groups@) == row_groups(rows@)
        },
{
    if rows.len() == 0 {
        return None;
    }
    let mut groups: Vec<String> = Vec::new();
    let mut i: usize = 0;
    while i < rows.len()
        invariant
            i <= rows@.len(),
            texts_view(groups@) == row_groups(rows@.subrange(0, i as int)),
        decreases rows@.len() - i,
    {
        let ghost before = groups@;
        assert(rows@.subrange(0, i + 1).drop_last() =~= rows@.subrange(0, i as int));
        match &rows[i].group {
            Some(g) => {
                groups.push(g.clone());
                assert(texts_view(groups@) =~= texts_view(before).push(g@));
            },
            None => {},
        }
        i = i + 1;
    }
    assert(rows@.subrange(0, rows@.len() as int) =~= rows@);
    Some(
        User {
            id: rows[0].id.clone(),
            email: rows[0].email.clone(),
            password: None,
            groups,
        },
    )
}

/// The client that the rows of a query for one client describe: identifier
/// and name from the first row, the redirect URLs of all rows. No row, no
/// client.
pub fn rows_to_client(rows: &Vec<ClientRow>) -> (r: Option<Client>)
    ensures
        r is None <==> rows@.len() == 0,
        r matches Some(c) ==> {
            &&& c.id == rows@[0].id
            &&& c.name == rows@[0].name
            &&& texts_view(c.redirect_urls@) == row_redirect_urls(rows@)
        },
{
    if rows.len() == 0 {
        return None;
    }
    let mut urls: Vec<String> = Vec::new();
    let mut i: usize = 0;
    while i < rows.len()
        invariant
            i <= rows@.len(),
            texts_view(urls@) == row_redirect_urls(rows@.subrange(0, i as int)),
        decreases rows@.len() - i,
    {
        let ghost before = urls@;
        assert(rows@.subrange(0, i + 1).drop_last() =~= rows@.subrange(0, i as int));
        match &rows[i].redirect_url {
            Some(u) => {
                urls.push(u.clone());
                assert(texts_view(urls@) =~= texts_view(before).push(u@));
            },
            None => {},
        }
        i = i + 1;
    }
    assert(rows@.subrange(0, rows@.len() as int) =~= rows@);
    Some(Client { id: rows[0].id.clone(), name: rows[0].name.clone(), redirect_urls: urls })
}

/// A listed entry: identifier, name (or e-mail), and the items of all its rows.
pub type Entry = (Seq<char>, Seq<char>, Seq<Seq<char>>);

pub open spec fn opt_text(o: Option<String>) -> Option<Seq<char>> {
    match o {
        Some(t) => Some(t@),
        None => None,
    }
}

pub open spec fn push_item(items: Seq<Seq<char>>, item: Option<Seq<char>>) -> Seq<Seq<char>> {
    match item {
        Some(t) => items.push(t),
        None => items,
    }
}

/// The position of the first entry with identifier `id`; the length of `g`
/// where there is none.
pub open spec fn first_with_id(g: Seq<Entry>, id: Seq<char>) -> int
    decreases g.len(),
{
    if g.len() == 0 {
        0
    } else if g[0].0 == id {
        0
    } else {
        1 + first_with_id(g.subrange(1, g.len() as int), id)
    }
}

/// `g` with one more row: its item joins the entry with the same identifier,
/// or a new entry comes last.
pub open spec fn add_row(g: Seq<Entry>, id: Seq<char>, label: Seq<char>, item: Option<Seq<char>>) -> Seq<
    Entry,
> {
    let i = first_with_id(g, id);
    if i < g.len() {
        g.update(i, (g[i].0, g[i].1, push_item(g[i].2, item)))
    } else {
        g.push((id, label, push_item(Seq::empty(), item)))
    }
}

/// The users that list rows describe, in the order of their first row.
pub open spec fn grouped_user_rows(rows: Seq<UserRow>) -> Seq<Entry>
    decreases rows.len(),
{
    if rows.len() == 0 {
        Seq::empty()
    } else {
        let r = rows.last();
        add_row(grouped_user_rows(rows.drop_last()), r.id@, r.email@, opt_text(r.group))
    }
}

/// The clients that list rows describe, in the order of their first row.
pub open spec fn grouped_client_rows(rows: Seq<ClientRow>) -> Seq<Entry>
    decreases rows.len(),
{
    if rows.len() == 0 {
        Seq::empty()
    } else {
        let r = rows.last();
        add_row(grouped_client_rows(rows.drop_last()), r.id@, r.name@, opt_text(r.redirect_url))
    }
}

pub open spec fn user_entries(v: Seq<User>) -> Seq<Entry> {
    v.map_values(|u: User| (u.id@, u.email@, texts_view(u.groups@)))
}

pub open spec fn client_entries(v: Seq<Client>) -> Seq<Entry> {
    v.map_values(|c: Client| (c.id@, c.name@, texts_view(c.redirect_urls@)))
}

proof fn lemma_first_with_id(g: Seq<Entry>, id: Seq<char>, i: int)
    requires
        0 <= i <= g.len(),
        forall|j: int| 0 <= j < i ==> g[j].0 != id,
        i == g.len() || g[i].0 == id,
    ensures
        first_with_id(g, id) == i,
    decreases g.len(),
{
    if g.len() > 0 && i > 0 {
        let rest = g.subrange(1, g.len() as int);
        assert forall|j: int| 0 <= j < i - 1 implies rest[j].0 != id by {
            assert(rest[j] == g[j + 1]);
        }
        lemma_first_with_id(rest, id, i - 1);
    }
}

fn user_position(users: &Vec<User>, id: &str) -> (i: usize)
    ensures
        i <= users@.len(),
        forall|j: int| 0 <= j < i ==> user_entries(users@)[j].0 != id@,
        i == users@.len() || user_entries(users@)[i as int].0 == id@,
{
    let mut i: usize = 0;
    while i < users.len()
        invariant
            i <= users@.len(),
            forall|j: int| 0 <= j < i ==> user_entries(users@)[j].0 != id@,
        decreases users@.len() - i,
    {
        if str_eq(users[i].id.as_str(), id) {
            return i;
        }
        i = i + 1;
    }
    i
}

fn client_position(clients: &Vec<Client>, id: &str) -> (i: usize)
    ensures
        i <= clients@.len(),
        forall|j: int| 0 <= j < i ==> client_entries(clients@)[j].0 != id@,
        i == clients@.len() || client_entries(clients@)[i as int].0 == id@,
{
    let mut i: usize = 0;
    while i < clients.len()
        invariant
            i <= clients@.len(),
            forall|j: int| 0 <= j < i ==> client_entries(clients@)[j].0 != id@,
        decreases clients@.len() - i,
    {
        if str_eq(clients[i].id.as_str(), id) {
            return i;
        }
        i = i + 1;
    }
    i
}

/// The users that the rows of a list query describe, one per identifier, in
/// the order of their first row, each with the groups of all its rows.
pub fn group_user_rows(rows: &Vec<UserRow>) -> (r: Vec<User>)
    ensures
        user_entries(r@) == grouped_user_rows(rows@),
        forall|i: int| 0 <= i < r@.len() ==> (#[trigger] r@[i]).password is None,
{
    let mut users: Vec<User> = Vec::new();
    let mut k: usize = 0;
    while k < rows.len()
        invariant
            k <= rows@.len(),
            user_entries(users@) == grouped_user_rows(rows@.subrange(0, k as int)),
            forall|i: int| 0 <= i < users@.len() ==> (#[trigger] users@[i]).password is None,
        decreases rows@.len() - k,
    {
        let ghost g = user_entries(users@);
        assert(rows@.subrange(0, k + 1).drop_last() =~= rows@.subrange(0, k as int));
        let row = &rows[k];
        let i = user_position(&users, row.id.as_str());
        proof {
            lemma_first_with_id(g, row.id@, i as int);
        }
        let ghost before = users@;
        if i < users.len() {
            match &row.group {
                Some(t) => {
                    users[i].groups.push(t.clone());
                },
                None => {},
            }
            proof {
                let e = users@[i as int];
                assert(texts_view(e.groups@) =~= push_item(
                    texts_view(before[i as int].groups@),
                    opt_text(row.group),
                ));
                assert(users@ =~= before.update(i as int, e));
            }
            assert(user_entries(users@) =~= add_row(g, row.id@, row.email@, opt_text(row.group)));
        } else {
            let groups = match &row.group {
                Some(t) => vec![t.clone()],
                None => Vec::new(),
            };
            assert(texts_view(groups@) =~= push_item(Seq::empty(), opt_text(row.group)));
            users.push(User { id: row.id.clone(), email: row.email.clone(), password: None, groups });
            assert(users@ =~= before.push(users@.last()));
            assert(user_entries(users@) =~= add_row(g, row.id@, row.email@, opt_text(row.group)));
        }
        k = k + 1;
    }
    assert(rows@.subrange(0, rows@.len() as int) =~= rows@);
    users
}

/// The clients that the rows of a list query describe, one per identifier,
/// in the order of their first row, each with the redirect URLs of all its
/// rows.
pub fn group_client_rows(rows: &Vec<ClientRow>) -> (r: Vec<Client>)
    ensures
        client_entries(r@) == grouped_client_rows(rows@),
{
    let mut clients: Vec<Client> = Vec::new();
    let mut k: usize = 0;
    while k < rows.len()
        invariant
            k <= rows@.len(),
            client_entries(clients@) == grouped_client_rows(rows@.subrange(0, k as int)),
        decreases rows@.len() - k,
    {
        let ghost g = client_entries(clients@);
        assert(rows@.subrange(0, k + 1).drop_last() =~= rows@.subrange(0, k as int));
        let row = &rows[k];
        let i = client_position(&clients, row.id.as_str());
        proof {
            lemma_first_with_id(g, row.id@, i as int);
        }
        let ghost before = clients@;
        if i < clients.len() {
            match &row.redirect_url {
                Some(t) => {
                    clients[i].redirect_urls.push(t.clone());
                },
                None => {},
            }
            proof {
                let e = clients@[i as int];
                assert(texts_view(e.redirect_urls@) =~= push_item(
                    texts_view(before[i as int].redirect_urls@),
                    opt_text(row.redirect_url),
                ));
                assert(clients@ =~= before.update(i as int, e));
            }
            assert(client_entries(clients@) =~= add_row(
                g,
                row.id@,
                row.name@,
                opt_text(row.redirect_url),
            ));
        } else {
            let urls = match &row.redirect_url {
                Some(t) => vec![t.clone()],
                None => Vec::new(),
            };
            assert(texts_view(urls@) =~= push_item(Seq::empty(), opt_text(row.redirect_url)));
            clients.push(Client { id: row.id.clone(), name: row.name.clone(), redirect_urls: urls });
            assert(clients@ =~= before.push(clients@.last()));
            assert(client_entries(clients@) =~= add_row(
                g,
                row.id@,
                row.name@,
                opt_text(row.redirect_url),
            ));
        }
        k = k + 1;
    }
    assert(rows@.subrange(0, rows@.len() as int) =~= rows@);
    clients
}

/// `s` with each single quote doubled, as SQL writes it inside a string
/// literal.
pub open spec fn sql_escaped(s: Seq<char>) -> Seq<char>
    decreases s.len(),
{
    if s.len() == 0 {
        Seq::empty()
    } else if s.last() == '\'' {
        sql_escaped(s.drop_last()) + seq!['\'', '\'']
    } else {
        sql_escaped(s.drop_last()).push(s.last())
    }
}

/// `s` as an SQL string literal.
pub open spec fn sql_literal(s: Seq<char>) -> Seq<char> {
    seq!['\''] + sql_escaped(s) + seq!['\'']
}

/// Appends `s` to `out` as an SQL string literal.
fn append_sql_literal(out: &mut String, s: &str)
    ensures
        final(out)@ == old(out)@ + sql_literal(s@),
{
    proof {
        reveal_strlit("'");
    }
    out.append("'");
    let ghost start = out@;
    let n = s.unicode_len();
    let mut i: usize = 0;
    while i < n
        invariant
            n == s@.len(),
            i <= n,
            out@ == start + sql_escaped(s@.subrange(0, i as int)),
        decreases n - i,
    {
        let ghost prefix = s@.subrange(0, i + 1);
        assert(prefix.drop_last() =~= s@.subrange(0, i as int));
        let ghost before = out@;
        let ghost escaped = sql_escaped(s@.subrange(0, i as int));
        assert(prefix.last() == s@[i as int]);
        if s.get_char(i) == '\'' {
            out.append("''");
            proof {
                reveal_strlit("''");
            }
            assert("''"@ =~= seq!['\'', '\'']);
            assert(sql_escaped(prefix) == escaped + seq!['\'', '\'']);
            assert(out@ =~= start + sql_escaped(prefix));
        } else {
            let one = s.substring_char(i, i + 1);
            assert(one@ =~= seq![s@[i as int]]);
            out.append(one);
            assert(sql_escaped(prefix) == escaped.push(s@[i as int]));
            assert(out@ =~= start + sql_escaped(prefix));
        }
        i = i + 1;
    }
    assert(s@.subrange(0, n as int) =~= s@);
    out.append("'");
}

/// The statement that adds the user with e-mail or identifier `?1` to the
/// group `group_name`.
pub fn insert_user_group_sql(group_name: &str) -> (r: String)
    ensures
        r@ == "INSERT INTO user_groups(user_id,user_group) SELECT id, "@ + sql_literal(group_name@)
            + " from users where email = ?1 or id = ?1"@,
{
    let mut r = String::from_str("INSERT INTO user_groups(user_id,user_group) SELECT id, ");
    append_sql_literal(&mut r, group_name);
    r.append(" from users where email = ?1 or id = ?1");
    r
}

/// The statement that registers `redirect_url` for the client with name or
/// identifier `?1`.
pub fn insert_client_redirect_sql(redirect_url: &str) -> (r: String)
    ensures
        r@ == "INSERT INTO client_redirects(client_id,url) select id, "@ + sql_literal(redirect_url@)
            + " from clients where name = ?1 or id = ?1"@,
{
    let mut r = String::from_str("INSERT INTO client_redirects(client_id,url) select id, ");
    append_sql_literal(&mut r, redirect_url);
    r.append(" from clients where name = ?1 or id = ?1");
    r
}

/// The credential store: users are looked up by e-mail and password hash,
/// clients by name or identifier.
pub trait Store {
    fn get_user(&self, email: &str, pwd: &str) -> Result<Option<User>, StoreError>;

    fn get_client(&self, reference: &str) -> Result<Option<Client>, StoreError>;

    fn save_user(&self, user: &User) -> Result<(), StoreError>;

    fn save_client(&self, client: &Client) -> Result<(), StoreError>;

    fn delete_user(&self, reference: &str) -> Result<(), StoreError>;

    fn delete_client(&self, reference: &str) -> Result<(), StoreError>;

    fn get_users(&self) -> Result<Vec<User>, StoreError>;

    fn get_clients(&self) -> Result<Vec<Client>, StoreError>;

    fn add_group(&self, reference: &str, group_name: &str) -> Result<(), StoreError>;

    fn remove_group(&self, reference: &str, group_name: &str) -> Result<(), StoreError>;

    fn add_redirect_url(&self, reference: &str, redirect_url: &str) -> Result<(), StoreError>;

    fn remove_redirect_url(&self, reference: &str, redirect_url: &str) -> Result<(), StoreError>;
}

} // verus!
